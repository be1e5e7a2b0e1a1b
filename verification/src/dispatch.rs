use crate::chapter_info::{chapter_views, ChapterInfo, ChapterInfoView, Seconds};
use crate::error::{SplitError, SplitErrorView};
use vstd::prelude::*;

verus! {

/// The file a chapter is written to: `<book_title> - <chapter_title>.mp3`.
pub open spec fn output_name_text(book_title: Seq<char>, chapter_title: Seq<char>) -> Seq<char> {
    book_title + " - "@ + chapter_title + ".mp3"@
}

/// Names the file that the chapter `chapter_title` of `book_title` is
/// written to.
pub fn output_name(book_title: &str, chapter_title: &str) -> (name: String)
    ensures
        name@ == output_name_text(book_title@, chapter_title@),
{
    let mut name = String::from_str(book_title);
    name.append(" - ");
    name.append(chapter_title);
    name.append(".mp3");
    name
}

/// Two chapters of one book are written to the same file only if they
/// carry the same title.
pub proof fn lemma_output_names_distinct(
    book_title: Seq<char>,
    first_title: Seq<char>,
    second_title: Seq<char>,
)
    requires
        first_title != second_title,
    ensures
        output_name_text(book_title, first_title) != output_name_text(book_title, second_title),
{
    let head = book_title + " - "@;
    let tail = ".mp3"@;
    let first = output_name_text(book_title, first_title);
    let second = output_name_text(book_title, second_title);
    if first == second {
        assert(second.len() == head.len() + second_title.len() + tail.len());
        assert forall|i: int| 0 <= i < first_title.len() implies first_title[i]
            == second_title[i] by {
            assert(second[head.len() + i] == second_title[i]);
        }
        assert(first_title =~= second_title);
    }
}

/// One run of the transcoder: everything it is told, for one chapter.
#[derive(Debug, Clone, PartialEq, Eq)]
pub struct ExtractionJob {
    pub source: String,
    pub activation_bytes: String,
    pub bitrate: String,
    pub chapter_title: String,
    pub start: Seconds,
    pub end: Seconds,
    pub output_name: String,
}

/// The view of a transcode job, for contracts.
pub struct ExtractionJobView {
    pub source: Seq<char>,
    pub activation_bytes: Seq<char>,
    pub bitrate: Seq<char>,
    pub chapter_title: Seq<char>,
    pub start: Seconds,
    pub end: Seconds,
    pub output_name: Seq<char>,
}

impl View for ExtractionJob {
    type V = ExtractionJobView;

    open spec fn view(&self) -> ExtractionJobView {
        ExtractionJobView {
            source: self.source@,
            activation_bytes: self.activation_bytes@,
            bitrate: self.bitrate@,
            chapter_title: self.chapter_title@,
            start: self.start,
            end: self.end,
            output_name: self.output_name@,
        }
    }
}

/// The job that extracts `chapter` from `source`.
pub open spec fn job_for(
    chapter: ChapterInfoView,
    source: Seq<char>,
    activation_bytes: Seq<char>,
    book_title: Seq<char>,
    bitrate: Seq<char>,
) -> ExtractionJobView {
    ExtractionJobView {
        source,
        activation_bytes,
        bitrate,
        chapter_title: chapter.title,
        start: chapter.start,
        end: chapter.end,
        output_name: output_name_text(book_title, chapter.title),
    }
}

/// One job per chapter, in the order of the chapters.
pub open spec fn jobs_for(
    chapters: Seq<ChapterInfoView>,
    source: Seq<char>,
    activation_bytes: Seq<char>,
    book_title: Seq<char>,
    bitrate: Seq<char>,
) -> Seq<ExtractionJobView> {
    Seq::new(
        chapters.len(),
        |i: int| job_for(chapters[i], source, activation_bytes, book_title, bitrate),
    )
}

/// The views of a list of jobs, in order.
pub open spec fn job_views(jobs: Seq<ExtractionJob>) -> Seq<ExtractionJobView> {
    Seq::new(jobs.len(), |i: int| jobs[i]@)
}

/// The transcoder's command line for `job`: decrypt with the activation
/// bytes, read the source, drop video, encode audio at the bitrate, keep
/// what lies from `start` up to `end`, write the output file. `start` and
/// `end` are the job's bounds written out in seconds.
pub open spec fn transcode_arguments(
    job: ExtractionJobView,
    start: Seq<char>,
    end: Seq<char>,
) -> Seq<Seq<char>> {
    seq![
        "-activation_bytes"@,
        job.activation_bytes,
        "-i"@,
        job.source,
        "-vn"@,
        "-b:a"@,
        job.bitrate,
        "-ss"@,
        start,
        "-to"@,
        end,
        job.output_name,
    ]
}

impl ExtractionJob {
    /// Makes the job that extracts `chapter` from the file `filename`.
    pub fn new(
        chapter: &ChapterInfo,
        filename: &str,
        activation_bytes: &str,
        book_title: &str,
        desired_bitrate: &str,
    ) -> (job: ExtractionJob)
        ensures
            job@ == job_for(
                chapter@,
                filename@,
                activation_bytes@,
                book_title@,
                desired_bitrate@,
            ),
    {
        ExtractionJob {
            source: String::from_str(filename),
            activation_bytes: String::from_str(activation_bytes),
            bitrate: String::from_str(desired_bitrate),
            chapter_title: chapter.title.clone(),
            start: chapter.start,
            end: chapter.end,
            output_name: output_name(book_title, chapter.title.as_str()),
        }
    }

    /// Writes out the transcoder's command line for this job. `start` and
    /// `end` are the bounds of the job in seconds, as the caller has written
    /// them out.
    pub fn arguments(&self, start: &str, end: &str) -> (arguments: Vec<String>)
        ensures
            arguments.deep_view() == transcode_arguments(self@, start@, end@),
    {
        let mut arguments: Vec<String> = Vec::new();
        arguments.push(String::from_str("-activation_bytes"));
        arguments.push(self.activation_bytes.clone());
        arguments.push(String::from_str("-i"));
        arguments.push(self.source.clone());
        arguments.push(String::from_str("-vn"));
        arguments.push(String::from_str("-b:a"));
        arguments.push(self.bitrate.clone());
        arguments.push(String::from_str("-ss"));
        arguments.push(String::from_str(start));
        arguments.push(String::from_str("-to"));
        arguments.push(String::from_str(end));
        arguments.push(self.output_name.clone());
        arguments
    }
}

/// Builds the transcode job of every chapter: as many jobs as chapters, in
/// the chapters' order, all with the same source, key and bitrate.
pub fn extraction_jobs(
    chapters: &Vec<ChapterInfo>,
    filename: &str,
    activation_bytes: &str,
    book_title: &str,
    desired_bitrate: &str,
) -> (jobs: Vec<ExtractionJob>)
    ensures
        jobs@.len() == chapters@.len(),
        forall|i: int|
            0 <= i < chapters@.len() ==> (#[trigger] jobs@[i])@ == job_for(
                chapters@[i]@,
                filename@,
                activation_bytes@,
                book_title@,
                desired_bitrate@,
            ),
        job_views(jobs@) == jobs_for(
            chapter_views(chapters@),
            filename@,
            activation_bytes@,
            book_title@,
            desired_bitrate@,
        ),
{
    let mut jobs: Vec<ExtractionJob> = Vec::new();
    for i in 0..chapters.len()
        invariant
            jobs@.len() == i,
            forall|j: int|
                0 <= j < i ==> (#[trigger] jobs@[j])@ == job_for(
                    chapters@[j]@,
                    filename@,
                    activation_bytes@,
                    book_title@,
                    desired_bitrate@,
                ),
    {
        jobs.push(
            ExtractionJob::new(
                &chapters[i],
                filename,
                activation_bytes,
                book_title,
                desired_bitrate,
            ),
        );
    }
    assert(job_views(jobs@) =~= jobs_for(
        chapter_views(chapters@),
        filename@,
        activation_bytes@,
        book_title@,
        desired_bitrate@,
    ));
    jobs
}

/// Dispatching a catalog gives one job per chapter, each bounded as its
/// chapter is and all with the one key and the one bitrate; chapters that
/// differ in their bounds get jobs that differ in theirs.
pub proof fn lemma_jobs_match_catalog(
    chapters: Seq<ChapterInfoView>,
    source: Seq<char>,
    activation_bytes: Seq<char>,
    book_title: Seq<char>,
    bitrate: Seq<char>,
)
    ensures
        jobs_for(chapters, source, activation_bytes, book_title, bitrate).len() == chapters.len(),
        forall|i: int|
            0 <= i < chapters.len() ==> {
                let job = #[trigger] jobs_for(
                    chapters,
                    source,
                    activation_bytes,
                    book_title,
                    bitrate,
                )[i];
                &&& job.start == chapters[i].start
                &&& job.end == chapters[i].end
                &&& job.activation_bytes == activation_bytes
                &&& job.bitrate == bitrate
                &&& job.source == source
                &&& job.output_name == output_name_text(book_title, chapters[i].title)
            },
        forall|i: int, start: Seq<char>, end: Seq<char>|
            0 <= i < chapters.len() ==> {
                let arguments = #[trigger] transcode_arguments(
                    jobs_for(chapters, source, activation_bytes, book_title, bitrate)[i],
                    start,
                    end,
                );
                &&& arguments[1] == activation_bytes
                &&& arguments[3] == source
                &&& arguments[6] == bitrate
                &&& arguments[8] == start
                &&& arguments[10] == end
                &&& arguments[11] == output_name_text(book_title, chapters[i].title)
            },
        forall|i: int, j: int|
            #![trigger chapters[i], chapters[j]]
            0 <= i < chapters.len() && 0 <= j < chapters.len() && (chapters[i].start,
                chapters[i].end) != (chapters[j].start, chapters[j].end) ==> {
                let jobs = jobs_for(chapters, source, activation_bytes, book_title, bitrate);
                (jobs[i].start, jobs[i].end) != (jobs[j].start, jobs[j].end)
            },
{
}

/// Whether the job at `index` is reported to have run to a good end.
pub open spec fn job_succeeded(succeeded: Seq<bool>, index: int) -> bool {
    0 <= index < succeeded.len() && succeeded[index]
}

/// Whether `index` is the first of `count` jobs that did not run to a good
/// end.
pub open spec fn is_first_failure(count: int, succeeded: Seq<bool>, index: int) -> bool {
    &&& 0 <= index < count
    &&& !job_succeeded(succeeded, index)
    &&& forall|earlier: int| 0 <= earlier < index ==> job_succeeded(succeeded, earlier)
}

/// The place of the first of `count` jobs that did not run to a good end,
/// if there is one.
pub open spec fn first_failure(count: int, succeeded: Seq<bool>) -> Option<int> {
    if exists|index: int| is_first_failure(count, succeeded, index) {
        Some(choose|index: int| is_first_failure(count, succeeded, index))
    } else {
        None
    }
}

/// The result of a dispatch whose runs were reported as `succeeded`: a job
/// without a report counts as failed, and the dispatch fails with the
/// chapter of the first job that did.
pub open spec fn outcome_of(jobs: Seq<ExtractionJobView>, succeeded: Seq<bool>) -> Result<
    (),
    SplitErrorView,
> {
    match first_failure(jobs.len() as int, succeeded) {
        None => Ok(()),
        Some(index) => Err(
            SplitErrorView::ExtractionFailed { chapter_title: jobs[index].chapter_title },
        ),
    }
}

/// The view of the result of a dispatch.
pub open spec fn outcome_view(outcome: Result<(), SplitError>) -> Result<(), SplitErrorView> {
    match outcome {
        Ok(()) => Ok(()),
        Err(error) => Err(error@),
    }
}

/// A dispatch succeeds exactly if every job is reported to have run to a
/// good end; otherwise its first failure is the one job that failed with
/// none failing before it.
pub proof fn lemma_first_failure(count: int, succeeded: Seq<bool>)
    ensures
        first_failure(count, succeeded) is None <==> forall|i: int|
            0 <= i < count ==> job_succeeded(succeeded, i),
        forall|index: int|
            is_first_failure(count, succeeded, index) ==> first_failure(count, succeeded) == Some(
                index,
            ),
{
    assert forall|index: int| is_first_failure(count, succeeded, index) implies first_failure(
        count,
        succeeded,
    ) == Some(index) by {
        // Of two first failures, the later one would have the earlier one
        // before it.
        let chosen = choose|index: int| is_first_failure(count, succeeded, index);
        assert(chosen == index);
    }
    if !(forall|i: int| 0 <= i < count ==> job_succeeded(succeeded, i)) {
        lemma_some_failure_is_first(count, succeeded);
    }
}

proof fn lemma_some_failure_is_first(count: int, succeeded: Seq<bool>)
    requires
        exists|i: int| 0 <= i < count && !job_succeeded(succeeded, i),
    ensures
        exists|index: int| is_first_failure(count, succeeded, index),
    decreases count,
{
    let i = choose|i: int| 0 <= i < count && !job_succeeded(succeeded, i);
    if exists|j: int| 0 <= j < i && !job_succeeded(succeeded, j) {
        lemma_some_failure_is_first(i, succeeded);
        let index = choose|index: int| is_first_failure(i, succeeded, index);
        assert(is_first_failure(count, succeeded, index));
    } else {
        assert(is_first_failure(count, succeeded, i));
    }
}

/// Turns the reports of the transcoder runs into the result of the
/// dispatch. `succeeded[i]` says whether the run of `jobs[i]` could be
/// started and ended well.
pub fn extraction_outcome(jobs: &Vec<ExtractionJob>, succeeded: &Vec<bool>) -> (outcome: Result<
    (),
    SplitError,
>)
    ensures
        outcome_view(outcome) == outcome_of(job_views(jobs@), succeeded@),
{
    for i in 0..jobs.len()
        invariant
            forall|j: int| 0 <= j < i ==> job_succeeded(succeeded@, j),
    {
        if i >= succeeded.len() || !succeeded[i] {
            proof {
                assert(is_first_failure(jobs@.len() as int, succeeded@, i as int));
                lemma_first_failure(jobs@.len() as int, succeeded@);
            }
            let chapter_title = jobs[i].chapter_title.clone();
            return Err(SplitError::ExtractionFailed { chapter_title });
        }
    }
    proof {
        lemma_first_failure(jobs@.len() as int, succeeded@);
    }
    Ok(())
}

} // verus!
