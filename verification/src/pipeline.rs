use crate::chapter_info::{catalog_of, get_chapter_infos, ChapterEntry};
use crate::checksum::{
    checksum_window, extract_checksum, hex_text, CHECKSUM_BUFFER_SIZE, FILE_CHECKSUM_START,
};
use crate::dispatch::{
    extraction_jobs, extraction_outcome, job_views, jobs_for, outcome_of, ExtractionJob,
    ExtractionJobView,
};
use crate::error::{SplitError, SplitErrorView};
use crate::key::{
    activation_bytes_of, extract_activation_bytes, lookup_arguments, lookup_arguments_text,
};
use crate::validators::{bitrate, file_name, is_bitrate};
use vstd::prelude::*;

verus! {

/// How far a run has come.
#[derive(Debug, Clone, PartialEq, Eq)]
pub enum Stage {
    /// The container is being opened.
    OpeningContainer,
    /// The start of the source file is being read.
    ReadingChecksum,
    /// The key lookup is running.
    ResolvingKey,
    /// The transcodes are running.
    Extracting,
    /// Every chapter has been written.
    Done,
    /// The run has ended early.
    Failed { error: SplitError },
}

/// The view of a stage, for contracts.
pub enum StageView {
    OpeningContainer,
    ReadingChecksum,
    ResolvingKey,
    Extracting,
    Done,
    Failed { error: SplitErrorView },
}

impl View for Stage {
    type V = StageView;

    open spec fn view(&self) -> StageView {
        match self {
            Stage::OpeningContainer => StageView::OpeningContainer,
            Stage::ReadingChecksum => StageView::ReadingChecksum,
            Stage::ResolvingKey => StageView::ResolvingKey,
            Stage::Extracting => StageView::Extracting,
            Stage::Done => StageView::Done,
            Stage::Failed { error } => StageView::Failed { error: error@ },
        }
    }
}

/// What the driver of a run has to do next.
#[derive(Debug, Clone, PartialEq, Eq)]
pub enum Step {
    /// Open the source as a container and hand back its chapters.
    OpenContainer,
    /// Read `length` bytes from the start of the source file, or as many
    /// as there are, and hand them back.
    ReadSource { length: usize },
    /// Run `sh` with these arguments, which look up the key for
    /// `checksum`, and hand back what it printed.
    RunLookup { checksum: String, arguments: Vec<String> },
    /// Run the transcoder once for each job of the run, all of which carry
    /// the key `activation_bytes`, and hand back which runs ended well.
    RunTranscodes { activation_bytes: String },
    /// Nothing is left to do.
    Finish,
    /// Give up and report the error.
    Abort { error: SplitError },
}

/// The view of a step, for contracts.
pub enum StepView {
    OpenContainer,
    ReadSource { length: nat },
    RunLookup { checksum: Seq<char>, arguments: Seq<Seq<char>> },
    RunTranscodes { activation_bytes: Seq<char> },
    Finish,
    Abort { error: SplitErrorView },
}

impl View for Step {
    type V = StepView;

    open spec fn view(&self) -> StepView {
        match self {
            Step::OpenContainer => StepView::OpenContainer,
            Step::ReadSource { length } => StepView::ReadSource { length: *length as nat },
            Step::RunLookup { checksum, arguments } => StepView::RunLookup {
                checksum: checksum@,
                arguments: arguments.deep_view(),
            },
            Step::RunTranscodes { activation_bytes } => StepView::RunTranscodes {
                activation_bytes: activation_bytes@,
            },
            Step::Finish => StepView::Finish,
            Step::Abort { error } => StepView::Abort { error: error@ },
        }
    }
}

/// What the driver of a run reports back after a step.
#[derive(Debug, Clone, PartialEq, Eq)]
pub enum Event {
    /// The container was opened; these are its chapters, in its order.
    ContainerOpened { chapters: Vec<ChapterEntry> },
    /// The container could not be opened.
    ContainerFailed,
    /// These bytes stand at the start of the source file.
    SourceRead { data: Vec<u8> },
    /// The source file could not be read.
    SourceFailed,
    /// The lookup ran and printed this.
    LookupFinished { output: String },
    /// The lookup could not be started.
    LookupFailed,
    /// The transcodes are over; `succeeded[i]` says whether the run of the
    /// job at `i` could be started and ended well.
    TranscodesFinished { succeeded: Vec<bool> },
}

/// The view of an event, for contracts.
pub enum EventView {
    ContainerOpened { chapters: Seq<ChapterEntry> },
    ContainerFailed,
    SourceRead { data: Seq<u8> },
    SourceFailed,
    LookupFinished { output: Seq<char> },
    LookupFailed,
    TranscodesFinished { succeeded: Seq<bool> },
}

impl View for Event {
    type V = EventView;

    open spec fn view(&self) -> EventView {
        match self {
            Event::ContainerOpened { chapters } => EventView::ContainerOpened {
                chapters: chapters@,
            },
            Event::ContainerFailed => EventView::ContainerFailed,
            Event::SourceRead { data } => EventView::SourceRead { data: data@ },
            Event::SourceFailed => EventView::SourceFailed,
            Event::LookupFinished { output } => EventView::LookupFinished { output: output@ },
            Event::LookupFailed => EventView::LookupFailed,
            Event::TranscodesFinished { succeeded } => EventView::TranscodesFinished {
                succeeded: succeeded@,
            },
        }
    }
}

/// One run of the splitter on one source file.
#[derive(Debug)]
pub struct Run {
    stage: Stage,
    source: String,
    book_title: String,
    bitrate: String,
    chapters: Vec<ChapterEntry>,
    jobs: Vec<ExtractionJob>,
}

/// The view of a run, for contracts.
pub struct RunView {
    pub stage: StageView,
    pub source: Seq<char>,
    pub book_title: Seq<char>,
    pub bitrate: Seq<char>,
    pub chapters: Seq<ChapterEntry>,
    pub jobs: Seq<ExtractionJobView>,
}

impl View for Run {
    type V = RunView;

    closed spec fn view(&self) -> RunView {
        RunView {
            stage: self.stage@,
            source: self.source@,
            book_title: self.book_title@,
            bitrate: self.bitrate@,
            chapters: self.chapters@,
            jobs: job_views(self.jobs@),
        }
    }
}

/// The run `run` after it has failed with `error`, and the step that
/// reports the failure.
pub open spec fn failed(run: RunView, error: SplitErrorView) -> (RunView, StepView) {
    (RunView { stage: StageView::Failed { error }, ..run }, StepView::Abort { error })
}

/// How a run starts: with the check of the input file and the bitrate, and
/// only if both pass with the opening of the container.
pub open spec fn first_step(
    source: Seq<char>,
    source_exists: bool,
    book_title: Seq<char>,
    bitrate: Seq<char>,
) -> (RunView, StepView) {
    let run = RunView {
        stage: StageView::OpeningContainer,
        source,
        book_title,
        bitrate,
        chapters: Seq::empty(),
        jobs: Seq::empty(),
    };
    if source.len() > 0 && source_exists && is_bitrate(bitrate) {
        (run, StepView::OpenContainer)
    } else {
        failed(run, SplitErrorView::ValidationError)
    }
}

/// How a run goes on after `event`. Each stage waits for the report of its
/// own step; any other event counts as that step having failed, or, while
/// the transcodes run, as no job having been reported. A run that is over
/// stays as it is.
pub open spec fn next_step(run: RunView, event: EventView) -> (RunView, StepView) {
    match run.stage {
        StageView::OpeningContainer => match event {
            EventView::ContainerOpened { chapters } => (
                RunView { stage: StageView::ReadingChecksum, chapters, ..run },
                StepView::ReadSource {
                    length: (FILE_CHECKSUM_START + CHECKSUM_BUFFER_SIZE) as nat,
                },
            ),
            _ => failed(run, SplitErrorView::ContainerError),
        },
        StageView::ReadingChecksum => match event {
            EventView::SourceRead { data } => match checksum_window(data) {
                Some(window) => (
                    RunView { stage: StageView::ResolvingKey, ..run },
                    StepView::RunLookup {
                        checksum: hex_text(window),
                        arguments: lookup_arguments_text(hex_text(window)),
                    },
                ),
                None => failed(run, SplitErrorView::IoError),
            },
            _ => failed(run, SplitErrorView::IoError),
        },
        StageView::ResolvingKey => match event {
            EventView::LookupFinished { output } => match activation_bytes_of(output) {
                Some(key) => (
                    RunView {
                        stage: StageView::Extracting,
                        jobs: jobs_for(
                            catalog_of(run.chapters),
                            run.source,
                            key,
                            run.book_title,
                            run.bitrate,
                        ),
                        ..run
                    },
                    StepView::RunTranscodes { activation_bytes: key },
                ),
                None => failed(run, SplitErrorView::ParseError),
            },
            _ => failed(run, SplitErrorView::LookupFailed),
        },
        StageView::Extracting => {
            let succeeded = match event {
                EventView::TranscodesFinished { succeeded } => succeeded,
                _ => Seq::empty(),
            };
            match outcome_of(run.jobs, succeeded) {
                Ok(()) => (RunView { stage: StageView::Done, ..run }, StepView::Finish),
                Err(error) => failed(run, error),
            }
        },
        StageView::Done => (run, StepView::Finish),
        StageView::Failed { error } => (run, StepView::Abort { error }),
    }
}

impl Run {
    /// Starts a run on the file named `source`. Whether that file is there,
    /// the caller has looked up.
    pub fn begin(
        source: &str,
        source_exists: bool,
        book_title: &str,
        desired_bitrate: &str,
    ) -> (out: (Run, Step))
        ensures
            (out.0@, out.1@) == first_step(
                source@,
                source_exists,
                book_title@,
                desired_bitrate@,
            ),
    {
        let valid = file_name(source, source_exists).is_ok() && bitrate(desired_bitrate).is_ok();
        let mut run = Run {
            stage: Stage::OpeningContainer,
            source: String::from_str(source),
            book_title: String::from_str(book_title),
            bitrate: String::from_str(desired_bitrate),
            chapters: Vec::new(),
            jobs: Vec::new(),
        };
        assert(job_views(run.jobs@) =~= Seq::empty());
        if valid {
            (run, Step::OpenContainer)
        } else {
            run.stage = Stage::Failed { error: SplitError::ValidationError };
            (run, Step::Abort { error: SplitError::ValidationError })
        }
    }

    fn fail(self, error: SplitError) -> (out: (Run, Step))
        ensures
            (out.0@, out.1@) == failed(self@, error@),
    {
        let mut run = self;
        let report = error.clone();
        run.stage = Stage::Failed { error };
        (run, Step::Abort { error: report })
    }

    /// Takes the report of the last step and says what to do next.
    pub fn advance(self, event: Event) -> (out: (Run, Step))
        ensures
            (out.0@, out.1@) == next_step(self@, event@),
    {
        let mut run = self;
        match run.stage {
            Stage::OpeningContainer => match event {
                Event::ContainerOpened { chapters } => {
                    run.stage = Stage::ReadingChecksum;
                    run.chapters = chapters;
                    (run, Step::ReadSource { length: FILE_CHECKSUM_START + CHECKSUM_BUFFER_SIZE })
                },
                _ => run.fail(SplitError::ContainerError),
            },
            Stage::ReadingChecksum => match event {
                Event::SourceRead { data } => match extract_checksum(data.as_slice()) {
                    Ok(checksum) => {
                        run.stage = Stage::ResolvingKey;
                        let arguments = lookup_arguments(checksum.as_str());
                        (run, Step::RunLookup { checksum, arguments })
                    },
                    Err(_) => run.fail(SplitError::IoError),
                },
                _ => run.fail(SplitError::IoError),
            },
            Stage::ResolvingKey => match event {
                Event::LookupFinished { output } => match extract_activation_bytes(
                    output.as_str(),
                ) {
                    Ok(key) => {
                        let infos = get_chapter_infos(&run.chapters);
                        run.jobs = extraction_jobs(
                            &infos,
                            run.source.as_str(),
                            key.as_str(),
                            run.book_title.as_str(),
                            run.bitrate.as_str(),
                        );
                        run.stage = Stage::Extracting;
                        (run, Step::RunTranscodes { activation_bytes: key })
                    },
                    Err(_) => run.fail(SplitError::ParseError),
                },
                _ => run.fail(SplitError::LookupFailed),
            },
            Stage::Extracting => {
                let succeeded = match event {
                    Event::TranscodesFinished { succeeded } => succeeded,
                    _ => Vec::new(),
                };
                match extraction_outcome(&run.jobs, &succeeded) {
                    Ok(()) => {
                        run.stage = Stage::Done;
                        (run, Step::Finish)
                    },
                    Err(error) => run.fail(error),
                }
            },
            Stage::Done => (run, Step::Finish),
            Stage::Failed { error } => {
                let report = error.clone();
                run.stage = Stage::Failed { error };
                (run, Step::Abort { error: report })
            },
        }
    }

    /// How far the run has come.
    pub fn stage(&self) -> (stage: &Stage)
        ensures
            stage@ == self@.stage,
    {
        &self.stage
    }

    /// The transcode jobs of the run: none before the key is known.
    pub fn jobs(&self) -> (jobs: &Vec<ExtractionJob>)
        ensures
            jobs@.len() == self@.jobs.len(),
            forall|i: int| 0 <= i < jobs@.len() ==> (#[trigger] jobs@[i])@ == self@.jobs[i],
            job_views(jobs@) == self@.jobs,
    {
        &self.jobs
    }
}

/// Whether `step` asks the driver to touch a file or to run a program.
pub open spec fn is_outside_work(step: StepView) -> bool {
    step is OpenContainer || step is ReadSource || step is RunLookup || step is RunTranscodes
}

/// Where a run stands after `events` have been handed to it one by one,
/// starting from `start`.
pub open spec fn after_events(start: (RunView, StepView), events: Seq<EventView>) -> (
    RunView,
    StepView,
)
    decreases events.len(),
{
    if events.len() == 0 {
        start
    } else {
        next_step(after_events(start, events.drop_last()).0, events.last())
    }
}

/// A run that is given a bitrate of the wrong syntax fails at once with a
/// validation error and never asks for any outside work, whatever is
/// handed to it afterwards.
pub proof fn lemma_invalid_bitrate_stops_run(
    source: Seq<char>,
    source_exists: bool,
    book_title: Seq<char>,
    bitrate: Seq<char>,
    events: Seq<EventView>,
)
    requires
        !is_bitrate(bitrate),
    ensures
        first_step(source, source_exists, book_title, bitrate).1 == (StepView::Abort {
            error: SplitErrorView::ValidationError,
        }),
        after_events(first_step(source, source_exists, book_title, bitrate), events).1 == (
        StepView::Abort { error: SplitErrorView::ValidationError }),
        !is_outside_work(
            after_events(first_step(source, source_exists, book_title, bitrate), events).1,
        ),
{
    lemma_failed_run_stays_failed(
        first_step(source, source_exists, book_title, bitrate),
        SplitErrorView::ValidationError,
        events,
    );
}

/// Once a run has failed, it keeps reporting the same error.
pub proof fn lemma_failed_run_stays_failed(
    start: (RunView, StepView),
    error: SplitErrorView,
    events: Seq<EventView>,
)
    requires
        start.0.stage == (StageView::Failed { error }),
        start.1 == (StepView::Abort { error }),
    ensures
        after_events(start, events) == start,
    decreases events.len(),
{
    if events.len() > 0 {
        lemma_failed_run_stays_failed(start, error, events.drop_last());
    }
}

/// The transcodes are asked for only in answer to a lookup whose output
/// holds a key, and then the jobs of the run are those of the container's
/// catalog, each with that key and the bitrate of the run.
pub proof fn lemma_transcodes_follow_key(run: RunView, event: EventView)
    requires
        next_step(run, event).1 is RunTranscodes,
    ensures
        run.stage is ResolvingKey,
        event matches EventView::LookupFinished { output } && activation_bytes_of(output)
            matches Some(key) && next_step(run, event).1 == (StepView::RunTranscodes {
            activation_bytes: key,
        }) && next_step(run, event).0.jobs == jobs_for(
            catalog_of(run.chapters),
            run.source,
            key,
            run.book_title,
            run.bitrate,
        ) && next_step(run, event).0.jobs.len() == run.chapters.len(),
{
}

/// The steps come in one order: the container is opened first, the source
/// is read only after the container was opened, the lookup is run only
/// after the source was read, and the run is finished only after the
/// transcodes.
pub proof fn lemma_steps_in_order(run: RunView, event: EventView)
    ensures
        !(next_step(run, event).1 is OpenContainer),
        next_step(run, event).1 is ReadSource ==> run.stage is OpeningContainer,
        next_step(run, event).1 is RunLookup ==> run.stage is ReadingChecksum,
        next_step(run, event).1 is RunTranscodes ==> run.stage is ResolvingKey,
        next_step(run, event).1 is Finish ==> run.stage is Extracting || run.stage is Done,
        next_step(run, event).0.stage is ReadingChecksum ==> run.stage is OpeningContainer,
        next_step(run, event).0.stage is ResolvingKey ==> run.stage is ReadingChecksum,
        next_step(run, event).0.stage is Extracting ==> run.stage is ResolvingKey,
{
}

} // verus!
