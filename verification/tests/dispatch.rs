use aaxsplit::chapter_info::{ChapterInfo, Seconds};
use aaxsplit::dispatch::{extraction_jobs, extraction_outcome, output_name, ExtractionJob};
use aaxsplit::error::SplitError;

fn chapter(title: &str, start: i64, end: i64) -> ChapterInfo {
    ChapterInfo {
        title: String::from(title),
        start: Seconds { ticks: start, denominator: 1000 },
        end: Seconds { ticks: end, denominator: 1000 },
    }
}

fn book() -> Vec<ChapterInfo> {
    vec![
        chapter("Intro", 0, 30_000),
        chapter("Chapter One", 30_000, 600_000),
        chapter("Chapter Two", 600_000, 1_234_567),
    ]
}

fn texts(words: &[&str]) -> Vec<String> {
    words.iter().map(|word| String::from(*word)).collect()
}

#[test]
fn output_name_joins_book_and_chapter() {
    assert_eq!(output_name("book", "Intro"), "book - Intro.mp3");
    assert_eq!(output_name("book", "Chapter One"), "book - Chapter One.mp3");
}

#[test]
fn output_name_of_empty_titles() {
    assert_eq!(output_name("", ""), " - .mp3");
    assert_eq!(output_name("book", ""), "book - .mp3");
    assert_eq!(output_name("", "7"), " - 7.mp3");
}

#[test]
fn output_name_keeps_titles_as_they_are() {
    assert_eq!(
        output_name("Ein Buch", "Kapitel 1: Überfall"),
        "Ein Buch - Kapitel 1: Überfall.mp3"
    );
    assert_eq!(output_name("a - b", "c.mp3"), "a - b - c.mp3.mp3");
}

#[test]
fn output_names_differ_where_chapter_titles_differ() {
    let titles = ["Intro", "Intro ", "intro", "Chapter One", "", "1", "01"];
    for first in titles {
        for second in titles {
            if first != second {
                assert_ne!(output_name("book", first), output_name("book", second));
            } else {
                assert_eq!(output_name("book", first), output_name("book", second));
            }
        }
    }
}

#[test]
fn one_job_per_chapter_in_order() {
    let jobs = extraction_jobs(&book(), "book.aax", "ABCD1234", "book", "256k");
    assert_eq!(jobs.len(), 3);
    assert_eq!(
        jobs[1],
        ExtractionJob {
            source: String::from("book.aax"),
            activation_bytes: String::from("ABCD1234"),
            bitrate: String::from("256k"),
            chapter_title: String::from("Chapter One"),
            start: Seconds { ticks: 30_000, denominator: 1000 },
            end: Seconds { ticks: 600_000, denominator: 1000 },
            output_name: String::from("book - Chapter One.mp3"),
        }
    );
    for (job, chapter) in jobs.iter().zip(book().iter()) {
        assert_eq!(*job, ExtractionJob::new(chapter, "book.aax", "ABCD1234", "book", "256k"));
        assert_eq!(job.start, chapter.start);
        assert_eq!(job.end, chapter.end);
        assert_eq!(job.activation_bytes, "ABCD1234");
        assert_eq!(job.bitrate, "256k");
        assert_eq!(job.source, "book.aax");
    }
}

#[test]
fn jobs_of_distinct_chapters_have_distinct_bounds() {
    let jobs = extraction_jobs(&book(), "book.aax", "ABCD1234", "book", "256k");
    for i in 0..jobs.len() {
        for j in 0..jobs.len() {
            if i != j {
                assert_ne!((jobs[i].start, jobs[i].end), (jobs[j].start, jobs[j].end));
            }
        }
    }
}

#[test]
fn no_chapters_no_jobs() {
    assert_eq!(extraction_jobs(&Vec::new(), "book.aax", "ABCD1234", "book", "256k"), Vec::new());
}

#[test]
fn chapters_with_one_title_share_an_output_name() {
    let chapters = vec![chapter("Same", 0, 10), chapter("Same", 10, 20)];
    let jobs = extraction_jobs(&chapters, "book.aax", "k", "book", "64k");
    assert_eq!(jobs.len(), 2);
    assert_eq!(jobs[0].output_name, jobs[1].output_name);
    assert_ne!(jobs[0].start, jobs[1].start);
}

#[test]
fn arguments_are_in_the_order_of_the_command_line() {
    let intro = chapter("Intro", 0, 30_000);
    let job = ExtractionJob::new(&intro, "book.aax", "ABCD1234", "book", "256k");
    assert_eq!(
        job.arguments("0", "30"),
        texts(&[
            "-activation_bytes",
            "ABCD1234",
            "-i",
            "book.aax",
            "-vn",
            "-b:a",
            "256k",
            "-ss",
            "0",
            "-to",
            "30",
            "book - Intro.mp3",
        ])
    );
}

#[test]
fn arguments_take_the_bounds_as_they_are_written() {
    let chapter = chapter("Chapter Two", 600_000, 1_234_567);
    let job = ExtractionJob::new(&chapter, "dir/my book.aax", "cafed00d", "my book", "1M");
    let start = (job.start.ticks as f64 / job.start.denominator as f64).to_string();
    let end = (job.end.ticks as f64 / job.end.denominator as f64).to_string();
    let arguments = job.arguments(&start, &end);
    assert_eq!(arguments.len(), 12);
    assert_eq!(arguments[1], "cafed00d");
    assert_eq!(arguments[3], "dir/my book.aax");
    assert_eq!(arguments[6], "1M");
    assert_eq!(arguments[8], "600");
    assert_eq!(arguments[10], "1234.567");
    assert_eq!(arguments[11], "my book - Chapter Two.mp3");
}

#[test]
fn dispatch_succeeds_when_every_job_did() {
    let jobs = extraction_jobs(&book(), "book.aax", "k", "book", "256k");
    assert_eq!(extraction_outcome(&jobs, &vec![true, true, true]), Ok(()));
}

#[test]
fn dispatch_of_no_jobs_succeeds() {
    assert_eq!(extraction_outcome(&Vec::new(), &Vec::new()), Ok(()));
    assert_eq!(extraction_outcome(&Vec::new(), &vec![false]), Ok(()));
}

#[test]
fn dispatch_fails_with_the_chapter_that_failed() {
    let jobs = extraction_jobs(&book(), "book.aax", "k", "book", "256k");
    assert_eq!(
        extraction_outcome(&jobs, &vec![true, false, true]),
        Err(SplitError::ExtractionFailed { chapter_title: String::from("Chapter One") })
    );
    assert_eq!(
        extraction_outcome(&jobs, &vec![true, true, false]),
        Err(SplitError::ExtractionFailed { chapter_title: String::from("Chapter Two") })
    );
}

#[test]
fn dispatch_fails_with_the_first_chapter_that_failed() {
    let jobs = extraction_jobs(&book(), "book.aax", "k", "book", "256k");
    assert_eq!(
        extraction_outcome(&jobs, &vec![false, false, false]),
        Err(SplitError::ExtractionFailed { chapter_title: String::from("Intro") })
    );
    assert_eq!(
        extraction_outcome(&jobs, &vec![true, false, false]),
        Err(SplitError::ExtractionFailed { chapter_title: String::from("Chapter One") })
    );
}

#[test]
fn job_without_report_counts_as_failed() {
    let jobs = extraction_jobs(&book(), "book.aax", "k", "book", "256k");
    assert_eq!(
        extraction_outcome(&jobs, &vec![true, true]),
        Err(SplitError::ExtractionFailed { chapter_title: String::from("Chapter Two") })
    );
    assert_eq!(
        extraction_outcome(&jobs, &Vec::new()),
        Err(SplitError::ExtractionFailed { chapter_title: String::from("Intro") })
    );
}

#[test]
fn reports_beyond_the_jobs_are_ignored() {
    let jobs = extraction_jobs(&book(), "book.aax", "k", "book", "256k");
    assert_eq!(extraction_outcome(&jobs, &vec![true, true, true, false]), Ok(()));
}
