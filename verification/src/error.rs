use vstd::prelude::*;

verus! {

/// Everything that can end a run early.
#[derive(Debug, PartialEq, Eq)]
pub enum SplitError {
    /// The command line named no usable input file or bitrate.
    ValidationError,
    /// The source file could not be read as far as the checksum window.
    IoError,
    /// The container could not be opened or its chapter table not read.
    ContainerError,
    /// The key lookup could not be run at all.
    LookupFailed,
    /// The key lookup ran but its output holds no key.
    ParseError,
    /// The transcode of the named chapter could not be run or ended badly.
    ExtractionFailed { chapter_title: String },
}

/// The view of an error, for contracts.
pub enum SplitErrorView {
    ValidationError,
    IoError,
    ContainerError,
    LookupFailed,
    ParseError,
    ExtractionFailed { chapter_title: Seq<char> },
}

impl View for SplitError {
    type V = SplitErrorView;

    open spec fn view(&self) -> SplitErrorView {
        match self {
            SplitError::ValidationError => SplitErrorView::ValidationError,
            SplitError::IoError => SplitErrorView::IoError,
            SplitError::ContainerError => SplitErrorView::ContainerError,
            SplitError::LookupFailed => SplitErrorView::LookupFailed,
            SplitError::ParseError => SplitErrorView::ParseError,
            SplitError::ExtractionFailed { chapter_title } => SplitErrorView::ExtractionFailed {
                chapter_title: chapter_title@,
            },
        }
    }
}

impl Clone for SplitError {
    fn clone(&self) -> (copy: SplitError)
        ensures
            copy@ == self@,
    {
        match self {
            SplitError::ValidationError => SplitError::ValidationError,
            SplitError::IoError => SplitError::IoError,
            SplitError::ContainerError => SplitError::ContainerError,
            SplitError::LookupFailed => SplitError::LookupFailed,
            SplitError::ParseError => SplitError::ParseError,
            SplitError::ExtractionFailed { chapter_title } => SplitError::ExtractionFailed {
                chapter_title: chapter_title.clone(),
            },
        }
    }
}

/// What the user is told of an error: the stage that failed, and for a
/// failed transcode the chapter it was working on.
pub open spec fn message_text(error: SplitErrorView) -> Seq<char> {
    match error {
        SplitErrorView::ValidationError => "invalid input file or bitrate"@,
        SplitErrorView::IoError => "unable to read the checksum of the input file"@,
        SplitErrorView::ContainerError => "unable to create input context"@,
        SplitErrorView::LookupFailed => "failed to start rcrack"@,
        SplitErrorView::ParseError => "couldn't extract activation bytes from hash"@,
        SplitErrorView::ExtractionFailed { chapter_title } => "couldn't create chapter "@
            + chapter_title,
    }
}

impl SplitError {
    /// Says in words what went wrong.
    pub fn message(&self) -> (text: String)
        ensures
            text@ == message_text(self@),
    {
        match self {
            SplitError::ValidationError => String::from_str("invalid input file or bitrate"),
            SplitError::IoError => String::from_str(
                "unable to read the checksum of the input file",
            ),
            SplitError::ContainerError => String::from_str("unable to create input context"),
            SplitError::LookupFailed => String::from_str("failed to start rcrack"),
            SplitError::ParseError => String::from_str(
                "couldn't extract activation bytes from hash",
            ),
            SplitError::ExtractionFailed { chapter_title } => {
                let mut text = String::from_str("couldn't create chapter ");
                text.append(chapter_title.as_str());
                text
            },
        }
    }
}

} // verus!
