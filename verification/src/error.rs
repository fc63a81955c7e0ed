//! The error taxonomy shared by every stage of the pipeline.

use vstd::prelude::*;

verus! {

/// What can go wrong between a selection and its sound.
///
/// Each variant carries the diagnostic of the stage that failed.
#[derive(Debug)]
pub enum PhonemeReverserError {
    /// The input container does not exist.
    NotFound(String),
    /// The container is malformed, truncated or of an unsupported layout.
    AudioFile(String),
    /// The output device could not be found, configured or started.
    AudioPlayback(String),
    /// The device negotiated an output format other than 32-bit float.
    UnsupportedFormat(String),
    /// The synthesis collaborator could not be launched, exited with a
    /// failure, or left no output behind.
    Synthesis(String),
    /// The recognition collaborator failed.
    PhonemeRecognition(String),
    /// The symbolic-conversion collaborator failed.
    PhonemeConversion(String),
    /// The embedded interpreter could not be initialised.
    PythonInit(String),
    /// A filesystem operation failed.
    Io(String),
}

/// The mathematical value of a [`PhonemeReverserError`].
pub enum ErrorView {
    NotFound(Seq<char>),
    AudioFile(Seq<char>),
    AudioPlayback(Seq<char>),
    UnsupportedFormat(Seq<char>),
    Synthesis(Seq<char>),
    PhonemeRecognition(Seq<char>),
    PhonemeConversion(Seq<char>),
    PythonInit(Seq<char>),
    Io(Seq<char>),
}

impl ErrorView {
    /// The text that introduces the diagnostic in a user-facing message.
    pub open spec fn prefix(self) -> Seq<char> {
        match self {
            ErrorView::NotFound(_) => "Audio file error: "@,
            ErrorView::AudioFile(_) => "Audio file error: "@,
            ErrorView::AudioPlayback(_) => "Audio playback error: "@,
            ErrorView::UnsupportedFormat(_) => "Audio playback error: "@,
            ErrorView::Synthesis(_) => "Synthesis error: "@,
            ErrorView::PhonemeRecognition(_) => "Phoneme recognition error: "@,
            ErrorView::PhonemeConversion(_) => "Phoneme conversion error: "@,
            ErrorView::PythonInit(_) => "Python initialization error: "@,
            ErrorView::Io(_) => "IO error: "@,
        }
    }

    /// The diagnostic carried by the error.
    pub open spec fn detail(self) -> Seq<char> {
        match self {
            ErrorView::NotFound(d) => d,
            ErrorView::AudioFile(d) => d,
            ErrorView::AudioPlayback(d) => d,
            ErrorView::UnsupportedFormat(d) => d,
            ErrorView::Synthesis(d) => d,
            ErrorView::PhonemeRecognition(d) => d,
            ErrorView::PhonemeConversion(d) => d,
            ErrorView::PythonInit(d) => d,
            ErrorView::Io(d) => d,
        }
    }

    /// The user-facing message: the prefix of the kind, then the diagnostic.
    pub open spec fn message(self) -> Seq<char> {
        self.prefix() + self.detail()
    }
}

impl View for PhonemeReverserError {
    type V = ErrorView;

    open spec fn view(&self) -> ErrorView {
        match self {
            PhonemeReverserError::NotFound(d) => ErrorView::NotFound(d@),
            PhonemeReverserError::AudioFile(d) => ErrorView::AudioFile(d@),
            PhonemeReverserError::AudioPlayback(d) => ErrorView::AudioPlayback(d@),
            PhonemeReverserError::UnsupportedFormat(d) => ErrorView::UnsupportedFormat(d@),
            PhonemeReverserError::Synthesis(d) => ErrorView::Synthesis(d@),
            PhonemeReverserError::PhonemeRecognition(d) => ErrorView::PhonemeRecognition(d@),
            PhonemeReverserError::PhonemeConversion(d) => ErrorView::PhonemeConversion(d@),
            PhonemeReverserError::PythonInit(d) => ErrorView::PythonInit(d@),
            PhonemeReverserError::Io(d) => ErrorView::Io(d@),
        }
    }
}

impl PhonemeReverserError {
    fn prefix(&self) -> (text: &'static str)
        ensures
            text@ == self@.prefix(),
    {
        match self {
            PhonemeReverserError::NotFound(_) => "Audio file error: ",
            PhonemeReverserError::AudioFile(_) => "Audio file error: ",
            PhonemeReverserError::AudioPlayback(_) => "Audio playback error: ",
            PhonemeReverserError::UnsupportedFormat(_) => "Audio playback error: ",
            PhonemeReverserError::Synthesis(_) => "Synthesis error: ",
            PhonemeReverserError::PhonemeRecognition(_) => "Phoneme recognition error: ",
            PhonemeReverserError::PhonemeConversion(_) => "Phoneme conversion error: ",
            PhonemeReverserError::PythonInit(_) => "Python initialization error: ",
            PhonemeReverserError::Io(_) => "IO error: ",
        }
    }

    fn detail(&self) -> (text: &String)
        ensures
            text@ == self@.detail(),
    {
        match self {
            PhonemeReverserError::NotFound(d) => d,
            PhonemeReverserError::AudioFile(d) => d,
            PhonemeReverserError::AudioPlayback(d) => d,
            PhonemeReverserError::UnsupportedFormat(d) => d,
            PhonemeReverserError::Synthesis(d) => d,
            PhonemeReverserError::PhonemeRecognition(d) => d,
            PhonemeReverserError::PhonemeConversion(d) => d,
            PhonemeReverserError::PythonInit(d) => d,
            PhonemeReverserError::Io(d) => d,
        }
    }

    /// The message shown to the user for this error.
    pub fn message(&self) -> (text: String)
        ensures
            text@ == self@.message(),
    {
        String::from_str(self.prefix()).concat(self.detail().as_str())
    }
}

impl Clone for PhonemeReverserError {
    fn clone(&self) -> (copy: Self)
        ensures
            copy == *self,
    {
        match self {
            Self::NotFound(d) => Self::NotFound(d.clone()),
            Self::AudioFile(d) => Self::AudioFile(d.clone()),
            Self::AudioPlayback(d) => Self::AudioPlayback(d.clone()),
            Self::UnsupportedFormat(d) => Self::UnsupportedFormat(d.clone()),
            Self::Synthesis(d) => Self::Synthesis(d.clone()),
            Self::PhonemeRecognition(d) => Self::PhonemeRecognition(d.clone()),
            Self::PhonemeConversion(d) => Self::PhonemeConversion(d.clone()),
            Self::PythonInit(d) => Self::PythonInit(d.clone()),
            Self::Io(d) => Self::Io(d.clone()),
        }
    }
}

} // verus!
