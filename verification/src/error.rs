//! The crate's error type.

use vstd::prelude::*;

use crate::outside::io_error_text;

verus! {

/// Errors that can occur during streaming ASR.
#[derive(Debug)]
pub enum AsrError {
    Backend(String),
    InvalidFrame(String),
    AlreadyFinished,
    BackendNotEnabled,
    Io(std::io::Error),
}

/// What an [`AsrError`] says, with its texts as character sequences.
pub enum ErrorView {
    Backend(Seq<char>),
    InvalidFrame(Seq<char>),
    AlreadyFinished,
    BackendNotEnabled,
    Io(std::io::Error),
}

impl View for AsrError {
    type V = ErrorView;

    open spec fn view(&self) -> ErrorView {
        match *self {
            AsrError::Backend(message) => ErrorView::Backend(message@),
            AsrError::InvalidFrame(message) => ErrorView::InvalidFrame(message@),
            AsrError::AlreadyFinished => ErrorView::AlreadyFinished,
            AsrError::BackendNotEnabled => ErrorView::BackendNotEnabled,
            AsrError::Io(error) => ErrorView::Io(error),
        }
    }
}

impl AsrError {
    /// The message a user sees. The text of an I/O error is the operating
    /// system's own; only its prefix is fixed.
    pub fn message(&self) -> (text: String)
        ensures
            match self@ {
                ErrorView::Backend(message) => text@ == "backend error: "@ + message,
                ErrorView::InvalidFrame(message) => text@ == "invalid audio frame: "@ + message,
                ErrorView::AlreadyFinished => text@ == "session already finished"@,
                ErrorView::BackendNotEnabled => text@
                    == "backend not compiled in — enable the matching Cargo feature"@,
                ErrorView::Io(_) => exists|cause: Seq<char>| text@ == #[trigger] ("io: "@ + cause),
            },
    {
        match self {
            AsrError::Backend(message) => crate::text::join("backend error: ", message.as_str()),
            AsrError::InvalidFrame(message) => crate::text::join(
                "invalid audio frame: ",
                message.as_str(),
            ),
            AsrError::AlreadyFinished => "session already finished".to_string(),
            AsrError::BackendNotEnabled =>
                "backend not compiled in — enable the matching Cargo feature".to_string(),
            AsrError::Io(error) => {
                let cause: String = io_error_text(error);
                crate::text::join("io: ", cause.as_str())
            },
        }
    }
}

impl From<std::io::Error> for AsrError {
    fn from(error: std::io::Error) -> (wrapped: AsrError) {
        AsrError::Io(error)
    }
}

impl vstd::std_specs::convert::FromSpecImpl<std::io::Error> for AsrError {
    open spec fn obeys_from_spec() -> bool {
        true
    }

    open spec fn from_spec(error: std::io::Error) -> AsrError {
        AsrError::Io(error)
    }
}

/// An error says what it holds, and an I/O error is taken as it is.
pub proof fn law_errors_say_what_they_hold(error: AsrError, io: std::io::Error)
    ensures
        error matches AsrError::Backend(message) ==> error@ == ErrorView::Backend(message@),
        error matches AsrError::InvalidFrame(message) ==> error@ == ErrorView::InvalidFrame(
            message@,
        ),
        error is AlreadyFinished ==> error@ == ErrorView::AlreadyFinished,
        error is BackendNotEnabled ==> error@ == ErrorView::BackendNotEnabled,
        error matches AsrError::Io(cause) ==> error@ == ErrorView::Io(cause),
        <AsrError as vstd::std_specs::convert::FromSpec<std::io::Error>>::from_spec(io)
            == AsrError::Io(io),
{
}

} // verus!
