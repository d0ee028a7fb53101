//! What can go wrong while a message is interpreted.

use vstd::prelude::*;
use vstd::string::*;

verus! {

/// Why an interpretation stopped.
#[derive(Clone, Debug, PartialEq, Eq)]
pub enum Error {
    /// The bytes are no message.
    ParseRawEmailError,
    /// The attachment could not be written to this path.
    WriteAttachmentError(String),
    /// The message could not be built.
    WriteMessageError,
    /// The command could not decrypt the part.
    DecryptPartError,
    /// The command could not verify the part.
    VerifyPartError,
}

/// An error as a mathematical value.
pub enum ErrorView {
    ParseRawEmailError,
    WriteAttachmentError(Seq<char>),
    WriteMessageError,
    DecryptPartError,
    VerifyPartError,
}

impl View for Error {
    type V = ErrorView;

    open spec fn view(&self) -> ErrorView {
        match self {
            Error::ParseRawEmailError => ErrorView::ParseRawEmailError,
            Error::WriteAttachmentError(path) => ErrorView::WriteAttachmentError(path@),
            Error::WriteMessageError => ErrorView::WriteMessageError,
            Error::DecryptPartError => ErrorView::DecryptPartError,
            Error::VerifyPartError => ErrorView::VerifyPartError,
        }
    }
}

/// The sentence that tells of an error.
pub open spec fn error_message(e: ErrorView) -> Seq<char> {
    match e {
        ErrorView::ParseRawEmailError => "cannot parse raw email"@,
        ErrorView::WriteAttachmentError(path) => "cannot save attachement at "@ + path,
        ErrorView::WriteMessageError => "cannot build email"@,
        ErrorView::DecryptPartError => "cannot decrypt email part"@,
        ErrorView::VerifyPartError => "cannot verify email part"@,
    }
}

impl Error {
    /// The sentence that tells of the error.
    pub fn message(&self) -> (res: String)
        ensures
            res@ == error_message(self@),
    {
        match self {
            Error::ParseRawEmailError => String::from_str("cannot parse raw email"),
            Error::WriteAttachmentError(path) => {
                let mut out = String::from_str("cannot save attachement at ");
                out.append(path.as_str());
                out
            },
            Error::WriteMessageError => String::from_str("cannot build email"),
            Error::DecryptPartError => String::from_str("cannot decrypt email part"),
            Error::VerifyPartError => String::from_str("cannot verify email part"),
        }
    }
}

} // verus!
