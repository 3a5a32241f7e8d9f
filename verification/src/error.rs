//! The errors that a call can end in.

use vstd::prelude::*;

verus! {

/// Why a call failed. Every failure is handed back to the host; none ends
/// the process.
#[derive(Debug, PartialEq, Eq, Clone)]
pub enum ProviderError {
    /// The payload did not have the layout that the operation expects. The
    /// text is the decoder's message.
    Decode(String),
    /// The operation is unknown, or the actor may not use it. The text is the
    /// operation that was asked for.
    BadDispatch(String),
    /// The host could not start the command. The text is its reason.
    ProcessLaunch(String),
    /// The command did not end within the time it was given.
    Timeout,
    /// The response could not be encoded. The text is the encoder's message.
    Encode(String),
}

/// What an error is in contracts.
pub enum ErrorModel {
    Decode(Seq<char>),
    BadDispatch(Seq<char>),
    ProcessLaunch(Seq<char>),
    Timeout,
    Encode(Seq<char>),
}

impl View for ProviderError {
    type V = ErrorModel;

    open spec fn view(&self) -> ErrorModel {
        match self {
            ProviderError::Decode(text) => ErrorModel::Decode(text@),
            ProviderError::BadDispatch(operation) => ErrorModel::BadDispatch(operation@),
            ProviderError::ProcessLaunch(reason) => ErrorModel::ProcessLaunch(reason@),
            ProviderError::Timeout => ErrorModel::Timeout,
            ProviderError::Encode(text) => ErrorModel::Encode(text@),
        }
    }
}

/// The words that open the message of each kind of error.
pub open spec fn label(error: ErrorModel) -> Seq<char> {
    match error {
        ErrorModel::Decode(_) => "decode error: "@,
        ErrorModel::BadDispatch(_) => "bad dispatch: "@,
        ErrorModel::ProcessLaunch(_) => "process launch error: "@,
        ErrorModel::Timeout => "timeout"@,
        ErrorModel::Encode(_) => "encode error: "@,
    }
}

/// What an error carries besides its kind; empty for a timeout.
pub open spec fn detail(error: ErrorModel) -> Seq<char> {
    match error {
        ErrorModel::Decode(text) => text,
        ErrorModel::BadDispatch(operation) => operation,
        ErrorModel::ProcessLaunch(reason) => reason,
        ErrorModel::Timeout => Seq::empty(),
        ErrorModel::Encode(text) => text,
    }
}

impl ProviderError {
    /// The error as one line of text: its label, then its detail.
    pub fn message(&self) -> (text: String)
        ensures
            text@ == label(self@) + detail(self@),
    {
        let text = match self {
            ProviderError::Decode(t) => "decode error: ".to_owned().concat(t.as_str()),
            ProviderError::BadDispatch(op) => "bad dispatch: ".to_owned().concat(op.as_str()),
            ProviderError::ProcessLaunch(reason) => "process launch error: ".to_owned().concat(
                reason.as_str(),
            ),
            ProviderError::Timeout => "timeout".to_owned(),
            ProviderError::Encode(t) => "encode error: ".to_owned().concat(t.as_str()),
        };
        assert(text@ =~= label(self@) + detail(self@));
        text
    }
}

} // verus!
