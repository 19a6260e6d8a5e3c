//! The two ways in which a call can fail.

use vstd::prelude::*;

verus! {

/// The failure of a call.
///
/// `InvalidArguments` says that the caller's input could not be matched to a
/// function: the name is unknown, or the arguments have the wrong count or
/// shape. `ExecutionError` says that the function accepted its arguments and
/// then failed in its own logic.
#[derive(Debug)]
pub enum CallError {
    InvalidArguments(String),
    ExecutionError(String),
}

/// What a [`CallError`] holds, as mathematical text.
pub enum CallErrorView {
    InvalidArguments(Seq<char>),
    ExecutionError(Seq<char>),
}

impl View for CallError {
    type V = CallErrorView;

    open spec fn view(&self) -> CallErrorView {
        match self {
            CallError::InvalidArguments(message) => CallErrorView::InvalidArguments(message@),
            CallError::ExecutionError(message) => CallErrorView::ExecutionError(message@),
        }
    }
}

impl CallErrorView {
    /// The message that the error carries.
    pub open spec fn message(self) -> Seq<char> {
        match self {
            CallErrorView::InvalidArguments(message) => message,
            CallErrorView::ExecutionError(message) => message,
        }
    }

    /// The text that precedes the message when the error is shown.
    pub open spec fn prefix(self) -> Seq<char> {
        match self {
            CallErrorView::InvalidArguments(_) => "Invalid arguments "@,
            CallErrorView::ExecutionError(_) => "Execution error: "@,
        }
    }

    /// The error as shown to a reader: its prefix, then its message.
    pub open spec fn rendered(self) -> Seq<char> {
        self.prefix() + self.message()
    }
}

impl CallError {
    /// The error as text for a reader.
    pub fn to_string(&self) -> (text: String)
        ensures
            text@ == self@.rendered(),
    {
        match self {
            CallError::InvalidArguments(message) => {
                String::from_str("Invalid arguments ").concat(message.as_str())
            },
            CallError::ExecutionError(message) => {
                String::from_str("Execution error: ").concat(message.as_str())
            },
        }
    }
}

} // verus!
