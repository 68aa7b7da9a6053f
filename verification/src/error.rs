//! The failures that a caller can meet.

use vstd::prelude::*;
use vstd::string::*;

verus! {

/// A recoverable failure of a catalog lookup or of a spinner operation.
#[derive(Debug, Clone, PartialEq, Eq)]
pub enum SpinnerError {
    /// No animation is registered under the given name.
    UnknownAnimation(String),
    /// An interval of zero milliseconds was asked for.
    InvalidInterval,
}

/// The mathematical value of a [`SpinnerError`].
pub enum SpinnerErrorView {
    /// No animation is registered under the given name.
    UnknownAnimation(Seq<char>),
    /// An interval of zero milliseconds was asked for.
    InvalidInterval,
}

impl View for SpinnerError {
    type V = SpinnerErrorView;

    open spec fn view(&self) -> SpinnerErrorView {
        match self {
            SpinnerError::UnknownAnimation(name) => SpinnerErrorView::UnknownAnimation(name@),
            SpinnerError::InvalidInterval => SpinnerErrorView::InvalidInterval,
        }
    }
}

impl SpinnerErrorView {
    /// The text that describes this failure.
    pub open spec fn text(self) -> Seq<char> {
        match self {
            SpinnerErrorView::UnknownAnimation(name) => "unknown animation: "@ + name,
            SpinnerErrorView::InvalidInterval => "invalid interval: must be at least 1 ms"@,
        }
    }
}

impl SpinnerError {
    /// Describes this failure in words.
    pub fn message(&self) -> (r: String)
        ensures
            r@ == self@.text(),
    {
        match self {
            SpinnerError::UnknownAnimation(name) => {
                let mut out = String::from_str("unknown animation: ");
                out.append(name.as_str());
                out
            },
            SpinnerError::InvalidInterval => String::from_str(
                "invalid interval: must be at least 1 ms",
            ),
        }
    }
}

} // verus!
