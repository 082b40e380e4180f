//! The errors that are made here, and those that only pass through.

use vstd::prelude::*;

verus! {

/// An error that is made here, with its details in words.
#[derive(Clone, Debug, PartialEq, Eq)]
pub enum ProviderError {
    Authentication(String),
    NetworkError(String),
    RequestFailed(String),
}

/// A [`ProviderError`] with its words as characters.
pub enum ErrorView {
    Authentication(Seq<char>),
    NetworkError(Seq<char>),
    RequestFailed(Seq<char>),
}

impl View for ProviderError {
    type V = ErrorView;

    open spec fn view(&self) -> ErrorView {
        match *self {
            ProviderError::Authentication(words) => ErrorView::Authentication(words@),
            ProviderError::NetworkError(words) => ErrorView::NetworkError(words@),
            ProviderError::RequestFailed(words) => ErrorView::RequestFailed(words@),
        }
    }
}

/// Why something failed: with an error made here, or with one `E` that came from elsewhere
/// and is passed on as it came.
#[derive(Debug, PartialEq, Eq)]
pub enum Failure<E> {
    Made(ProviderError),
    Passed(E),
}

/// A [`Failure`] with the words of an error made here as characters.
pub enum FailureView<E> {
    Made(ErrorView),
    Passed(E),
}

impl<E> View for Failure<E> {
    type V = FailureView<E>;

    open spec fn view(&self) -> FailureView<E> {
        match *self {
            Failure::Made(error) => FailureView::Made(error@),
            Failure::Passed(error) => FailureView::Passed(error),
        }
    }
}

/// A [`ProviderError::RequestFailed`] that says `what` failed, then why.
pub fn request_failed(what: &str, why: &str) -> (error: ProviderError)
    ensures
        error@ == ErrorView::RequestFailed(what@ + why@),
{
    let mut words: String = what.to_owned();
    words.append(why);
    ProviderError::RequestFailed(words)
}

} // verus!
