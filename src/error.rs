use vstd::prelude::*;

verus! {

/// Why a resolution call ended without a result.
#[derive(Clone, Debug, PartialEq, Eq)]
pub enum ResolveError {
    /// The prompt carries no text to search with; nothing was queried.
    InvalidPrompt,
    /// A retrieval source failed; the message is the store's own.
    RetrievalFailure(String),
}

/// The mathematical form of a resolution error.
pub enum ResolveErrorView {
    InvalidPrompt,
    RetrievalFailure(Seq<char>),
}

impl View for ResolveError {
    type V = ResolveErrorView;

    open spec fn view(&self) -> ResolveErrorView {
        match self {
            ResolveError::InvalidPrompt => ResolveErrorView::InvalidPrompt,
            ResolveError::RetrievalFailure(m) => ResolveErrorView::RetrievalFailure(m@),
        }
    }
}

impl ResolveError {
    /// A readable description of the error.
    pub fn message(&self) -> (r: String)
        ensures
            self is InvalidPrompt ==> r@ == "Invalid prompt"@,
            self is RetrievalFailure ==> r@ == self->RetrievalFailure_0@,
    {
        match self {
            ResolveError::InvalidPrompt => {
                let r = String::from_str("Invalid prompt");
                proof {
                    reveal_strlit("Invalid prompt");
                }
                r
            },
            ResolveError::RetrievalFailure(m) => m.clone(),
        }
    }
}

} // verus!
