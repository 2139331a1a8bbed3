use vstd::prelude::*;

verus! {

/// A message about to be sent to a model, reduced to what resolution reads.
#[derive(Clone, Debug, PartialEq, Eq)]
pub enum Prompt {
    /// A message whose content is plain text.
    Text(String),
    /// A message with no plain-text content (an image, a tool result, ...).
    NonText,
}

/// The search text of a prompt, if it has one.
pub open spec fn search_text(p: Prompt) -> Option<Seq<char>> {
    match p {
        Prompt::Text(s) => Some(s@),
        Prompt::NonText => None,
    }
}

impl Prompt {
    /// The text to search retrieval indices with, or `None` where the message
    /// carries no plain text.
    pub fn rag_text(&self) -> (r: Option<String>)
        ensures
            r matches Some(s) ==> search_text(*self) == Some(s@),
            r is None ==> search_text(*self) is None,
    {
        match self {
            Prompt::Text(s) => Some(s.clone()),
            Prompt::NonText => None,
        }
    }
}

} // verus!
