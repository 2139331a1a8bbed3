use crate::error::{ResolveError, ResolveErrorView};
use crate::fanout::{FanOut, FanOutView, Query};
use crate::render::{document_of, to_document, ContextDocument, DocumentView, RetrievedItem};
use vstd::prelude::*;

verus! {

/// The documents that retrieved items become, in their order.
pub open spec fn documents_of(items: Seq<RetrievedItem>) -> Seq<DocumentView> {
    items.map_values(|i: RetrievedItem| document_of(i))
}

/// What a finished context resolution yields.
pub open spec fn context_outcome(f: FanOutView<RetrievedItem>) -> Result<
    Seq<DocumentView>,
    ResolveErrorView,
> {
    match f.outcome() {
        Ok(items) => Ok(documents_of(items)),
        Err(e) => Err(e),
    }
}

/// The mathematical form of a context resolution: the search text and the
/// state of its fan-out over the context sources.
pub struct ContextResolutionView {
    pub text: Seq<char>,
    pub fan: FanOutView<RetrievedItem>,
}

/// A context resolution in progress. The caller asks it for the next query,
/// runs that query against the named source with `text()`, and reports the
/// answer, until no query is owed; then `finish` gives the documents.
pub struct ContextResolution {
    text: String,
    fan: FanOut<RetrievedItem>,
}

impl View for ContextResolution {
    type V = ContextResolutionView;

    closed spec fn view(&self) -> ContextResolutionView {
        ContextResolutionView { text: self.text@, fan: self.fan@ }
    }
}

impl ContextResolution {
    /// The resolution's invariant.
    pub closed spec fn wf(&self) -> bool {
        self.fan.wf()
    }

    /// A resolution searching with `text` over sources with the given sample
    /// counts, nothing queried yet.
    pub fn new(text: String, counts: Vec<usize>) -> (r: ContextResolution)
        ensures
            r.wf(),
            r@.text == text@,
            r@.fan.counts == counts@,
            r@.fan.batches == Seq::<Seq<RetrievedItem>>::empty(),
            r@.fan.failure is None,
    {
        ContextResolution { text, fan: FanOut::new(counts) }
    }

    /// The text to search with.
    pub fn text(&self) -> (r: &String)
        ensures
            r@ == self@.text,
    {
        &self.text
    }

    /// The query to issue next, if one is owed.
    pub fn next_query(&self) -> (r: Option<Query>)
        requires
            self.wf(),
        ensures
            r == self@.fan.pending(),
    {
        self.fan.next_query()
    }

    /// Records the items that the pending source answered with, best first.
    pub fn record_items(&mut self, items: Vec<RetrievedItem>)
        requires
            old(self).wf(),
            old(self)@.fan.pending() is Some,
        ensures
            final(self).wf(),
            final(self)@.text == old(self)@.text,
            final(self)@.fan.counts == old(self)@.fan.counts,
            final(self)@.fan == old(self)@.fan.answer(Ok(items@)),
            final(self)@.fan.batches == old(self)@.fan.batches.push(items@),
            final(self)@.fan.failure is None,
    {
        self.fan.record_batch(items);
    }

    /// Records that the pending source failed with `message`.
    pub fn record_failure(&mut self, message: String)
        requires
            old(self).wf(),
            old(self)@.fan.pending() is Some,
        ensures
            final(self).wf(),
            final(self)@.text == old(self)@.text,
            final(self)@.fan.counts == old(self)@.fan.counts,
            final(self)@.fan.batches == old(self)@.fan.batches,
            final(self)@.fan == old(self)@.fan.answer(Err(message@)),
            final(self)@.fan.failure == Some(message@),
            final(self)@.fan.pending() is None,
    {
        self.fan.record_failure(message);
    }

    /// The context documents, in source order and, within a source, in the
    /// order it answered; or the failure of a source, with no documents.
    pub fn finish(self) -> (r: Result<Vec<ContextDocument>, ResolveError>)
        requires
            self.wf(),
            self@.fan.pending() is None,
        ensures
            match (r, context_outcome(self@.fan)) {
                (Ok(docs), Ok(expected)) => docs@.map_values(|d: ContextDocument| d@) == expected,
                (Err(e), Err(expected)) => e@ == expected,
                _ => false,
            },
    {
        let items = self.fan.finish()?;
        let mut docs: Vec<ContextDocument> = Vec::new();
        let mut i: usize = 0;
        while i < items.len()
            invariant
                i <= items@.len(),
                docs@.len() == i,
                forall|k: int| 0 <= k < i ==> #[trigger] docs@[k]@ == document_of(items@[k]),
            decreases items@.len() - i,
        {
            docs.push(to_document(&items[i]));
            i = i + 1;
        }
        assert(docs@.map_values(|d: ContextDocument| d@) =~= documents_of(items@));
        Ok(docs)
    }
}

} // verus!
