use crate::error::{ResolveError, ResolveErrorView};
use vstd::prelude::*;

verus! {

broadcast use Seq::lemma_flatten_push;

/// A query to issue: the top `sample_count` items of source number `source`.
#[derive(Clone, Copy, Debug, PartialEq, Eq)]
pub struct Query {
    pub source: usize,
    pub sample_count: usize,
}

/// The mathematical form of a fan-out: the sample count of each source, the
/// batches answered so far in source order, and the failure, if one came.
pub struct FanOutView<T> {
    pub counts: Seq<usize>,
    pub batches: Seq<Seq<T>>,
    pub failure: Option<Seq<char>>,
}

impl<T> FanOutView<T> {
    /// The query that is owed next: the first unanswered source, while no
    /// source has failed.
    pub open spec fn pending(self) -> Option<Query> {
        if self.failure is None && self.batches.len() < self.counts.len() {
            Some(
                Query {
                    source: self.batches.len() as usize,
                    sample_count: self.counts[self.batches.len() as int],
                },
            )
        } else {
            None
        }
    }

    /// How many queries have been issued and answered.
    pub open spec fn issued(self) -> nat {
        self.batches.len() + if self.failure is Some { 1nat } else { 0nat }
    }

    /// The state after reporting `a`: a batch or a failure for the pending
    /// source; nothing changes where no query is owed.
    pub open spec fn answer(self, a: Result<Seq<T>, Seq<char>>) -> FanOutView<T> {
        if self.pending() is None {
            self
        } else {
            match a {
                Ok(b) => FanOutView { batches: self.batches.push(b), ..self },
                Err(m) => FanOutView { failure: Some(m), ..self },
            }
        }
    }

    /// What a finished fan-out yields: every batch, in source order, or the
    /// failure alone.
    pub open spec fn outcome(self) -> Result<Seq<T>, ResolveErrorView> {
        match self.failure {
            Some(m) => Err(ResolveErrorView::RetrievalFailure(m)),
            None => Ok(self.batches.flatten()),
        }
    }
}

/// The state of a fresh fan-out over `counts` after the given answers.
pub open spec fn run<T>(counts: Seq<usize>, answers: Seq<Result<Seq<T>, Seq<char>>>) -> FanOutView<T>
    decreases answers.len(),
{
    if answers.len() == 0 {
        FanOutView { counts, batches: Seq::empty(), failure: None }
    } else {
        run(counts, answers.drop_last()).answer(answers.last())
    }
}

/// The batches of answers that all succeeded.
pub open spec fn batches_of<T>(answers: Seq<Result<Seq<T>, Seq<char>>>) -> Seq<Seq<T>> {
    answers.map_values(|a: Result<Seq<T>, Seq<char>>| a->Ok_0)
}

/// Whether an exec result is the mathematical outcome `spec`.
pub open spec fn result_matches<T>(
    r: Result<Vec<T>, ResolveError>,
    spec: Result<Seq<T>, ResolveErrorView>,
) -> bool {
    match (r, spec) {
        (Ok(v), Ok(s)) => v@ == s,
        (Err(e), Err(f)) => e@ == f,
        _ => false,
    }
}

/// A sequential, fail-fast fan-out over ordered retrieval sources: each source
/// is queried once, in order; batches are concatenated in source order; the
/// first failure ends the fan-out and discards what was gathered.
pub struct FanOut<T> {
    counts: Vec<usize>,
    gathered: Vec<T>,
    failure: Option<String>,
    answered: usize,
    batches: Ghost<Seq<Seq<T>>>,
}

impl<T> View for FanOut<T> {
    type V = FanOutView<T>;

    closed spec fn view(&self) -> FanOutView<T> {
        FanOutView {
            counts: self.counts@,
            batches: self.batches@,
            failure: match self.failure {
                Some(m) => Some(m@),
                None => None,
            },
        }
    }
}

impl<T> FanOut<T> {
    /// The fan-out's internal invariant.
    pub closed spec fn wf(&self) -> bool {
        &&& self.answered == self.batches@.len()
        &&& self.batches@.len() <= self.counts@.len()
        &&& self.failure is None ==> self.gathered@ == self.batches@.flatten()
        &&& self.failure is Some ==> self.batches@.len() < self.counts@.len()
    }

    /// A fan-out over sources with the given sample counts, none queried yet.
    pub fn new(counts: Vec<usize>) -> (r: FanOut<T>)
        ensures
            r.wf(),
            r@.counts == counts@,
            r@.batches == Seq::<Seq<T>>::empty(),
            r@.failure is None,
    {
        FanOut { counts, gathered: Vec::new(), failure: None, answered: 0, batches: Ghost(Seq::empty()) }
    }

    /// The query to issue next, or `None` once every source has answered or
    /// one has failed.
    pub fn next_query(&self) -> (r: Option<Query>)
        requires
            self.wf(),
        ensures
            r == self@.pending(),
    {
        if self.failure.is_none() && self.answered < self.counts.len() {
            Some(Query { source: self.answered, sample_count: self.counts[self.answered] })
        } else {
            None
        }
    }

    /// Records the batch that the pending source answered with.
    pub fn record_batch(&mut self, batch: Vec<T>)
        requires
            old(self).wf(),
            old(self)@.pending() is Some,
        ensures
            final(self).wf(),
            final(self)@ == old(self)@.answer(Ok(batch@)),
            final(self)@.batches == old(self)@.batches.push(batch@),
    {
        let mut batch = batch;
        let ghost b = batch@;
        let n = self.counts.len();
        assert(self.answered < n);
        self.answered = self.answered + 1;
        self.gathered.append(&mut batch);
        self.batches = Ghost(self.batches@.push(b));
    }

    /// Records that the pending source failed: what was gathered is dropped
    /// and no further query is owed.
    pub fn record_failure(&mut self, message: String)
        requires
            old(self).wf(),
            old(self)@.pending() is Some,
        ensures
            final(self).wf(),
            final(self)@ == old(self)@.answer(Err(message@)),
            final(self)@.failure == Some(message@),
            final(self)@.pending() is None,
    {
        self.gathered = Vec::new();
        self.failure = Some(message);
    }

    /// Ends the fan-out once nothing is pending: the concatenated batches, or
    /// the failure.
    pub fn finish(self) -> (r: Result<Vec<T>, ResolveError>)
        requires
            self.wf(),
            self@.pending() is None,
        ensures
            result_matches(r, self@.outcome()),
    {
        match self.failure {
            Some(m) => Err(ResolveError::RetrievalFailure(m)),
            None => Ok(self.gathered),
        }
    }
}

} // verus!
