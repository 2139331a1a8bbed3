use crate::error::{ResolveError, ResolveErrorView};
use crate::fanout::{FanOut, FanOutView, Query};
use crate::registry::{found_names, missing_names, texts, NameResolution, ToolRegistry};
use vstd::prelude::*;

verus! {

/// What a finished tool resolution yields: the names of the tools to define,
/// in output order, and the names to warn about; or the failure of a source.
pub open spec fn tool_outcome(
    reg: Seq<Seq<char>>,
    static_names: Seq<Seq<char>>,
    f: FanOutView<String>,
) -> Result<(Seq<Seq<char>>, Seq<Seq<char>>), ResolveErrorView> {
    match f.outcome() {
        Ok(ids) => Ok(
            (
                found_names(reg, static_names) + found_names(reg, texts(ids)),
                missing_names(reg, static_names) + missing_names(reg, texts(ids)),
            ),
        ),
        Err(e) => Err(e),
    }
}

/// The mathematical form of a tool resolution: the search text, the
/// registry, the static tool names, and the state of its fan-out over the
/// tool sources.
pub struct ToolResolutionView {
    pub text: Seq<char>,
    pub registry: Seq<Seq<char>>,
    pub static_names: Seq<Seq<char>>,
    pub fan: FanOutView<String>,
}

/// A tool resolution in progress. The static tools are looked up at once;
/// the caller then runs each owed query against the named tool source with
/// `text()` and reports the identifiers, until no query is owed; `finish`
/// gives which tools to define and which names have no tool.
pub struct ToolResolution {
    text: String,
    registry: ToolRegistry,
    static_names: Ghost<Seq<Seq<char>>>,
    static_part: NameResolution,
    fan: FanOut<String>,
}

impl View for ToolResolution {
    type V = ToolResolutionView;

    closed spec fn view(&self) -> ToolResolutionView {
        ToolResolutionView {
            text: self.text@,
            registry: self.registry@,
            static_names: self.static_names@,
            fan: self.fan@,
        }
    }
}

impl ToolResolution {
    /// The resolution's invariant.
    pub closed spec fn wf(&self) -> bool {
        &&& self.fan.wf()
        &&& self.registry.wf()
        &&& forall|k: int|
            0 <= k < self.static_part.found@.len() ==> self.static_part.found@[k]
                < self.registry@.len()
        &&& self.registry.names_at(self.static_part.found@) == found_names(
            self.registry@,
            self.static_names@,
        )
        &&& texts(self.static_part.missing@) == missing_names(self.registry@, self.static_names@)
    }

    /// A resolution searching with `text`, choosing from `registry`, with the
    /// given static tool names and tool sources' sample counts.
    pub fn new(text: String, registry: ToolRegistry, static_names: &Vec<String>, counts: Vec<usize>) -> (r: ToolResolution)
        requires
            registry.wf(),
        ensures
            r.wf(),
            r@.text == text@,
            r@.registry == registry@,
            r@.static_names == texts(static_names@),
            r@.fan.counts == counts@,
            r@.fan.batches == Seq::<Seq<String>>::empty(),
            r@.fan.failure is None,
    {
        let static_part = registry.resolve_names(static_names);
        ToolResolution {
            text,
            registry,
            static_names: Ghost(texts(static_names@)),
            static_part,
            fan: FanOut::new(counts),
        }
    }

    /// The text to search with, and to hand each tool for its definition.
    pub fn text(&self) -> (r: &String)
        ensures
            r@ == self@.text,
    {
        &self.text
    }

    /// The static tool names without a registered tool, in list order.
    pub fn static_missing(&self) -> (r: &Vec<String>)
        requires
            self.wf(),
        ensures
            texts(r@) == missing_names(self@.registry, self@.static_names),
    {
        &self.static_part.missing
    }

    /// The query to issue next, if one is owed.
    pub fn next_query(&self) -> (r: Option<Query>)
        requires
            self.wf(),
        ensures
            r == self@.fan.pending(),
    {
        self.fan.next_query()
    }

    /// Records the tool identifiers that the pending source answered with,
    /// best first.
    pub fn record_ids(&mut self, ids: Vec<String>)
        requires
            old(self).wf(),
            old(self)@.fan.pending() is Some,
        ensures
            final(self).wf(),
            final(self)@.text == old(self)@.text,
            final(self)@.registry == old(self)@.registry,
            final(self)@.static_names == old(self)@.static_names,
            final(self)@.fan.counts == old(self)@.fan.counts,
            final(self)@.fan == old(self)@.fan.answer(Ok(ids@)),
            final(self)@.fan.batches == old(self)@.fan.batches.push(ids@),
            final(self)@.fan.failure is None,
    {
        self.fan.record_batch(ids);
    }

    /// Records that the pending source failed with `message`.
    pub fn record_failure(&mut self, message: String)
        requires
            old(self).wf(),
            old(self)@.fan.pending() is Some,
        ensures
            final(self).wf(),
            final(self)@.text == old(self)@.text,
            final(self)@.registry == old(self)@.registry,
            final(self)@.static_names == old(self)@.static_names,
            final(self)@.fan.counts == old(self)@.fan.counts,
            final(self)@.fan.batches == old(self)@.fan.batches,
            final(self)@.fan == old(self)@.fan.answer(Err(message@)),
            final(self)@.fan.failure == Some(message@),
            final(self)@.fan.pending() is None,
    {
        self.fan.record_failure(message);
    }

    /// The tools to define, as registry positions: the static tools found,
    /// in list order, then the retrieved tools found, in source and rank
    /// order; and the names without a tool, in the same order. Or the
    /// failure of a source, with nothing else.
    pub fn finish(self) -> (r: Result<NameResolution, ResolveError>)
        requires
            self.wf(),
            self@.fan.pending() is None,
        ensures
            match (r, tool_outcome(self@.registry, self@.static_names, self@.fan)) {
                (Ok(res), Ok((tools, missing))) => {
                    &&& forall|k: int| 0 <= k < res.found@.len() ==> res.found@[k] < self@.registry.len()
                    &&& res.found@.map_values(|i: usize| self@.registry[i as int]) == tools
                    &&& texts(res.missing@) == missing
                },
                (Err(e), Err(expected)) => e@ == expected,
                _ => false,
            },
    {
        let ToolResolution { text: _, registry, static_names: _, static_part, fan } = self;
        let ids = fan.finish()?;
        let dynamic_part = registry.resolve_names(&ids);
        let NameResolution { found: mut found, missing: mut missing } = static_part;
        let ghost (sf, sm) = (found@, missing@);
        let NameResolution { found: mut more_found, missing: mut more_missing } = dynamic_part;
        let ghost (df, dm) = (more_found@, more_missing@);
        found.append(&mut more_found);
        missing.append(&mut more_missing);
        assert(found@ =~= sf + df);
        assert(registry.names_at(found@) =~= registry.names_at(sf) + registry.names_at(df));
        assert(texts(missing@) =~= texts(sm) + texts(dm));
        Ok(NameResolution { found, missing })
    }
}

} // verus!
