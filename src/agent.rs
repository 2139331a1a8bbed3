use crate::context::ContextResolution;
use crate::error::ResolveError;
use crate::fanout::run;
use crate::render::RetrievedItem;
use crate::prompt::{search_text, Prompt};
use crate::registry::{texts, ToolRegistry};
use crate::tools::ToolResolution;
use vstd::prelude::*;

verus! {

/// Resolution of the dynamic context and tools of a prompt.
pub trait ComputingDynamicInfo {
    /// The sample count of each context source, in order.
    spec fn context_counts(&self) -> Seq<usize>;

    /// The names of the tools always offered, in order.
    spec fn static_tool_names(&self) -> Seq<Seq<char>>;

    /// The sample count of each tool source, in order.
    spec fn tool_counts(&self) -> Seq<usize>;

    /// The names of the registered tools, by position.
    spec fn registry(&self) -> Seq<Seq<char>>;

    /// Whether the configuration is usable.
    spec fn valid(&self) -> bool;

    /// Starts resolving the context documents of `prompt`. A prompt without
    /// text is rejected before any source is queried.
    fn computing_context(&self, prompt: &Prompt) -> (r: Result<ContextResolution, ResolveError>)
        requires
            self.valid(),
        ensures
            search_text(*prompt) is None ==> (r matches Err(e) && e is InvalidPrompt),
            search_text(*prompt) matches Some(t) ==> (r matches Ok(s) && {
                &&& s.wf()
                &&& s@.text == t
                &&& s@.fan == run::<RetrievedItem>(self.context_counts(), Seq::empty())
            }),
    ;

    /// Starts resolving the tool definitions of `prompt`. A prompt without
    /// text is rejected before any lookup or query.
    fn computing_tools(&self, prompt: &Prompt) -> (r: Result<ToolResolution, ResolveError>)
        requires
            self.valid(),
        ensures
            search_text(*prompt) is None ==> (r matches Err(e) && e is InvalidPrompt),
            search_text(*prompt) matches Some(t) ==> (r matches Ok(s) && {
                &&& s.wf()
                &&& s@.text == t
                &&& s@.registry == self.registry()
                &&& s@.static_names == self.static_tool_names()
                &&& s@.fan == run::<String>(self.tool_counts(), Seq::empty())
            }),
    ;
}

/// What an agent brings to resolution: its context sources and tool
/// sources (by sample count; the caller keeps the indices at the same
/// positions), its static tool names and its tool registry.
#[derive(Clone, Debug)]
pub struct Agent {
    pub dynamic_context: Vec<usize>,
    pub static_tools: Vec<String>,
    pub dynamic_tools: Vec<usize>,
    pub tools: ToolRegistry,
}

impl ComputingDynamicInfo for Agent {
    open spec fn context_counts(&self) -> Seq<usize> {
        self.dynamic_context@
    }

    open spec fn static_tool_names(&self) -> Seq<Seq<char>> {
        texts(self.static_tools@)
    }

    open spec fn tool_counts(&self) -> Seq<usize> {
        self.dynamic_tools@
    }

    open spec fn registry(&self) -> Seq<Seq<char>> {
        self.tools@
    }

    open spec fn valid(&self) -> bool {
        self.tools.wf()
    }

    fn computing_context(&self, prompt: &Prompt) -> (r: Result<ContextResolution, ResolveError>) {
        match prompt.rag_text() {
            Some(text) => Ok(ContextResolution::new(text, self.dynamic_context.clone())),
            None => Err(ResolveError::InvalidPrompt),
        }
    }

    fn computing_tools(&self, prompt: &Prompt) -> (r: Result<ToolResolution, ResolveError>) {
        match prompt.rag_text() {
            Some(text) => Ok(
                ToolResolution::new(
                    text,
                    self.tools.duplicate(),
                    &self.static_tools,
                    self.dynamic_tools.clone(),
                ),
            ),
            None => Err(ResolveError::InvalidPrompt),
        }
    }
}

} // verus!
