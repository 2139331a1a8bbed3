//! Resolution of the dynamic material that accompanies a prompt: context
//! documents retrieved from ranked indices, and tool definitions chosen from a
//! static list and from ranked tool indices.
pub mod agent;
pub mod context;
pub mod error;
pub mod fanout;
pub mod laws;
pub mod prompt;
pub mod registry;
pub mod render;
pub mod tools;

pub use agent::{Agent, ComputingDynamicInfo};
pub use context::ContextResolution;
pub use error::ResolveError;
pub use prompt::Prompt;
pub use registry::{NameResolution, ToolRegistry};
pub use render::{ContextDocument, RetrievedItem};
pub use tools::ToolResolution;
