//! What a Code Mode isolate sees of the downstream tools.

use vstd::prelude::*;

verus! {

/// A single tool exposed by a downstream server, as the isolate sees it.
#[derive(Debug)]
pub struct ToolDescriptor {
    /// The downstream server alias the tool belongs to.
    pub server: String,
    /// The (un-namespaced) tool name on that server.
    pub name: String,
    /// Human-readable description (often used as a JSDoc comment in `.d.ts`).
    pub description: String,
    /// The tool's JSON Schema for its arguments.
    pub input_schema: serde_json::Value,
}

} // verus!
