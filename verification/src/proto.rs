//! The wire protocol between the gateway (parent) and the sandboxed Code Mode
//! worker (child).
//!
//! Framing is newline-delimited JSON. The parent writes a single [`JobMsg`] to
//! the worker's stdin, then services [`WorkerMsg::Request`] messages from the
//! worker's stdout by writing a [`ReplyMsg`] back to stdin for each, until the
//! worker emits a terminal [`WorkerMsg::Result`] or [`WorkerMsg::Failed`].

use vstd::prelude::*;

use crate::engine::Outcome;
use crate::limits::ExecLimits;
use crate::sandbox::Policy;

verus! {

/// The job the parent hands the worker: the OS-sandbox policy confining the
/// isolate, the execution limits, and the script source.
#[derive(Debug)]
pub struct JobMsg {
    /// The OS-sandbox policy confining the isolate.
    pub policy: Policy,
    /// Resource limits for the run.
    pub limits: ExecLimits,
    /// The Code Mode script source (pre-validation).
    pub code: String,
}

/// One host operation the worker's isolate needs the parent to fulfil.
#[derive(Debug)]
pub enum BridgeOpWire {
    /// Call a downstream tool.
    CallTool { server: String, tool: String, args: String },
    /// Read a downstream resource by URI.
    ReadResource { server: String, uri: String },
    /// List all downstream tools.
    ListTools,
}

/// A message from the worker to the parent.
#[derive(Debug)]
pub enum WorkerMsg {
    /// A host operation, awaiting a [`ReplyMsg`] with the same `id`.
    Request { id: u64, op: BridgeOpWire },
    /// The script finished; this is the final message.
    Result { outcome: Outcome },
    /// The worker failed before producing a result; this is the final message.
    Failed { error: String },
}

/// The parent's reply to a [`WorkerMsg::Request`].
#[derive(Debug)]
pub struct ReplyMsg {
    /// Matches the `id` of the request being answered.
    pub id: u64,
    /// Whether the operation succeeded.
    pub ok: bool,
    /// The result JSON (when `ok`) or the error message (when `!ok`).
    pub payload: String,
}

} // verus!
