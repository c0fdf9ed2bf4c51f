//! The Code Mode engine: its limits, the script it hands the isolate, and
//! what it makes of the isolate's answer.

use vstd::prelude::*;

use crate::error::Error;
use crate::limits::ExecLimits;
use crate::time::Duration;

verus! {

/// The JS shim that exposes the friendly `skarn` API on top of the raw host
/// functions. Injected before every script.
pub const PRELUDE_JS: &'static str = r#"
globalThis.__skarn_logs = [];
const skarn = {
  async callTool(server, tool, args) {
    const raw = await __skarn_call_tool(String(server), String(tool), JSON.stringify(args ?? {}));
    const r = JSON.parse(raw);
    if (!r.ok) throw new Error(r.error || "tool error");
    return r.result;
  },
  async readResource(server, uri) {
    const raw = await __skarn_read_resource(String(server), String(uri));
    const r = JSON.parse(raw);
    if (!r.ok) throw new Error(r.error || "resource error");
    return r.result;
  },
  async listTools() {
    const raw = await __skarn_list_tools();
    const r = JSON.parse(raw);
    if (!r.ok) throw new Error(r.error || "list error");
    return r.result;
  },
  log(...args) {
    globalThis.__skarn_logs.push(
      args.map((a) => (typeof a === "string" ? a : JSON.stringify(a))).join(" ")
    );
  },
  async parallel(calls, opts) {
    const concurrency = Math.max(1, (opts && opts.concurrency) || 8);
    const results = new Array(calls.length);
    let next = 0;
    async function worker() {
      while (next < calls.length) {
        const idx = next++;
        results[idx] = await calls[idx]();
      }
    }
    const n = Math.min(concurrency, calls.length);
    await Promise.all(Array.from({ length: n }, () => worker()));
    return results;
  },
  stash: (() => {
    const m = new Map();
    return {
      put: (k, v) => { m.set(String(k), v); },
      get: (k) => (m.has(String(k)) ? m.get(String(k)) : null),
      keys: () => Array.from(m.keys()),
    };
  })(),
  server(name) {
    return new Proxy({}, { get: (_t, tool) => (args) => skarn.callTool(name, String(tool), args) });
  },
};
globalThis.skarn = skarn;
"#;

/// The runner that invokes the user's `__skarn_main` and records the result
/// as JSON in `globalThis.__skarn_result`.
pub const RUNNER_JS: &'static str = r#"
;(async () => {
  try {
    const value = await __skarn_main();
    globalThis.__skarn_result = JSON.stringify({
      ok: true,
      value: value === undefined ? null : value,
      logs: globalThis.__skarn_logs,
    });
  } catch (e) {
    globalThis.__skarn_result = JSON.stringify({
      ok: false,
      error: e && e.stack ? String(e) + "\n" + e.stack : String(e),
      logs: globalThis.__skarn_logs,
    });
  }
})();
"#;

/// The name of the global the runner stores its JSON result in.
pub const RESULT_GLOBAL: &'static str = "__skarn_result";

/// The result of running a Code Mode script.
#[derive(Debug)]
pub struct Outcome {
    /// Whether the script completed without throwing.
    pub ok: bool,
    /// The value the script returned (JSON `null` if it returned nothing).
    pub value: serde_json::Value,
    /// The error message + stack if the script threw.
    pub error: Option<String>,
    /// Lines emitted via `skarn.log(...)`.
    pub logs: Vec<String>,
    /// How many tool calls the script made.
    pub tool_calls: usize,
}

/// The result record the runner leaves behind, as parsed from its JSON.
#[derive(Debug)]
pub struct RawOutcome {
    /// Whether the script completed without throwing.
    pub ok: bool,
    /// The value the script returned.
    pub value: serde_json::Value,
    /// The error message + stack if the script threw.
    pub error: Option<String>,
    /// Lines emitted via `skarn.log(...)`.
    pub logs: Vec<String>,
}

impl Outcome {
    /// The outcome of a run whose runner left `raw` behind and whose script
    /// made `tool_calls` accepted tool calls.
    pub fn from_raw(raw: RawOutcome, tool_calls: usize) -> (r: Outcome)
        ensures
            r.ok == raw.ok,
            r.value == raw.value,
            r.error == raw.error,
            r.logs == raw.logs,
            r.tool_calls == tool_calls,
    {
        Outcome { ok: raw.ok, value: raw.value, error: raw.error, logs: raw.logs, tool_calls }
    }

    /// What `skarn exec` reports for a script that threw:
    /// `script error: <message>`, with `unknown` when there is no message;
    /// `None` when the script completed.
    pub fn failure_message(&self) -> (r: Option<String>)
        ensures
            self.ok ==> r is None,
            !self.ok ==> r is Some && r->0@ == "script error: "@ + match self.error {
                Some(e) => e@,
                None => "unknown"@,
            },
    {
        if self.ok {
            None
        } else {
            let mut out = String::new();
            out.append("script error: ");
            match &self.error {
                Some(e) => out.append(e.as_str()),
                None => out.append("unknown"),
            }
            Some(out)
        }
    }
}

/// The source handed to the isolate: the prelude, the prepared script and
/// the runner, each on its own lines.
pub open spec fn spec_isolate_source(prepared: Seq<char>) -> Seq<char> {
    PRELUDE_JS@ + "\n"@ + prepared + "\n"@ + RUNNER_JS@
}

/// The Code Mode engine. Cheap to construct; one is reused per worker.
#[derive(Clone, Copy, Debug)]
pub struct Engine {
    limits: ExecLimits,
}

impl Engine {
    /// The limits the engine was configured with.
    pub closed spec fn spec_limits(self) -> ExecLimits {
        self.limits
    }

    /// An engine with the given limits.
    pub fn new(limits: ExecLimits) -> (r: Engine)
        ensures
            r.spec_limits() == limits,
    {
        Engine { limits }
    }

    /// An engine with the default limits.
    pub fn with_defaults() -> (r: Engine)
        ensures
            r.spec_limits() == ExecLimits::spec_default(),
    {
        Engine::new(ExecLimits::default())
    }

    /// The limits a run actually uses: the configured ones, raised to their
    /// safe floors.
    pub fn effective_limits(&self) -> (r: ExecLimits)
        ensures
            r == self.spec_limits().spec_sanitized(),
    {
        self.limits.sanitized()
    }

    /// The backstop for driving a run to completion: the wall clock plus five
    /// seconds, in case a host call hangs.
    pub fn grace_period(&self) -> (r: Duration)
        requires
            self.spec_limits().spec_sanitized().wall_clock@ + 5_000_000_000 < (u64::MAX + 1) * 1_000_000_000,
        ensures
            r@ == self.spec_limits().spec_sanitized().wall_clock@ + 5_000_000_000,
    {
        let wall = self.limits.sanitized().wall_clock;
        wall.add(Duration::from_secs(5))
    }

    /// The source handed to the isolate for an already-validated script.
    pub fn isolate_source(prepared_js: &str) -> (r: String)
        ensures
            r@ == spec_isolate_source(prepared_js@),
    {
        let mut out = String::new();
        out.append(PRELUDE_JS);
        out.append("\n");
        out.append(prepared_js);
        out.append("\n");
        out.append(RUNNER_JS);
        out
    }

    /// Check the JSON the runner left behind. A run that left nothing failed
    /// (it most likely timed out); a result longer than the sanitized output
    /// cap, counted in UTF-8 bytes, is rejected; anything else is handed back
    /// to be parsed.
    pub fn accept_output(&self, raw: Option<String>) -> (r: Result<String, Error>)
        requires
            raw is Some ==> vstd::utf8::encode_utf8(raw->0@).len() <= usize::MAX,
        ensures
            raw is None ==> r is Err && r->Err_0 is CodeMode
                && r->Err_0.detail() == "script did not produce a result (likely timed out)"@,
            raw is Some && vstd::utf8::encode_utf8(raw->0@).len()
                > self.spec_limits().spec_sanitized().max_output_bytes ==> r is Err && r->Err_0 is CodeMode
                && r->Err_0.detail() == "script output exceeded the "@ + crate::text::decimal(
                self.spec_limits().spec_sanitized().max_output_bytes as nat) + " byte limit"@,
            raw is Some && vstd::utf8::encode_utf8(raw->0@).len()
                <= self.spec_limits().spec_sanitized().max_output_bytes ==> r == Ok::<String, Error>(raw->0),
    {
        let limits = self.limits.sanitized();
        match raw {
            None => {
                let mut detail = String::new();
                detail.append("script did not produce a result (likely timed out)");
                Err(Error::CodeMode(detail))
            },
            Some(text) => {
                if text.as_str().len() > limits.max_output_bytes {
                    let mut detail = String::new();
                    detail.append("script output exceeded the ");
                    crate::text::push_decimal(&mut detail, limits.max_output_bytes);
                    detail.append(" byte limit");
                    Err(Error::CodeMode(detail))
                } else {
                    Ok(text)
                }
            },
        }
    }

    /// The error for a runner result that is not the expected JSON record.
    pub fn parse_failure(detail: &str) -> (r: Error)
        ensures
            r is CodeMode,
            r.detail() == "could not parse script result: "@ + detail@,
    {
        let mut out = String::new();
        out.append("could not parse script result: ");
        out.append(detail);
        Error::CodeMode(out)
    }
}

} // verus!
