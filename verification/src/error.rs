//! The shared error type.

use vstd::prelude::*;

verus! {

/// The unified error type. Each variant carries the human-readable detail of
/// the failure; [`Error::message`] renders the full message.
#[derive(Clone, Debug, PartialEq, Eq)]
pub enum Error {
    /// A filesystem or process I/O error.
    Io(String),
    /// A JSON (de)serialization error.
    Json(String),
    /// Invalid or unsupported configuration.
    Config(String),
    /// The OS-native sandbox layer rejected or could not apply a policy.
    Sandbox(String),
    /// The requested sandbox cannot be enforced here and `fail_closed` was set.
    SandboxUnsupported(String),
    /// A Code Mode script was rejected by static validation.
    CodeModeRejected(String),
    /// A Code Mode script failed at runtime (threw, timed out, or hit a limit).
    CodeMode(String),
    /// A downstream MCP server or transport error.
    Mcp(String),
    /// A tool was requested that the gateway does not know about.
    UnknownTool(String),
    /// Anything that does not fit the variants above.
    Other(String),
}

/// A `Result` whose error is [`Error`].
pub type Result<T> = core::result::Result<T, Error>;

impl Error {
    /// The fixed text that introduces the detail of each variant.
    pub open spec fn prefix(self) -> Seq<char> {
        match self {
            Error::Io(_) => "io error: "@,
            Error::Json(_) => "json error: "@,
            Error::Config(_) => "configuration error: "@,
            Error::Sandbox(_) => "sandbox error: "@,
            Error::SandboxUnsupported(_) => "sandbox unsupported on this platform: "@,
            Error::CodeModeRejected(_) => "code-mode validation rejected script: "@,
            Error::CodeMode(_) => "code-mode runtime error: "@,
            Error::Mcp(_) => "mcp error: "@,
            Error::UnknownTool(_) => "unknown tool: "@,
            Error::Other(_) => ""@,
        }
    }

    /// The detail carried by the error.
    pub open spec fn detail(self) -> Seq<char> {
        match self {
            Error::Io(s) => s@,
            Error::Json(s) => s@,
            Error::Config(s) => s@,
            Error::Sandbox(s) => s@,
            Error::SandboxUnsupported(s) => s@,
            Error::CodeModeRejected(s) => s@,
            Error::CodeMode(s) => s@,
            Error::Mcp(s) => s@,
            Error::UnknownTool(s) => s@,
            Error::Other(s) => s@,
        }
    }

    /// The rendered message: the variant's prefix followed by its detail.
    pub open spec fn spec_message(self) -> Seq<char> {
        self.prefix() + self.detail()
    }

    /// Render the error as the text a user sees.
    pub fn message(&self) -> (r: String)
        ensures
            r@ == self.spec_message(),
    {
        let (prefix, detail): (&str, &String) = match self {
            Error::Io(s) => ("io error: ", s),
            Error::Json(s) => ("json error: ", s),
            Error::Config(s) => ("configuration error: ", s),
            Error::Sandbox(s) => ("sandbox error: ", s),
            Error::SandboxUnsupported(s) => ("sandbox unsupported on this platform: ", s),
            Error::CodeModeRejected(s) => ("code-mode validation rejected script: ", s),
            Error::CodeMode(s) => ("code-mode runtime error: ", s),
            Error::Mcp(s) => ("mcp error: ", s),
            Error::UnknownTool(s) => ("unknown tool: ", s),
            Error::Other(s) => ("", s),
        };
        let mut out = String::new();
        out.append(prefix);
        out.append(detail.as_str());
        out
    }
}

} // verus!
