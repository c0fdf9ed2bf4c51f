//! The decisions behind the `skarn` subcommands: their arguments, and what
//! each subcommand makes of them before and after it touches the outside
//! world.

use vstd::prelude::*;

use crate::command::CommandSpec;
use crate::limits::{ExecLimits, MIB};
use crate::sandbox::{NetPolicy, Policy, PolicyBuilder};
use crate::time::Duration;

verus! {

/// The config file looked for in the current directory.
pub const DEFAULT_CONFIG_FILE: &'static str = "skarn.toml";

/// The Code Mode limits a subcommand takes from its flags.
#[derive(Clone, Copy, Debug, PartialEq, Eq)]
pub struct LimitArgs {
    /// QuickJS heap limit (MB) for `execute`.
    pub mem_mb: usize,
    /// Wall-clock timeout (seconds) for `execute`.
    pub timeout_secs: u64,
    /// Maximum downstream tool calls per `execute`.
    pub max_tool_calls: usize,
}

impl LimitArgs {
    /// The limits these flags ask for: the heap in MiB, the timeout in whole
    /// seconds, the tool-call budget, and the default stack and output caps.
    pub open spec fn spec_to_limits(self) -> ExecLimits {
        ExecLimits {
            memory_bytes: (self.mem_mb * MIB) as usize,
            wall_clock: Duration::spec_from_secs(self.timeout_secs),
            max_tool_calls: self.max_tool_calls,
            ..ExecLimits::spec_default()
        }
    }

    /// The flags' defaults: 64 MB, 30 seconds, 256 tool calls.
    pub open spec fn spec_default_flags() -> LimitArgs {
        LimitArgs { mem_mb: 64, timeout_secs: 30, max_tool_calls: 256 }
    }

    /// The execution limits these flags ask for.
    pub fn to_limits(&self) -> (r: ExecLimits)
        requires
            self.mem_mb * MIB <= usize::MAX,
        ensures
            r == self.spec_to_limits(),
            r.memory_bytes == self.mem_mb * MIB,
            r.wall_clock@ == self.timeout_secs * 1_000_000_000,
            r.max_tool_calls == self.max_tool_calls,
            r.max_stack_bytes == 1048576,
            r.max_output_bytes == 1048576,
    {
        let defaults = ExecLimits::default();
        ExecLimits {
            memory_bytes: self.mem_mb * MIB,
            wall_clock: Duration::from_secs(self.timeout_secs),
            max_tool_calls: self.max_tool_calls,
            ..defaults
        }
    }

    /// Every flag value is carried over as asked: the heap is the flag's
    /// mebibytes, the wall clock the flag's seconds, the tool-call budget the
    /// flag itself; stack and output keep their one-mebibyte defaults.
    pub proof fn lemma_flags_carried(flags: LimitArgs)
        requires
            flags.mem_mb * MIB <= usize::MAX,
        ensures
            flags.spec_to_limits().memory_bytes == flags.mem_mb * 1048576,
            flags.spec_to_limits().wall_clock@ == flags.timeout_secs * 1_000_000_000,
            flags.spec_to_limits().max_tool_calls == flags.max_tool_calls,
            flags.spec_to_limits().max_stack_bytes == 1048576,
            flags.spec_to_limits().max_output_bytes == 1048576,
    {
        Duration::lemma_from_secs(flags.timeout_secs);
    }

    /// Two flag sets that differ only in the tool-call budget give limits
    /// that differ only there, by exactly that budget.
    pub proof fn lemma_budget_flag_independent(a: LimitArgs, b: LimitArgs)
        requires
            a.mem_mb == b.mem_mb,
            a.timeout_secs == b.timeout_secs,
        ensures
            a.spec_to_limits().max_tool_calls == a.max_tool_calls,
            b.spec_to_limits().max_tool_calls == b.max_tool_calls,
            a.spec_to_limits().memory_bytes == b.spec_to_limits().memory_bytes,
            a.spec_to_limits().wall_clock == b.spec_to_limits().wall_clock,
    {
    }

    /// With the flags left at their defaults the engine gets its default
    /// limits.
    pub proof fn lemma_default_flags_give_default_limits()
        ensures
            LimitArgs::spec_default_flags().spec_to_limits() == ExecLimits::spec_default(),
    {
    }
}

impl Default for LimitArgs {
    /// The flags' defaults: 64 MB, 30 seconds, 256 tool calls.
    fn default() -> (r: LimitArgs)
        ensures
            r == LimitArgs::spec_default_flags(),
    {
        LimitArgs { mem_mb: 64, timeout_secs: 30, max_tool_calls: 256 }
    }
}

/// The network policy a `skarn run` flag asks for.
#[derive(Clone, Copy, Debug, PartialEq, Eq)]
pub enum NetArg {
    /// Deny all network access (default).
    Deny,
    /// Allow loopback only.
    Loopback,
    /// Allow outbound connections.
    Outbound,
    /// Allow all network access.
    All,
}

impl Default for NetArg {
    fn default() -> (r: NetArg)
        ensures
            r == NetArg::Deny,
    {
        NetArg::Deny
    }
}

/// The sandbox network policy for a flag value.
pub open spec fn net_policy_of(n: NetArg) -> NetPolicy {
    match n {
        NetArg::Deny => NetPolicy::DenyAll,
        NetArg::Loopback => NetPolicy::AllowLoopback,
        NetArg::Outbound => NetPolicy::AllowOutbound,
        NetArg::All => NetPolicy::AllowAll,
    }
}

impl From<NetArg> for NetPolicy {
    fn from(n: NetArg) -> (r: NetPolicy) {
        match n {
            NetArg::Deny => NetPolicy::DenyAll,
            NetArg::Loopback => NetPolicy::AllowLoopback,
            NetArg::Outbound => NetPolicy::AllowOutbound,
            NetArg::All => NetPolicy::AllowAll,
        }
    }
}

impl vstd::std_specs::convert::FromSpecImpl<NetArg> for NetPolicy {
    open spec fn obeys_from_spec() -> bool {
        true
    }

    open spec fn from_spec(n: NetArg) -> NetPolicy {
        net_policy_of(n)
    }
}

/// Distinct flag values ask for distinct network policies, and the default
/// flag denies all network access.
pub proof fn lemma_net_policy_faithful(a: NetArg, b: NetArg)
    ensures
        a != b ==> net_policy_of(a) != net_policy_of(b),
        net_policy_of(NetArg::Deny) == NetPolicy::DenyAll,
{
}

/// The arguments of `skarn serve`.
#[derive(Debug)]
pub struct ServeArgs {
    /// Path to the gateway config (default: ./skarn.toml if present).
    pub config: Option<std::path::PathBuf>,
    /// Expose the namespaced downstream tools directly, in addition to the meta-tools.
    pub passthrough: bool,
    /// Code Mode limits.
    pub limits: LimitArgs,
}

/// The arguments of `skarn exec`.
#[derive(Debug)]
pub struct ExecArgs {
    /// Path to the gateway config (default: ./skarn.toml if present).
    pub config: Option<std::path::PathBuf>,
    /// Inline script source.
    pub code: Option<String>,
    /// Read the script from a file (`-` for stdin), as the path's encoded
    /// bytes.
    pub file: Option<Vec<u8>>,
    /// Code Mode limits.
    pub limits: LimitArgs,
}

/// The arguments of `skarn run`.
#[derive(Debug)]
pub struct RunArgs {
    /// Network policy for the sandboxed command.
    pub net: NetArg,
    /// The writable workspace directory (default: current directory).
    pub workspace: Option<std::path::PathBuf>,
    /// Disable OS-native sandboxing (runs the command unconfined).
    pub no_sandbox: bool,
    /// Do not compress the command output.
    pub no_compress: bool,
    /// Print a one-line token-savings summary to stderr.
    pub stats: bool,
    /// The command to run, after `--`.
    pub command: Vec<String>,
}

/// The arguments of `skarn init`.
#[derive(Clone, Copy, Debug)]
pub struct InitArgs {
    /// Overwrite an existing skarn.toml.
    pub force: bool,
}

/// Where `skarn exec` takes its script from.
#[derive(Debug)]
pub enum ScriptOrigin {
    /// The script given inline with `--code`.
    Inline(String),
    /// Standard input (`--file -`).
    Stdin,
    /// A script file, named by its path's encoded bytes.
    File(Vec<u8>),
}

/// The `--file` value that stands for standard input: the single byte `-`.
pub open spec fn is_stdin_marker(path: Seq<u8>) -> bool {
    path == seq![45u8]
}

/// Whether the path bytes are the single byte `-`.
pub fn names_standard_input(path: &Vec<u8>) -> (r: bool)
    ensures
        r == is_stdin_marker(path@),
{
    let r = path.len() == 1 && path[0] == 45u8;
    proof {
        if r {
            assert(path@ =~= seq![45u8]);
        }
    }
    r
}

/// The message `skarn exec` fails with when given no script.
pub open spec fn no_script_message() -> Seq<char> {
    "provide a script with --code or --file"@
}

impl ExecArgs {
    /// Where the script comes from: `--code` wins over `--file`; `--file -`
    /// is standard input; with neither, the run fails.
    pub fn script_origin(self) -> (r: core::result::Result<ScriptOrigin, String>)
        ensures
            self.code is Some ==> r == Ok::<ScriptOrigin, String>(ScriptOrigin::Inline(self.code->0)),
            self.code is None && self.file is Some && is_stdin_marker(self.file->0@)
                ==> r == Ok::<ScriptOrigin, String>(ScriptOrigin::Stdin),
            self.code is None && self.file is Some && !is_stdin_marker(self.file->0@)
                ==> r == Ok::<ScriptOrigin, String>(ScriptOrigin::File(self.file->0)),
            self.code is None && self.file is None ==> r is Err && r->Err_0@ == no_script_message(),
    {
        match self.code {
            Some(code) => Ok(ScriptOrigin::Inline(code)),
            None => match self.file {
                Some(path) => {
                    if names_standard_input(&path) {
                        Ok(ScriptOrigin::Stdin)
                    } else {
                        Ok(ScriptOrigin::File(path))
                    }
                },
                None => {
                    let mut message = String::new();
                    message.append("provide a script with --code or --file");
                    Err(message)
                },
            },
        }
    }
}

/// Which gateway configuration a subcommand loads.
#[derive(Debug)]
pub enum ConfigSource {
    /// The file named with `--config`.
    Explicit(std::path::PathBuf),
    /// `./skarn.toml`, which exists.
    DefaultFile,
    /// No file: the built-in default configuration (no downstream servers).
    Builtin,
}

/// Which configuration to load: the `--config` path when given, otherwise
/// `./skarn.toml` when it exists, otherwise the built-in default.
pub fn config_source(path: Option<std::path::PathBuf>, default_exists: bool) -> (r: ConfigSource)
    ensures
        path is Some ==> r == ConfigSource::Explicit(path->0),
        path is None && default_exists ==> r is DefaultFile,
        path is None && !default_exists ==> r is Builtin,
{
    match path {
        Some(p) => ConfigSource::Explicit(p),
        None => if default_exists { ConfigSource::DefaultFile } else { ConfigSource::Builtin },
    }
}

impl InitArgs {
    /// Whether `skarn init` writes the config: when none exists yet, or when
    /// `--force` asks to overwrite it.
    pub fn should_write(&self, already_present: bool) -> (r: bool)
        ensures
            r == (!already_present || self.force),
    {
        !already_present || self.force
    }
}

/// The message `skarn run` fails with when no command follows `--`.
pub open spec fn no_command_message() -> Seq<char> {
    "no command provided after `--`"@
}

impl RunArgs {
    /// The command to run: the words after `--`, the first one the program.
    pub fn command_spec(&self) -> (r: core::result::Result<CommandSpec, String>)
        ensures
            self.command@.len() == 0 ==> r is Err && r->Err_0@ == no_command_message(),
            self.command@.len() > 0 ==> r is Ok && r->Ok_0.program@ == self.command@[0]@
                && r->Ok_0.args@.len() == self.command@.len() - 1
                && (forall|i: int| 0 <= i < r->Ok_0.args@.len() ==>
                    #[trigger] r->Ok_0.args@[i]@ == self.command@[i + 1]@)
                && r->Ok_0.cwd is None && r->Ok_0.env@.len() == 0,
    {
        match CommandSpec::from_argv(self.command.as_slice()) {
            Some(spec) => Ok(spec),
            None => {
                let mut message = String::new();
                message.append("no command provided after `--`");
                Err(message)
            },
        }
    }
}

/// The sandbox policy for `skarn run`: confine the command to `workspace`
/// (read and write it, read the system directories, deny the secret
/// stores), with the network policy the `--net` flag asks for.
pub fn workspace_policy(
    net: NetArg,
    workspace: std::path::PathBuf,
    secret_paths: Vec<std::path::PathBuf>,
) -> (r: Policy)
    ensures
        r.fs_read@.len() == 0,
        r.fs_read_write@ == seq![workspace],
        r.fs_exec@.len() == 0,
        r.fs_deny_read@ == secret_paths@,
        r.net == net_policy_of(net),
        r.allow_read_system,
        r.fail_closed,
{
    let builder: PolicyBuilder = Policy::builder().workspace(workspace, secret_paths);
    let net_policy: NetPolicy = NetPolicy::from(net);
    let r = builder.net(net_policy).build();
    assert(r.fs_read_write@ =~= seq![workspace]);
    assert(r.fs_deny_read@ =~= secret_paths@);
    r
}

/// Whether `skarn run` ends the compressed output with a newline of its
/// own: when the text is not empty and does not already end with one.
pub fn needs_trailing_newline(text: &str) -> (r: bool)
    ensures
        r == (text@.len() > 0 && text@.last() != '\n'),
{
    let n = text.unicode_len();
    if n == 0 {
        false
    } else {
        text.get_char(n - 1) != '\n'
    }
}

/// The exit status `skarn run` ends with: the command's own code, or `1`
/// when the command was ended by a signal and has none.
pub fn exit_code(code: Option<i32>) -> (r: i32)
    ensures
        r == match code {
            Some(c) => c,
            None => 1,
        },
{
    match code {
        Some(c) => c,
        None => 1,
    }
}

/// What the hidden `__worker` subcommand reports for the job it ran: success,
/// or the job's error after `worker: `.
pub fn worker(job: crate::error::Result<()>) -> (r: core::result::Result<(), String>)
    ensures
        job is Ok ==> r is Ok,
        job is Err ==> r is Err && r->Err_0@ == "worker: "@ + job->Err_0.spec_message(),
{
    match job {
        Ok(()) => Ok(()),
        Err(e) => {
            let mut message = String::new();
            message.append("worker: ");
            let detail = e.message();
            message.append(detail.as_str());
            Err(message)
        },
    }
}

} // verus!
