//! The OS-sandbox policy and what a sandbox backend reports back.
//!
//! This library carries the platform-independent half of the sandbox: the
//! declarative [`Policy`], the fail-closed decision on a backend's report,
//! and the fallback backend for platforms without a kernel sandbox.

use vstd::prelude::*;

use crate::error::Error;

verus! {

/// A filesystem path, carried through the library unchanged.
#[verifier::external_type_specification]
#[verifier::external_body]
pub struct ExPathBuf(std::path::PathBuf);

/// Well-known secret locations under the user's home directory that
/// sandboxed code must not read, even where broad reads are permitted.
pub const SECRET_SUBPATHS: [&'static str; 12] = [
    ".ssh",
    ".aws",
    ".gnupg",
    ".kube",
    ".docker",
    ".netrc",
    ".npmrc",
    ".pypirc",
    ".config/gcloud",
    ".config/gh",
    ".cargo/credentials",
    ".cargo/credentials.toml",
];

/// A network access policy.
#[derive(Clone, Copy, Debug, PartialEq, Eq)]
pub enum NetPolicy {
    /// Deny all network access (the secure default).
    DenyAll,
    /// Allow loopback traffic only (localhost).
    AllowLoopback,
    /// Allow outbound connections but deny inbound binds.
    AllowOutbound,
    /// Allow all network access (escape hatch; discouraged).
    AllowAll,
}

impl Default for NetPolicy {
    fn default() -> (r: NetPolicy)
        ensures
            r == NetPolicy::DenyAll,
    {
        NetPolicy::DenyAll
    }
}

/// A declarative description of what a sandboxed process may do.
#[derive(Debug)]
pub struct Policy {
    /// Subtrees the process may read.
    pub fs_read: Vec<std::path::PathBuf>,
    /// Subtrees the process may read and write.
    pub fs_read_write: Vec<std::path::PathBuf>,
    /// Subtrees the process may execute binaries from.
    pub fs_exec: Vec<std::path::PathBuf>,
    /// Secret subtrees that must not be readable.
    pub fs_deny_read: Vec<std::path::PathBuf>,
    /// Network policy.
    pub net: NetPolicy,
    /// Allow read (and exec) of the standard system directories.
    pub allow_read_system: bool,
    /// Refuse to run, rather than run unconfined, when the backend cannot
    /// enforce the policy.
    pub fail_closed: bool,
}

impl Policy {
    /// The default policy: nothing granted, no network, system reads allowed,
    /// fail closed.
    pub open spec fn is_default(self) -> bool {
        &&& self.fs_read@.len() == 0
        &&& self.fs_read_write@.len() == 0
        &&& self.fs_exec@.len() == 0
        &&& self.fs_deny_read@.len() == 0
        &&& self.net == NetPolicy::DenyAll
        &&& self.allow_read_system
        &&& self.fail_closed
    }

    /// Start building a policy from the default one.
    pub fn builder() -> (r: PolicyBuilder)
        ensures
            r.policy.is_default(),
    {
        PolicyBuilder { policy: Policy::default() }
    }

    /// The decision on a backend's report: a policy that the backend could
    /// not enforce at all is refused when it is fail-closed; every other
    /// report, and every backend error, is passed on unchanged.
    pub fn enforce(&self, report: Result<RestrictionReport, Error>) -> (r: Result<RestrictionReport, Error>)
        ensures
            match report {
                Ok(rep) => if rep.status == RestrictionStatus::NotEnforced && self.fail_closed {
                    r is Err && r->Err_0 is SandboxUnsupported && r->Err_0.detail() == rep.backend.spec_name()
                        + " backend could not enforce the policy and fail_closed is set"@
                } else {
                    r == Ok::<RestrictionReport, Error>(rep)
                },
                Err(e) => r == Err::<RestrictionReport, Error>(e),
            },
    {
        match report {
            Ok(rep) => {
                let refused = match rep.status {
                    RestrictionStatus::NotEnforced => self.fail_closed,
                    _ => false,
                };
                if refused {
                    let mut detail = String::new();
                    detail.append(rep.backend.name());
                    detail.append(" backend could not enforce the policy and fail_closed is set");
                    Err(Error::SandboxUnsupported(detail))
                } else {
                    Ok(rep)
                }
            },
            Err(e) => Err(e),
        }
    }

    /// Apply this policy to the current process with the backend this
    /// library provides — the fallback backend, [`apply`], which enforces
    /// nothing — refusing when the policy is fail-closed. A kernel backend
    /// hands its report to [`Policy::enforce`] in the same way.
    pub fn apply_to_current_process(&self) -> (r: Result<RestrictionReport, Error>)
        ensures
            self.fail_closed ==> r is Err && r->Err_0 is SandboxUnsupported && r->Err_0.detail()
                == Backend::Unavailable.spec_name() + " backend could not enforce the policy and fail_closed is set"@,
            !self.fail_closed ==> r is Ok && r->Ok_0.backend == Backend::Unavailable
                && r->Ok_0.status == RestrictionStatus::NotEnforced && r->Ok_0.notes@.len() == 1
                && r->Ok_0.notes@[0]@ == fallback_note(),
    {
        self.enforce(apply(self))
    }
}

impl Default for Policy {
    fn default() -> (r: Policy)
        ensures
            r.is_default(),
    {
        Policy {
            fs_read: Vec::new(),
            fs_read_write: Vec::new(),
            fs_exec: Vec::new(),
            fs_deny_read: Vec::new(),
            net: NetPolicy::DenyAll,
            allow_read_system: true,
            fail_closed: true,
        }
    }
}

/// Builder for [`Policy`].
#[derive(Debug)]
pub struct PolicyBuilder {
    /// The policy built so far.
    pub policy: Policy,
}

impl PolicyBuilder {
    /// Confine to a single project directory: read+write `dir`, read (and
    /// exec) the system directories, deny the given secret stores, and deny
    /// network.
    pub fn workspace(self, dir: std::path::PathBuf, secret_paths: Vec<std::path::PathBuf>) -> (r: PolicyBuilder)
        ensures
            r.policy.fs_read@ == self.policy.fs_read@,
            r.policy.fs_read_write@ == self.policy.fs_read_write@.push(dir),
            r.policy.fs_exec@ == self.policy.fs_exec@,
            r.policy.fs_deny_read@ == self.policy.fs_deny_read@ + secret_paths@,
            r.policy.net == NetPolicy::DenyAll,
            r.policy.allow_read_system,
            r.policy.fail_closed == self.policy.fail_closed,
    {
        let mut policy = self.policy;
        let mut secrets = secret_paths;
        policy.fs_read_write.push(dir);
        policy.fs_deny_read.append(&mut secrets);
        policy.allow_read_system = true;
        policy.net = NetPolicy::DenyAll;
        PolicyBuilder { policy }
    }

    /// Set the network policy.
    pub fn net(self, net: NetPolicy) -> (r: PolicyBuilder)
        ensures
            r.policy.fs_read@ == self.policy.fs_read@,
            r.policy.fs_read_write@ == self.policy.fs_read_write@,
            r.policy.fs_exec@ == self.policy.fs_exec@,
            r.policy.fs_deny_read@ == self.policy.fs_deny_read@,
            r.policy.net == net,
            r.policy.allow_read_system == self.policy.allow_read_system,
            r.policy.fail_closed == self.policy.fail_closed,
    {
        let mut policy = self.policy;
        policy.net = net;
        PolicyBuilder { policy }
    }

    /// Finish building.
    pub fn build(self) -> (r: Policy)
        ensures
            r == self.policy,
    {
        self.policy
    }
}

/// Which kernel mechanism is in use.
#[derive(Clone, Copy, Debug, PartialEq, Eq)]
pub enum Backend {
    /// macOS Seatbelt (`sandbox_init`).
    Seatbelt,
    /// Linux Landlock LSM (+ seccomp-bpf).
    Landlock,
    /// Windows AppContainer.
    AppContainer,
    /// No sandbox available on this platform (displayed as `None`).
    Unavailable,
}

impl Backend {
    /// The backend's display name.
    pub open spec fn spec_name(self) -> Seq<char> {
        match self {
            Backend::Seatbelt => "Seatbelt"@,
            Backend::Landlock => "Landlock"@,
            Backend::AppContainer => "AppContainer"@,
            Backend::Unavailable => "None"@,
        }
    }

    /// The backend's display name.
    pub fn name(&self) -> (r: &'static str)
        ensures
            r@ == self.spec_name(),
    {
        match self {
            Backend::Seatbelt => "Seatbelt",
            Backend::Landlock => "Landlock",
            Backend::AppContainer => "AppContainer",
            Backend::Unavailable => "None",
        }
    }
}

/// How completely a policy was (or would be) enforced.
#[derive(Clone, Copy, Debug, PartialEq, Eq)]
pub enum RestrictionStatus {
    /// The full policy is enforced.
    FullyEnforced,
    /// Some of the policy is enforced; the kernel is too old for the rest.
    PartiallyEnforced,
    /// Nothing is enforced (no backend / unsupported kernel).
    NotEnforced,
}

/// The result of applying (or probing) a sandbox.
#[derive(Debug)]
pub struct RestrictionReport {
    /// The backend that handled (or would handle) the policy.
    pub backend: Backend,
    /// Enforcement completeness.
    pub status: RestrictionStatus,
    /// Human-readable notes (e.g. degraded ABI levels, network caveats).
    pub notes: Vec<String>,
}

impl RestrictionReport {
    /// A report with no notes.
    pub fn new(backend: Backend, status: RestrictionStatus) -> (r: RestrictionReport)
        ensures
            r.backend == backend,
            r.status == status,
            r.notes@.len() == 0,
    {
        RestrictionReport { backend, status, notes: Vec::new() }
    }

    /// The report with one more note at the end.
    pub fn note(self, note: String) -> (r: RestrictionReport)
        ensures
            r.backend == self.backend,
            r.status == self.status,
            r.notes@ == self.notes@.push(note),
    {
        let mut notes = self.notes;
        notes.push(note);
        RestrictionReport { backend: self.backend, status: self.status, notes }
    }
}

/// The note the fallback backend leaves on its report.
pub open spec fn fallback_note() -> Seq<char> {
    "no OS-native sandbox backend on this platform"@
}

/// The fallback backend for platforms without an OS-native sandbox: nothing
/// is enforced, and the report says so.
pub fn apply(_policy: &Policy) -> (r: Result<RestrictionReport, Error>)
    ensures
        r is Ok,
        r->Ok_0.backend == Backend::Unavailable,
        r->Ok_0.status == RestrictionStatus::NotEnforced,
        r->Ok_0.notes@.len() == 1,
        r->Ok_0.notes@[0]@ == fallback_note(),
{
    let mut note = String::new();
    note.append("no OS-native sandbox backend on this platform");
    Ok(RestrictionReport::new(Backend::Unavailable, RestrictionStatus::NotEnforced).note(note))
}

} // verus!
