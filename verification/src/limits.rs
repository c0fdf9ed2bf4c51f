//! Resource limits for a single Code Mode execution.

use vstd::prelude::*;

use crate::time::Duration;

verus! {

/// One mebibyte.
pub const MIB: usize = 1048576;

/// The smallest heap a sanitized limit allows (1 MiB).
pub const MEMORY_FLOOR: usize = 1048576;
/// The smallest native stack a sanitized limit allows (64 KiB).
pub const STACK_FLOOR: usize = 65536;
/// The shortest wall-clock deadline a sanitized limit allows, in milliseconds.
pub const WALL_CLOCK_FLOOR_MS: u64 = 100;
/// The smallest output cap a sanitized limit allows (1 KiB).
pub const OUTPUT_FLOOR: usize = 1024;

/// Resource limits for a single Code Mode execution.
#[derive(Clone, Copy, Debug, PartialEq, Eq)]
pub struct ExecLimits {
    /// QuickJS heap limit in bytes.
    pub memory_bytes: usize,
    /// Maximum native stack in bytes.
    pub max_stack_bytes: usize,
    /// Wall-clock deadline for the whole run.
    pub wall_clock: Duration,
    /// Maximum number of host tool calls a script may make.
    pub max_tool_calls: usize,
    /// Maximum size of the returned result JSON (bytes) before it is rejected.
    pub max_output_bytes: usize,
}

/// The larger of two sizes.
pub open spec fn max_usize(a: usize, b: usize) -> usize {
    if a < b { b } else { a }
}

fn larger(a: usize, b: usize) -> (r: usize)
    ensures
        r == max_usize(a, b),
{
    if a < b { b } else { a }
}

impl ExecLimits {
    /// The default limits: 64 MiB heap, 1 MiB stack, 30 s wall clock,
    /// 256 tool calls and 1 MiB of output.
    pub open spec fn spec_default() -> ExecLimits {
        ExecLimits {
            memory_bytes: 67108864,
            max_stack_bytes: 1048576,
            wall_clock: Duration::spec_from_secs(30),
            max_tool_calls: 256,
            max_output_bytes: 1048576,
        }
    }

    /// The limits raised to their safe floors; the tool-call budget is kept
    /// as it is, since `0` is a legitimate "no tool calls" policy.
    pub open spec fn spec_sanitized(self) -> ExecLimits {
        ExecLimits {
            memory_bytes: max_usize(self.memory_bytes, MEMORY_FLOOR),
            max_stack_bytes: max_usize(self.max_stack_bytes, STACK_FLOOR),
            wall_clock: Duration::spec_max(self.wall_clock, Duration::spec_from_millis(WALL_CLOCK_FLOOR_MS)),
            max_tool_calls: self.max_tool_calls,
            max_output_bytes: max_usize(self.max_output_bytes, OUTPUT_FLOOR),
        }
    }

    /// Clamp the limits to safe floors so a misconfiguration (e.g. a zero
    /// memory or wall-clock value) cannot make every script fail with a
    /// confusing error. `max_tool_calls` is not floored.
    pub fn sanitized(self) -> (r: ExecLimits)
        ensures
            r == self.spec_sanitized(),
            r.memory_bytes >= MEMORY_FLOOR,
            r.max_stack_bytes >= STACK_FLOOR,
            r.wall_clock@ >= 100_000_000,
            r.max_output_bytes >= OUTPUT_FLOOR,
            r.max_tool_calls == self.max_tool_calls,
            self.memory_bytes >= MEMORY_FLOOR ==> r.memory_bytes == self.memory_bytes,
            self.max_stack_bytes >= STACK_FLOOR ==> r.max_stack_bytes == self.max_stack_bytes,
            self.wall_clock@ >= 100_000_000 ==> r.wall_clock == self.wall_clock,
            self.max_output_bytes >= OUTPUT_FLOOR ==> r.max_output_bytes == self.max_output_bytes,
    {
        let floor = Duration::from_millis(WALL_CLOCK_FLOOR_MS);
        ExecLimits {
            memory_bytes: larger(self.memory_bytes, MEMORY_FLOOR),
            max_stack_bytes: larger(self.max_stack_bytes, STACK_FLOOR),
            wall_clock: self.wall_clock.max(floor),
            max_tool_calls: self.max_tool_calls,
            max_output_bytes: larger(self.max_output_bytes, OUTPUT_FLOOR),
        }
    }

    /// Sanitizing twice changes nothing more than sanitizing once.
    pub proof fn lemma_sanitized_idempotent(self)
        ensures
            self.spec_sanitized().spec_sanitized() == self.spec_sanitized(),
    {
    }

    /// The default limits are already above every floor.
    pub proof fn lemma_default_is_sanitized()
        ensures
            ExecLimits::spec_default().spec_sanitized() == ExecLimits::spec_default(),
    {
        Duration::lemma_from_secs(30);
        Duration::lemma_from_millis(WALL_CLOCK_FLOOR_MS);
    }

    /// Raising any limit never lowers the sanitized limit.
    pub proof fn lemma_sanitized_monotonic(self, other: ExecLimits)
        requires
            self.memory_bytes <= other.memory_bytes,
            self.max_stack_bytes <= other.max_stack_bytes,
            self.wall_clock@ <= other.wall_clock@,
            self.max_tool_calls <= other.max_tool_calls,
            self.max_output_bytes <= other.max_output_bytes,
        ensures
            self.spec_sanitized().memory_bytes <= other.spec_sanitized().memory_bytes,
            self.spec_sanitized().max_stack_bytes <= other.spec_sanitized().max_stack_bytes,
            self.spec_sanitized().wall_clock@ <= other.spec_sanitized().wall_clock@,
            self.spec_sanitized().max_tool_calls <= other.spec_sanitized().max_tool_calls,
            self.spec_sanitized().max_output_bytes <= other.spec_sanitized().max_output_bytes,
    {
    }
}

impl Default for ExecLimits {
    fn default() -> (r: ExecLimits)
        ensures
            r == ExecLimits::spec_default(),
            r.wall_clock@ == 30_000_000_000,
    {
        ExecLimits {
            memory_bytes: 64 * MIB,
            max_stack_bytes: MIB,
            wall_clock: Duration::from_secs(30),
            max_tool_calls: 256,
            max_output_bytes: MIB,
        }
    }
}

} // verus!
