use skarn::cli::LimitArgs;
use skarn::engine::Engine;
use skarn::limits::ExecLimits;
use skarn::text::decimal_string;
use skarn::time::Duration;

#[test]
fn default_limits_match_the_documented_values() {
    let l = ExecLimits::default();
    assert_eq!(l.memory_bytes, 64 * 1024 * 1024);
    assert_eq!(l.max_stack_bytes, 1024 * 1024);
    assert_eq!(l.wall_clock, Duration::from_secs(30));
    assert_eq!(l.max_tool_calls, 256);
    assert_eq!(l.max_output_bytes, 1024 * 1024);
}

#[test]
fn sanitized_raises_zero_limits_to_their_floors() {
    let l = ExecLimits {
        memory_bytes: 0,
        max_stack_bytes: 0,
        wall_clock: Duration::from_secs(0),
        max_tool_calls: 0,
        max_output_bytes: 0,
    };
    let s = l.sanitized();
    assert_eq!(s.memory_bytes, 1024 * 1024);
    assert_eq!(s.max_stack_bytes, 64 * 1024);
    assert_eq!(s.wall_clock, Duration::from_millis(100));
    assert_eq!(s.max_tool_calls, 0, "a zero tool-call budget is a legitimate policy");
    assert_eq!(s.max_output_bytes, 1024);
}

#[test]
fn sanitized_keeps_values_above_the_floors() {
    let l = ExecLimits {
        wall_clock: Duration::from_millis(300),
        max_tool_calls: 3,
        ..ExecLimits::default()
    };
    let s = l.sanitized();
    assert_eq!(s, l);
    assert_eq!(s.wall_clock.as_secs(), 0);
    assert_eq!(s.wall_clock.subsec_nanos(), 300_000_000);
}

#[test]
fn sanitized_output_cap_of_256_becomes_1024() {
    let l = ExecLimits { max_output_bytes: 256, ..ExecLimits::default() };
    assert_eq!(l.sanitized().max_output_bytes, 1024);
}

#[test]
fn sanitizing_twice_is_sanitizing_once() {
    let l = ExecLimits {
        memory_bytes: 10,
        max_stack_bytes: 1 << 20,
        wall_clock: Duration::new(0, 5),
        max_tool_calls: 7,
        max_output_bytes: 5000,
    };
    assert_eq!(l.sanitized().sanitized(), l.sanitized());
}

#[test]
fn default_limits_are_already_sanitized() {
    assert_eq!(ExecLimits::default().sanitized(), ExecLimits::default());
}

#[test]
fn default_flags_give_default_limits() {
    assert_eq!(LimitArgs::default().to_limits(), ExecLimits::default());
}

#[test]
fn flags_set_memory_in_mebibytes_and_timeout_in_seconds() {
    let flags = LimitArgs { mem_mb: 8, timeout_secs: 2, max_tool_calls: 5 };
    let l = flags.to_limits();
    assert_eq!(l.memory_bytes, 8 * 1024 * 1024);
    assert_eq!(l.wall_clock, Duration::from_secs(2));
    assert_eq!(l.max_tool_calls, 5);
    assert_eq!(l.max_stack_bytes, 1024 * 1024);
    assert_eq!(l.max_output_bytes, 1024 * 1024);
}

#[test]
fn engine_effective_limits_are_the_sanitized_ones() {
    let e = Engine::new(ExecLimits { memory_bytes: 1, ..ExecLimits::default() });
    assert_eq!(e.effective_limits().memory_bytes, 1024 * 1024);
    let d = Engine::with_defaults();
    assert_eq!(d.effective_limits(), ExecLimits::default());
}

#[test]
fn grace_period_adds_five_seconds() {
    let d = Engine::with_defaults();
    assert_eq!(d.grace_period(), Duration::from_secs(35));
    let short = Engine::new(ExecLimits { wall_clock: Duration::from_millis(10), ..ExecLimits::default() });
    assert_eq!(short.grace_period(), Duration::new(5, 100_000_000));
}

#[test]
fn duration_new_carries_whole_seconds() {
    let d = Duration::new(1, 2_500_000_000);
    assert_eq!(d.as_secs(), 3);
    assert_eq!(d.subsec_nanos(), 500_000_000);
}

#[test]
fn duration_from_millis_splits_seconds() {
    let d = Duration::from_millis(1_250);
    assert_eq!(d.as_secs(), 1);
    assert_eq!(d.subsec_nanos(), 250_000_000);
}

#[test]
fn duration_max_and_add() {
    let a = Duration::from_millis(300);
    let b = Duration::from_millis(100);
    assert_eq!(a.max(b), a);
    assert_eq!(b.max(a), a);
    assert!(b.lt(&a));
    assert!(!a.lt(&a));
    let s = Duration::new(1, 900_000_000).add(Duration::new(0, 200_000_000));
    assert_eq!(s, Duration::new(2, 100_000_000));
}

#[test]
fn decimal_strings() {
    assert_eq!(decimal_string(0), "0");
    assert_eq!(decimal_string(7), "7");
    assert_eq!(decimal_string(1024), "1024");
    assert_eq!(decimal_string(usize::MAX), usize::MAX.to_string());
}
