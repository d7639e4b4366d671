use krocore::data::{Config, JsonDeConfig, JudgeState, LanguageType};
use krocore::error::Error;
use krocore::judge::{build_result, check_root, cpu_time_ms, memory_bytes, nul_terminated, ChildOutcome};

fn config_with_limits(cpu: Option<u64>, real: Option<u64>, mem: Option<u64>) -> Config {
    let j = JsonDeConfig {
        lang: "C".to_owned(),
        exe_file_path: "/bin/true".to_owned(),
        input_file_path: None,
        output_file_path: None,
        error_file_path: None,
        cpu_time_limit: cpu,
        real_time_limit: real,
        memory_limit: mem,
        stack_limit: None,
        max_output_size: None,
        args: None,
        env: None,
        uid: None,
        gid: None,
    };
    Config::validate(j, true, true, true, true).unwrap()
}

#[test]
fn clean_exit_within_limits_is_accepted() {
    // Scenario: exit 0 under cpu=1s, real=1000ms, mem=64MiB.
    let cfg = config_with_limits(Some(1), Some(1000), Some(64 * 1024 * 1024));
    let jr = build_result(ChildOutcome::Exited(0), false, 0, 12000, 2048, 40, &cfg);
    assert_eq!(jr.state, JudgeState::Accepted);
    assert_eq!(jr.exit_code, 0);
    assert_eq!(jr.cpu_time, 12);
    assert_eq!(jr.real_time, 40);
    assert_eq!(jr.memory, 2048 * 1024);
}

#[test]
fn nonzero_exit_is_runtime_error() {
    // Scenario: exit 42 under the same limits.
    let cfg = config_with_limits(Some(1), Some(1000), Some(64 * 1024 * 1024));
    let jr = build_result(ChildOutcome::Exited(42), false, 0, 5000, 1024, 10, &cfg);
    assert_eq!(jr.state, JudgeState::RuntimeError);
    assert_eq!(jr.exit_code, 42);
}

#[test]
fn busy_loop_past_cpu_limit_is_cpu_tle() {
    // Scenario: tight loop, cpu=1s, real=5000ms; the kernel kills it after
    // just over one CPU second.
    let cfg = config_with_limits(Some(1), Some(5000), None);
    let jr = build_result(ChildOutcome::Signaled(9), false, 1, 50000, 1024, 1100, &cfg);
    assert_eq!(jr.state, JudgeState::CpuTimeLimitExceeded);
    assert!(jr.cpu_time >= 1000);
    assert_eq!(jr.exit_code, 0);
}

#[test]
fn sleeper_past_real_limit_is_real_tle() {
    // Scenario: sleep(10) under cpu=5s, real=500ms; the watchdog kills it.
    let cfg = config_with_limits(Some(5), Some(500), None);
    let jr = build_result(ChildOutcome::Signaled(9), false, 0, 3000, 1024, 600, &cfg);
    assert_eq!(jr.state, JudgeState::RealTimeLimitExceeded);
    assert!(jr.real_time >= 500);
}

#[test]
fn allocator_past_memory_limit_is_memory_tle() {
    // Scenario: malloc loop under mem=16MiB, killed by SIGSEGV after the
    // address-space limit bites.
    let cfg = config_with_limits(None, None, Some(16 * 1024 * 1024));
    let jr = build_result(ChildOutcome::Signaled(11), false, 0, 8000, 32 * 1024, 90, &cfg);
    assert_eq!(jr.state, JudgeState::MemoryLimitExceeded);
    assert!(jr.state != JudgeState::Accepted);
}

#[test]
fn setup_failure_signal_is_system_error() {
    let cfg = config_with_limits(Some(1), Some(1000), None);
    let jr = build_result(ChildOutcome::Signaled(10), true, 0, 0, 512, 5, &cfg);
    assert_eq!(jr.state, JudgeState::SystemError);
}

#[test]
fn stopped_child_is_runtime_error() {
    let cfg = config_with_limits(None, None, None);
    let jr = build_result(ChildOutcome::Stopped(19), false, 0, 1000, 512, 5, &cfg);
    assert_eq!(jr.state, JudgeState::RuntimeError);
    assert_eq!(jr.exit_code, 0);
}

#[test]
fn cpu_breach_overrides_real_breach() {
    // Both the CPU and the wall-clock limit were breached: the CPU verdict
    // is the strongest override.
    let cfg = config_with_limits(Some(1), Some(500), None);
    let jr = build_result(ChildOutcome::Signaled(9), false, 2, 0, 1024, 2100, &cfg);
    assert_eq!(jr.state, JudgeState::CpuTimeLimitExceeded);
}

#[test]
fn real_breach_overrides_memory_breach() {
    let cfg = config_with_limits(None, Some(500), Some(1024));
    let jr = build_result(ChildOutcome::Signaled(9), false, 0, 0, 1024, 900, &cfg);
    assert_eq!(jr.state, JudgeState::RealTimeLimitExceeded);
}

#[test]
fn signal_without_breach_is_runtime_error() {
    let cfg = config_with_limits(Some(5), Some(5000), Some(64 * 1024 * 1024));
    let jr = build_result(ChildOutcome::Signaled(8), false, 0, 1000, 512, 20, &cfg);
    assert_eq!(jr.state, JudgeState::RuntimeError);
    assert_eq!(jr.exit_code, 0);
}

#[test]
fn cpu_time_unit_conversion_is_exact() {
    assert_eq!(cpu_time_ms(2, 345678), 2345);
    assert_eq!(cpu_time_ms(0, 999), 0);
    assert_eq!(cpu_time_ms(0, 0), 0);
    assert_eq!(cpu_time_ms(-1, 0), 0);
    assert_eq!(cpu_time_ms(i64::MAX, 999999), u64::MAX);
}

#[test]
fn memory_unit_conversion_is_exact() {
    assert_eq!(memory_bytes(0), 0);
    assert_eq!(memory_bytes(-5), 0);
    assert_eq!(memory_bytes(1536), 1536 * 1024);
    assert_eq!(memory_bytes(i64::MAX), u64::MAX);
}

#[test]
fn non_root_is_permission_denied() {
    assert_eq!(check_root(1000).unwrap_err(), Error::PermissionDenied);
    assert!(check_root(0).is_ok());
}

#[test]
fn exactly_reaching_a_limit_is_not_a_breach() {
    // The overrides use strict comparison: consuming exactly the limit is
    // still within it.
    let cfg = config_with_limits(Some(1), Some(1000), Some(1024 * 1024));
    let jr = build_result(ChildOutcome::Exited(0), false, 1, 0, 1024, 1000, &cfg);
    assert_eq!(jr.cpu_time, 1000);
    assert_eq!(jr.real_time, 1000);
    assert_eq!(jr.memory, 1024 * 1024);
    assert_eq!(jr.state, JudgeState::Accepted);
}

#[test]
fn setup_failure_wins_over_limit_breaches() {
    let cfg = config_with_limits(Some(1), Some(10), Some(1));
    let jr = build_result(ChildOutcome::Signaled(10), true, 100, 0, 1024, 5000, &cfg);
    assert_eq!(jr.state, JudgeState::SystemError);
}

#[test]
fn exec_strings_gain_a_trailing_nul() {
    let v = nul_terminated(&"ab".to_owned()).unwrap();
    assert_eq!(v, vec![97u8, 98, 0]);
}

#[test]
fn interior_nul_is_refused_for_exec_strings() {
    let err = nul_terminated(&"a\0b".to_owned()).unwrap_err();
    assert!(matches!(err, krocore::error::Error::Message(_)));
}

#[test]
fn language_consumed_by_launcher() {
    let cfg = config_with_limits(None, None, None);
    assert_eq!(cfg.lang, LanguageType::C);
}
