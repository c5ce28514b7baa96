//! The PID file and the preflight checks.
use zeroclaw::daemon::pid::existing_pid;
use zeroclaw::daemon::pid::owner_to_probe;
use zeroclaw::daemon::pid::pid_file_contents;
use zeroclaw::daemon::pid::PidError;
use zeroclaw::daemon::pid::PidFileGuard;
use zeroclaw::daemon::preflight::all_ok;
use zeroclaw::daemon::preflight::check_api_key_present;
use zeroclaw::daemon::preflight::check_circuit_breaker_threshold;
use zeroclaw::daemon::preflight::check_scheduler_poll_secs;
use zeroclaw::daemon::preflight::check_shutdown_drain_secs;
use zeroclaw::daemon::preflight::check_workspace_dir;
use zeroclaw::daemon::preflight::preflight_checks;
use zeroclaw::daemon::preflight::run_preflight_checks;
use zeroclaw::daemon::preflight::CheckResult;
use zeroclaw::daemon::preflight::Config;
use zeroclaw::daemon::preflight::DaemonConfig;
use zeroclaw::daemon::preflight::ReliabilityConfig;
use zeroclaw::daemon::preflight::Surroundings;

fn base_config() -> Config {
    Config {
        workspace_dir: "/tmp/zeroclaw-preflight-test".to_string(),
        api_key: None,
        model_providers: Vec::new(),
        reliability: ReliabilityConfig {
            scheduler_poll_secs: 15,
            provider_circuit_breaker_threshold: 3,
        },
        daemon: DaemonConfig { shutdown_drain_secs: 30 },
    }
}

fn config_with_key() -> Config {
    let mut config = base_config();
    config.api_key = Some("test-key".to_string());
    config
}

fn around() -> Surroundings {
    Surroundings { workspace_exists: true, zeroclaw_api_key: None, api_key: None }
}

#[test]
fn acquire_overwrites_stale_pid_file() {
    assert_eq!(owner_to_probe(Some("99999999\n")), Some(99999999));
    let guard = PidFileGuard::acquire("zeroclaw.pid".to_string(), Some("99999999\n"), false)
        .expect("a stale file is taken");
    assert_eq!(guard.path(), "zeroclaw.pid");
    let written_pid: u32 = pid_file_contents(4242).trim().parse().unwrap();
    assert_eq!(written_pid, 4242);
}

#[test]
fn acquire_rejects_live_pid() {
    let contents = pid_file_contents(4242);
    assert_eq!(owner_to_probe(Some(contents.as_str())), Some(4242));
    let result = PidFileGuard::acquire("zeroclaw.pid".to_string(), Some(contents.as_str()), true);
    assert!(result.is_err(), "Should reject a live PID");
    assert!(result.unwrap_err().message().contains("already running"));
}

#[test]
fn one_claim_is_alive_at_a_time() {
    let file = pid_file_contents(7);
    let claim = |contents: Option<&str>, alive: bool| {
        PidFileGuard::acquire("p".to_string(), contents, alive).is_ok()
    };
    assert!(claim(None, false));
    assert!(!claim(Some(file.as_str()), true));
    assert!(claim(Some(file.as_str()), false));
}

#[test]
fn acquire_takes_a_file_without_an_owner() {
    assert!(PidFileGuard::acquire("p".to_string(), None, true).is_ok());
    assert!(PidFileGuard::acquire("p".to_string(), Some("garbage"), true).is_ok());
    assert!(PidFileGuard::acquire("p".to_string(), Some("0\n"), true).is_ok());
    assert_eq!(owner_to_probe(None), None);
}

#[test]
fn pid_is_read_as_rust_reads_it() {
    for text in [
        "17", " 17\n", "+17", "-17", "", "\n", "17x", "0x11", "4294967295", "4294967296",
        "00000000000000000017", "+", "1 7", "\u{a0}9\u{2028}", "++1", "٣",
    ] {
        assert_eq!(existing_pid(text), text.trim().parse::<u32>().unwrap_or(0), "{text:?}");
    }
}

#[test]
fn written_pid_is_read_back() {
    for pid in [1, 9, 10, 4242, 99999999, u32::MAX] {
        assert_eq!(pid_file_contents(pid), format!("{pid}\n"));
        assert_eq!(existing_pid(&pid_file_contents(pid)), pid);
    }
}

#[test]
fn pid_errors_name_the_path() {
    let path = "/run/zeroclaw.pid".to_string();
    assert_eq!(
        PidError::AlreadyRunning { pid: 7, path: path.clone() }.message(),
        "Another ZeroClaw daemon is already running (pid 7). Remove /run/zeroclaw.pid to override."
    );
    assert_eq!(
        PidError::CreateDirectory { path: "/run".to_string() }.message(),
        "Failed to create PID file directory: /run"
    );
    assert_eq!(
        PidError::Write { path }.message(),
        "Failed to write PID file: /run/zeroclaw.pid"
    );
}

#[test]
fn preflight_passes_with_valid_config() {
    let config = config_with_key();
    assert!(run_preflight_checks(&config, &around()));
}

#[test]
fn check_api_key_warns_when_missing() {
    let mut config = base_config();
    config.api_key = None;
    config.model_providers.clear();
    let result = check_api_key_present(&config, &around());
    assert!(!result.ok);
    assert!(result.message.contains("No API key"));
}

#[test]
fn check_workspace_dir_warns_when_missing() {
    let mut config = base_config();
    config.workspace_dir = "/tmp/definitely-does-not-exist-xyz123".to_string();
    let result = check_workspace_dir(&config, false);
    assert!(!result.ok);
    assert!(result.message.contains("does not exist"));
    assert_eq!(
        result.message,
        "Workspace directory does not exist: /tmp/definitely-does-not-exist-xyz123. It will be created on first use."
    );
}

#[test]
fn check_scheduler_poll_secs_warns_below_minimum() {
    let mut config = base_config();
    config.reliability.scheduler_poll_secs = 2;
    let result = check_scheduler_poll_secs(&config);
    assert!(!result.ok);
    assert_eq!(
        result.message,
        "reliability.scheduler_poll_secs is 2s, which is below the minimum effective value of 5s. The scheduler will clamp it."
    );
}

#[test]
fn check_scheduler_poll_secs_ok_at_minimum() {
    let mut config = base_config();
    config.reliability.scheduler_poll_secs = 5;
    let result = check_scheduler_poll_secs(&config);
    assert!(result.ok);
}

#[test]
fn check_drain_secs_warns_when_very_large() {
    let mut config = base_config();
    config.daemon.shutdown_drain_secs = 9999;
    let result = check_shutdown_drain_secs(&config);
    assert!(!result.ok);
    assert_eq!(
        result.message,
        "daemon.shutdown_drain_secs is 9999s, which is unusually high. Consider a value ≤ 300s."
    );
}

#[test]
fn check_circuit_breaker_threshold_warns_when_too_low() {
    let mut config = base_config();
    config.reliability.provider_circuit_breaker_threshold = 1;
    let result = check_circuit_breaker_threshold(&config);
    assert!(!result.ok);
    assert_eq!(
        result.message,
        "reliability.provider_circuit_breaker_threshold is 1, which may be too aggressive. Consider a value ≥ 3 or 0 to disable."
    );
}

#[test]
fn check_circuit_breaker_threshold_ok_when_zero() {
    let mut config = base_config();
    config.reliability.provider_circuit_breaker_threshold = 0;
    let result = check_circuit_breaker_threshold(&config);
    assert!(result.ok);
}

#[test]
fn each_way_to_a_provider_suffices() {
    let mut env = around();
    env.zeroclaw_api_key = Some("k".to_string());
    assert!(check_api_key_present(&base_config(), &env).ok);
    let mut env = around();
    env.zeroclaw_api_key = Some(String::new());
    assert!(!check_api_key_present(&base_config(), &env).ok);
    env.api_key = Some("k".to_string());
    assert!(check_api_key_present(&base_config(), &env).ok);
    let mut config = base_config();
    config.model_providers.push("local".to_string());
    assert!(check_api_key_present(&config, &around()).ok);
    let mut config = base_config();
    config.api_key = Some(String::new());
    assert!(!check_api_key_present(&config, &around()).ok);
}

#[test]
fn bounds_are_inclusive() {
    let mut config = config_with_key();
    config.reliability.scheduler_poll_secs = 4;
    assert!(!check_scheduler_poll_secs(&config).ok);
    config.daemon.shutdown_drain_secs = 300;
    assert!(check_shutdown_drain_secs(&config).ok);
    config.daemon.shutdown_drain_secs = 301;
    assert!(!check_shutdown_drain_secs(&config).ok);
    config.reliability.provider_circuit_breaker_threshold = 2;
    assert!(!check_circuit_breaker_threshold(&config).ok);
}

#[test]
fn preflight_makes_five_checks_in_order() {
    let results = preflight_checks(&config_with_key(), &around());
    let names: Vec<&str> = results.iter().map(|r| r.name).collect();
    assert_eq!(
        names,
        vec![
            "workspace_dir_exists",
            "api_key_present",
            "scheduler_poll_secs",
            "shutdown_drain_secs",
            "provider_circuit_breaker_threshold"
        ]
    );
    assert!(results.iter().all(|r| r.ok && r.message.is_empty()));
    assert!(all_ok(&results));
}

#[test]
fn one_warning_fails_the_preflight() {
    let mut missing = around();
    missing.workspace_exists = false;
    assert!(!run_preflight_checks(&config_with_key(), &missing));
    assert!(!run_preflight_checks(&base_config(), &around()));
    let mixed = vec![CheckResult::ok("a"), CheckResult::warn("b", "careful".to_string())];
    assert!(!all_ok(&mixed));
    assert_eq!(mixed[1].message, "careful");
    assert!(all_ok(&Vec::new()));
}
