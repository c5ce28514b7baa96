//! Laws of the functions that claim the PID file and that check the configuration.
use crate::daemon::pid;
use crate::daemon::pid::{PidError, PidFileGuard};
use crate::daemon::preflight;
use crate::daemon::preflight::{CheckResult, Config, Surroundings};
use crate::text::decimal;
use crate::text::laws;
use vstd::prelude::*;

verus! {

/// A PID file names the number in it, whatever white space is around it, where it fits in 32 bits,
/// and otherwise no process; the process that it names is the one to probe, and what a process
/// writes is its number on a line of its own.
pub proof fn law_pid_file(
    contents: &str,
    core: Seq<char>,
    at: int,
    named: u32,
    probe: Option<u32>,
    pid: u32,
    written: String,
)
    requires
        call_ensures(pid::existing_pid, (contents,), named),
        call_ensures(pid::owner_to_probe, (Some(contents),), probe),
        call_ensures(pid::pid_file_contents, (pid,), written),
        laws::is_core(contents@, core, at),
    ensures
        decimal::read_decimal(core) matches Some(n) && n < 0x1_0000_0000 ==> named
            == decimal::read_decimal(core)->0,
        !(decimal::read_decimal(core) matches Some(n) && n < 0x1_0000_0000) ==> named == 0,
        named == 0 ==> probe is None,
        named != 0 ==> probe == Some(named),
        written@ == decimal::decimal(pid as nat) + seq!['\n'],
{
    pid::law_file_names_its_number(contents@, core, at);
    pid::law_texts_name_process_and_path(pid, arbitrary());
}

/// A PID file that is missing has no owner to probe.
pub proof fn law_missing_file_has_no_owner(probe: Option<u32>)
    requires
        call_ensures(pid::owner_to_probe, (None::<&str>,), probe),
    ensures
        probe is None,
{
}

/// A PID file is kept from a claim exactly where it names a process and that process is running; the
/// refusal names the process and the path, and a claim holds the path.
pub proof fn law_acquire(
    path: String,
    contents: Option<&str>,
    owner_alive: bool,
    named: u32,
    r: Result<PidFileGuard, PidError>,
    guard: &PidFileGuard,
    held: &str,
)
    requires
        call_ensures(PidFileGuard::acquire, (path, contents, owner_alive), r),
        call_ensures(PidFileGuard::path, (guard,), held),
        contents matches Some(text) ==> call_ensures(pid::existing_pid, (text,), named),
        contents is None ==> named == 0,
    ensures
        r is Err <==> named != 0 && owner_alive,
        r matches Err(e) ==> (e matches PidError::AlreadyRunning { pid, path: at } && pid == named
            && at@ == path@),
        r == Ok::<PidFileGuard, PidError>(*guard) ==> held@ == path@,
{
    let views = match contents {
        Some(text) => Some(text@),
        None => None,
    };
    pid::law_only_a_running_owner_keeps_the_file(views, owner_alive);
}

/// What a user is told of a PID file names the process and the whole path.
pub proof fn law_pid_message(error: &PidError, r: String)
    requires
        call_ensures(PidError::message, (error,), r),
    ensures
        error matches PidError::AlreadyRunning { pid, path } ==> r@
            == "Another ZeroClaw daemon is already running (pid "@ + decimal::decimal(pid as nat)
            + "). Remove "@ + path@ + " to override."@,
        error matches PidError::CreateDirectory { path } ==> r@
            == "Failed to create PID file directory: "@ + path@,
        error matches PidError::Write { path } ==> r@ == "Failed to write PID file: "@ + path@,
{
}

/// Whether a check has its name and holds or warns with the message.
pub open spec fn is_check(
    r: CheckResult,
    name: Seq<char>,
    holds: bool,
    warning: Seq<char>,
) -> bool {
    &&& r.name@ == name
    &&& r.ok == holds
    &&& holds ==> r.message@.len() == 0
    &&& !holds ==> r.message@ == warning
}

/// The checks of the workspace and of the way to a provider.
pub proof fn law_machine_checks(
    config: &Config,
    exists_now: bool,
    workspace: CheckResult,
    around: &Surroundings,
    key: CheckResult,
)
    requires
        call_ensures(preflight::check_workspace_dir, (config, exists_now), workspace),
        call_ensures(preflight::check_api_key_present, (config, around), key),
    ensures
        is_check(
            workspace,
            "workspace_dir_exists"@,
            exists_now,
            "Workspace directory does not exist: "@ + config.workspace_dir@
                + ". It will be created on first use."@,
        ),
        is_check(
            key,
            "api_key_present"@,
            preflight::says_something(around.zeroclaw_api_key) || preflight::says_something(
                around.api_key,
            ) || preflight::says_something(config.api_key) || config.model_providers@.len() > 0,
            "No API key configured. Set api_key in config.toml or ZEROCLAW_API_KEY env var."@,
        ),
{
}

/// The checks of the three settings.
pub proof fn law_setting_checks(
    config: &Config,
    poll: CheckResult,
    drain: CheckResult,
    breaker: CheckResult,
)
    requires
        call_ensures(preflight::check_scheduler_poll_secs, (config,), poll),
        call_ensures(preflight::check_shutdown_drain_secs, (config,), drain),
        call_ensures(preflight::check_circuit_breaker_threshold, (config,), breaker),
    ensures
        is_check(
            poll,
            "scheduler_poll_secs"@,
            config.reliability.scheduler_poll_secs >= 5,
            "reliability.scheduler_poll_secs is "@ + decimal::decimal(
                config.reliability.scheduler_poll_secs as nat,
            ) + "s, which is below the minimum effective value of "@ + decimal::decimal(5)
                + "s. The scheduler will clamp it."@,
        ),
        is_check(
            drain,
            "shutdown_drain_secs"@,
            config.daemon.shutdown_drain_secs <= 300,
            "daemon.shutdown_drain_secs is "@ + decimal::decimal(
                config.daemon.shutdown_drain_secs as nat,
            ) + "s, which is unusually high. Consider a value ≤ "@ + decimal::decimal(300) + "s."@,
        ),
        is_check(
            breaker,
            "provider_circuit_breaker_threshold"@,
            config.reliability.provider_circuit_breaker_threshold == 0
                || config.reliability.provider_circuit_breaker_threshold > 2,
            "reliability.provider_circuit_breaker_threshold is "@ + decimal::decimal(
                config.reliability.provider_circuit_breaker_threshold as nat,
            ) + ", which may be too aggressive. Consider a value ≥ 3 or 0 to disable."@,
        ),
{
}

/// The preflight passes exactly where the workspace exists, a provider can be reached, and the three
/// settings are within their bounds; it makes five checks.
pub proof fn law_preflight(
    config: &Config,
    around: &Surroundings,
    passes: bool,
    results: Vec<CheckResult>,
)
    requires
        call_ensures(preflight::run_preflight_checks, (config, around), passes),
        call_ensures(preflight::preflight_checks, (config, around), results),
    ensures
        passes <==> around.workspace_exists && (preflight::says_something(around.zeroclaw_api_key)
            || preflight::says_something(around.api_key) || preflight::says_something(
            config.api_key,
        ) || config.model_providers@.len() > 0) && config.reliability.scheduler_poll_secs >= 5
            && config.daemon.shutdown_drain_secs <= 300 && (
        config.reliability.provider_circuit_breaker_threshold == 0
            || config.reliability.provider_circuit_breaker_threshold > 2),
        results@.len() == 5,
        passes <==> forall|i: int| 0 <= i < 5 ==> (#[trigger] results@[i]).ok,
        results@[0].name@ == "workspace_dir_exists"@,
        results@[1].name@ == "api_key_present"@,
        results@[2].name@ == "scheduler_poll_secs"@,
        results@[3].name@ == "shutdown_drain_secs"@,
        results@[4].name@ == "provider_circuit_breaker_threshold"@,
{
    let c = preflight::all_checks(*config, *around);
    let views = preflight::result_views(results@);
    preflight::law_each_check_warns_of_its_setting(*config, *around);
    assert(views.len() == results@.len());
    assert forall|i: int| 0 <= i < 5 implies (#[trigger] results@[i]).ok == c[i].ok && results@[
        i
    ].name@ == c[i].name by {
        assert(views[i] == results@[i]@);
    }
    assert(passes == (c[0].ok && c[1].ok && c[2].ok && c[3].ok && c[4].ok)) by {
        if c[0].ok && c[1].ok && c[2].ok && c[3].ok && c[4].ok {
            assert forall|i: int| 0 <= i < c.len() implies (#[trigger] c[i]).ok by {
                assert(i == 0 || i == 1 || i == 2 || i == 3 || i == 4);
            }
        }
    }
    if passes {
        assert forall|i: int| 0 <= i < 5 implies (#[trigger] results@[i]).ok by {
            assert(c[i].ok);
        }
    }
    assert(results@[0].ok == c[0].ok && results@[1].ok == c[1].ok && results@[2].ok == c[2].ok);
    assert(results@[3].ok == c[3].ok && results@[4].ok == c[4].ok);
}

/// All is well exactly where no result warns; a result holds what it was made with.
pub proof fn law_results(
    listed: &Vec<CheckResult>,
    well: bool,
    name: &'static str,
    message: String,
    good: CheckResult,
    bad: CheckResult,
)
    requires
        call_ensures(preflight::all_ok, (listed,), well),
        call_ensures(CheckResult::ok, (name,), good),
        call_ensures(CheckResult::warn, (name, message), bad),
    ensures
        well ==> forall|i: int| 0 <= i < listed@.len() ==> (#[trigger] listed@[i]).ok,
        !well ==> exists|i: int| 0 <= i < listed@.len() && !(#[trigger] listed@[i]).ok,
        is_check(good, name@, true, message@),
        is_check(bad, name@, false, message@),
{
}

} // verus!
