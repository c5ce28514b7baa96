//! Checks of the configuration before the daemon starts. A failed check is a warning, no more.
use crate::text::decimal;
use vstd::prelude::*;

verus! {

/// The shortest interval at which the scheduler polls.
pub const MIN_SENSIBLE_POLL: u64 = 5;

/// The longest shutdown drain that is not worth a warning.
pub const MAX_SENSIBLE_DRAIN: u64 = 300;

/// What bears on how the daemon keeps running.
#[derive(Debug, Clone)]
pub struct ReliabilityConfig {
    pub scheduler_poll_secs: u64,
    pub provider_circuit_breaker_threshold: u32,
}

/// What bears on the daemon process.
#[derive(Debug, Clone)]
pub struct DaemonConfig {
    pub shutdown_drain_secs: u64,
}

/// The configuration, as far as the checks read it.
#[derive(Debug, Clone)]
pub struct Config {
    pub workspace_dir: String,
    pub api_key: Option<String>,
    pub model_providers: Vec<String>,
    pub reliability: ReliabilityConfig,
    pub daemon: DaemonConfig,
}

/// What the checks read of the machine.
#[derive(Debug, Clone)]
pub struct Surroundings {
    /// Whether the workspace directory exists.
    pub workspace_exists: bool,
    /// The environment variable `ZEROCLAW_API_KEY`.
    pub zeroclaw_api_key: Option<String>,
    /// The environment variable `API_KEY`.
    pub api_key: Option<String>,
}

/// The result of one check.
#[derive(Debug)]
pub struct CheckResult {
    pub name: &'static str,
    pub ok: bool,
    pub message: String,
}

/// What a `CheckResult` says.
#[verifier::ext_equal]
pub struct CheckView {
    pub name: Seq<char>,
    pub ok: bool,
    pub message: Seq<char>,
}

impl View for CheckResult {
    type V = CheckView;

    open spec fn view(&self) -> CheckView {
        CheckView { name: self.name@, ok: self.ok, message: self.message@ }
    }
}

/// A check that holds without a message, or warns with `warning`.
pub open spec fn checked(name: Seq<char>, holds: bool, warning: Seq<char>) -> CheckView {
    CheckView {
        name,
        ok: holds,
        message: if holds {
            Seq::empty()
        } else {
            warning
        },
    }
}

/// Whether a key is there and not empty.
pub open spec fn is_set(key: Option<String>) -> bool {
    key matches Some(k) && k@.len() > 0
}

/// Whether some way to a model provider is configured.
pub open spec fn provider_is_reachable(config: Config, around: Surroundings) -> bool {
    is_set(around.zeroclaw_api_key) || is_set(around.api_key) || is_set(config.api_key)
        || config.model_providers@.len() > 0
}

/// The check that the workspace directory exists.
pub open spec fn workspace_check(config: Config, exists_now: bool) -> CheckView {
    checked(
        "workspace_dir_exists"@,
        exists_now,
        "Workspace directory does not exist: "@ + config.workspace_dir@
            + ". It will be created on first use."@,
    )
}

/// The check that a model provider can be reached.
pub open spec fn api_key_check(config: Config, around: Surroundings) -> CheckView {
    checked(
        "api_key_present"@,
        provider_is_reachable(config, around),
        "No API key configured. Set api_key in config.toml or ZEROCLAW_API_KEY env var."@,
    )
}

/// The check that the scheduler does not poll more often than it can.
pub open spec fn poll_check(config: Config) -> CheckView {
    checked(
        "scheduler_poll_secs"@,
        config.reliability.scheduler_poll_secs >= MIN_SENSIBLE_POLL,
        "reliability.scheduler_poll_secs is "@ + decimal::decimal(
            config.reliability.scheduler_poll_secs as nat,
        ) + "s, which is below the minimum effective value of "@ + decimal::decimal(
            MIN_SENSIBLE_POLL as nat,
        ) + "s. The scheduler will clamp it."@,
    )
}

/// The check that a shutdown does not take unusually long.
pub open spec fn drain_check(config: Config) -> CheckView {
    checked(
        "shutdown_drain_secs"@,
        config.daemon.shutdown_drain_secs <= MAX_SENSIBLE_DRAIN,
        "daemon.shutdown_drain_secs is "@ + decimal::decimal(
            config.daemon.shutdown_drain_secs as nat,
        ) + "s, which is unusually high. Consider a value ≤ "@ + decimal::decimal(
            MAX_SENSIBLE_DRAIN as nat,
        ) + "s."@,
    )
}

/// The check that the circuit breaker is off or tolerates a few failures.
pub open spec fn breaker_check(config: Config) -> CheckView {
    checked(
        "provider_circuit_breaker_threshold"@,
        config.reliability.provider_circuit_breaker_threshold == 0
            || config.reliability.provider_circuit_breaker_threshold >= 3,
        "reliability.provider_circuit_breaker_threshold is "@ + decimal::decimal(
            config.reliability.provider_circuit_breaker_threshold as nat,
        ) + ", which may be too aggressive. Consider a value ≥ 3 or 0 to disable."@,
    )
}

/// All checks, in the order in which they are made.
pub open spec fn all_checks(config: Config, around: Surroundings) -> Seq<CheckView> {
    seq![
        workspace_check(config, around.workspace_exists),
        api_key_check(config, around),
        poll_check(config),
        drain_check(config),
        breaker_check(config),
    ]
}

/// What a list of results says.
pub open spec fn result_views(results: Seq<CheckResult>) -> Seq<CheckView> {
    results.map_values(|r: CheckResult| r@)
}

impl CheckResult {
    /// A check that holds.
    pub fn ok(name: &'static str) -> (r: Self)
        ensures
            r@ == (CheckView { name: name@, ok: true, message: Seq::empty() }),
    {
        CheckResult { name, ok: true, message: String::new() }
    }

    /// A check that warns.
    pub fn warn(name: &'static str, message: String) -> (r: Self)
        ensures
            r@ == (CheckView { name: name@, ok: false, message: message@ }),
    {
        CheckResult { name, ok: false, message }
    }
}

/// Whether a key is there and not empty.
fn key_is_set(key: &Option<String>) -> (r: bool)
    ensures
        r == is_set(*key),
{
    match key {
        Some(k) => !k.as_str().is_empty(),
        None => false,
    }
}

/// Checks that the workspace directory exists, as `exists_now` says it does or not.
pub fn check_workspace_dir(config: &Config, exists_now: bool) -> (r: CheckResult)
    ensures
        r@ == workspace_check(*config, exists_now),
{
    if exists_now {
        CheckResult::ok("workspace_dir_exists")
    } else {
        let mut text = "Workspace directory does not exist: ".to_string();
        text.append(config.workspace_dir.as_str());
        text.append(". It will be created on first use.");
        CheckResult::warn("workspace_dir_exists", text)
    }
}

/// Checks that a model provider can be reached: by a key of the environment or of the
/// configuration, or by a configured provider.
pub fn check_api_key_present(config: &Config, around: &Surroundings) -> (r: CheckResult)
    ensures
        r@ == api_key_check(*config, *around),
{
    if key_is_set(&around.zeroclaw_api_key) || key_is_set(&around.api_key) || key_is_set(
        &config.api_key,
    ) || config.model_providers.len() > 0 {
        CheckResult::ok("api_key_present")
    } else {
        CheckResult::warn(
            "api_key_present",
            "No API key configured. Set api_key in config.toml or ZEROCLAW_API_KEY env var.".to_string(),
        )
    }
}

/// Checks that the scheduler does not poll more often than it can.
pub fn check_scheduler_poll_secs(config: &Config) -> (r: CheckResult)
    ensures
        r@ == poll_check(*config),
{
    let poll = config.reliability.scheduler_poll_secs;
    if poll >= MIN_SENSIBLE_POLL {
        CheckResult::ok("scheduler_poll_secs")
    } else {
        let mut text = "reliability.scheduler_poll_secs is ".to_string();
        text.append(decimal::numeral(poll).as_str());
        text.append("s, which is below the minimum effective value of ");
        text.append(decimal::numeral(MIN_SENSIBLE_POLL).as_str());
        text.append("s. The scheduler will clamp it.");
        CheckResult::warn("scheduler_poll_secs", text)
    }
}

/// Checks that a shutdown does not take unusually long.
pub fn check_shutdown_drain_secs(config: &Config) -> (r: CheckResult)
    ensures
        r@ == drain_check(*config),
{
    let drain = config.daemon.shutdown_drain_secs;
    if drain <= MAX_SENSIBLE_DRAIN {
        CheckResult::ok("shutdown_drain_secs")
    } else {
        let mut text = "daemon.shutdown_drain_secs is ".to_string();
        text.append(decimal::numeral(drain).as_str());
        text.append("s, which is unusually high. Consider a value ≤ ");
        text.append(decimal::numeral(MAX_SENSIBLE_DRAIN).as_str());
        text.append("s.");
        CheckResult::warn("shutdown_drain_secs", text)
    }
}

/// Checks that the circuit breaker is off or tolerates a few failures.
pub fn check_circuit_breaker_threshold(config: &Config) -> (r: CheckResult)
    ensures
        r@ == breaker_check(*config),
{
    let threshold = config.reliability.provider_circuit_breaker_threshold;
    if threshold == 0 || threshold >= 3 {
        CheckResult::ok("provider_circuit_breaker_threshold")
    } else {
        let mut text = "reliability.provider_circuit_breaker_threshold is ".to_string();
        text.append(decimal::numeral(threshold as u64).as_str());
        text.append(", which may be too aggressive. Consider a value ≥ 3 or 0 to disable.");
        CheckResult::warn("provider_circuit_breaker_threshold", text)
    }
}

/// Makes all checks.
pub fn preflight_checks(config: &Config, around: &Surroundings) -> (r: Vec<CheckResult>)
    ensures
        result_views(r@) == all_checks(*config, *around),
{
    let results: Vec<CheckResult> =
        vec![
        check_workspace_dir(config, around.workspace_exists),
        check_api_key_present(config, around),
        check_scheduler_poll_secs(config),
        check_shutdown_drain_secs(config),
        check_circuit_breaker_threshold(config),
    ];
    assert(result_views(results@) =~= all_checks(*config, *around));
    results
}

/// Whether every result is without a warning.
pub open spec fn none_warns(results: Seq<CheckResult>) -> bool {
    forall|i: int| 0 <= i < results.len() ==> (#[trigger] results[i]).ok
}

/// Whether every result is without a warning.
pub fn all_ok(results: &Vec<CheckResult>) -> (r: bool)
    ensures
        r == none_warns(results@),
{
    let mut i: usize = 0;
    while i < results.len()
        invariant
            i <= results.len(),
            forall|j: int| 0 <= j < i ==> (#[trigger] results@[j]).ok,
        decreases results.len() - i,
    {
        if !results[i].ok {
            return false;
        }
        i = i + 1;
    }
    true
}

/// Makes all checks, and says whether every one of them holds.
pub fn run_preflight_checks(config: &Config, around: &Surroundings) -> (r: bool)
    ensures
        r <==> (forall|i: int|
            0 <= i < all_checks(*config, *around).len() ==> (#[trigger] all_checks(
                *config,
                *around,
            )[i]).ok),
{
    let results = preflight_checks(config, around);
    let r = all_ok(&results);
    proof {
        let views = result_views(results@);
        assert forall|i: int| 0 <= i < views.len() implies (#[trigger] views[i]).ok
            == results@[i].ok by {}
    }
    r
}

/// A check has a message exactly where it warns.
pub proof fn law_message_iff_warning(config: Config, around: Surroundings, i: int)
    requires
        0 <= i < all_checks(config, around).len(),
    ensures
        all_checks(config, around)[i].ok <==> all_checks(config, around)[i].message.len() == 0,
{
    reveal_strlit(". It will be created on first use.");
    reveal_strlit("No API key configured. Set api_key in config.toml or ZEROCLAW_API_KEY env var.");
    reveal_strlit("s. The scheduler will clamp it.");
    reveal_strlit("s.");
    reveal_strlit(", which may be too aggressive. Consider a value ≥ 3 or 0 to disable.");
    assert(i == 0 || i == 1 || i == 2 || i == 3 || i == 4);
}

/// All checks hold exactly where the workspace exists, a provider can be reached, and the three
/// settings are within their bounds.
pub proof fn law_preflight_passes_iff_all_settings_are_sound(config: Config, around: Surroundings)
    ensures
        (forall|i: int|
            0 <= i < all_checks(config, around).len() ==> (#[trigger] all_checks(
                config,
                around,
            )[i]).ok) <==> {
            &&& around.workspace_exists
            &&& provider_is_reachable(config, around)
            &&& config.reliability.scheduler_poll_secs >= 5
            &&& config.daemon.shutdown_drain_secs <= 300
            &&& config.reliability.provider_circuit_breaker_threshold != 1
            &&& config.reliability.provider_circuit_breaker_threshold != 2
        },
{
    let c = all_checks(config, around);
    assert(c[0].ok == around.workspace_exists);
    assert(c[1].ok == provider_is_reachable(config, around));
    assert(c[2] == poll_check(config));
    assert(c[3] == drain_check(config));
    assert(c[4] == breaker_check(config));
}

/// Whether a text is there and not empty.
pub open spec fn says_something(text: Option<String>) -> bool {
    text is Some && text->0@.len() > 0
}

/// Each of the five checks holds exactly under its condition, has its name, and warns of the value
/// that it was made on.
pub proof fn law_each_check_warns_of_its_setting(config: Config, around: Surroundings)
    ensures
        ({
            let c = all_checks(config, around);
            let poll = config.reliability.scheduler_poll_secs;
            let drain = config.daemon.shutdown_drain_secs;
            let threshold = config.reliability.provider_circuit_breaker_threshold;
            &&& c.len() == 5
            &&& forall|i: int| 0 <= i < 5 && (#[trigger] c[i]).ok ==> c[i].message.len() == 0
            &&& c[0].name == "workspace_dir_exists"@
            &&& c[0].ok == around.workspace_exists
            &&& !c[0].ok ==> c[0].message == "Workspace directory does not exist: "@
                + config.workspace_dir@ + ". It will be created on first use."@
            &&& c[1].name == "api_key_present"@
            &&& c[1].ok <==> says_something(around.zeroclaw_api_key) || says_something(
                around.api_key,
            ) || says_something(config.api_key) || config.model_providers@.len() > 0
            &&& !c[1].ok ==> c[1].message
                == "No API key configured. Set api_key in config.toml or ZEROCLAW_API_KEY env var."@
            &&& c[2].name == "scheduler_poll_secs"@
            &&& c[2].ok <==> poll >= 5
            &&& !c[2].ok ==> c[2].message == "reliability.scheduler_poll_secs is "@
                + decimal::decimal(poll as nat)
                + "s, which is below the minimum effective value of "@ + decimal::decimal(5)
                + "s. The scheduler will clamp it."@
            &&& c[3].name == "shutdown_drain_secs"@
            &&& c[3].ok <==> drain <= 300
            &&& !c[3].ok ==> c[3].message == "daemon.shutdown_drain_secs is "@ + decimal::decimal(
                drain as nat,
            ) + "s, which is unusually high. Consider a value ≤ "@ + decimal::decimal(300) + "s."@
            &&& c[4].name == "provider_circuit_breaker_threshold"@
            &&& c[4].ok <==> threshold == 0 || threshold > 2
            &&& !c[4].ok ==> c[4].message == "reliability.provider_circuit_breaker_threshold is "@
                + decimal::decimal(threshold as nat)
                + ", which may be too aggressive. Consider a value ≥ 3 or 0 to disable."@
        }),
{
    let c = all_checks(config, around);
    assert(c[0] == workspace_check(config, around.workspace_exists));
    assert(c[1] == api_key_check(config, around));
    assert(c[2] == poll_check(config));
    assert(c[3] == drain_check(config));
    assert(c[4] == breaker_check(config));
    assert forall|i: int| 0 <= i < 5 && (#[trigger] c[i]).ok implies c[i].message.len() == 0 by {
        assert(i == 0 || i == 1 || i == 2 || i == 3 || i == 4);
    }
}

/// A result says all that its fields hold.
pub proof fn law_result_view_says_all(result: CheckResult, results: Seq<CheckResult>)
    ensures
        result@.name == result.name@,
        result@.ok == result.ok,
        result@.message == result.message@,
        result_views(results).len() == results.len(),
        forall|i: int| 0 <= i < results.len() ==> #[trigger] result_views(results)[i] == results[i]@,
{
}

} // verus!
