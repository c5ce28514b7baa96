//! Planning a run: which model carries it out, and whether a planner model is asked first.
use crate::json;
use crate::text::{chars, decimal};
use vstd::prelude::*;

verus! {

/// What the planner model is told before the conversation.
pub const PLANNER_SYSTEM_PROMPT: &'static str = "You are ZeroClaw's execution planner.\n\nDo not solve the task. Do not call tools. Do not explain your reasoning.\nReturn exactly one JSON object with these fields:\n- goal: string\n- is_simple: boolean\n- is_external_action: boolean\n- turn_estimate: integer\n- needs_user_confirmation: boolean\n- execution_brief: string\n- success_proof_expected: string\n\nRules:\n- Output JSON only, no markdown fences.\n- execution_brief must be concise and action-oriented for an executor model.\n- success_proof_expected must describe the fresh proof artifact that ends the run.\n- If the task is already complete or only needs a short response, set is_simple=true.\n";

/// What stands before the brief in the executor's context.
pub const EXECUTOR_CONTEXT_INTRO: &'static str = "[Planner brief]\nThis brief is internal orchestration context for this attempt. It is not proof of completion.\nUse it to execute efficiently, then stop as soon as you have a fresh verified proof artifact.\n";

/// One message of a conversation with a model.
#[derive(Debug, Clone, PartialEq, Eq)]
pub struct ChatMessage {
    pub role: String,
    pub content: String,
}

/// What the planner model makes of a task.
#[derive(Debug, Clone, PartialEq, Eq)]
pub struct PlannerExecutionBrief {
    pub goal: String,
    pub is_simple: bool,
    pub is_external_action: bool,
    pub turn_estimate: u32,
    pub needs_user_confirmation: bool,
    pub execution_brief: String,
    pub success_proof_expected: String,
}

/// How a run came to its model.
#[derive(Debug, Clone, PartialEq, Eq)]
pub enum PlanningPath {
    Default,
    QueryHint(String),
    SimpleHint(String),
    PlannerExecutor { planner_hint: String, executor_hint: String },
    PlannerFallback { planner_hint: String, executor_hint: String },
}

/// What planning has decided for a run.
#[derive(Debug, Clone)]
pub struct PlanningOutcome {
    pub effective_model: String,
    pub extra_system_context: Option<String>,
    pub visible_summary: Option<String>,
    pub brief: Option<PlannerExecutionBrief>,
    pub path: PlanningPath,
}

/// When and how the planner is used.
#[derive(Debug, Clone)]
pub struct PlannerExecutionConfig {
    pub enabled: bool,
    pub simple_hints: Vec<String>,
    pub planner_hint: String,
    pub executor_hint: String,
    pub show_plan_when_turn_estimate_over: u32,
    pub show_plan_when_approval_required: bool,
    pub fallback_to_executor_on_planner_error: bool,
}

/// The models that a pending planner call has settled on.
#[derive(Debug, Clone)]
pub struct PlannerCall {
    pub planner_model: String,
    pub executor_model: String,
}

/// What planning does next: it is done, or the planner model has to be asked.
#[derive(Debug, Clone)]
pub enum PlanningStep {
    Done(PlanningOutcome),
    CallPlanner(PlannerCall),
}

/// Why the planner gave no brief.
#[derive(Debug, Clone, PartialEq, Eq)]
pub enum PlannerError {
    /// The provider did not answer, for the reason given.
    Provider(String),
    /// The answer holds no JSON object.
    NoJsonObject,
    /// The JSON object is no brief, for the reason given.
    InvalidBrief(String),
}

impl PlannerError {
    /// What is said of the failure.
    pub open spec fn text(self) -> Seq<char> {
        match self {
            PlannerError::Provider(reason) => reason@,
            PlannerError::NoJsonObject => "planner response did not contain a JSON object"@,
            PlannerError::InvalidBrief(reason) => reason@,
        }
    }

    /// What is said of the failure.
    pub fn message(&self) -> (r: String)
        ensures
            r@ == self.text(),
    {
        match self {
            PlannerError::Provider(reason) => reason.clone(),
            PlannerError::NoJsonObject => {
                "planner response did not contain a JSON object".to_string()
            },
            PlannerError::InvalidBrief(reason) => reason.clone(),
        }
    }
}

/// What a `PlanningPath` says.
#[verifier::ext_equal]
pub enum PathView {
    Default,
    QueryHint(Seq<char>),
    SimpleHint(Seq<char>),
    PlannerExecutor { planner_hint: Seq<char>, executor_hint: Seq<char> },
    PlannerFallback { planner_hint: Seq<char>, executor_hint: Seq<char> },
}

/// What a `PlanningOutcome` says.
#[verifier::ext_equal]
pub struct OutcomeView {
    pub effective_model: Seq<char>,
    pub extra_system_context: Option<Seq<char>>,
    pub visible_summary: Option<Seq<char>>,
    pub brief: Option<PlannerExecutionBrief>,
    pub path: PathView,
}

/// What a `PlanningStep` says.
#[verifier::ext_equal]
pub enum StepView {
    Done(OutcomeView),
    CallPlanner { planner_model: Seq<char>, executor_model: Seq<char> },
}

impl View for PlanningPath {
    type V = PathView;

    open spec fn view(&self) -> PathView {
        match *self {
            PlanningPath::Default => PathView::Default,
            PlanningPath::QueryHint(hint) => PathView::QueryHint(hint@),
            PlanningPath::SimpleHint(hint) => PathView::SimpleHint(hint@),
            PlanningPath::PlannerExecutor { planner_hint, executor_hint } => PathView::PlannerExecutor {
                planner_hint: planner_hint@,
                executor_hint: executor_hint@,
            },
            PlanningPath::PlannerFallback { planner_hint, executor_hint } => PathView::PlannerFallback {
                planner_hint: planner_hint@,
                executor_hint: executor_hint@,
            },
        }
    }
}

impl View for PlanningOutcome {
    type V = OutcomeView;

    open spec fn view(&self) -> OutcomeView {
        OutcomeView {
            effective_model: self.effective_model@,
            extra_system_context: chars::string_option(self.extra_system_context),
            visible_summary: chars::string_option(self.visible_summary),
            brief: self.brief,
            path: self.path@,
        }
    }
}

impl View for PlanningStep {
    type V = StepView;

    open spec fn view(&self) -> StepView {
        match *self {
            PlanningStep::Done(outcome) => StepView::Done(outcome@),
            PlanningStep::CallPlanner(call) => StepView::CallPlanner {
                planner_model: call.planner_model@,
                executor_model: call.executor_model@,
            },
        }
    }
}

/// Whether `hints` holds `hint`.
pub open spec fn is_available(hints: Seq<String>, hint: Seq<char>) -> bool {
    chars::string_list(hints).contains(hint)
}

/// The model name of a hint.
pub open spec fn hint_model(hint: Seq<char>) -> Seq<char> {
    "hint:"@ + hint
}

/// The model that an available hint leads to.
pub open spec fn route(hints: Seq<String>, hint: Seq<char>) -> Option<Seq<char>> {
    if is_available(hints, hint) {
        Some(hint_model(hint))
    } else {
        None
    }
}

/// The model that carries out a planned run.
pub open spec fn executor_model(
    default_model: Seq<char>,
    config: PlannerExecutionConfig,
    hints: Seq<String>,
) -> Seq<char> {
    match route(hints, config.executor_hint@) {
        Some(model) => model,
        None => default_model,
    }
}

/// An outcome without a plan.
pub open spec fn bare_outcome(model: Seq<char>, path: PathView) -> OutcomeView {
    OutcomeView {
        effective_model: model,
        extra_system_context: None,
        visible_summary: None,
        brief: None,
        path,
    }
}

/// The path of a run that the executor carries out without a plan.
pub open spec fn fallback_path(config: PlannerExecutionConfig) -> PathView {
    PathView::PlannerFallback {
        planner_hint: config.planner_hint@,
        executor_hint: config.executor_hint@,
    }
}

/// The hint that the query was classified under, where a model is available for it.
pub open spec fn usable_hint(query_hint: Option<String>, hints: Seq<String>) -> Option<Seq<char>> {
    match query_hint {
        Some(hint) if is_available(hints, hint@) => Some(hint@),
        _ => None,
    }
}

/// What is decided before the planner is asked, if it is. `query_hint` is what the message was
/// classified as, `external_action` the external action that it was classified as.
pub open spec fn first_step(
    query_hint: Option<String>,
    external_action: Option<String>,
    default_model: Seq<char>,
    config: PlannerExecutionConfig,
    hints: Seq<String>,
) -> StepView {
    let hint = usable_hint(query_hint, hints);
    let unplanned = match hint {
        Some(h) => bare_outcome(hint_model(h), PathView::QueryHint(h)),
        None => bare_outcome(default_model, PathView::Default),
    };
    if hint matches Some(h) && chars::string_list(config.simple_hints@).contains(h) {
        StepView::Done(bare_outcome(hint_model(hint->0), PathView::SimpleHint(hint->0)))
    } else if config.enabled && external_action is Some {
        match route(hints, config.planner_hint@) {
            Some(planner_model) => StepView::CallPlanner {
                planner_model,
                executor_model: executor_model(default_model, config, hints),
            },
            None => if config.fallback_to_executor_on_planner_error {
                StepView::Done(
                    bare_outcome(
                        executor_model(default_model, config, hints),
                        fallback_path(config),
                    ),
                )
            } else {
                StepView::Done(unplanned)
            },
        }
    } else {
        StepView::Done(unplanned)
    }
}

/// Whether the user is shown the plan.
pub open spec fn plan_is_shown(
    brief: PlannerExecutionBrief,
    config: PlannerExecutionConfig,
) -> bool {
    brief.turn_estimate > config.show_plan_when_turn_estimate_over || (brief.needs_user_confirmation
        && config.show_plan_when_approval_required)
}

/// What is decided once the planner has answered with `reply`.
pub open spec fn second_step(
    executor: Seq<char>,
    default_model: Seq<char>,
    config: PlannerExecutionConfig,
    reply: Result<PlannerExecutionBrief, PlannerError>,
) -> OutcomeView {
    match reply {
        Ok(brief) => if !brief.is_external_action || brief.is_simple {
            OutcomeView {
                brief: Some(brief),
                ..bare_outcome(executor, PathView::SimpleHint(config.executor_hint@))
            }
        } else {
            OutcomeView {
                effective_model: executor,
                extra_system_context: Some(executor_context(brief)),
                visible_summary: if plan_is_shown(brief, config) {
                    Some(visible_summary(brief))
                } else {
                    None
                },
                brief: Some(brief),
                path: PathView::PlannerExecutor {
                    planner_hint: config.planner_hint@,
                    executor_hint: config.executor_hint@,
                },
            }
        },
        Err(_) => if config.fallback_to_executor_on_planner_error {
            bare_outcome(executor, fallback_path(config))
        } else {
            bare_outcome(default_model, PathView::Default)
        },
    }
}

/// The outcome of planning, where the planner, if it is asked, answers with `reply`.
pub open spec fn planned(
    query_hint: Option<String>,
    external_action: Option<String>,
    default_model: Seq<char>,
    config: PlannerExecutionConfig,
    hints: Seq<String>,
    reply: Result<PlannerExecutionBrief, PlannerError>,
) -> OutcomeView {
    match first_step(query_hint, external_action, default_model, config, hints) {
        StepView::Done(outcome) => outcome,
        StepView::CallPlanner { planner_model, executor_model } => second_step(
            executor_model,
            default_model,
            config,
            reply,
        ),
    }
}

/// Whether `s` starts with `{` and ends with `}`.
pub open spec fn is_braced(s: Seq<char>) -> bool {
    s.len() > 0 && s.first() == '{' && s.last() == '}'
}

/// The JSON object in a model's answer: what lies from its first `{` to its last `}`, where that one
/// comes first.
pub open spec fn json_object(s: Seq<char>) -> Option<Seq<char>> {
    match (s.index_of_first('{'), s.index_of_last('}')) {
        (Some(from), Some(to)) if from < to => Some(s.subrange(from, to + 1)),
        _ => None,
    }
}

/// Whether `s` holds no brace.
pub open spec fn is_brace_free(s: Seq<char>) -> bool {
    forall|i: int| 0 <= i < s.len() ==> #[trigger] s[i] != '{' && s[i] != '}'
}

/// Cutting off what holds no brace leaves the JSON object as it is.
proof fn lemma_cut_keeps_object(s: Seq<char>, from: int, to: int)
    requires
        0 <= from <= to <= s.len(),
        forall|i: int|
            0 <= i < from || to <= i < s.len() ==> #[trigger] s[i] != '{' && s[i] != '}',
    ensures
        json_object(s.subrange(from, to)) == json_object(s),
{
    let part = s.subrange(from, to);
    s.index_of_first_ensures('{');
    s.index_of_last_ensures('}');
    part.index_of_first_ensures('{');
    part.index_of_last_ensures('}');
    assert forall|i: int| 0 <= i < part.len() implies #[trigger] part[i] == s[i + from] by {}
    if s.contains('{') {
        let i = s.index_of_first('{')->0;
        assert(part[i - from] == s[i]);
        assert(part.contains(part[i - from]));
    }
    if s.contains('}') {
        let i = s.index_of_last('}')->0;
        assert(part[i - from] == s[i]);
        assert(part.contains(part[i - from]));
    }
    if part.contains('{') {
        let i = part.index_of_first('{')->0;
        assert(s.contains(s[i + from]));
        assert(part[s.index_of_first('{')->0 - from] == '{');
        assert(i + from == s.index_of_first('{')->0);
    }
    if part.contains('}') {
        let i = part.index_of_last('}')->0;
        assert(s.contains(s[i + from]));
        assert(part[s.index_of_last('}')->0 - from] == '}');
        assert(i + from == s.index_of_last('}')->0);
    }
    if json_object(s) is Some {
        let i = s.index_of_first('{')->0;
        let j = s.index_of_last('}')->0;
        assert(s.subrange(i, j + 1) =~= part.subrange(i - from, j - from + 1));
    }
}

/// Trimming leaves the JSON object as it is.
proof fn lemma_trimmed_keeps_object(s: Seq<char>)
    ensures
        json_object(chars::trimmed(s)) == json_object(s),
{
    let k = chars::trim_offset(s);
    chars::lemma_trimmed_is_cut(s);
    lemma_cut_keeps_object(s, k, k + chars::trimmed(s).len());
}

/// Stripping a prefix without braces leaves the JSON object as it is.
proof fn lemma_prefix_keeps_object(s: Seq<char>, prefix: Seq<char>)
    requires
        prefix.is_prefix_of(s),
        is_brace_free(prefix),
    ensures
        json_object(s.skip(prefix.len() as int)) == json_object(s),
{
    assert forall|i: int| 0 <= i < prefix.len() implies #[trigger] s[i] != '{' && s[i] != '}' by {
        assert(s[i] == prefix[i]);
    }
    lemma_cut_keeps_object(s, prefix.len() as int, s.len() as int);
    assert(s.skip(prefix.len() as int) =~= s.subrange(prefix.len() as int, s.len() as int));
}

/// Stripping a suffix without braces leaves the JSON object as it is.
proof fn lemma_suffix_keeps_object(s: Seq<char>, suffix: Seq<char>)
    requires
        suffix.is_suffix_of(s),
        is_brace_free(suffix),
    ensures
        json_object(s.take(s.len() - suffix.len())) == json_object(s),
{
    let to = s.len() - suffix.len();
    assert forall|i: int| to <= i < s.len() implies #[trigger] s[i] != '{' && s[i] != '}' by {
        assert(s[i] == suffix[i - to]);
    }
    lemma_cut_keeps_object(s, 0, to);
    assert(s.take(to) =~= s.subrange(0, to));
}

/// What stands in braces is the JSON object itself.
pub proof fn lemma_braced_is_object(s: Seq<char>)
    requires
        is_braced(s),
    ensures
        json_object(s) == Some(s),
{
    s.index_of_first_ensures('{');
    s.index_of_last_ensures('}');
    assert(s.contains(s[0]));
    assert(s.contains(s[s.len() - 1]));
    assert(s.subrange(0, s.len() as int) =~= s);
}

/// A brief whose estimate is at least one turn.
pub open spec fn settled(brief: PlannerExecutionBrief) -> PlannerExecutionBrief {
    PlannerExecutionBrief {
        turn_estimate: if brief.turn_estimate < 1 {
            1
        } else {
            brief.turn_estimate
        },
        ..brief
    }
}

/// Whether `decode` may answer `answer` for the text `text`.
pub open spec fn may_decode<F: Fn(&str) -> Result<PlannerExecutionBrief, String>>(
    decode: F,
    text: Seq<char>,
    answer: Result<PlannerExecutionBrief, String>,
) -> bool {
    exists|t: &str| t@ == text && #[trigger] decode.ensures((t,), answer)
}

/// What a decoded brief comes to.
pub open spec fn checked_brief(decoded: Result<PlannerExecutionBrief, String>) -> Result<
    PlannerExecutionBrief,
    PlannerError,
> {
    match decoded {
        Ok(brief) => Ok(settled(brief)),
        Err(reason) => Err(PlannerError::InvalidBrief(reason)),
    }
}

/// Whether `decode` may lead from the JSON text `text` to `result`.
pub open spec fn may_settle<F: Fn(&str) -> Result<PlannerExecutionBrief, String>>(
    decode: F,
    text: Seq<char>,
    result: Result<PlannerExecutionBrief, PlannerError>,
) -> bool {
    exists|decoded: Result<PlannerExecutionBrief, String>| #[trigger]
        may_decode(decode, text, decoded) && result == checked_brief(decoded)
}

/// Whether the answer `raw` may be read as `result`.
pub open spec fn may_read<F: Fn(&str) -> Result<PlannerExecutionBrief, String>>(
    decode: F,
    raw: Seq<char>,
    result: Result<PlannerExecutionBrief, PlannerError>,
) -> bool {
    match json_object(raw) {
        None => result == Err::<PlannerExecutionBrief, PlannerError>(PlannerError::NoJsonObject),
        Some(text) => may_settle(decode, text, result),
    }
}

/// A brief as a JSON object.
pub open spec fn brief_json(brief: PlannerExecutionBrief) -> json::Json {
    json::Json::Object(
        seq![
            ("goal"@, json::Json::Text(brief.goal@)),
            ("is_simple"@, json::Json::Bool(brief.is_simple)),
            ("is_external_action"@, json::Json::Bool(brief.is_external_action)),
            ("turn_estimate"@, json::Json::Unsigned(brief.turn_estimate as u64)),
            ("needs_user_confirmation"@, json::Json::Bool(brief.needs_user_confirmation)),
            ("execution_brief"@, json::Json::Text(brief.execution_brief@)),
            ("success_proof_expected"@, json::Json::Text(brief.success_proof_expected@)),
        ],
    )
}

/// What the executor is told of the brief.
pub open spec fn executor_context(brief: PlannerExecutionBrief) -> Seq<char> {
    EXECUTOR_CONTEXT_INTRO@ + match json::pretty_text(brief_json(brief)) {
        Some(text) => text,
        None => "{}"@,
    }
}

/// What the user is told of the brief.
pub open spec fn visible_summary(brief: PlannerExecutionBrief) -> Seq<char> {
    "Execution plan: "@ + brief.goal@ + "\nEstimated turns: "@ + decimal::decimal(
        brief.turn_estimate as nat,
    ) + "\nSuccess proof: "@ + brief.success_proof_expected@
}

/// Whether `texts` holds `text`.
fn holds(texts: &Vec<String>, text: &str) -> (r: bool)
    ensures
        r == chars::string_list(texts@).contains(text@),
{
    let ghost views = chars::string_list(texts@);
    let mut i: usize = 0;
    while i < texts.len()
        invariant
            i <= texts.len(),
            views == chars::string_list(texts@),
            forall|j: int| 0 <= j < i ==> views[j] != text@,
        decreases texts.len() - i,
    {
        if chars::same_text(texts[i].as_str(), text) {
            assert(views[i as int] == text@);
            return true;
        }
        i = i + 1;
    }
    false
}

/// The model name of a hint.
fn model_of_hint(hint: &str) -> (r: String)
    ensures
        r@ == hint_model(hint@),
{
    "hint:".to_string().concat(hint)
}

/// The model that `hint` leads to, where it is available.
pub fn route_model_for_hint(hint: &str, available_hints: &Vec<String>) -> (r: Option<String>)
    ensures
        chars::string_option(r) == route(available_hints@, hint@),
{
    if holds(available_hints, hint) {
        Some(model_of_hint(hint))
    } else {
        None
    }
}

/// The JSON object in a model's answer.
pub fn parse_json_object(input: &str) -> (r: Option<&str>)
    ensures
        chars::str_option(r) == json_object(input@),
{
    let trimmed = chars::trim(input);
    proof {
        lemma_trimmed_keeps_object(input@);
        reveal_strlit("```");
        reveal_strlit("```json");
        assert(is_brace_free("```"@));
        assert(is_brace_free("```json"@));
    }
    if braced(trimmed) {
        proof {
            lemma_braced_is_object(trimmed@);
        }
        return Some(trimmed);
    }
    let opened = match chars::strip_prefix(trimmed, "```json") {
        Some(rest) => {
            proof {
                lemma_prefix_keeps_object(trimmed@, "```json"@);
            }
            rest
        },
        None => match chars::strip_prefix(trimmed, "```") {
            Some(rest) => {
                proof {
                    lemma_prefix_keeps_object(trimmed@, "```"@);
                }
                rest
            },
            None => trimmed,
        },
    };
    proof {
        lemma_trimmed_keeps_object(opened@);
    }
    let opened = chars::trim(opened);
    let closed = match chars::strip_suffix(opened, "```") {
        Some(rest) => {
            proof {
                lemma_suffix_keeps_object(opened@, "```"@);
            }
            rest
        },
        None => opened,
    };
    proof {
        lemma_trimmed_keeps_object(closed@);
    }
    let unfenced = chars::trim(closed);
    if braced(unfenced) {
        proof {
            lemma_braced_is_object(unfenced@);
        }
        return Some(unfenced);
    }
    proof {
        trimmed@.index_of_first_ensures('{');
        trimmed@.index_of_last_ensures('}');
    }
    match chars::find(trimmed, '{') {
        Some(start) => match chars::find_last(trimmed, '}') {
            Some(end) => if start < end {
                Some(trimmed.substring_char(start, end + 1))
            } else {
                None
            },
            None => None,
        },
        None => None,
    }
}

/// Whether `text` starts with `{` and ends with `}`.
fn braced(text: &str) -> (r: bool)
    ensures
        r == is_braced(text@),
{
    let all = chars::characters(text);
    all.len() > 0 && all[0] == '{' && all[all.len() - 1] == '}'
}

/// The brief in the planner's answer, with an estimate of at least one turn. `decode` reads a JSON
/// text as a brief, and says why where it is none.
pub fn parse_planner_brief<F: Fn(&str) -> Result<PlannerExecutionBrief, String>>(
    raw: &str,
    decode: F,
) -> (r: Result<PlannerExecutionBrief, PlannerError>)
    requires
        forall|t: &str| #[trigger] decode.requires((t,)),
    ensures
        may_read(decode, raw@, r),
{
    match parse_json_object(raw) {
        None => Err(PlannerError::NoJsonObject),
        Some(text) => {
            let decoded = decode(text);
            assert(json_object(raw@) == Some(text@));
            assert(may_decode(decode, text@, decoded));
            let result = check_brief(decoded);
            assert(may_settle(decode, text@, result));
            result
        },
    }
}

/// What a decoded brief comes to.
pub fn check_brief(decoded: Result<PlannerExecutionBrief, String>) -> (r: Result<
    PlannerExecutionBrief,
    PlannerError,
>)
    ensures
        r == checked_brief(decoded),
{
    match decoded {
        Ok(brief) => {
            let mut brief = brief;
            if brief.turn_estimate < 1 {
                brief.turn_estimate = 1;
            }
            Ok(brief)
        },
        Err(reason) => Err(PlannerError::InvalidBrief(reason)),
    }
}

/// The names of a brief's fields differ in length.
pub proof fn lemma_brief_keys()
    ensures
        "goal"@.len() == 4,
        "is_simple"@.len() == 9,
        "is_external_action"@.len() == 18,
        "turn_estimate"@.len() == 13,
        "needs_user_confirmation"@.len() == 23,
        "execution_brief"@.len() == 15,
        "success_proof_expected"@.len() == 22,
{
    reveal_strlit("goal");
    reveal_strlit("is_simple");
    reveal_strlit("is_external_action");
    reveal_strlit("turn_estimate");
    reveal_strlit("needs_user_confirmation");
    reveal_strlit("execution_brief");
    reveal_strlit("success_proof_expected");
}

/// A brief as a JSON object.
fn brief_value(brief: &PlannerExecutionBrief) -> (r: serde_json::Value)
    ensures
        json::json_of(r) == brief_json(*brief),
{
    let fields: Vec<(String, serde_json::Value)> =
        vec![
        json::field("goal", json::text_value(brief.goal.as_str())),
        json::field("is_simple", json::bool_value(brief.is_simple)),
        json::field("is_external_action", json::bool_value(brief.is_external_action)),
        json::field("turn_estimate", json::number_value(brief.turn_estimate as u64)),
        json::field("needs_user_confirmation", json::bool_value(brief.needs_user_confirmation)),
        json::field("execution_brief", json::text_value(brief.execution_brief.as_str())),
        json::field("success_proof_expected", json::text_value(brief.success_proof_expected.as_str())),
    ];
    proof {
        let f = json::fields_view(fields@);
        assert(f =~= brief_json(*brief)->Object_0);
        assert(json::distinct_keys(f)) by {
            lemma_brief_keys();
            assert forall|i: int, j: int| 0 <= i < j < f.len() implies (#[trigger] f[i]).0 != (
            #[trigger] f[j]).0 by {
                assert(i == 0 || i == 1 || i == 2 || i == 3 || i == 4 || i == 5);
                assert(j == 1 || j == 2 || j == 3 || j == 4 || j == 5 || j == 6);
            }
        }
    }
    json::object_value(fields)
}

/// What the executor is told of the brief. What follows the introduction stands in braces.
pub fn render_executor_context(brief: &PlannerExecutionBrief) -> (r: String)
    ensures
        r@ == executor_context(*brief),
        json::pretty_text(brief_json(*brief)) matches Some(text) && is_braced(text),
{
    let value = brief_value(brief);
    let text = match json::to_pretty(&value) {
        Some(text) => text,
        None => "{}".to_string(),
    };
    EXECUTOR_CONTEXT_INTRO.to_string().concat(text.as_str())
}

/// What the user is told of the brief.
pub fn render_visible_summary(brief: &PlannerExecutionBrief) -> (r: String)
    ensures
        r@ == visible_summary(*brief),
{
    let mut text = "Execution plan: ".to_string();
    text.append(brief.goal.as_str());
    text.append("\nEstimated turns: ");
    text.append(decimal::numeral(brief.turn_estimate as u64).as_str());
    text.append("\nSuccess proof: ");
    text.append(brief.success_proof_expected.as_str());
    text
}

/// The conversation that the planner model is given: its instructions, then `messages`.
pub fn planner_messages(messages: Vec<ChatMessage>) -> (r: Vec<ChatMessage>)
    ensures
        r@.len() == messages@.len() + 1,
        r@[0].role@ == "system"@,
        r@[0].content@ == PLANNER_SYSTEM_PROMPT@,
        r@.skip(1) == messages@,
{
    let mut all: Vec<ChatMessage> = Vec::new();
    all.push(
        ChatMessage { role: "system".to_string(), content: PLANNER_SYSTEM_PROMPT.to_string() },
    );
    let mut rest = messages;
    all.append(&mut rest);
    assert(all@.skip(1) =~= messages@);
    all
}

/// An outcome without a plan.
fn bare(model: String, path: PlanningPath) -> (r: PlanningOutcome)
    ensures
        r@ == bare_outcome(model@, path@),
{
    PlanningOutcome {
        effective_model: model,
        extra_system_context: None,
        visible_summary: None,
        brief: None,
        path,
    }
}

/// Decides how a message is run, as far as that needs no answer from the planner. `query_hint` is
/// what the message was classified as, `external_action` the external action that it was
/// classified as.
pub fn plan_execution(
    query_hint: Option<String>,
    external_action: Option<String>,
    default_model: &str,
    planner_config: &PlannerExecutionConfig,
    available_hints: &Vec<String>,
) -> (r: PlanningStep)
    ensures
        r@ == first_step(
            query_hint,
            external_action,
            default_model@,
            *planner_config,
            available_hints@,
        ),
{
    let matched_hint = match query_hint {
        Some(hint) => if holds(available_hints, hint.as_str()) {
            Some(hint)
        } else {
            None
        },
        None => None,
    };
    assert(chars::string_option(matched_hint) == usable_hint(query_hint, available_hints@));
    match &matched_hint {
        Some(hint) => if holds(&planner_config.simple_hints, hint.as_str()) {
            return PlanningStep::Done(
                bare(model_of_hint(hint.as_str()), PlanningPath::SimpleHint(hint.clone())),
            );
        },
        None => {},
    }
    if planner_config.enabled && external_action.is_some() {
        let planner_model = route_model_for_hint(
            planner_config.planner_hint.as_str(),
            available_hints,
        );
        let executor = match route_model_for_hint(
            planner_config.executor_hint.as_str(),
            available_hints,
        ) {
            Some(model) => model,
            None => default_model.to_string(),
        };
        if let Some(planner_model) = planner_model {
            return PlanningStep::CallPlanner(
                PlannerCall { planner_model, executor_model: executor },
            );
        }
        if planner_config.fallback_to_executor_on_planner_error {
            return PlanningStep::Done(
                bare(
                    executor,
                    PlanningPath::PlannerFallback {
                        planner_hint: planner_config.planner_hint.clone(),
                        executor_hint: planner_config.executor_hint.clone(),
                    },
                ),
            );
        }
    }
    PlanningStep::Done(
        match matched_hint {
            Some(hint) => bare(model_of_hint(hint.as_str()), PlanningPath::QueryHint(hint)),
            None => bare(default_model.to_string(), PlanningPath::Default),
        },
    )
}

/// Decides how a message is run once the planner has answered.
pub fn resume_planning(
    call: PlannerCall,
    default_model: &str,
    planner_config: &PlannerExecutionConfig,
    reply: Result<PlannerExecutionBrief, PlannerError>,
) -> (r: PlanningOutcome)
    ensures
        r@ == second_step(call.executor_model@, default_model@, *planner_config, reply),
{
    match reply {
        Ok(brief) => {
            if !brief.is_external_action || brief.is_simple {
                return PlanningOutcome {
                    effective_model: call.executor_model,
                    extra_system_context: None,
                    visible_summary: None,
                    brief: Some(brief),
                    path: PlanningPath::SimpleHint(planner_config.executor_hint.clone()),
                };
            }
            let visible_summary = if brief.turn_estimate
                > planner_config.show_plan_when_turn_estimate_over || (brief.needs_user_confirmation
                && planner_config.show_plan_when_approval_required) {
                Some(render_visible_summary(&brief))
            } else {
                None
            };
            PlanningOutcome {
                effective_model: call.executor_model,
                extra_system_context: Some(render_executor_context(&brief)),
                visible_summary,
                brief: Some(brief),
                path: PlanningPath::PlannerExecutor {
                    planner_hint: planner_config.planner_hint.clone(),
                    executor_hint: planner_config.executor_hint.clone(),
                },
            }
        },
        Err(_) => if planner_config.fallback_to_executor_on_planner_error {
            bare(
                call.executor_model,
                PlanningPath::PlannerFallback {
                    planner_hint: planner_config.planner_hint.clone(),
                    executor_hint: planner_config.executor_hint.clone(),
                },
            )
        } else {
            bare(default_model.to_string(), PlanningPath::Default)
        },
    }
}

} // verus!
