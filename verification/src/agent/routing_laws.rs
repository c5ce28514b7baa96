//! Where a run goes: what is decided of a message, said of the message's classification, the
//! configuration and the hints that models are available for.
use crate::agent::planner;
use crate::agent::planner::{PlannerError, PlannerExecutionBrief, PlannerExecutionConfig};
use crate::json;
use crate::text::chars;
use crate::text::decimal;
use vstd::prelude::*;

verus! {

/// Whether one of the texts is `text`.
pub open spec fn is_among(texts: Seq<String>, text: Seq<char>) -> bool {
    exists|i: int| 0 <= i < texts.len() && (#[trigger] texts[i])@ == text
}

/// Whether an outcome names a model and a path, and nothing besides.
pub open spec fn only_names(
    outcome: planner::OutcomeView,
    model: Seq<char>,
    path: planner::PathView,
) -> bool {
    &&& outcome.effective_model == model
    &&& outcome.path == path
    &&& outcome.extra_system_context is None
    &&& outcome.visible_summary is None
    &&& outcome.brief is None
}

/// Whether `model` is that of the executor: the one its hint leads to, where there is a model for
/// the hint, and the default one where there is not.
pub open spec fn is_executor(
    model: Seq<char>,
    default_model: Seq<char>,
    config: PlannerExecutionConfig,
    hints: Seq<String>,
) -> bool {
    &&& is_among(hints, config.executor_hint@) ==> model == "hint:"@ + config.executor_hint@
    &&& !is_among(hints, config.executor_hint@) ==> model == default_model
}

proof fn lemma_among(texts: Seq<String>, text: Seq<char>)
    ensures
        is_among(texts, text) <==> chars::string_list(texts).contains(text),
{
    let views = chars::string_list(texts);
    if is_among(texts, text) {
        let i = choose|i: int| 0 <= i < texts.len() && (#[trigger] texts[i])@ == text;
        assert(views[i] == text);
    }
    if views.contains(text) {
        let i = choose|i: int| 0 <= i < views.len() && views[i] == text;
        assert(texts[i]@ == text);
    }
}

/// A hint leads to its own model exactly where there is a model for it.
pub proof fn law_hint_leads_to_its_model(hints: Seq<String>, hint: Seq<char>)
    ensures
        is_among(hints, hint) ==> planner::route(hints, hint) == Some("hint:"@ + hint),
        !is_among(hints, hint) ==> planner::route(hints, hint) is None,
{
    lemma_among(hints, hint);
}

/// A step, an outcome and an error say all that their fields hold.
pub proof fn law_views_say_all(
    outcome: planner::PlanningOutcome,
    call: planner::PlannerCall,
    a: String,
    b: String,
)
    ensures
        outcome@.effective_model == outcome.effective_model@,
        outcome@.extra_system_context == (match outcome.extra_system_context {
            Some(text) => Some(text@),
            None => None,
        }),
        outcome@.visible_summary == (match outcome.visible_summary {
            Some(text) => Some(text@),
            None => None,
        }),
        outcome@.brief == outcome.brief,
        outcome@.path == outcome.path@,
        planner::PlanningPath::Default@ is Default,
        planner::PlanningPath::QueryHint(a)@ == planner::PathView::QueryHint(a@),
        planner::PlanningPath::SimpleHint(a)@ == planner::PathView::SimpleHint(a@),
        (planner::PlanningPath::PlannerExecutor { planner_hint: a, executor_hint: b })@ == (
        planner::PathView::PlannerExecutor { planner_hint: a@, executor_hint: b@ }),
        (planner::PlanningPath::PlannerFallback { planner_hint: a, executor_hint: b })@ == (
        planner::PathView::PlannerFallback { planner_hint: a@, executor_hint: b@ }),
        planner::PlanningStep::Done(outcome)@ == planner::StepView::Done(outcome@),
        planner::PlanningStep::CallPlanner(call)@ == (planner::StepView::CallPlanner {
            planner_model: call.planner_model@,
            executor_model: call.executor_model@,
        }),
        PlannerError::Provider(a).text() == a@,
        PlannerError::InvalidBrief(a).text() == a@,
{
}

/// A message that is classified under an available hint which counts as simple goes to the model of
/// that hint, and the planner is not asked.
pub proof fn law_simple_hint_is_followed(
    hint: String,
    external_action: Option<String>,
    default_model: Seq<char>,
    config: PlannerExecutionConfig,
    hints: Seq<String>,
)
    requires
        is_among(hints, hint@),
        is_among(config.simple_hints@, hint@),
    ensures
        planner::first_step(Some(hint), external_action, default_model, config, hints) matches
            planner::StepView::Done(outcome) && only_names(
            outcome,
            "hint:"@ + hint@,
            planner::PathView::SimpleHint(hint@),
        ),
{
    lemma_among(hints, hint@);
    lemma_among(config.simple_hints@, hint@);
}

/// Where the planner is disabled or no external action is asked for, and also where the planner
/// cannot be asked and the executor is not to stand in for it: a message that is classified under an
/// available hint, not a simple one, goes to the model of that hint.
pub proof fn law_query_hint_is_followed(
    hint: String,
    external_action: Option<String>,
    default_model: Seq<char>,
    config: PlannerExecutionConfig,
    hints: Seq<String>,
)
    requires
        is_among(hints, hint@),
        !is_among(config.simple_hints@, hint@),
        !config.enabled || external_action is None || (!is_among(hints, config.planner_hint@)
            && !config.fallback_to_executor_on_planner_error),
    ensures
        planner::first_step(Some(hint), external_action, default_model, config, hints) matches
            planner::StepView::Done(outcome) && only_names(
            outcome,
            "hint:"@ + hint@,
            planner::PathView::QueryHint(hint@),
        ),
{
    lemma_among(hints, hint@);
    lemma_among(config.simple_hints@, hint@);
    lemma_among(hints, config.planner_hint@);
}

/// The default model is taken, under the same conditions, exactly where the message is classified
/// under no available hint.
pub proof fn law_default_model_is_the_last_resort(
    query_hint: Option<String>,
    external_action: Option<String>,
    default_model: Seq<char>,
    config: PlannerExecutionConfig,
    hints: Seq<String>,
)
    ensures
        (query_hint matches Some(hint) ==> !is_among(hints, hint@)) && (!config.enabled
            || external_action is None || (!is_among(hints, config.planner_hint@)
            && !config.fallback_to_executor_on_planner_error)) ==> (planner::first_step(
            query_hint,
            external_action,
            default_model,
            config,
            hints,
        ) matches planner::StepView::Done(outcome) && only_names(
            outcome,
            default_model,
            planner::PathView::Default,
        )),
        (planner::first_step(query_hint, external_action, default_model, config, hints) matches
            planner::StepView::Done(outcome) && outcome.path is Default) ==> (
        query_hint matches Some(hint) ==> !is_among(hints, hint@)),
{
    if query_hint is Some {
        lemma_among(hints, query_hint->0@);
    }
    lemma_among(hints, config.planner_hint@);
}

/// Where the planner is enabled, an external action is asked for and the message counts as no simple
/// one, the planner is asked under its hint, if there is a model for it. If there is none and the
/// executor is to stand in, the executor takes the run without a plan.
pub proof fn law_planner_is_asked_under_its_hint(
    query_hint: Option<String>,
    external_action: Option<String>,
    default_model: Seq<char>,
    config: PlannerExecutionConfig,
    hints: Seq<String>,
)
    requires
        config.enabled,
        external_action is Some,
        query_hint matches Some(hint) ==> !is_among(hints, hint@) || !is_among(
            config.simple_hints@,
            hint@,
        ),
    ensures
        is_among(hints, config.planner_hint@) ==> (planner::first_step(
            query_hint,
            external_action,
            default_model,
            config,
            hints,
        ) matches planner::StepView::CallPlanner { planner_model, executor_model } && planner_model
            == "hint:"@ + config.planner_hint@ && is_executor(
            executor_model,
            default_model,
            config,
            hints,
        )),
        !is_among(hints, config.planner_hint@) && config.fallback_to_executor_on_planner_error ==> (
        planner::first_step(query_hint, external_action, default_model, config, hints) matches
            planner::StepView::Done(outcome) && is_executor(
            outcome.effective_model,
            default_model,
            config,
            hints,
        ) && only_names(
            outcome,
            outcome.effective_model,
            planner::PathView::PlannerFallback {
                planner_hint: config.planner_hint@,
                executor_hint: config.executor_hint@,
            },
        )),
{
    if query_hint is Some {
        lemma_among(hints, query_hint->0@);
        lemma_among(config.simple_hints@, query_hint->0@);
    }
    lemma_among(hints, config.planner_hint@);
    lemma_among(hints, config.executor_hint@);
}

/// A brief that sees a simple task or no external action leads to the executor without a plan; the
/// brief is kept.
pub proof fn law_simple_brief_needs_no_plan(
    executor: Seq<char>,
    default_model: Seq<char>,
    config: PlannerExecutionConfig,
    brief: PlannerExecutionBrief,
)
    requires
        brief.is_simple || !brief.is_external_action,
    ensures
        ({
            let outcome = planner::second_step(executor, default_model, config, Ok(brief));
            &&& outcome.effective_model == executor
            &&& outcome.path == planner::PathView::SimpleHint(config.executor_hint@)
            &&& outcome.extra_system_context is None
            &&& outcome.visible_summary is None
            &&& outcome.brief == Some(brief)
        }),
{
}

/// A brief that confirms an external action goes to the executor, whole; the user sees the plan
/// where it takes more turns than the threshold, or asks for a confirmation that is to be shown, and
/// not otherwise.
pub proof fn law_confirmed_action_is_planned(
    executor: Seq<char>,
    default_model: Seq<char>,
    config: PlannerExecutionConfig,
    brief: PlannerExecutionBrief,
)
    requires
        !brief.is_simple,
        brief.is_external_action,
    ensures
        ({
            let outcome = planner::second_step(executor, default_model, config, Ok(brief));
            let text = json::pretty_text(planner::brief_json(brief));
            &&& outcome.effective_model == executor
            &&& outcome.path == (planner::PathView::PlannerExecutor {
                planner_hint: config.planner_hint@,
                executor_hint: config.executor_hint@,
            })
            &&& outcome.brief == Some(brief)
            &&& text is Some ==> outcome.extra_system_context == Some(
                planner::EXECUTOR_CONTEXT_INTRO@ + text->0,
            )
            &&& outcome.visible_summary is Some <==> (brief.turn_estimate
                > config.show_plan_when_turn_estimate_over || (brief.needs_user_confirmation
                && config.show_plan_when_approval_required))
            &&& outcome.visible_summary is Some ==> outcome.visible_summary->0
                == "Execution plan: "@ + brief.goal@ + "\nEstimated turns: "@ + decimal::decimal(
                brief.turn_estimate as nat,
            ) + "\nSuccess proof: "@ + brief.success_proof_expected@
        }),
{
}

/// Where the planner gives no brief, for whatever reason, the executor takes the run if it is to
/// stand in, and the default model does if not; there is no plan.
pub proof fn law_planner_error_leaves_no_plan(
    executor: Seq<char>,
    default_model: Seq<char>,
    config: PlannerExecutionConfig,
    error: PlannerError,
)
    ensures
        config.fallback_to_executor_on_planner_error ==> only_names(
            planner::second_step(executor, default_model, config, Err(error)),
            executor,
            planner::PathView::PlannerFallback {
                planner_hint: config.planner_hint@,
                executor_hint: config.executor_hint@,
            },
        ),
        !config.fallback_to_executor_on_planner_error ==> only_names(
            planner::second_step(executor, default_model, config, Err(error)),
            default_model,
            planner::PathView::Default,
        ),
{
}

/// Whether `settled` is `read` with an estimate of at least one turn.
pub open spec fn is_settled(settled: PlannerExecutionBrief, read: PlannerExecutionBrief) -> bool {
    &&& settled.goal == read.goal
    &&& settled.is_simple == read.is_simple
    &&& settled.is_external_action == read.is_external_action
    &&& settled.needs_user_confirmation == read.needs_user_confirmation
    &&& settled.execution_brief == read.execution_brief
    &&& settled.success_proof_expected == read.success_proof_expected
    &&& read.turn_estimate > 0 ==> settled.turn_estimate == read.turn_estimate
    &&& read.turn_estimate == 0 ==> settled.turn_estimate == 1
}

/// Whether `text` is what lies in `raw` from its first `{` on up to and with its last `}`.
pub open spec fn is_object_text(raw: Seq<char>, text: Seq<char>) -> bool {
    exists|from: int, to: int|
        {
            &&& 0 <= from < to < raw.len()
            &&& #[trigger] raw[from] == '{' && #[trigger] raw[to] == '}'
            &&& forall|i: int| 0 <= i < from ==> raw[i] != '{'
            &&& forall|i: int| to < i < raw.len() ==> raw[i] != '}'
            &&& text == raw.subrange(from, to + 1)
        }
}

proof fn lemma_object_text(raw: Seq<char>)
    ensures
        planner::json_object(raw) matches Some(text) ==> is_object_text(raw, text),
        forall|text: Seq<char>| #[trigger]
            is_object_text(raw, text) ==> planner::json_object(raw) == Some(text),
{
    raw.index_of_first_ensures('{');
    raw.index_of_last_ensures('}');
    if planner::json_object(raw) is Some {
        let from = raw.index_of_first('{')->0;
        let to = raw.index_of_last('}')->0;
        assert(raw[from] == '{' && raw[to] == '}');
    }
    assert forall|text: Seq<char>| #[trigger] is_object_text(raw, text) implies planner::json_object(
        raw,
    ) == Some(text) by {
        let (from, to) = choose|from: int, to: int|
            {
                &&& 0 <= from < to < raw.len()
                &&& #[trigger] raw[from] == '{' && #[trigger] raw[to] == '}'
                &&& forall|i: int| 0 <= i < from ==> raw[i] != '{'
                &&& forall|i: int| to < i < raw.len() ==> raw[i] != '}'
                &&& text == raw.subrange(from, to + 1)
            };
        assert(raw.contains(raw[from]));
        assert(raw.contains(raw[to]));
    }
}

/// What is taken for the JSON object of an answer is what lies between its outermost braces.
pub proof fn law_object_lies_between_outer_braces(raw: Seq<char>, text: Seq<char>)
    ensures
        planner::json_object(raw) == Some(text) <==> is_object_text(raw, text),
{
    lemma_object_text(raw);
}

/// An answer is read as the brief that the decoder reads from between its outermost braces, with an
/// estimate of at least one turn; where the decoder reads none its reason is given, and where there
/// are no such braces, that there is no object.
pub proof fn law_answer_is_read_by_the_decoder<
    F: Fn(&str) -> Result<PlannerExecutionBrief, String>,
>(decode: F, raw: Seq<char>, result: Result<PlannerExecutionBrief, PlannerError>)
    requires
        planner::may_read(decode, raw, result),
    ensures
        (forall|text: Seq<char>| !is_object_text(raw, text)) ==> result == Err::<
            PlannerExecutionBrief,
            PlannerError,
        >(PlannerError::NoJsonObject),
        forall|text: Seq<char>| #[trigger]
            is_object_text(raw, text) ==> is_reading(decode, text, result),
{
    lemma_object_text(raw);
    assert forall|text: Seq<char>| #[trigger] is_object_text(raw, text) implies is_reading(
        decode,
        text,
        result,
    ) by {
        let decoded = choose|decoded: Result<PlannerExecutionBrief, String>| #[trigger]
            planner::may_decode(decode, text, decoded) && result == planner::checked_brief(decoded);
        let t = choose|t: &str| t@ == text && #[trigger] decode.ensures((t,), decoded);
        assert(decode.ensures((t,), decoded));
    }
}

/// Whether `result` is what some answer of the decoder for `text` comes to.
pub open spec fn is_reading<F: Fn(&str) -> Result<PlannerExecutionBrief, String>>(
    decode: F,
    text: Seq<char>,
    result: Result<PlannerExecutionBrief, PlannerError>,
) -> bool {
    exists|t: &str, decoded: Result<PlannerExecutionBrief, String>|
        t@ == text && #[trigger] decode.ensures((t,), decoded) && match decoded {
            Ok(read) => result matches Ok(brief) && is_settled(brief, read),
            Err(reason) => result == Err::<PlannerExecutionBrief, PlannerError>(
                PlannerError::InvalidBrief(reason),
            ),
        }
}

} // verus!
