//! Laws of the functions that plan a run and that find the proof of its completion.
use crate::agent::completion;
use crate::agent::completion::ProofSignal;
use crate::agent::completion_laws;
use crate::agent::planner;
use crate::agent::planner::{
    ChatMessage, PlannerCall, PlannerError, PlannerExecutionBrief, PlannerExecutionConfig,
    PlanningOutcome, PlanningPath, PlanningStep,
};
use crate::agent::planner_laws;
use crate::agent::routing_laws;
use crate::json;
use crate::text::chars;
use crate::text::decimal;
use crate::text::laws;
use vstd::prelude::*;

verus! {

/// A proof that is found is fresh and ends the run, and was read from the output without the white
/// space around it, or from between the outermost braces of that; one that can surely be read is
/// found, and where none can be read nothing is.
pub proof fn law_extract_proof_signal<F: Fn(&str) -> Option<ProofSignal>>(
    output: &str,
    decode: F,
    text: Seq<char>,
    at: int,
    part: Seq<char>,
    r: Option<ProofSignal>,
)
    requires
        call_ensures(completion::extract_proof_signal::<F>, (output, decode), r),
        laws::is_core(output@, text, at),
    ensures
        r matches Some(p) ==> p.fresh && p.terminal,
        r is Some ==> completion_laws::is_answer(decode, text, r) || exists|inner: Seq<char>|
            #[trigger]
            completion_laws::is_between_outer_braces(text, inner) && completion_laws::is_answer(
                decode,
                inner,
                r,
            ),
        text.len() == 0 ==> r is None,
        text.len() > 0 && completion_laws::always_concludes(decode, text) ==> r is Some
            && completion_laws::is_answer(decode, text, r),
        text.len() > 0 && completion_laws::never_concludes(decode, text)
            && completion_laws::is_between_outer_braces(text, part)
            && completion_laws::always_concludes(decode, part) ==> r is Some
            && completion_laws::is_answer(decode, part, r),
        completion_laws::never_concludes(decode, text) && (forall|inner: Seq<char>| #[trigger]
            completion_laws::is_between_outer_braces(text, inner)
                ==> completion_laws::never_concludes(decode, inner)) ==> r is None,
{
    if r is Some {
        completion_laws::law_found_proof_was_read(decode, output@, text, at, r->0);
    }
    if text.len() > 0 {
        completion_laws::law_readable_proof_is_found(decode, output@, text, at, part, r);
    } else {
        completion_laws::law_nothing_is_found_without_a_proof(decode, output@, text, at, r);
    }
    if completion_laws::never_concludes(decode, text) && forall|inner: Seq<char>| #[trigger]
        completion_laws::is_between_outer_braces(text, inner) ==> completion_laws::never_concludes(
            decode,
            inner,
        ) {
        completion_laws::law_nothing_is_found_without_a_proof(decode, output@, text, at, r);
    }
}

/// A decoded proof is accepted exactly where it is fresh and ends the run, as it is; the user is told
/// its whole summary, if it says anything, and the whole identifier of its artifact, if it has one.
pub proof fn law_accept_and_render(
    decoded: Option<ProofSignal>,
    accepted: Option<ProofSignal>,
    signal: &ProofSignal,
    message: String,
)
    requires
        call_ensures(completion::accept, (decoded,), accepted),
        call_ensures(completion::render_terminal_success_message, (signal,), message),
    ensures
        decoded matches Some(p) && p.fresh && p.terminal ==> accepted == decoded,
        accepted is Some ==> accepted == decoded && accepted->0.fresh && accepted->0.terminal,
        ({
            let says = signal.summary matches Some(s) && exists|i: int|
                0 <= i < s@.len() && !chars::is_white_space(#[trigger] s@[i]);
            let summary = if says {
                signal.summary->0@
            } else {
                "Fresh completion proof captured."@
            };
            &&& signal.artifact_id matches Some(id) ==> message@ == summary + " Proof: "@ + id@
                + "."@
            &&& signal.artifact_id is None ==> message@ == summary
        }),
{
    completion_laws::law_user_is_told_summary_and_artifact(*signal);
}

/// What lies between the outermost braces of a text is returned, all of it.
pub proof fn law_outermost_braces(text: &str, r: Option<&str>)
    requires
        call_ensures(completion::outermost_braces, (text,), r),
    ensures
        r matches Some(part) ==> completion_laws::is_between_outer_braces(text@, part@),
        r is None ==> forall|part: Seq<char>| !completion_laws::is_between_outer_braces(text@, part),
{
    text@.index_of_first_ensures('{');
    text@.index_of_last_ensures('}');
    if r is Some {
        let from = text@.index_of_first('{')->0;
        let to = text@.index_of_last('}')->0;
        assert(text@[from] == '{' && text@[to] == '}');
    } else {
        assert forall|part: Seq<char>| !completion_laws::is_between_outer_braces(text@, part) by {
            if completion_laws::is_between_outer_braces(text@, part) {
                let (from, to) = choose|from: int, to: int|
                    {
                        &&& 0 <= from < text@.len() && 0 <= to < text@.len()
                        &&& #[trigger] text@[from] == '{' && #[trigger] text@[to] == '}'
                        &&& forall|i: int| 0 <= i < from ==> text@[i] != '{'
                        &&& forall|i: int| to < i < text@.len() ==> text@[i] != '}'
                        &&& part == text@.subrange(from, to + 1)
                    };
                assert(text@.contains(text@[from]));
                assert(text@.contains(text@[to]));
            }
        }
    }
}

/// Whether an outcome names this model and nothing besides its path.
pub open spec fn has_no_plan(outcome: PlanningOutcome, model: Seq<char>) -> bool {
    &&& outcome.effective_model@ == model
    &&& outcome.extra_system_context is None
    &&& outcome.visible_summary is None
    &&& outcome.brief is None
}

/// Whether the message counts as simple: it was classified under a hint that there is a model for
/// and that is listed as simple.
pub open spec fn is_simple(
    query_hint: Option<String>,
    config: PlannerExecutionConfig,
    hints: Seq<String>,
) -> bool {
    query_hint is Some && routing_laws::is_among(hints, query_hint->0@) && routing_laws::is_among(
        config.simple_hints@,
        query_hint->0@,
    )
}

/// A simple message goes to the model of its hint. A message for which the planner is not due, or
/// cannot be asked while the executor is not to stand in, goes to the model of its hint, and to the
/// default one only where there is no model for its hint. The planner is asked where it is due and
/// can be; where it cannot be, the executor stands in if it is to.
pub proof fn law_plan_execution(
    query_hint: Option<String>,
    external_action: Option<String>,
    default_model: &str,
    config: &PlannerExecutionConfig,
    hints: &Vec<String>,
    r: PlanningStep,
)
    requires
        call_ensures(
            planner::plan_execution,
            (query_hint, external_action, default_model, config, hints),
            r,
        ),
    ensures
        ({
            let simple = is_simple(query_hint, *config, hints@);
            let due = config.enabled && external_action is Some && !simple;
            let askable = routing_laws::is_among(hints@, config.planner_hint@);
            let hinted = query_hint is Some && routing_laws::is_among(hints@, query_hint->0@);
            let stands_in = config.fallback_to_executor_on_planner_error;
            &&& simple ==> (r matches PlanningStep::Done(o) && has_no_plan(
                o,
                "hint:"@ + query_hint->0@,
            ) && (o.path matches PlanningPath::SimpleHint(h) && h@ == query_hint->0@))
            &&& !simple && hinted && (!due || (!askable && !stands_in)) ==> (
            r matches PlanningStep::Done(o) && has_no_plan(o, "hint:"@ + query_hint->0@) && (
            o.path matches PlanningPath::QueryHint(h) && h@ == query_hint->0@))
            &&& !hinted && (!due || (!askable && !stands_in)) ==> (r matches PlanningStep::Done(o)
                && has_no_plan(o, default_model@) && o.path is Default)
            &&& due && askable ==> (r matches PlanningStep::CallPlanner(call)
                && call.planner_model@ == "hint:"@ + config.planner_hint@
                && routing_laws::is_executor(
                call.executor_model@,
                default_model@,
                *config,
                hints@,
            ))
            &&& due && !askable && stands_in ==> (r matches PlanningStep::Done(o) && has_no_plan(
                o,
                o.effective_model@,
            ) && routing_laws::is_executor(o.effective_model@, default_model@, *config, hints@) && (
            o.path matches PlanningPath::PlannerFallback { planner_hint, executor_hint }
                && planner_hint@ == config.planner_hint@ && executor_hint@
                == config.executor_hint@))
        }),
{
    let m = default_model@;
    let simple = is_simple(query_hint, *config, hints@);
    if query_hint is Some && routing_laws::is_among(hints@, query_hint->0@) {
        if simple {
            routing_laws::law_simple_hint_is_followed(
                query_hint->0,
                external_action,
                m,
                *config,
                hints@,
            );
        } else if !config.enabled || external_action is None || (!routing_laws::is_among(
            hints@,
            config.planner_hint@,
        ) && !config.fallback_to_executor_on_planner_error) {
            routing_laws::law_query_hint_is_followed(
                query_hint->0,
                external_action,
                m,
                *config,
                hints@,
            );
        }
    }
    routing_laws::law_default_model_is_the_last_resort(
        query_hint,
        external_action,
        m,
        *config,
        hints@,
    );
    if config.enabled && external_action is Some && !simple {
        routing_laws::law_planner_is_asked_under_its_hint(
            query_hint,
            external_action,
            m,
            *config,
            hints@,
        );
    }
}

/// The executor takes the run with the planner's brief; it is told of a confirmed external action
/// that is not simple, and the user is shown that plan where it is long or asks for a confirmation
/// that is to be shown. Without a brief the executor stands in if it is to, else the default model.
pub proof fn law_resume_planning(
    call: PlannerCall,
    default_model: &str,
    config: &PlannerExecutionConfig,
    reply: Result<PlannerExecutionBrief, PlannerError>,
    r: PlanningOutcome,
)
    requires
        call_ensures(planner::resume_planning, (call, default_model, config, reply), r),
    ensures
        reply matches Ok(brief) ==> r.effective_model@ == call.executor_model@ && r.brief == Some(
            brief,
        ),
        reply matches Ok(brief) && (brief.is_simple || !brief.is_external_action) ==> ({
            &&& r.extra_system_context is None && r.visible_summary is None
            &&& r.path matches PlanningPath::SimpleHint(h) && h@ == config.executor_hint@
        }),
        reply is Ok && !reply->Ok_0.is_simple && reply->Ok_0.is_external_action ==> ({
            let brief = reply->Ok_0;
            let text = json::pretty_text(planner::brief_json(brief));
            &&& r.path matches PlanningPath::PlannerExecutor { planner_hint, executor_hint }
                && planner_hint@ == config.planner_hint@ && executor_hint@ == config.executor_hint@
            &&& r.extra_system_context is Some
            &&& text is Some ==> r.extra_system_context->0@ == planner::EXECUTOR_CONTEXT_INTRO@
                + text->0
            &&& r.visible_summary is Some <==> (brief.turn_estimate
                > config.show_plan_when_turn_estimate_over || (brief.needs_user_confirmation
                && config.show_plan_when_approval_required))
            &&& r.visible_summary is Some ==> r.visible_summary->0@ == "Execution plan: "@
                + brief.goal@ + "\nEstimated turns: "@ + decimal::decimal(
                brief.turn_estimate as nat,
            ) + "\nSuccess proof: "@ + brief.success_proof_expected@
        }),
        reply is Err && config.fallback_to_executor_on_planner_error ==> has_no_plan(
            r,
            call.executor_model@,
        ) && (r.path matches PlanningPath::PlannerFallback { planner_hint, executor_hint }
            && planner_hint@ == config.planner_hint@ && executor_hint@ == config.executor_hint@),
        reply is Err && !config.fallback_to_executor_on_planner_error ==> has_no_plan(
            r,
            default_model@,
        ) && r.path is Default,
{
}

/// A hint leads to its own model exactly where there is a model for it.
pub proof fn law_route_model_for_hint(hint: &str, hints: &Vec<String>, r: Option<String>)
    requires
        call_ensures(planner::route_model_for_hint, (hint, hints), r),
    ensures
        r is Some <==> routing_laws::is_among(hints@, hint@),
        r matches Some(model) ==> model@ == "hint:"@ + hint@,
{
    routing_laws::law_hint_leads_to_its_model(hints@, hint@);
}

/// The JSON object of an answer is what lies between its outermost braces, all of it.
pub proof fn law_parse_json_object(input: &str, r: Option<&str>)
    requires
        call_ensures(planner::parse_json_object, (input,), r),
    ensures
        r matches Some(text) ==> routing_laws::is_object_text(input@, text@),
        r is None ==> forall|text: Seq<char>| !routing_laws::is_object_text(input@, text),
{
    if r is Some {
        routing_laws::law_object_lies_between_outer_braces(input@, r->0@);
    } else {
        assert forall|text: Seq<char>| !routing_laws::is_object_text(input@, text) by {
            routing_laws::law_object_lies_between_outer_braces(input@, text);
        }
    }
}

/// An answer is read as what the decoder reads from between its outermost braces, with an estimate
/// of at least one turn; a decoded brief keeps all else, and a reason is kept as it is.
pub proof fn law_parse_planner_brief<F: Fn(&str) -> Result<PlannerExecutionBrief, String>>(
    raw: &str,
    decode: F,
    r: Result<PlannerExecutionBrief, PlannerError>,
    decoded: Result<PlannerExecutionBrief, String>,
    checked: Result<PlannerExecutionBrief, PlannerError>,
)
    requires
        call_ensures(planner::parse_planner_brief::<F>, (raw, decode), r),
        call_ensures(planner::check_brief, (decoded,), checked),
    ensures
        (forall|text: Seq<char>| !routing_laws::is_object_text(raw@, text)) ==> r == Err::<
            PlannerExecutionBrief,
            PlannerError,
        >(PlannerError::NoJsonObject),
        forall|text: Seq<char>| #[trigger]
            routing_laws::is_object_text(raw@, text) ==> routing_laws::is_reading(decode, text, r),
        decoded matches Ok(read) ==> (checked matches Ok(brief) && routing_laws::is_settled(
            brief,
            read,
        )),
        decoded matches Err(reason) ==> checked == Err::<PlannerExecutionBrief, PlannerError>(
            PlannerError::InvalidBrief(reason),
        ),
{
    routing_laws::law_answer_is_read_by_the_decoder(decode, raw@, r);
}

/// The executor is told the whole brief behind the introduction; the user its goal, its turns and
/// its proof.
pub proof fn law_render_brief(brief: &PlannerExecutionBrief, context: String, summary: String)
    requires
        call_ensures(planner::render_executor_context, (brief,), context),
        call_ensures(planner::render_visible_summary, (brief,), summary),
    ensures
        json::pretty_text(planner::brief_json(*brief)) matches Some(text) && context@
            == planner::EXECUTOR_CONTEXT_INTRO@ + text,
        planner_laws::describes(*brief, planner::brief_json(*brief)),
        summary@ == "Execution plan: "@ + brief.goal@ + "\nEstimated turns: "@ + decimal::decimal(
            brief.turn_estimate as nat,
        ) + "\nSuccess proof: "@ + brief.success_proof_expected@,
{
    planner_laws::law_brief_is_what_its_object_says(*brief);
}

/// The planner is given its instructions first, and then the whole conversation; what is said of a
/// failure to plan is its reason.
pub proof fn law_planner_messages(
    messages: Vec<ChatMessage>,
    r: Vec<ChatMessage>,
    error: &PlannerError,
    text: String,
)
    requires
        call_ensures(planner::planner_messages, (messages,), r),
        call_ensures(PlannerError::message, (error,), text),
    ensures
        r@.len() == messages@.len() + 1,
        r@[0].role@ == "system"@,
        r@[0].content@ == planner::PLANNER_SYSTEM_PROMPT@,
        forall|i: int| 0 <= i < messages@.len() ==> r@[i + 1] == #[trigger] messages@[i],
        error matches PlannerError::Provider(reason) ==> text@ == reason@,
        error matches PlannerError::InvalidBrief(reason) ==> text@ == reason@,
        error is NoJsonObject ==> text@ == "planner response did not contain a JSON object"@,
{
    assert forall|i: int| 0 <= i < messages@.len() implies r@[i + 1] == #[trigger] messages@[i] by {
        assert(r@.skip(1)[i] == messages@[i]);
    }
}

/// The planner is told to answer with one JSON object, which fields that has, and the rules.
pub proof fn law_planner_is_told_the_fields()
    ensures
        planner::PLANNER_SYSTEM_PROMPT@
            == "You are ZeroClaw's execution planner.\n\nDo not solve the task. Do not call tools. Do not explain your reasoning.\nReturn exactly one JSON object with these fields:\n- goal: string\n- is_simple: boolean\n- is_external_action: boolean\n- turn_estimate: integer\n- needs_user_confirmation: boolean\n- execution_brief: string\n- success_proof_expected: string\n\nRules:\n- Output JSON only, no markdown fences.\n- execution_brief must be concise and action-oriented for an executor model.\n- success_proof_expected must describe the fresh proof artifact that ends the run.\n- If the task is already complete or only needs a short response, set is_simple=true.\n"@,
{
}

} // verus!
