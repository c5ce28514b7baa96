//! What holds of planning as a whole.
use crate::agent::completion;
use crate::agent::completion::ProofSignal;
use crate::agent::planner;
use crate::agent::planner::{PlannerError, PlannerExecutionBrief, PlannerExecutionConfig};
use crate::agent::reader;
use crate::json;
use crate::text::chars;
use vstd::prelude::*;

verus! {

/// Whether the message was classified under an available hint that counts as simple.
pub open spec fn is_simple_query(
    query_hint: Option<String>,
    config: PlannerExecutionConfig,
    hints: Seq<String>,
) -> bool {
    planner::usable_hint(query_hint, hints) matches Some(h) && chars::string_list(
        config.simple_hints@,
    ).contains(h)
}

/// Whether the planner is due: it is enabled, the message asks for an external action and is not
/// simple.
pub open spec fn planner_is_due(
    query_hint: Option<String>,
    external_action: Option<String>,
    config: PlannerExecutionConfig,
    hints: Seq<String>,
) -> bool {
    config.enabled && external_action is Some && !is_simple_query(query_hint, config, hints)
}

/// A simple query goes to the model of its hint, whatever the planner would have answered.
pub proof fn law_simple_query_bypasses_planner(
    query_hint: Option<String>,
    external_action: Option<String>,
    default_model: Seq<char>,
    config: PlannerExecutionConfig,
    hints: Seq<String>,
    reply: Result<PlannerExecutionBrief, PlannerError>,
)
    requires
        is_simple_query(query_hint, config, hints),
    ensures
        planner::first_step(query_hint, external_action, default_model, config, hints) is Done,
        planner::planned(query_hint, external_action, default_model, config, hints, reply)
            == planner::bare_outcome(
            planner::hint_model(query_hint->0@),
            planner::PathView::SimpleHint(query_hint->0@),
        ),
{
}

/// The planner is asked exactly where it is due and its hint is available.
pub proof fn law_planner_is_asked_iff_due(
    query_hint: Option<String>,
    external_action: Option<String>,
    default_model: Seq<char>,
    config: PlannerExecutionConfig,
    hints: Seq<String>,
)
    ensures
        planner::first_step(query_hint, external_action, default_model, config, hints)
            is CallPlanner <==> planner_is_due(query_hint, external_action, config, hints)
            && planner::is_available(hints, config.planner_hint@),
{
}

/// Where the planner is due but cannot be asked or gives no brief, the executor takes the run
/// without a plan, if the configuration says so.
pub proof fn law_planner_failure_falls_back(
    query_hint: Option<String>,
    external_action: Option<String>,
    default_model: Seq<char>,
    config: PlannerExecutionConfig,
    hints: Seq<String>,
    reply: Result<PlannerExecutionBrief, PlannerError>,
)
    requires
        planner_is_due(query_hint, external_action, config, hints),
        config.fallback_to_executor_on_planner_error,
        !planner::is_available(hints, config.planner_hint@) || reply is Err,
    ensures
        planner::planned(query_hint, external_action, default_model, config, hints, reply)
            == planner::bare_outcome(
            planner::executor_model(default_model, config, hints),
            planner::fallback_path(config),
        ),
{
}

/// Whatever the planner answers, the model is the default one or that of an available hint.
pub proof fn law_model_is_default_or_available(
    query_hint: Option<String>,
    external_action: Option<String>,
    default_model: Seq<char>,
    config: PlannerExecutionConfig,
    hints: Seq<String>,
    reply: Result<PlannerExecutionBrief, PlannerError>,
)
    ensures
        ({
            let model = planner::planned(
                query_hint,
                external_action,
                default_model,
                config,
                hints,
                reply,
            ).effective_model;
            model == default_model || exists|hint: Seq<char>| #[trigger]
                planner::is_available(hints, hint) && model == planner::hint_model(hint)
        }),
{
    let executor = config.executor_hint@;
    if planner::route(hints, executor) is Some {
        assert(planner::is_available(hints, executor));
    }
    if planner::usable_hint(query_hint, hints) is Some {
        assert(planner::is_available(hints, query_hint->0@));
    }
}

/// A plan is handed to the executor or shown to the user only where the planner has confirmed an
/// external action that is not simple; the executor is then always told.
pub proof fn law_plan_needs_confirmed_action(
    query_hint: Option<String>,
    external_action: Option<String>,
    default_model: Seq<char>,
    config: PlannerExecutionConfig,
    hints: Seq<String>,
    reply: Result<PlannerExecutionBrief, PlannerError>,
)
    ensures
        ({
            let outcome = planner::planned(
                query_hint,
                external_action,
                default_model,
                config,
                hints,
                reply,
            );
            let confirmed = planner_is_due(query_hint, external_action, config, hints)
                && planner::is_available(hints, config.planner_hint@) && (reply matches Ok(brief)
                && brief.is_external_action && !brief.is_simple);
            &&& outcome.extra_system_context is Some <==> confirmed
            &&& outcome.visible_summary is Some <==> confirmed && planner::plan_is_shown(
                reply->Ok_0,
                config,
            )
            &&& outcome.path is PlannerExecutor <==> confirmed
        }),
{
}

/// A brief that was read estimates at least one turn.
pub proof fn law_estimate_is_positive<F: Fn(&str) -> Result<PlannerExecutionBrief, String>>(
    decode: F,
    raw: Seq<char>,
    brief: PlannerExecutionBrief,
)
    requires
        planner::may_read(decode, raw, Ok(brief)),
    ensures
        brief.turn_estimate >= 1,
{
    let text = planner::json_object(raw)->0;
    assert(planner::may_settle(decode, text, Ok(brief)));
}

/// What is taken for the JSON object of an answer stands in braces, and is the longest part of the
/// answer that does: no `{` stands before it and no `}` behind it.
pub proof fn law_json_object_is_outermost(s: Seq<char>)
    requires
        planner::json_object(s) is Some,
    ensures
        planner::is_braced(planner::json_object(s)->0),
        exists|at: int| #[trigger] is_outermost(s, planner::json_object(s)->0, at),
{
    let found = planner::json_object(s)->0;
    s.index_of_first_ensures('{');
    s.index_of_last_ensures('}');
    let from = s.index_of_first('{')->0;
    assert(is_outermost(s, found, from));
}

/// Whether `part` stands in `whole` from the place `at` on, with no `{` before it and no `}` behind
/// it.
pub open spec fn is_outermost(whole: Seq<char>, part: Seq<char>, at: int) -> bool {
    &&& 0 <= at <= at + part.len() <= whole.len()
    &&& part == whole.subrange(at, at + part.len())
    &&& forall|i: int| 0 <= i < at ==> #[trigger] whole[i] != '{'
    &&& forall|i: int| at + part.len() <= i < whole.len() ==> #[trigger] whole[i] != '}'
}

/// An answer holds a JSON object exactly where some `{` stands before some `}`.
pub proof fn law_json_object_iff_braces(s: Seq<char>)
    ensures
        planner::json_object(s) is Some <==> exists|i: int, j: int|
            0 <= i < j < s.len() && #[trigger] s[i] == '{' && #[trigger] s[j] == '}',
{
    s.index_of_first_ensures('{');
    s.index_of_last_ensures('}');
    if exists|i: int, j: int|
        0 <= i < j < s.len() && #[trigger] s[i] == '{' && #[trigger] s[j] == '}' {
        let (i, j) = choose|i: int, j: int|
            0 <= i < j < s.len() && #[trigger] s[i] == '{' && #[trigger] s[j] == '}';
        assert(s.contains(s[i]));
        assert(s.contains(s[j]));
    }
}

/// What stands before the brief holds no brace.
proof fn lemma_intro_has_no_brace()
    ensures
        planner::EXECUTOR_CONTEXT_INTRO@.len() > 1,
        planner::EXECUTOR_CONTEXT_INTRO@[0] == '[',
        planner::EXECUTOR_CONTEXT_INTRO@[1] == 'P',
        forall|i: int|
            0 <= i < planner::EXECUTOR_CONTEXT_INTRO@.len()
                ==> #[trigger] planner::EXECUTOR_CONTEXT_INTRO@[i] != '{',
{
    reveal_strlit(
        "[Planner brief]\nThis brief is internal orchestration context for this attempt. It is not proof of completion.\nUse it to execute efficiently, then stop as soon as you have a fresh verified proof artifact.\n",
    );
}

/// A JSON object is found in an executor context: the one behind the introduction.
pub proof fn law_context_holds_its_object(text: Seq<char>)
    requires
        planner::is_braced(text),
    ensures
        planner::json_object(text) == Some(text),
        planner::json_object(planner::EXECUTOR_CONTEXT_INTRO@ + text) == Some(text),
        chars::trimmed(planner::EXECUTOR_CONTEXT_INTRO@ + text) == planner::EXECUTOR_CONTEXT_INTRO@
            + text,
        completion::embedded_object(planner::EXECUTOR_CONTEXT_INTRO@ + text) == Some(text),
{
    let intro = planner::EXECUTOR_CONTEXT_INTRO@;
    let s = intro + text;
    lemma_intro_has_no_brace();
    planner::lemma_braced_is_object(text);
    assert(s[0] == '[' && s.last() == '}');
    assert(chars::trimmed(s) == s);
    s.index_of_first_ensures('{');
    s.index_of_last_ensures('}');
    assert(s[intro.len() as int] == '{');
    assert(s.contains(s[intro.len() as int]));
    assert(s.contains(s[s.len() - 1]));
    let from = s.index_of_first('{')->0;
    if from < intro.len() {
        assert(s[from] == intro[from]);
    }
    assert(s.subrange(intro.len() as int, s.len() as int) =~= text);
}

/// Whether `brief` is what an object says of one.
pub open spec fn describes(brief: PlannerExecutionBrief, document: json::Json) -> bool {
    &&& json::text_field(document, "goal"@) == Some(brief.goal@)
    &&& json::field_of(document, "is_simple"@) == Some(json::Json::Bool(brief.is_simple))
    &&& json::field_of(document, "is_external_action"@) == Some(
        json::Json::Bool(brief.is_external_action),
    )
    &&& json::unsigned_field(document, "turn_estimate"@) == Some(brief.turn_estimate as u64)
    &&& json::field_of(document, "needs_user_confirmation"@) == Some(
        json::Json::Bool(brief.needs_user_confirmation),
    )
    &&& json::text_field(document, "execution_brief"@) == Some(brief.execution_brief@)
    &&& json::text_field(document, "success_proof_expected"@) == Some(brief.success_proof_expected@)
}

/// Whether two briefs say the same, but for their estimates.
pub open spec fn says_the_same(a: PlannerExecutionBrief, b: PlannerExecutionBrief) -> bool {
    &&& a.goal@ == b.goal@
    &&& a.is_simple == b.is_simple
    &&& a.is_external_action == b.is_external_action
    &&& a.needs_user_confirmation == b.needs_user_confirmation
    &&& a.execution_brief@ == b.execution_brief@
    &&& a.success_proof_expected@ == b.success_proof_expected@
}

/// A brief is what its object says, and the object says no more.
pub proof fn law_brief_is_what_its_object_says(brief: PlannerExecutionBrief)
    ensures
        planner::brief_json(brief) matches json::Json::Object(fields) && fields.len() == 7,
        describes(brief, planner::brief_json(brief)),
        json::field_of(planner::brief_json(brief), "proof"@) is None,
{
    let f = planner::brief_json(brief)->Object_0;
    let f1 = f.drop_first();
    let f2 = f1.drop_first();
    let f3 = f2.drop_first();
    let f4 = f3.drop_first();
    let f5 = f4.drop_first();
    let f6 = f5.drop_first();
    planner::lemma_brief_keys();
    reveal_strlit("proof");
    assert("proof"@.len() == 5);
    assert(f1[0] == f[1] && f2[0] == f[2] && f3[0] == f[3]);
    assert(f4[0] == f[4] && f5[0] == f[5] && f6[0] == f[6]);
    reveal_with_fuel(json::lookup, 8);
}

/// A brief that was rendered is read back, with an estimate of at least one turn, from its JSON
/// text as from the executor's context: whenever that text stands in braces and the decoder reads
/// the fields in it as they are.
pub proof fn law_rendered_brief_is_read_back<F: Fn(&str) -> Result<PlannerExecutionBrief, String>>(
    brief: PlannerExecutionBrief,
    text: Seq<char>,
    decode: F,
    raw: Seq<char>,
    result: Result<PlannerExecutionBrief, PlannerError>,
)
    requires
        planner::is_braced(text),
        raw == text || raw == planner::EXECUTOR_CONTEXT_INTRO@ + text,
        forall|t: &str, answer: Result<PlannerExecutionBrief, String>|
            t@ == text && #[trigger] decode.ensures((t,), answer) ==> (answer matches Ok(b)
                && describes(b, planner::brief_json(brief))),
        planner::may_read(decode, raw, result),
    ensures
        result matches Ok(b) && says_the_same(b, brief) && b.turn_estimate == (
        if brief.turn_estimate < 1 {
            1
        } else {
            brief.turn_estimate
        }),
{
    law_context_holds_its_object(text);
    law_brief_is_what_its_object_says(brief);
    assert(planner::may_settle(decode, text, result));
    let decoded = choose|decoded: Result<PlannerExecutionBrief, String>| #[trigger]
        planner::may_decode(decode, text, decoded) && result == planner::checked_brief(decoded);
    let t = choose|t: &str| t@ == text && #[trigger] decode.ensures((t,), decoded);
    assert(decode.ensures((t,), decoded));
}

/// An executor context is no proof of completion: none is found in it, whatever the brief says.
pub proof fn law_executor_context_is_no_proof<F: Fn(&str) -> Option<ProofSignal>>(
    brief: PlannerExecutionBrief,
    read: spec_fn(Seq<char>) -> Option<json::Json>,
    decode: F,
    found: Option<ProofSignal>,
)
    requires
        json::pretty_text(planner::brief_json(brief)) matches Some(text) && planner::is_braced(text)
            && read(text) == Some(planner::brief_json(brief)),
        reader::is_json_reader(read),
        reader::is_proof_decoder(decode, read),
        completion::may_find(decode, planner::executor_context(brief), found),
    ensures
        found is None,
{
    let text = json::pretty_text(planner::brief_json(brief))->0;
    let s = planner::executor_context(brief);
    law_context_holds_its_object(text);
    law_brief_is_what_its_object_says(brief);
    lemma_intro_has_no_brace();
    assert(s[0] == '[' && s[1] == 'P');
    assert(read(s) is None);
    if completion::may_conclude(decode, s, found) {
        reader::lemma_nothing_concluded(read, decode, s, found);
    } else {
        reader::lemma_nothing_concluded(read, decode, text, found);
    }
}

} // verus!
