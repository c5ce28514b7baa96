//! What holds of completion proofs: which one is found in an output, and what is told of it.
use crate::agent::completion;
use crate::agent::completion::ProofSignal;
use crate::text::chars;
use crate::text::laws;
use vstd::prelude::*;

verus! {

/// Whether `part` is what lies in `text` from its first `{` on up to and with its last `}`.
pub open spec fn is_between_outer_braces(text: Seq<char>, part: Seq<char>) -> bool {
    exists|from: int, to: int|
        {
            &&& 0 <= from < text.len() && 0 <= to < text.len()
            &&& #[trigger] text[from] == '{' && #[trigger] text[to] == '}'
            &&& forall|i: int| 0 <= i < from ==> text[i] != '{'
            &&& forall|i: int| to < i < text.len() ==> text[i] != '}'
            &&& part == text.subrange(from, to + 1)
        }
}

/// Whether `decode` never reads a proof from these characters that is both fresh and terminal.
pub open spec fn never_concludes<F: Fn(&str) -> Option<ProofSignal>>(
    decode: F,
    text: Seq<char>,
) -> bool {
    forall|t: &str, answer: Option<ProofSignal>|
        t@ == text && #[trigger] decode.ensures((t,), answer) ==> !(answer matches Some(p)
            && p.fresh && p.terminal)
}

/// Whether `decode` reads from these characters nothing but proofs that are fresh and terminal.
pub open spec fn always_concludes<F: Fn(&str) -> Option<ProofSignal>>(
    decode: F,
    text: Seq<char>,
) -> bool {
    forall|t: &str, answer: Option<ProofSignal>|
        t@ == text && #[trigger] decode.ensures((t,), answer) ==> (answer matches Some(p) && p.fresh
            && p.terminal)
}

/// Whether `decode` may read `found` from these characters.
pub open spec fn is_answer<F: Fn(&str) -> Option<ProofSignal>>(
    decode: F,
    text: Seq<char>,
    found: Option<ProofSignal>,
) -> bool {
    exists|t: &str| t@ == text && #[trigger] decode.ensures((t,), found)
}

proof fn lemma_outer_braces(text: Seq<char>)
    ensures
        forall|part: Seq<char>| #[trigger]
            is_between_outer_braces(text, part) <==> completion::embedded_object(text) == Some(
                part,
            ),
{
    text.index_of_first_ensures('{');
    text.index_of_last_ensures('}');
    assert forall|part: Seq<char>| #[trigger]
        is_between_outer_braces(text, part) <==> completion::embedded_object(text) == Some(part) by {
        if is_between_outer_braces(text, part) {
            let (from, to) = choose|from: int, to: int|
                {
                    &&& 0 <= from < text.len() && 0 <= to < text.len()
                    &&& #[trigger] text[from] == '{' && #[trigger] text[to] == '}'
                    &&& forall|i: int| 0 <= i < from ==> text[i] != '{'
                    &&& forall|i: int| to < i < text.len() ==> text[i] != '}'
                    &&& part == text.subrange(from, to + 1)
                };
            assert(text.contains(text[from]));
            assert(text.contains(text[to]));
        }
        if completion::embedded_object(text) == Some(part) {
            let from = text.index_of_first('{')->0;
            let to = text.index_of_last('}')->0;
            assert(text[from] == '{' && text[to] == '}');
        }
    }
}

/// A proof that is found is fresh and terminal, and is what the decoder read from the output without
/// the white space around it, or from what lies between the outermost braces of that.
pub proof fn law_found_proof_was_read<F: Fn(&str) -> Option<ProofSignal>>(
    decode: F,
    output: Seq<char>,
    text: Seq<char>,
    at: int,
    found: ProofSignal,
)
    requires
        completion::may_find(decode, output, Some(found)),
        laws::is_core(output, text, at),
    ensures
        found.fresh && found.terminal,
        text.len() > 0,
        is_answer(decode, text, Some(found)) || exists|part: Seq<char>| #[trigger]
            is_between_outer_braces(text, part) && is_answer(decode, part, Some(found)),
{
    laws::law_trim_leaves_the_core(output);
    lemma_outer_braces(text);
    if !completion::may_conclude(decode, text, Some(found)) {
        let part = completion::embedded_object(text)->0;
        assert(is_between_outer_braces(text, part));
        assert(completion::may_conclude(decode, part, Some(found)));
        assert(is_answer(decode, part, Some(found)));
    } else {
        assert(is_answer(decode, text, Some(found)));
    }
}

/// A proof is found wherever the decoder reads a conclusive one: in the output without the white
/// space around it, or else between the outermost braces of that.
pub proof fn law_readable_proof_is_found<F: Fn(&str) -> Option<ProofSignal>>(
    decode: F,
    output: Seq<char>,
    text: Seq<char>,
    at: int,
    part: Seq<char>,
    found: Option<ProofSignal>,
)
    requires
        completion::may_find(decode, output, found),
        laws::is_core(output, text, at),
        text.len() > 0,
    ensures
        always_concludes(decode, text) ==> found is Some && is_answer(decode, text, found),
        never_concludes(decode, text) && is_between_outer_braces(text, part) && always_concludes(
            decode,
            part,
        ) ==> found is Some && is_answer(decode, part, found),
{
    laws::law_trim_leaves_the_core(output);
    lemma_outer_braces(text);
    if always_concludes(decode, text) {
        if completion::may_conclude(decode, text, None) {
            let answer = choose|answer: Option<ProofSignal>| #[trigger]
                completion::may_decode(decode, text, answer) && completion::accepted(answer)
                    == None::<ProofSignal>;
            let t = choose|t: &str| t@ == text && #[trigger] decode.ensures((t,), answer);
            assert(decode.ensures((t,), answer));
        }
        assert(completion::may_conclude(decode, text, found));
        lemma_concluded_is_answer(decode, text, found);
    }
    if never_concludes(decode, text) && is_between_outer_braces(text, part) && always_concludes(
        decode,
        part,
    ) {
        if found is Some && completion::may_conclude(decode, text, found) {
            lemma_concluded_is_answer(decode, text, found);
            let t = choose|t: &str| t@ == text && #[trigger] decode.ensures((t,), found);
            assert(decode.ensures((t,), found));
        }
        assert(completion::may_conclude(decode, part, found));
        let answer = choose|answer: Option<ProofSignal>| #[trigger]
            completion::may_decode(decode, part, answer) && found == completion::accepted(answer);
        let t = choose|t: &str| t@ == part && #[trigger] decode.ensures((t,), answer);
        assert(decode.ensures((t,), answer));
        lemma_concluded_is_answer(decode, part, found);
    }
}

/// What is concluded from a text was read from it.
proof fn lemma_concluded_is_answer<F: Fn(&str) -> Option<ProofSignal>>(
    decode: F,
    text: Seq<char>,
    found: Option<ProofSignal>,
)
    requires
        completion::may_conclude(decode, text, found),
    ensures
        found is Some ==> is_answer(decode, text, found),
{
    let answer = choose|answer: Option<ProofSignal>| #[trigger]
        completion::may_decode(decode, text, answer) && found == completion::accepted(answer);
    let t = choose|t: &str| t@ == text && #[trigger] decode.ensures((t,), answer);
    assert(decode.ensures((t,), answer));
}

/// Nothing is found in a blank output, nor where the decoder reads no conclusive proof.
pub proof fn law_nothing_is_found_without_a_proof<F: Fn(&str) -> Option<ProofSignal>>(
    decode: F,
    output: Seq<char>,
    text: Seq<char>,
    at: int,
    found: Option<ProofSignal>,
)
    requires
        completion::may_find(decode, output, found),
        laws::is_core(output, text, at),
        text.len() == 0 || never_concludes(decode, text) && forall|part: Seq<char>| #[trigger]
            is_between_outer_braces(text, part) ==> never_concludes(decode, part),
    ensures
        found is None,
{
    laws::law_trim_leaves_the_core(output);
    if found is Some {
        law_found_proof_was_read(decode, output, text, at, found->0);
        if is_answer(decode, text, found) {
            let t = choose|t: &str| t@ == text && #[trigger] decode.ensures((t,), found);
            assert(decode.ensures((t,), found));
        } else {
            let part = choose|part: Seq<char>| #[trigger]
                is_between_outer_braces(text, part) && is_answer(decode, part, found);
            let t = choose|t: &str| t@ == part && #[trigger] decode.ensures((t,), found);
            assert(decode.ensures((t,), found));
        }
    }
}

/// The user is told the whole summary, if it says anything, and the whole identifier of the
/// artifact, if there is one.
pub proof fn law_user_is_told_summary_and_artifact(signal: ProofSignal)
    ensures
        ({
            let says = signal.summary matches Some(s) && exists|i: int|
                0 <= i < s@.len() && !chars::is_white_space(#[trigger] s@[i]);
            let summary = if says {
                signal.summary->0@
            } else {
                "Fresh completion proof captured."@
            };
            completion::success_message(signal) == match signal.artifact_id {
                Some(id) => summary + " Proof: "@ + id@ + "."@,
                None => summary,
            }
        }),
{
    if signal.summary is Some {
        chars::law_trimmed_empty_iff_blank(signal.summary->0@);
    }
}

} // verus!
