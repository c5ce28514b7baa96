//! Completion proofs: finding one in the output of a tool, and telling the user about it.
use crate::text::chars;
use vstd::prelude::*;

verus! {

/// What a tool reports of an action it has verified.
#[derive(Debug, Clone, PartialEq, Eq)]
pub struct ProofSignal {
    pub attempt_id: Option<String>,
    pub summary: Option<String>,
    pub artifact_id: Option<String>,
    pub fresh: bool,
    pub terminal: bool,
}

/// A proof that is fresh and ends the run.
pub open spec fn is_conclusive(signal: ProofSignal) -> bool {
    signal.fresh && signal.terminal
}

/// What of a decoded proof is accepted: a conclusive one, nothing else.
pub open spec fn accepted(decoded: Option<ProofSignal>) -> Option<ProofSignal> {
    match decoded {
        Some(p) if is_conclusive(p) => Some(p),
        _ => None,
    }
}

/// The part of `s` from its first `{` to its last `}`, where it has both.
pub open spec fn embedded_object(s: Seq<char>) -> Option<Seq<char>> {
    match (s.index_of_first('{'), s.index_of_last('}')) {
        (Some(from), Some(to)) => Some(s.subrange(from, to + 1)),
        _ => None,
    }
}

/// Whether the first `{` of `s` does not stand beyond the character that follows its last `}`.
/// The part between them is then well defined, if empty where they touch the wrong way round.
pub open spec fn braces_in_order(s: Seq<char>) -> bool {
    match (s.index_of_first('{'), s.index_of_last('}')) {
        (Some(from), Some(to)) => from <= to + 1,
        _ => true,
    }
}

/// Whether `decode` may answer `answer` for the text `text`.
pub open spec fn may_decode<F: Fn(&str) -> Option<ProofSignal>>(
    decode: F,
    text: Seq<char>,
    answer: Option<ProofSignal>,
) -> bool {
    exists|t: &str| t@ == text && #[trigger] decode.ensures((t,), answer)
}

/// Whether `decode` answers every text of these characters with a conclusive proof.
pub open spec fn surely_concludes<F: Fn(&str) -> Option<ProofSignal>>(
    decode: F,
    text: Seq<char>,
) -> bool {
    forall|t: &str, answer: Option<ProofSignal>|
        t@ == text && #[trigger] decode.ensures((t,), answer) ==> accepted(answer) is Some
}

/// What may be found in a text by decoding all of it.
pub open spec fn may_conclude<F: Fn(&str) -> Option<ProofSignal>>(
    decode: F,
    text: Seq<char>,
    found: Option<ProofSignal>,
) -> bool {
    exists|answer: Option<ProofSignal>| #[trigger]
        may_decode(decode, text, answer) && found == accepted(answer)
}

/// What may be found in the output `output`: the conclusive proof that the trimmed output decodes
/// to, or else the one that the part between its outermost braces decodes to.
pub open spec fn may_find<F: Fn(&str) -> Option<ProofSignal>>(
    decode: F,
    output: Seq<char>,
    found: Option<ProofSignal>,
) -> bool {
    let text = chars::trimmed(output);
    if text.len() == 0 {
        found is None
    } else {
        ||| found is Some && may_conclude(decode, text, found)
        ||| {
            &&& may_conclude(decode, text, None)
            &&& match embedded_object(text) {
                Some(part) => may_conclude(decode, part, found),
                None => found is None,
            }
        }
    }
}

/// The decoded proof, where it is conclusive.
pub fn accept(decoded: Option<ProofSignal>) -> (r: Option<ProofSignal>)
    ensures
        r == accepted(decoded),
{
    match decoded {
        Some(p) => if p.fresh && p.terminal {
            Some(p)
        } else {
            None
        },
        None => None,
    }
}

/// The part of `text` from its first `{` to its last `}`, where it has both.
pub fn outermost_braces(text: &str) -> (r: Option<&str>)
    requires
        braces_in_order(text@),
    ensures
        chars::str_option(r) == embedded_object(text@),
{
    proof {
        text@.index_of_first_ensures('{');
        text@.index_of_last_ensures('}');
    }
    match chars::find(text, '{') {
        Some(from) => match chars::find_last(text, '}') {
            Some(to) => Some(text.substring_char(from, to + 1)),
            None => None,
        },
        None => None,
    }
}

/// Finds the conclusive proof in a tool's output. `decode` reads a JSON text as an envelope around
/// a proof, and answers nothing where it is none.
pub fn extract_proof_signal<F: Fn(&str) -> Option<ProofSignal>>(output: &str, decode: F) -> (r: Option<
    ProofSignal,
>)
    requires
        forall|t: &str| #[trigger] decode.requires((t,)),
        braces_in_order(chars::trimmed(output@)) || surely_concludes(
            decode,
            chars::trimmed(output@),
        ),
    ensures
        may_find(decode, output@, r),
{
    let text = chars::trim(output);
    if text.is_empty() {
        return None;
    }
    let whole = decode(text);
    assert(may_decode(decode, text@, whole));
    let first = accept(whole);
    assert(may_conclude(decode, text@, first));
    if first.is_some() {
        return first;
    }
    match outermost_braces(text) {
        Some(part) => {
            let inner = decode(part);
            assert(embedded_object(text@) == Some(part@));
            assert(may_decode(decode, part@, inner));
            let second = accept(inner);
            assert(may_conclude(decode, part@, second));
            second
        },
        None => None,
    }
}

/// What the user is told: the summary, if it says anything, and the artifact.
pub open spec fn success_message(signal: ProofSignal) -> Seq<char> {
    let summary = match signal.summary {
        Some(s) if chars::trimmed(s@).len() > 0 => s@,
        _ => "Fresh completion proof captured."@,
    };
    match signal.artifact_id {
        Some(id) => summary + " Proof: "@ + id@ + "."@,
        None => summary,
    }
}

/// The message that tells the user of a proof.
pub fn render_terminal_success_message(signal: &ProofSignal) -> (r: String)
    ensures
        r@ == success_message(*signal),
{
    let mut message = match &signal.summary {
        Some(s) => if chars::trim(s.as_str()).is_empty() {
            "Fresh completion proof captured.".to_string()
        } else {
            s.clone()
        },
        None => "Fresh completion proof captured.".to_string(),
    };
    match &signal.artifact_id {
        Some(id) => {
            message.append(" Proof: ");
            message.append(id.as_str());
            message.append(".");
        },
        None => {},
    }
    message
}

/// Whatever is found is fresh and ends the run.
pub proof fn law_found_proof_is_conclusive<F: Fn(&str) -> Option<ProofSignal>>(
    decode: F,
    output: Seq<char>,
    found: ProofSignal,
)
    requires
        may_find(decode, output, Some(found)),
    ensures
        is_conclusive(found),
{
}

} // verus!
