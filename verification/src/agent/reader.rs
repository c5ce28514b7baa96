//! What the laws take for granted of whoever reads JSON: that it is read as the grammar says, and
//! that a proof is read from a document only where the document states one.
use crate::agent::completion;
use crate::agent::completion::ProofSignal;
use crate::agent::planner;
use crate::json;
use crate::text::chars;
use vstd::prelude::*;

verus! {

/// Whether every item is an object.
pub open spec fn all_objects(items: Seq<json::Json>) -> bool {
    forall|i: int| 0 <= i < items.len() ==> (#[trigger] items[i]) is Object
}

/// Whether `c` may come right after the bracket that opens a list: white space, the closing
/// bracket, or the first character of a value.
pub open spec fn may_follow_bracket(c: char) -> bool {
    ||| c == ' ' || c == '\t' || c == '\n' || c == '\r'
    ||| c == ']' || c == '[' || c == '{' || c == '"' || c == '-'
    ||| c == 't' || c == 'f' || c == 'n'
    ||| '0' <= c && c <= '9'
}

/// Whether what lies between the outermost braces of a text that reads as a list of objects, where
/// it reads as a document at all, is the one item of the list.
pub open spec fn is_only_item(
    read: spec_fn(Seq<char>) -> Option<json::Json>,
    text: Seq<char>,
) -> bool {
    match (read(text), completion::embedded_object(text)) {
        (Some(json::Json::List(items)), Some(part)) => all_objects(items) && read(part) is Some
            ==> items == seq![read(part)->0],
        _ => true,
    }
}

/// Whether `read` reads texts as JSON documents, as far as the laws need it: white space around a
/// document does not matter, an object stands in braces, a list goes on after its bracket as the
/// grammar says, and the outermost braces in a list of objects are those of its first and its last
/// item.
pub open spec fn is_json_reader(read: spec_fn(Seq<char>) -> Option<json::Json>) -> bool {
    &&& forall|t: Seq<char>|
        read(t) is Some ==> #[trigger] read(chars::trimmed(t)) == read(t)
    &&& forall|t: Seq<char>|
        (#[trigger] read(t)) matches Some(json::Json::Object(_)) ==> planner::is_braced(
            chars::trimmed(t),
        )
    &&& forall|t: Seq<char>|
        (#[trigger] read(t)) is Some && t.len() >= 2 && t[0] == '[' ==> may_follow_bracket(t[1])
    &&& forall|t: Seq<char>| #[trigger] is_only_item(read, t)
}

/// Whether a document may be read as an envelope around a conclusive proof: an object with the
/// field `proof`, or a list whose first item stands for that field.
pub open spec fn may_state_proof(document: json::Json) -> bool {
    match document {
        json::Json::Object(_) => json::field_of(document, "proof"@) is Some,
        json::Json::List(items) => items.len() > 0 && match items[0] {
            json::Json::Object(_) => json::field_of(items[0], "fresh"@) is Some,
            json::Json::List(_) => true,
            _ => false,
        },
        _ => false,
    }
}

/// Whether `decode` reads a conclusive proof only from texts that `read` reads as documents which
/// may state one.
pub open spec fn is_proof_decoder<F: Fn(&str) -> Option<ProofSignal>>(
    decode: F,
    read: spec_fn(Seq<char>) -> Option<json::Json>,
) -> bool {
    forall|t: &str, answer: Option<ProofSignal>| #[trigger]
        decode.ensures((t,), answer) && completion::accepted(answer) is Some ==> (
        read(t@) matches Some(document) && may_state_proof(document))
}

/// The outermost braces of a text that stands in braces are its own.
pub proof fn lemma_braced_is_its_embedded_object(s: Seq<char>)
    requires
        planner::is_braced(s),
    ensures
        completion::embedded_object(s) == Some(s),
{
    s.index_of_first_ensures('{');
    s.index_of_last_ensures('}');
    assert(s.contains(s[0]));
    assert(s.contains(s[s.len() - 1]));
    assert(s.subrange(0, s.len() as int) =~= s);
}

/// Nothing conclusive is decoded from a text that reads as no document, or as one that states no
/// proof.
pub proof fn lemma_nothing_concluded<F: Fn(&str) -> Option<ProofSignal>>(
    read: spec_fn(Seq<char>) -> Option<json::Json>,
    decode: F,
    text: Seq<char>,
    found: Option<ProofSignal>,
)
    requires
        is_proof_decoder(decode, read),
        read(text) matches Some(document) ==> !may_state_proof(document),
        completion::may_conclude(decode, text, found),
    ensures
        found is None,
{
    let answer = choose|answer: Option<ProofSignal>| #[trigger]
        completion::may_decode(decode, text, answer) && found == completion::accepted(answer);
    let t = choose|t: &str| t@ == text && #[trigger] decode.ensures((t,), answer);
    assert(decode.ensures((t,), answer));
}

/// No proof is found in the text of an object without the field `proof`.
pub proof fn law_object_without_proof_yields_none<F: Fn(&str) -> Option<ProofSignal>>(
    read: spec_fn(Seq<char>) -> Option<json::Json>,
    decode: F,
    output: Seq<char>,
    found: Option<ProofSignal>,
)
    requires
        is_json_reader(read),
        is_proof_decoder(decode, read),
        read(output) is Some && read(output)->0 is Object,
        json::field_of(read(output)->0, "proof"@) is None,
        completion::may_find(decode, output, found),
    ensures
        found is None,
{
    let text = chars::trimmed(output);
    assert(read(text) == read(output));
    lemma_braced_is_its_embedded_object(text);
    lemma_nothing_concluded(read, decode, text, found);
}

/// No proof is found in the text of a list of objects that have neither the field `proof` nor the
/// field `fresh`.
pub proof fn law_list_without_proof_yields_none<F: Fn(&str) -> Option<ProofSignal>>(
    read: spec_fn(Seq<char>) -> Option<json::Json>,
    decode: F,
    output: Seq<char>,
    items: Seq<json::Json>,
    found: Option<ProofSignal>,
)
    requires
        is_json_reader(read),
        is_proof_decoder(decode, read),
        read(output) == Some(json::Json::List(items)),
        all_objects(items),
        forall|i: int|
            0 <= i < items.len() ==> json::field_of(#[trigger] items[i], "proof"@) is None
                && json::field_of(items[i], "fresh"@) is None,
        completion::may_find(decode, output, found),
    ensures
        found is None,
{
    let text = chars::trimmed(output);
    assert(read(text) == read(output));
    if text.len() > 0 {
        if found is Some && completion::may_conclude(decode, text, found) {
            lemma_nothing_concluded(read, decode, text, found);
        }
        match completion::embedded_object(text) {
            Some(part) => {
                assert(is_only_item(read, text));
                if completion::may_conclude(decode, part, found) {
                    if read(part) is Some {
                        assert(items[0] == read(part)->0);
                    }
                    lemma_nothing_concluded(read, decode, part, found);
                }
            },
            None => {},
        }
    }
}

} // verus!
