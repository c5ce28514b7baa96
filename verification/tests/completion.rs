//! Completion proofs.
use serde_json::Value;
use zeroclaw::agent::completion::accept;
use zeroclaw::agent::completion::extract_proof_signal;
use zeroclaw::agent::completion::outermost_braces;
use zeroclaw::agent::completion::render_terminal_success_message;
use zeroclaw::agent::completion::ProofSignal;

fn optional_text(object: &Value, key: &str) -> Option<Option<String>> {
    match object.get(key) {
        None => Some(None),
        Some(Value::Null) => Some(None),
        Some(Value::String(text)) => Some(Some(text.clone())),
        Some(_) => None,
    }
}

fn flag(object: &Value, key: &str) -> Option<bool> {
    match object.get(key) {
        None => Some(false),
        Some(Value::Bool(b)) => Some(*b),
        Some(_) => None,
    }
}

fn decode(text: &str) -> Option<ProofSignal> {
    let document: Value = serde_json::from_str(text).ok()?;
    let proof = document.get("proof")?;
    proof.as_object()?;
    Some(ProofSignal {
        attempt_id: optional_text(proof, "attempt_id")?,
        summary: optional_text(proof, "summary")?,
        artifact_id: optional_text(proof, "artifact_id")?,
        fresh: flag(proof, "fresh")?,
        terminal: flag(proof, "terminal")?,
    })
}

fn signal(summary: Option<&str>, artifact_id: Option<&str>) -> ProofSignal {
    ProofSignal {
        attempt_id: None,
        summary: summary.map(|s| s.to_string()),
        artifact_id: artifact_id.map(|s| s.to_string()),
        fresh: true,
        terminal: true,
    }
}

#[test]
fn extracts_terminal_proof() {
    let output = r#"{"proof":{"attempt_id":"a1","summary":"posted successfully","artifact_id":"post-123","fresh":true,"terminal":true}}"#;
    let proof = extract_proof_signal(output, decode).expect("proof should parse");
    assert_eq!(proof.attempt_id.as_deref(), Some("a1"));
    assert_eq!(proof.artifact_id.as_deref(), Some("post-123"));
}

#[test]
fn ignores_non_terminal_proof() {
    let output = r#"{"proof":{"fresh":true,"terminal":false}}"#;
    assert!(extract_proof_signal(output, decode).is_none());
}

#[test]
fn ignores_proof_that_is_not_fresh() {
    let output = r#"{"proof":{"fresh":false,"terminal":true}}"#;
    assert!(extract_proof_signal(output, decode).is_none());
}

#[test]
fn finds_proof_between_other_text() {
    let output = "  done: {\"proof\":{\"artifact_id\":\"x\",\"fresh\":true,\"terminal\":true}} (ok)\n";
    let proof = extract_proof_signal(output, decode).expect("a proof");
    assert_eq!(proof.artifact_id.as_deref(), Some("x"));
    assert_eq!(proof.attempt_id, None);
    assert!(proof.fresh && proof.terminal);
}

#[test]
fn finds_nothing_in_blank_or_plain_output() {
    assert!(extract_proof_signal("", decode).is_none());
    assert!(extract_proof_signal(" \n\t\u{3000}", decode).is_none());
    assert!(extract_proof_signal("all done", decode).is_none());
    assert!(extract_proof_signal("an open { only", decode).is_none());
    assert!(extract_proof_signal("a closed } only", decode).is_none());
    assert!(extract_proof_signal("}{", decode).is_none());
    assert!(extract_proof_signal("{}", decode).is_none());
}

#[test]
fn decoder_sees_the_whole_text_and_then_the_braced_part() {
    let output = " a {b} c ";
    let whole = |t: &str| if t == "a {b} c" { Some(signal(Some("whole"), None)) } else { None };
    assert_eq!(extract_proof_signal(output, whole), Some(signal(Some("whole"), None)));
    let part = |t: &str| if t == "{b}" { Some(signal(Some("part"), None)) } else { None };
    assert_eq!(extract_proof_signal(output, part), Some(signal(Some("part"), None)));
}

#[test]
fn outermost_braces_are_the_first_and_the_last() {
    assert_eq!(outermost_braces("x{a}{é}y"), Some("{a}{é}"));
    assert_eq!(outermost_braces("}{"), Some(""));
    assert_eq!(outermost_braces("x}y"), None);
}

#[test]
fn accepts_conclusive_proofs_only() {
    let good = signal(None, None);
    assert_eq!(accept(Some(good.clone())), Some(good.clone()));
    let mut stale = good.clone();
    stale.fresh = false;
    assert_eq!(accept(Some(stale)), None);
    let mut open = good;
    open.terminal = false;
    assert_eq!(accept(Some(open)), None);
    assert_eq!(accept(None), None);
}

#[test]
fn renders_summary_and_artifact() {
    assert_eq!(
        render_terminal_success_message(&signal(Some("Posted."), Some("post-123"))),
        "Posted. Proof: post-123."
    );
    assert_eq!(render_terminal_success_message(&signal(Some("Posted."), None)), "Posted.");
}

#[test]
fn renders_default_for_blank_summary() {
    assert_eq!(
        render_terminal_success_message(&signal(Some("  \t"), Some("p"))),
        "Fresh completion proof captured. Proof: p."
    );
    assert_eq!(
        render_terminal_success_message(&signal(None, None)),
        "Fresh completion proof captured."
    );
    assert_eq!(render_terminal_success_message(&signal(Some(" a "), None)), " a ");
}
