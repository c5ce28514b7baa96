//! What holds of a lookup from its first folder to its answer.
use crate::agent::completion;
use crate::agent::completion::ProofSignal;
use crate::agent::reader;
use crate::json;
use crate::text::chars;
use crate::tools::mail::calendar;
use crate::tools::mail::identifier;
use crate::tools::mail::message;
use crate::tools::mail::record;
use crate::tools::mail::result;
use crate::tools::mail::scan;
use crate::tools::mail::tool;
use vstd::prelude::*;

verus! {

/// What a lookup answers when it is given the messages of its folders one after the other; nothing
/// if they do not suffice.
pub open spec fn run(
    scan: scan::ScanView,
    batches: Seq<Option<Seq<record::RecordView>>>,
) -> Option<result::ResultView>
    decreases batches.len(),
{
    if batches.len() == 0 {
        None
    } else {
        match scan::step(scan, batches[0]) {
            scan::ScanStepView::Done(t) => Some(t),
            scan::ScanStepView::Continue(next) => run(next, batches.drop_first()),
        }
    }
}

/// The records of all folders, in the order of the folders.
pub open spec fn all_records(batches: Seq<Option<Seq<record::RecordView>>>) -> Seq<
    record::RecordView,
>
    decreases batches.len(),
{
    if batches.len() == 0 {
        Seq::empty()
    } else {
        match batches[0] {
            Some(records) => records + all_records(batches.drop_first()),
            None => all_records(batches.drop_first()),
        }
    }
}

/// The first match in a concatenation is the first match of the front, or else of the back.
proof fn lemma_first_match_concat(
    query: scan::QueryView,
    a: Seq<record::RecordView>,
    b: Seq<record::RecordView>,
)
    ensures
        scan::first_match(query, a + b) == (match scan::first_match(query, a) {
            Some(r) => Some(r),
            None => scan::first_match(query, b),
        }),
    decreases a.len(),
{
    if a.len() == 0 {
        assert(a + b =~= b);
    } else {
        assert((a + b).drop_first() =~= a.drop_first() + b);
        lemma_first_match_concat(query, a.drop_first(), b);
    }
}

/// A listing looks for no record.
proof fn lemma_listing_matches_none(query: scan::QueryView, records: Seq<record::RecordView>)
    requires
        query is ListRecent,
    ensures
        scan::first_match(query, records) is None,
    decreases records.len(),
{
    if records.len() > 0 {
        lemma_listing_matches_none(query, records.drop_first());
    }
}

/// A first match is one of the records and is what is looked for; where there is none, no record
/// is.
proof fn lemma_first_match(query: scan::QueryView, records: Seq<record::RecordView>)
    ensures
        (match scan::first_match(query, records) {
            Some(r) => records.contains(r) && scan::matches_query(query, r),
            None => forall|r: record::RecordView| #[trigger]
                records.contains(r) ==> !scan::matches_query(query, r),
        }),
    decreases records.len(),
{
    if records.len() > 0 {
        lemma_first_match(query, records.drop_first());
        assert(records.contains(records[0]));
        let rest = records.drop_first();
        assert forall|r: record::RecordView| rest.contains(r) implies records.contains(r) by {
            let i = choose|i: int| 0 <= i < rest.len() && rest[i] == r;
            assert(records[i + 1] == r);
        }
        assert forall|r: record::RecordView| #[trigger]
            records.contains(r) && r != records[0] implies rest.contains(r) by {
            let i = choose|i: int| 0 <= i < records.len() && records[i] == r;
            assert(rest[i - 1] == r);
        }
    }
}

/// A listing answers once all its folders are done, and not before: with what it had collected and
/// all that they hold, newest first and cut to the limit. A folder that could not be fetched
/// counts as empty.
pub proof fn law_listing_shows_newest_of_all_folders(
    scan: scan::ScanView,
    batches: Seq<Option<Seq<record::RecordView>>>,
)
    requires
        scan.query is ListRecent,
        scan.next < scan.folders.len(),
        batches.len() <= scan.folders.len() - scan.next,
    ensures
        run(scan, batches) == (if batches.len() == scan.folders.len() - scan.next {
            Some(scan::exhausted(scan.query, scan.collected + all_records(batches)))
        } else {
            None
        }),
    decreases batches.len(),
{
    if batches.len() > 0 {
        let records = scan::batch_records(batches[0]);
        lemma_listing_matches_none(scan.query, records);
        let rest = batches.drop_first();
        assert(all_records(batches) =~= records + all_records(rest));
        assert(scan.collected + all_records(batches) =~= (scan.collected + records) + all_records(
            rest,
        ));
        if scan.next + 1 < scan.folders.len() {
            let next = scan::ScanView {
                next: scan.next + 1,
                collected: scan.collected + records,
                ..scan
            };
            law_listing_shows_newest_of_all_folders(next, rest);
        } else {
            assert(all_records(rest) =~= Seq::<record::RecordView>::empty());
            assert((scan.collected + records) + all_records(rest) =~= scan.collected + records);
        }
    }
}

/// A lookup for one message answers with the first match over all its folders, and that there is
/// none only once they are all done.
pub proof fn law_lookup_answers_with_first_match(
    scan: scan::ScanView,
    batches: Seq<Option<Seq<record::RecordView>>>,
)
    requires
        !(scan.query is ListRecent),
        scan.next < scan.folders.len(),
        batches.len() <= scan.folders.len() - scan.next,
    ensures
        run(scan, batches) == (match scan::first_match(scan.query, all_records(batches)) {
            Some(r) => Some(scan::found(scan.query, r)),
            None => if batches.len() == scan.folders.len() - scan.next {
                Some(scan::exhausted(scan.query, scan.collected))
            } else {
                None
            },
        }),
    decreases batches.len(),
{
    if batches.len() > 0 {
        let records = scan::batch_records(batches[0]);
        let rest = batches.drop_first();
        assert(all_records(batches) =~= records + all_records(rest));
        lemma_first_match_concat(scan.query, records, all_records(rest));
        if scan::first_match(scan.query, records) is None {
            if scan.next + 1 < scan.folders.len() {
                let next = scan::ScanView { next: scan.next + 1, ..scan };
                law_lookup_answers_with_first_match(next, rest);
            } else {
                assert(all_records(rest) =~= Seq::<record::RecordView>::empty());
            }
        }
    }
}

/// Once all folders are done, a message is verified exactly if one of their messages is fresh and
/// has all that is asked of it; the answer then shows such a message, with its identifier as the
/// proof. Otherwise the answer is a failure.
pub proof fn law_verified_message_is_fresh_and_as_asked(
    scan: scan::ScanView,
    batches: Seq<Option<Seq<record::RecordView>>>,
)
    requires
        scan.query is VerifySent,
        scan.next < scan.folders.len(),
        batches.len() == scan.folders.len() - scan.next,
    ensures
        run(scan, batches) matches Some(answer) && if answer.success {
            answers_with_match(scan.query, all_records(batches), answer)
        } else {
            &&& answer == scan::exhausted(scan.query, scan.collected)
            &&& forall|r: record::RecordView| #[trigger]
                all_records(batches).contains(r) ==> !scan::matches_query(scan.query, r)
        },
{
    law_lookup_answers_with_first_match(scan, batches);
    let records = all_records(batches);
    lemma_first_match(scan.query, records);
    match scan::first_match(scan.query, records) {
        Some(r) => {
            assert(scan::matches_query(scan.query, r));
            assert(answers_with_match(scan.query, records, run(scan, batches)->0));
        },
        None => {},
    }
}

/// The action of a verification is that and no other.
proof fn lemma_verification_is_its_own_action()
    ensures
        "verify_sent"@ != "send"@,
        "verify_sent"@ != "list_recent"@,
        "verify_sent"@ != "get"@,
{
    reveal_strlit("verify_sent");
    reveal_strlit("send");
    reveal_strlit("list_recent");
    reveal_strlit("get");
    assert("verify_sent"@.len() == 11);
    assert("send"@.len() == 4);
    assert("get"@.len() == 3);
    assert("verify_sent"@[0] != "list_recent"@[0]);
}

/// A message that is accepted as proof has a date that exists, and it is no more than fifteen
/// minutes before the time at which verification was asked for; the message has every property that
/// was asked of it. The date is compared by the date and the time of day that stand in the header,
/// as if they were in UTC: a time zone beside them is not taken into account. The clock has to show
/// more than fifteen minutes since the epoch, since a message without a date counts as one of the
/// epoch.
pub proof fn law_proof_is_of_the_current_attempt(
    config: tool::EmailConfig,
    args: json::Json,
    now: u64,
    started: tool::MailStep,
    folder: Seq<char>,
    headers: message::HeadersView,
    content: message::ContentView,
    fresh: Seq<char>,
)
    requires
        now > 15 * 60,
        json::text_field(args, "action"@) == Some("verify_sent"@),
        tool::may_execute(config, args, now, Ok(started)),
        started matches tool::MailStep::Scan(s) && scan::matches_query(
            s@.query,
            message::record_of(folder, headers, content, fresh),
        ),
    ensures
        headers.date matches Some(date) && calendar::exists_in_calendar(date)
            && calendar::epoch_seconds(date) + 15 * 60 >= now,
        ({
            let r = message::record_of(folder, headers, content, fresh);
            &&& json::text_field(args, "message_id"@) matches Some(id) ==> identifier::is_same(
                r.message_id,
                id,
            )
            &&& json::text_field(args, "subject"@) matches Some(subject) ==> r.subject == subject
            &&& json::text_field(args, "to"@) matches Some(to) ==> scan::is_recipient(r.to, to)
        }),
{
    lemma_verification_is_its_own_action();
    calendar::lemma_message_time_fits(headers.date);
}

/// The identifier that is reported of a sent message is the one that verification confirms: asked
/// for the reported identifier, and for no other property than the message has, verification
/// succeeds once a fresh message with that identifier, without its angle brackets, is among those of
/// the folders, and its proof names that identifier.
pub proof fn law_reported_identifier_is_confirmed(
    config: tool::EmailConfig,
    args: json::Json,
    now: u64,
    started: tool::MailStep,
    batches: Seq<Option<Seq<record::RecordView>>>,
    sent: tool::OutgoingMail,
    r: record::RecordView,
)
    requires
        json::text_field(args, "action"@) == Some("verify_sent"@),
        json::text_field(args, "attempt_id"@) is Some,
        json::text_field(args, "message_id"@) == Some(sent.message_id@),
        json::text_field(args, "subject"@) matches Some(subject) ==> r.subject == subject,
        json::text_field(args, "to"@) matches Some(to) ==> scan::is_recipient(r.to, to),
        tool::may_execute(config, args, now, Ok(started)),
        started matches tool::MailStep::Scan(s) && batches.len() == s@.folders.len(),
        tool::is_client_id(sent.message_id@),
        all_records(batches).contains(r),
        r.message_id == identifier::bare(sent.message_id@),
        r.timestamp >= tool::freshness_cutoff(now),
    ensures
        started matches tool::MailStep::Scan(s) && (run(s@, batches) matches Some(answer)
            && answer.success && confirms(
            json::text_field(args, "attempt_id"@)->0,
            sent.message_id@,
            answer,
        )),
{
    lemma_verification_is_its_own_action();
    lemma_bare_client_id(sent.message_id@);
    let s = started->Scan_0@;
    let records = all_records(batches);
    assert(identifier::is_same(r.message_id, sent.message_id@));
    assert(scan::matches_query(s.query, r));
    assert(s.folders.contains("Sent"@));
    law_lookup_answers_with_first_match(s, batches);
    lemma_first_match(s.query, records);
    let m = scan::first_match(s.query, records)->0;
    assert(scan::matches_query(s.query, m));
    assert(identifier::is_same(m.message_id, sent.message_id@));
    assert(confirms(
        json::text_field(args, "attempt_id"@)->0,
        sent.message_id@,
        run(s, batches)->0,
    ));
}

/// Whether `answer` shows a message with the identifier `id`, with its identifier as the proof.
pub open spec fn confirms(
    attempt_id: Seq<char>,
    id: Seq<char>,
    answer: result::ResultView,
) -> bool {
    exists|r: record::RecordView|
        #![trigger scan::verified_json(attempt_id, r)]
        identifier::is_same(r.message_id, id) && answer == result::succeeded(
            scan::verified_json(attempt_id, r),
        )
}

/// An identifier as the tool makes them stands in angle brackets, with none inside and no upper-case
/// letter.
proof fn lemma_bare_client_id(id: Seq<char>)
    requires
        tool::is_client_id(id),
    ensures
        id.len() == 53,
        id.first() == '<',
        id.last() == '>',
        identifier::bare(id) == id.subrange(1, 52),
        identifier::bare(identifier::bare(id)) == identifier::bare(id),
        chars::ascii_lower(identifier::bare(id)) == identifier::bare(id),
{
    reveal_strlit("<zeroclaw-");
    reveal_strlit("@local>");
    let u = choose|u: Seq<char>| #[trigger]
        identifier::is_uuid(u) && id == tool::client_id(u);
    let b = identifier::bare(id);
    assert(b[0] == 'z');
    assert forall|i: int| 0 <= i < b.len() implies chars::ascii_lower_char(#[trigger] b[i])
        == b[i] by {
        if 9 <= i < 45 {
            assert(b[i] == u[i - 9]);
            assert(identifier::is_hex_digit(u[i - 9]) || u[i - 9] == '-');
        }
    }
    assert(chars::ascii_lower(b) =~= b);
}

/// A prior send is never proof of a later one: asked for the identifier that was made from one drawn
/// UUID, verification does not accept the message of a send for which another was drawn.
pub proof fn law_other_send_is_no_proof(
    config: tool::EmailConfig,
    args: json::Json,
    now: u64,
    started: tool::MailStep,
    drawn: Seq<char>,
    other: Seq<char>,
    r: record::RecordView,
)
    requires
        json::text_field(args, "action"@) == Some("verify_sent"@),
        json::text_field(args, "message_id"@) == Some(tool::client_id(drawn)),
        tool::may_execute(config, args, now, Ok(started)),
        identifier::is_uuid(drawn),
        identifier::is_uuid(other),
        drawn != other,
        r.message_id == tool::client_id(other) || r.message_id == identifier::bare(
            tool::client_id(other),
        ),
    ensures
        started matches tool::MailStep::Scan(s) ==> !scan::matches_query(s@.query, r),
{
    let a = tool::client_id(drawn);
    let b = tool::client_id(other);
    lemma_verification_is_its_own_action();
    tool::law_identifiers_differ(drawn, other);
    assert(tool::is_client_id(a) && tool::is_client_id(b));
    lemma_bare_client_id(a);
    lemma_bare_client_id(b);
    if identifier::bare(a) == identifier::bare(b) {
        assert(a =~= seq!['<'] + identifier::bare(a) + seq!['>']);
        assert(b =~= seq!['<'] + identifier::bare(b) + seq!['>']);
    }
}

/// Whether `answer` shows one of the records, and what is looked for.
pub open spec fn answers_with_match(
    query: scan::QueryView,
    records: Seq<record::RecordView>,
    answer: result::ResultView,
) -> bool {
    exists|r: record::RecordView|
        records.contains(r) && #[trigger] scan::matches_query(query, r) && answer == scan::found(
            query,
            r,
        )
}

/// Whether `signal` is what an object says of a proof.
pub open spec fn describes(signal: ProofSignal, document: json::Json) -> bool {
    &&& chars::string_option(signal.attempt_id) == json::text_field(document, "attempt_id"@)
    &&& chars::string_option(signal.summary) == json::text_field(document, "summary"@)
    &&& chars::string_option(signal.artifact_id) == json::text_field(document, "artifact_id"@)
    &&& signal.fresh == (json::field_of(document, "fresh"@) == Some(json::Json::Bool(true)))
    &&& signal.terminal == (json::field_of(document, "terminal"@) == Some(json::Json::Bool(true)))
}

/// The fields of the proof that goes with a verified message.
proof fn lemma_proof_fields(attempt_id: Seq<char>, message_id: Seq<char>)
    ensures
        ({
            let document = scan::proof_json(attempt_id, message_id);
            &&& json::text_field(document, "attempt_id"@) == Some(attempt_id)
            &&& json::text_field(document, "summary"@) == Some(scan::VERIFIED_SUMMARY@)
            &&& json::text_field(document, "artifact_id"@) == Some(message_id)
            &&& json::field_of(document, "fresh"@) == Some(json::Json::Bool(true))
            &&& json::field_of(document, "terminal"@) == Some(json::Json::Bool(true))
        }),
{
    scan::lemma_proof_keys();
    let fields = scan::proof_json(attempt_id, message_id)->Object_0;
    let f1 = fields.drop_first();
    let f2 = f1.drop_first();
    let f3 = f2.drop_first();
    let f4 = f3.drop_first();
    assert(f1[0] == fields[1] && f2[0] == fields[2] && f3[0] == fields[3] && f4[0] == fields[4]);
    reveal_with_fuel(json::lookup, 6);
}

/// A key that no field has is not found.
proof fn lemma_absent_field(fields: Seq<(Seq<char>, json::Json)>, key: Seq<char>)
    requires
        forall|i: int| 0 <= i < fields.len() ==> (#[trigger] fields[i]).0 != key,
    ensures
        json::lookup(fields, key) is None,
    decreases fields.len(),
{
    if fields.len() > 0 {
        let rest = fields.drop_first();
        assert forall|i: int| 0 <= i < rest.len() implies (#[trigger] rest[i]).0 != key by {
            assert(rest[i] == fields[i + 1]);
        }
        lemma_absent_field(rest, key);
    }
}

/// Of the objects that the tool answers with, only that of a verified message carries a proof: the
/// report of a sent message and a message that was looked up carry none.
pub proof fn law_only_verification_carries_a_proof(
    from: Seq<char>,
    message_id: Seq<char>,
    to: Seq<char>,
    subject: Seq<char>,
    timestamp: u64,
    attempt_id: Seq<char>,
    r: record::RecordView,
)
    ensures
        json::field_of(
            tool::sent_json(from, message_id, to, subject, timestamp),
            "proof"@,
        ) is None,
        json::field_of(record::record_json(r), "proof"@) is None,
        json::field_of(scan::verified_json(attempt_id, r), "proof"@) == Some(
            scan::proof_json(attempt_id, r.message_id),
        ),
{
    reveal_strlit("proof");
    reveal_strlit("message");
    assert("proof"@.len() == 5);
    assert("message"@.len() == 7);
    record::lemma_record_keys();
    lemma_absent_field(
        tool::sent_json(from, message_id, to, subject, timestamp)->Object_0,
        "proof"@,
    );
    lemma_absent_field(record::record_json(r)->Object_0, "proof"@);
    let fields = scan::verified_json(attempt_id, r)->Object_0;
    assert(fields.drop_first()[0] == fields[1]);
    reveal_with_fuel(json::lookup, 3);
}

/// The proof that goes with a verified message ends the run, and the user is told the identifier
/// of the message.
pub proof fn law_verification_proof_ends_the_run(
    attempt_id: Seq<char>,
    message_id: Seq<char>,
    signal: ProofSignal,
)
    requires
        describes(signal, scan::proof_json(attempt_id, message_id)),
    ensures
        completion::is_conclusive(signal),
        completion::success_message(signal) == scan::VERIFIED_SUMMARY@ + " Proof: "@ + message_id
            + "."@,
{
    lemma_proof_fields(attempt_id, message_id);
    reveal_strlit("Fresh email verification succeeded. Stop and report success.");
    let s = signal.summary->0@;
    assert(s[0] == 'F');
    chars::law_trimmed_empty_iff_blank(s);
}

/// The proof of a verified message is found in the tool's output: whenever the output stands
/// between braces and the decoder reads the proof in it as it is, the search is free to run and
/// finds that proof.
pub proof fn law_verification_proof_is_found<F: Fn(&str) -> Option<ProofSignal>>(
    attempt_id: Seq<char>,
    message_id: Seq<char>,
    output: Seq<char>,
    decode: F,
    found: Option<ProofSignal>,
)
    requires
        output.len() >= 2,
        output.first() == '{',
        output.last() == '}',
        forall|t: &str, answer: Option<ProofSignal>|
            t@ == output && #[trigger] decode.ensures((t,), answer) ==> (answer matches Some(signal)
                && describes(signal, scan::proof_json(attempt_id, message_id))),
        completion::may_find(decode, output, found),
    ensures
        completion::surely_concludes(decode, chars::trimmed(output)),
        found matches Some(signal) && describes(
            signal,
            scan::proof_json(attempt_id, message_id),
        ),
{
    assert(chars::trimmed(output) == output);
    assert forall|t: &str, answer: Option<ProofSignal>|
        t@ == output && #[trigger] decode.ensures((t,), answer) implies completion::accepted(
        answer,
    ) == answer && answer is Some by {
        law_verification_proof_ends_the_run(attempt_id, message_id, answer->0);
    }
}

/// A failure carries no proof: none is found in its output, whatever the decoder does.
pub proof fn law_failure_yields_no_proof<F: Fn(&str) -> Option<ProofSignal>>(
    reason: Seq<char>,
    decode: F,
    found: Option<ProofSignal>,
)
    requires
        completion::may_find(decode, result::failed(reason).output, found),
    ensures
        found is None,
{
    assert(chars::trim_start(Seq::<char>::empty()).len() == 0);
}

/// The report of a sent message is no proof: none is found in it.
pub proof fn law_sent_report_yields_no_proof<F: Fn(&str) -> Option<ProofSignal>>(
    from: Seq<char>,
    message_id: Seq<char>,
    to: Seq<char>,
    subject: Seq<char>,
    timestamp: u64,
    read: spec_fn(Seq<char>) -> Option<json::Json>,
    decode: F,
    found: Option<ProofSignal>,
)
    requires
        reader::is_json_reader(read),
        reader::is_proof_decoder(decode, read),
        ({
            let document = tool::sent_json(from, message_id, to, subject, timestamp);
            &&& read(result::printed(document)) == Some(document)
            &&& completion::may_find(decode, result::succeeded(document).output, found)
        }),
    ensures
        found is None,
{
    let document = tool::sent_json(from, message_id, to, subject, timestamp);
    law_only_verification_carries_a_proof(
        from,
        message_id,
        to,
        subject,
        timestamp,
        Seq::empty(),
        arbitrary(),
    );
    reader::law_object_without_proof_yields_none(
        read,
        decode,
        result::printed(document),
        found,
    );
}

/// Whether `read` reads back what is printed of messages.
pub open spec fn reads_back_records(read: spec_fn(Seq<char>) -> Option<json::Json>) -> bool {
    &&& forall|r: record::RecordView|
        read(result::printed(#[trigger] record::record_json(r))) == Some(record::record_json(r))
    &&& forall|records: Seq<record::RecordView>|
        read(result::printed(#[trigger] record::records_json(records))) == Some(
            record::records_json(records),
        )
}

/// The object of a message has no field `fresh`.
proof fn lemma_record_is_not_fresh(r: record::RecordView)
    ensures
        json::field_of(record::record_json(r), "fresh"@) is None,
{
    scan::lemma_proof_keys();
    record::lemma_record_keys();
    lemma_absent_field(record::record_json(r)->Object_0, "fresh"@);
}

/// No proof is found in a listing, whatever the messages say.
proof fn lemma_listing_yields_no_proof<F: Fn(&str) -> Option<ProofSignal>>(
    records: Seq<record::RecordView>,
    read: spec_fn(Seq<char>) -> Option<json::Json>,
    decode: F,
    found: Option<ProofSignal>,
)
    requires
        reader::is_json_reader(read),
        reader::is_proof_decoder(decode, read),
        reads_back_records(read),
        completion::may_find(decode, result::printed(record::records_json(records)), found),
    ensures
        found is None,
{
    let items = record::records_json(records)->List_0;
    assert forall|i: int| 0 <= i < items.len() implies json::field_of(
        #[trigger] items[i],
        "proof"@,
    ) is None && json::field_of(items[i], "fresh"@) is None && items[i] is Object by {
        let r = records[i];
        assert(items[i] == record::record_json(r));
        law_only_verification_carries_a_proof(
            r.from,
            r.message_id,
            r.from,
            r.subject,
            r.timestamp,
            r.from,
            r,
        );
        lemma_record_is_not_fresh(r);
    }
    reader::law_list_without_proof_yields_none(
        read,
        decode,
        result::printed(record::records_json(records)),
        items,
        found,
    );
}

/// Of all lookups, only a successful verification yields a proof: none is found in what a listing,
/// a lookup by identifier or a failed verification answers, whatever the messages say.
pub proof fn law_only_successful_verification_yields_a_proof<F: Fn(&str) -> Option<ProofSignal>>(
    scan: scan::ScanView,
    batches: Seq<Option<Seq<record::RecordView>>>,
    answer: result::ResultView,
    read: spec_fn(Seq<char>) -> Option<json::Json>,
    decode: F,
    found: Option<ProofSignal>,
)
    requires
        scan.next < scan.folders.len(),
        batches.len() <= scan.folders.len() - scan.next,
        run(scan, batches) == Some(answer),
        reader::is_json_reader(read),
        reader::is_proof_decoder(decode, read),
        reads_back_records(read),
        completion::may_find(decode, answer.output, found),
    ensures
        found is Some ==> scan.query is VerifySent && answer.success,
{
    match scan.query {
        scan::QueryView::ListRecent { limit } => {
            law_listing_shows_newest_of_all_folders(scan, batches);
            let shown = scan::limited(
                record::newest_first(scan.collected + all_records(batches)),
                limit,
            );
            lemma_listing_yields_no_proof(shown, read, decode, found);
        },
        scan::QueryView::Get { message_id } => {
            law_lookup_answers_with_first_match(scan, batches);
            match scan::first_match(scan.query, all_records(batches)) {
                Some(r) => {
                    law_only_verification_carries_a_proof(
                        r.from,
                        r.message_id,
                        r.from,
                        r.subject,
                        r.timestamp,
                        r.from,
                        r,
                    );
                    reader::law_object_without_proof_yields_none(
                        read,
                        decode,
                        result::printed(record::record_json(r)),
                        found,
                    );
                },
                None => {
                    law_failure_yields_no_proof("Message not found: "@ + message_id, decode, found);
                },
            }
        },
        scan::QueryView::VerifySent { .. } => {
            law_lookup_answers_with_first_match(scan, batches);
            if !answer.success {
                law_failure_yields_no_proof(
                    "Unable to verify a fresh sent message for this attempt"@,
                    decode,
                    found,
                );
            }
        },
    }
}

} // verus!
