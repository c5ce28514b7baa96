//! What holds of the tool's actions from the arguments to the answer, said of the arguments and of
//! the messages in the folders.
use crate::json;
use crate::text::chars;
use crate::text::laws as text_laws;
use crate::text::order;
use crate::tools::mail::compose;
use crate::tools::mail::identifier;
use crate::tools::mail::laws;
use crate::tools::mail::reading_laws;
use crate::tools::mail::record;
use crate::tools::mail::record::MailRecord;
use crate::tools::mail::result;
use crate::tools::mail::scan;
use crate::tools::mail::scan::MailQuery;
use crate::tools::mail::tool;
use crate::tools::mail::tool::{EmailConfig, MailError, MailStep};
use vstd::prelude::*;

verus! {

/// Whether `folders` are those in which mail is looked for: the one that is asked for, without the
/// white space around its name, if that leaves anything, the usual three and the configured one;
/// each once, in the order of their names.
pub open spec fn are_the_folders(
    imap_folder: Seq<char>,
    explicit: Option<Seq<char>>,
    folders: Seq<Seq<char>>,
) -> bool {
    &&& forall|i: int, j: int|
        0 <= i < j < folders.len() ==> order::at_or_before(
            #[trigger] folders[i],
            #[trigger] folders[j],
        ) && folders[i] != folders[j]
    &&& forall|name: Seq<char>| #[trigger]
        folders.contains(name) <==> {
            ||| name == "Sent"@ || name == "Sent Messages"@ || name == "INBOX"@
            ||| name == imap_folder
            ||| explicit is Some && name.len() > 0 && exists|at: int| #[trigger]
                text_laws::is_core(explicit->0, name, at)
        }
}

/// The folders in which mail is looked for are these.
pub proof fn law_folders_are_the_usual_and_the_named(
    imap_folder: Seq<char>,
    explicit: Option<Seq<char>>,
    folders: Seq<Seq<char>>,
)
    requires
        tool::lists_candidates(imap_folder, explicit, folders),
    ensures
        are_the_folders(imap_folder, explicit, folders),
{
    if explicit is Some {
        text_laws::law_trim_leaves_the_core(explicit->0);
    }
    assert forall|name: Seq<char>| #[trigger] folders.contains(name) <==> {
        ||| name == "Sent"@ || name == "Sent Messages"@ || name == "INBOX"@
        ||| name == imap_folder
        ||| explicit is Some && name.len() > 0 && exists|at: int| #[trigger]
            text_laws::is_core(explicit->0, name, at)
    } by {
        assert(folders.contains(name) <==> tool::is_candidate(imap_folder, explicit, name));
    }
    assert forall|i: int, j: int| 0 <= i < j < folders.len() implies order::at_or_before(
        #[trigger] folders[i],
        #[trigger] folders[j],
    ) && folders[i] != folders[j] by {
        assert(order::before(folders[i], folders[j]));
    }
}

/// The four actions have four names.
pub proof fn lemma_actions_differ()
    ensures
        "send"@ != "list_recent"@,
        "send"@ != "get"@,
        "send"@ != "verify_sent"@,
        "list_recent"@ != "get"@,
        "list_recent"@ != "verify_sent"@,
        "get"@ != "verify_sent"@,
{
    reveal_strlit("send");
    reveal_strlit("list_recent");
    reveal_strlit("get");
    reveal_strlit("verify_sent");
    assert("send"@.len() == 4);
    assert("list_recent"@.len() == 11);
    assert("get"@.len() == 3);
    assert("verify_sent"@.len() == 11);
    assert("list_recent"@[0] != "verify_sent"@[0]);
}

/// Whether the arguments are refused because `name` is missing.
pub open spec fn misses(r: Result<MailStep, MailError>, name: Seq<char>) -> bool {
    r is Err && r->Err_0 is MissingArgument && r->Err_0->MissingArgument_0@ == name
}

/// Whether a lookup starts at the first of the folders with nothing collected.
pub open spec fn looks_for(
    config: EmailConfig,
    args: json::Json,
    query: scan::QueryView,
    r: Result<MailStep, MailError>,
) -> bool {
    &&& r is Ok && r->Ok_0 is Scan
    &&& r->Ok_0->Scan_0@.next == 0
    &&& r->Ok_0->Scan_0@.collected.len() == 0
    &&& r->Ok_0->Scan_0@.query == query
    &&& are_the_folders(
        config.imap_folder@,
        json::text_field(args, "folder"@),
        r->Ok_0->Scan_0@.folders,
    )
}

/// Without an action nothing is done; an action that there is not fails, and its name is told whole.
pub proof fn law_action_is_needed_and_known(
    config: EmailConfig,
    args: json::Json,
    now: u64,
    r: Result<MailStep, MailError>,
)
    requires
        tool::may_execute(config, args, now, r),
    ensures
        json::text_field(args, "action"@) is None <==> misses(r, "action"@),
        json::text_field(args, "action"@) matches Some(action) && action != "send"@ && action
            != "list_recent"@ && action != "get"@ && action != "verify_sent"@ ==> (
        r matches Ok(MailStep::Done(t)) && !t.success && t.output@.len() == 0
            && t.error is Some && t.error->0@ == "Unsupported mail action: "@
            + json::text_field(args, "action"@)->0),
{
    lemma_actions_differ();
    reveal_strlit("action");
    reveal_strlit("to");
    reveal_strlit("subject");
    reveal_strlit("body");
    reveal_strlit("message_id");
    reveal_strlit("attempt_id");
    assert("action"@.len() == 6);
    assert("to"@.len() == 2);
    assert("subject"@.len() == 7);
    assert("body"@.len() == 4);
    assert("message_id"@.len() == 10);
    assert("attempt_id"@.len() == 10);
}

/// A listing asks for as many messages as the arguments say, for ten where they do not say it.
pub proof fn law_listing_is_started(
    config: EmailConfig,
    args: json::Json,
    now: u64,
    r: Result<MailStep, MailError>,
    limit: nat,
)
    requires
        tool::may_execute(config, args, now, r),
        json::text_field(args, "action"@) == Some("list_recent"@),
        json::unsigned_field(args, "limit"@) is None ==> limit == 10,
        json::unsigned_field(args, "limit"@) matches Some(n) ==> (n <= usize::MAX ==> limit == n)
            && (n > usize::MAX ==> limit == usize::MAX),
    ensures
        looks_for(config, args, scan::QueryView::ListRecent { limit }, r),
{
    lemma_actions_differ();
    law_folders_are_the_usual_and_the_named(
        config.imap_folder@,
        json::text_field(args, "folder"@),
        r->Ok_0->Scan_0@.folders,
    );
}

/// A message is looked up under the whole identifier that the arguments give, and under none where
/// they give none.
pub proof fn law_get_is_started(
    config: EmailConfig,
    args: json::Json,
    now: u64,
    r: Result<MailStep, MailError>,
)
    requires
        tool::may_execute(config, args, now, r),
        json::text_field(args, "action"@) == Some("get"@),
    ensures
        json::text_field(args, "message_id"@) is None ==> misses(r, "message_id"@),
        json::text_field(args, "message_id"@) matches Some(id) ==> looks_for(
            config,
            args,
            (scan::QueryView::Get { message_id: id }),
            r,
        ),
{
    lemma_actions_differ();
    if json::text_field(args, "message_id"@) is Some {
        law_folders_are_the_usual_and_the_named(
            config.imap_folder@,
            json::text_field(args, "folder"@),
            r->Ok_0->Scan_0@.folders,
        );
    }
}

/// A verification asks for what the arguments give of the message, and for one of the last fifteen
/// minutes.
pub proof fn law_verification_is_started(
    config: EmailConfig,
    args: json::Json,
    now: u64,
    r: Result<MailStep, MailError>,
    cutoff: u64,
)
    requires
        tool::may_execute(config, args, now, r),
        json::text_field(args, "action"@) == Some("verify_sent"@),
        now >= 900 ==> cutoff == now - 900,
        now < 900 ==> cutoff == 0,
    ensures
        json::text_field(args, "attempt_id"@) is None ==> misses(r, "attempt_id"@),
        json::text_field(args, "attempt_id"@) matches Some(attempt_id) ==> looks_for(
            config,
            args,
            (scan::QueryView::VerifySent {
                attempt_id,
                message_id: json::text_field(args, "message_id"@),
                subject: json::text_field(args, "subject"@),
                to: json::text_field(args, "to"@),
                cutoff,
            }),
            r,
        ),
{
    lemma_actions_differ();
    if json::text_field(args, "attempt_id"@) is Some {
        law_folders_are_the_usual_and_the_named(
            config.imap_folder@,
            json::text_field(args, "folder"@),
            r->Ok_0->Scan_0@.folders,
        );
    }
}

/// Whether a text starts with these ASCII characters.
pub open spec fn starts_with_ascii(bytes: Seq<u8>, text: Seq<char>) -> bool {
    &&& bytes.len() >= text.len()
    &&& forall|i: int| 0 <= i < text.len() ==> #[trigger] bytes[i] == text[i] as u8
}

/// Whether `email` is what `lettre` builds from these texts, whole, under the identifier `id`, with
/// some date; the identifier heads the message.
pub open spec fn is_built_from(
    email: compose::ComposedEmail,
    from: Seq<char>,
    to: Seq<char>,
    subject: Seq<char>,
    body: Seq<char>,
    id: Seq<char>,
) -> bool {
    let built = compose::email_shape(from, to, subject, body, id);
    &&& built is Ok
    &&& chars::string_option(email.sender) == built->Ok_0.sender
    &&& chars::string_list(email.recipients@) == built->Ok_0.recipients
    &&& exists|date: Seq<u8>|
        email.raw@ == #[trigger] (built->Ok_0.before_date + date) + built->Ok_0.after_date
    &&& starts_with_ascii(email.raw@, "Message-ID: "@ + id + "\r\n"@)
}

pub proof fn lemma_built(
    email: compose::ComposedEmail,
    from: Seq<char>,
    to: Seq<char>,
    subject: Seq<char>,
    body: Seq<char>,
    id: Seq<char>,
)
    requires
        compose::email_shape(from, to, subject, body, id) matches Ok(shape) && email.has_shape(
            shape,
        ),
        email.is_headed_by(id),
    ensures
        is_built_from(email, from, to, subject, body, id),
{
    let line = "Message-ID: "@ + id + "\r\n"@;
    let bytes = compose::ascii_bytes(line);
    assert forall|i: int| 0 <= i < line.len() implies #[trigger] email.raw@[i] == line[i] as u8 by {
        assert(bytes[i] == line[i] as u8);
        assert(email.raw@.subrange(0, bytes.len() as int)[i] == bytes[i]);
    }
}

/// Whether a drawn UUID stands between `<zeroclaw-` and `@local>`.
pub open spec fn is_made_from(id: Seq<char>, uuid: Seq<char>) -> bool {
    identifier::is_uuid(uuid) && id == "<zeroclaw-"@ + uuid + "@local>"@
}

/// A message is sent to the recipient that the arguments name, with the subject and the body that
/// they give, each whole and however long, from the account's address; the identifier that is
/// reported is the one that the message bears. Where `lettre` builds no such message, its reason is
/// given, and a missing argument is named.
pub proof fn law_message_is_sent_as_given(
    config: EmailConfig,
    args: json::Json,
    now: u64,
    r: Result<MailStep, MailError>,
    to: Seq<char>,
    subject: Seq<char>,
    body: Seq<char>,
)
    requires
        tool::may_execute(config, args, now, r),
        json::text_field(args, "action"@) == Some("send"@),
        json::text_field(args, "to"@) == Some(to),
        json::text_field(args, "subject"@) == Some(subject),
        json::text_field(args, "body"@) == Some(body),
    ensures
        r matches Ok(step) ==> step is Send,
        r matches Ok(MailStep::Send(sent)) ==> sent.to@ == to && sent.subject@ == subject
            && is_built_from(
            sent.email,
            config.from_address@,
            to,
            subject,
            body,
            sent.message_id@,
        ),
        r matches Ok(MailStep::Send(sent)) ==> exists|uuid: Seq<char>| #[trigger]
            is_made_from(sent.message_id@, uuid),
        r matches Err(e) ==> e is Unsendable,
        r matches Err(MailError::Unsendable(reason)) ==> exists|id: Seq<char>, uuid: Seq<char>|
            #[trigger] is_made_from(id, uuid) && compose::email_shape(
                config.from_address@,
                to,
                subject,
                body,
                id,
            ) == Err::<compose::EmailShape, Seq<char>>(reason@),
{
    match r {
        Ok(MailStep::Send(sent)) => {
            lemma_built(
                sent.email,
                config.from_address@,
                to,
                subject,
                body,
                sent.message_id@,
            );
            let uuid = choose|uuid: Seq<char>| #[trigger]
                identifier::is_uuid(uuid) && sent.message_id@ == tool::client_id(uuid);
            assert(is_made_from(sent.message_id@, uuid));
        },
        Err(MailError::Unsendable(reason)) => {
            let id = choose|id: Seq<char>| #[trigger]
                tool::is_client_id(id) && compose::email_shape(
                    config.from_address@,
                    to,
                    subject,
                    body,
                    id,
                ) == Err::<compose::EmailShape, Seq<char>>(reason@);
            let uuid = choose|uuid: Seq<char>| #[trigger]
                identifier::is_uuid(uuid) && id == tool::client_id(uuid);
            assert(is_made_from(id, uuid));
        },
        _ => {},
    }
}

/// A send that lacks an argument is refused, and the first that it lacks is named.
pub proof fn law_send_names_what_is_missing(
    config: EmailConfig,
    args: json::Json,
    now: u64,
    r: Result<MailStep, MailError>,
)
    requires
        tool::may_execute(config, args, now, r),
        json::text_field(args, "action"@) == Some("send"@),
    ensures
        ({
            let to = json::text_field(args, "to"@);
            let subject = json::text_field(args, "subject"@);
            let body = json::text_field(args, "body"@);
            &&& to is None ==> misses(r, "to"@)
            &&& to is Some && subject is None ==> misses(r, "subject"@)
            &&& to is Some && subject is Some && body is None ==> misses(r, "body"@)
        }),
{
}

/// What is reported of a sent message tells from whom it is, its identifier, its recipient, its
/// subject and its time, each whole.
pub proof fn law_report_tells_of_the_message(
    from: Seq<char>,
    message_id: Seq<char>,
    to: Seq<char>,
    subject: Seq<char>,
    timestamp: u64,
)
    ensures
        ({
            let document = tool::sent_json(from, message_id, to, subject, timestamp);
            &&& document is Object && document->Object_0.len() == 5
            &&& json::field_of(document, "from"@) == Some(json::Json::Text(from))
            &&& json::field_of(document, "message_id"@) == Some(json::Json::Text(message_id))
            &&& json::field_of(document, "subject"@) == Some(json::Json::Text(subject))
            &&& json::field_of(document, "timestamp"@) == Some(json::Json::Unsigned(timestamp))
            &&& json::field_of(document, "to"@) == Some(
                json::Json::List(seq![json::Json::Text(to)]),
            )
        }),
{
    let f = tool::sent_json(from, message_id, to, subject, timestamp)->Object_0;
    record::lemma_record_keys();
    assert forall|i: int| 0 <= i < 5 implies json::field_of(
        json::Json::Object(f),
        (#[trigger] f[i]).0,
    ) == Some(f[i].1) by {
        json::law_field_is_found_by_name(f, f[i].0);
    }
    assert(f[0].0 == "from"@ && f[1].0 == "message_id"@ && f[2].0 == "subject"@);
    assert(f[3].0 == "timestamp"@ && f[4].0 == "to"@);
    assert(f[4].1->List_0 =~= seq![json::Json::Text(to)]);
}

/// A success has the printed document as its output, whole, and no error; a failure has no output
/// and the whole reason as its error. A result says all that its fields hold.
pub proof fn law_results_are_whole(
    document: json::Json,
    reason: Seq<char>,
    result: result::ToolResult,
)
    ensures
        ({
            let done = result::succeeded(document);
            &&& done.success && done.error is None
            &&& json::pretty_text(document) matches Some(text) ==> done.output == text
        }),
        ({
            let failed = result::failed(reason);
            !failed.success && failed.output.len() == 0 && failed.error == Some(reason)
        }),
        result@.success == result.success,
        result@.output == result.output@,
        result.error is None <==> result@.error is None,
        result.error matches Some(text) ==> result@.error == Some(text@),
{
}

/// Whether `answer` succeeds with the document, printed.
pub open spec fn succeeds_with(answer: result::ResultView, document: json::Json) -> bool {
    &&& answer.success
    &&& answer.error is None
    &&& json::pretty_text(document) is Some ==> answer.output == json::pretty_text(document)->0
}

/// Whether `answer` fails for the reason.
pub open spec fn fails_for(answer: result::ResultView, reason: Seq<char>) -> bool {
    &&& !answer.success
    &&& answer.output.len() == 0
    &&& answer.error == Some(reason)
}

/// Whether `sorted` holds the records with the newest first, those of one time in the order in which
/// they came.
pub open spec fn is_sorted_from(
    records: Seq<record::RecordView>,
    sorted: Seq<record::RecordView>,
) -> bool {
    &&& sorted.len() == records.len()
    &&& sorted.to_multiset() == records.to_multiset()
    &&& forall|i: int, j: int|
        0 <= i < j < sorted.len() ==> (#[trigger] sorted[i]).timestamp >= (
        #[trigger] sorted[j]).timestamp
    &&& forall|time: u64|
        record::of_time(sorted, time) == #[trigger] record::of_time(records, time)
}

/// Sorting leaves exactly the records, the newest first, those of one time in their order.
pub proof fn law_records_are_sorted_whole(records: Seq<record::RecordView>)
    ensures
        is_sorted_from(records, record::newest_first(records)),
{
    let sorted = record::newest_first(records);
    record::law_sorted_is_newest_first(records);
    record::law_sorting_keeps_records(records);
    assert forall|time: u64|
        record::of_time(sorted, time) == #[trigger] record::of_time(records, time) by {
        record::law_sorting_is_stable(records, time);
    }
}

/// A listing shows, newest first, as many of the messages of all folders as the limit says, and all
/// of them where there are no more.
pub proof fn law_listing_shows_all_up_to_the_limit(
    config: EmailConfig,
    args: json::Json,
    now: u64,
    r: Result<MailStep, MailError>,
    limit: nat,
    batches: Seq<Option<Seq<record::RecordView>>>,
) -> (shown: (Seq<record::RecordView>, Seq<record::RecordView>))
    requires
        tool::may_execute(config, args, now, r),
        json::text_field(args, "action"@) == Some("list_recent"@),
        json::unsigned_field(args, "limit"@) is None ==> limit == 10,
        json::unsigned_field(args, "limit"@) matches Some(n) ==> (n <= usize::MAX ==> limit == n)
            && (n > usize::MAX ==> limit == usize::MAX),
        r matches Ok(MailStep::Scan(s)) ==> batches.len() == s@.folders.len(),
    ensures
        is_sorted_from(laws::all_records(batches), shown.0),
        shown.0.len() <= limit ==> shown.1.len() == shown.0.len(),
        shown.0.len() > limit ==> shown.1.len() == limit,
        forall|i: int| 0 <= i < shown.1.len() ==> #[trigger] shown.1[i] == shown.0[i],
        r matches Ok(MailStep::Scan(s)) && laws::run(s@, batches) is Some && succeeds_with(
            laws::run(s@, batches)->0,
            record::records_json(shown.1),
        ),
{
    law_listing_is_started(config, args, now, r, limit);
    let s = r->Ok_0->Scan_0@;
    let all = laws::all_records(batches);
    assert(s.folders.contains("Sent"@));
    laws::law_listing_shows_newest_of_all_folders(s, batches);
    assert(s.collected + all =~= all);
    law_records_are_sorted_whole(all);
    let sorted = record::newest_first(all);
    (sorted, scan::limited(sorted, limit))
}

/// The first match is the record at the first place that matches.
proof fn lemma_first_match_has_a_place(query: scan::QueryView, records: Seq<record::RecordView>)
    ensures
        scan::first_match(query, records) matches Some(r) ==> exists|i: int|
            0 <= i < records.len() && #[trigger] records[i] == r && scan::matches_query(
                query,
                records[i],
            ) && forall|j: int|
                0 <= j < i ==> !scan::matches_query(query, #[trigger] records[j]),
        scan::first_match(query, records) is None ==> forall|j: int|
            0 <= j < records.len() ==> !scan::matches_query(query, #[trigger] records[j]),
    decreases records.len(),
{
    if records.len() > 0 {
        let rest = records.drop_first();
        lemma_first_match_has_a_place(query, rest);
        if scan::matches_query(query, records[0]) {
            assert(records[0] == scan::first_match(query, records)->0);
        } else if scan::first_match(query, records) is Some {
            let k = choose|i: int|
                0 <= i < rest.len() && #[trigger] rest[i] == scan::first_match(query, rest)->0
                    && scan::matches_query(query, rest[i]) && forall|j: int|
                    0 <= j < i ==> !scan::matches_query(query, #[trigger] rest[j]);
            assert(records[k + 1] == rest[k]);
            assert forall|j: int| 0 <= j < k + 1 implies !scan::matches_query(
                query,
                #[trigger] records[j],
            ) by {
                if j > 0 {
                    assert(rest[j - 1] == records[j]);
                }
            }
        } else {
            assert forall|j: int| 0 <= j < records.len() implies !scan::matches_query(
                query,
                #[trigger] records[j],
            ) by {
                if j > 0 {
                    assert(rest[j - 1] == records[j]);
                }
            }
        }
    }
}

/// Whether the record at the place `i` is the first with this whole identifier, but for case.
pub open spec fn is_first_with_identifier(
    records: Seq<record::RecordView>,
    id: Seq<char>,
    i: int,
) -> bool {
    &&& 0 <= i < records.len()
    &&& text_laws::is_same_but_for_case(records[i].message_id, id)
    &&& forall|j: int|
        0 <= j < i ==> !text_laws::is_same_but_for_case((#[trigger] records[j]).message_id, id)
}

/// A lookup by identifier answers with the first message of all folders whose identifier is the
/// whole of the one asked for, letter by letter but for case; where there is none, it says so.
pub proof fn law_get_answers_with_that_message(
    config: EmailConfig,
    args: json::Json,
    now: u64,
    r: Result<MailStep, MailError>,
    id: Seq<char>,
    batches: Seq<Option<Seq<record::RecordView>>>,
)
    requires
        tool::may_execute(config, args, now, r),
        json::text_field(args, "action"@) == Some("get"@),
        json::text_field(args, "message_id"@) == Some(id),
        r matches Ok(MailStep::Scan(s)) ==> batches.len() == s@.folders.len(),
    ensures
        r matches Ok(MailStep::Scan(s)) && (laws::run(s@, batches) matches Some(answer) && {
            let all = laws::all_records(batches);
            &&& answer.success ==> exists|i: int| #[trigger]
                is_first_with_identifier(all, id, i) && succeeds_with(
                    answer,
                    record::record_json(all[i]),
                )
            &&& !answer.success ==> fails_for(answer, "Message not found: "@ + id) && forall|i: int|
                0 <= i < all.len() ==> !text_laws::is_same_but_for_case(
                    (#[trigger] all[i]).message_id,
                    id,
                )
        }),
{
    law_get_is_started(config, args, now, r);
    let s = r->Ok_0->Scan_0@;
    let all = laws::all_records(batches);
    assert(s.folders.contains("Sent"@));
    laws::law_lookup_answers_with_first_match(s, batches);
    lemma_first_match_has_a_place(s.query, all);
    assert forall|i: int| 0 <= i < all.len() implies (scan::matches_query(s.query, #[trigger] all[i])
        <==> text_laws::is_same_but_for_case(all[i].message_id, id)) by {
        text_laws::law_lower_case_compares_letter_by_letter(all[i].message_id, id);
    }
    if scan::first_match(s.query, all) is Some {
        let i = choose|i: int|
            0 <= i < all.len() && #[trigger] all[i] == scan::first_match(s.query, all)->0
                && scan::matches_query(s.query, all[i]) && forall|j: int|
                0 <= j < i ==> !scan::matches_query(s.query, #[trigger] all[j]);
        assert(is_first_with_identifier(all, id, i));
    }
}

/// Whether a message is proof of what was asked for at the time `now`: it is no more than fifteen
/// minutes old, and has the identifier, the subject and the recipient, as far as they were given.
pub open spec fn is_proof_of(
    r: record::RecordView,
    now: u64,
    message_id: Option<Seq<char>>,
    subject: Option<Seq<char>>,
    to: Option<Seq<char>>,
) -> bool {
    &&& r.timestamp + 900 >= now
    &&& message_id is Some ==> text_laws::is_same_but_for_case(
        identifier::bare(r.message_id),
        identifier::bare(message_id->0),
    )
    &&& subject is Some ==> r.subject == subject->0
    &&& to is Some ==> exists|i: int|
        0 <= i < r.to.len() && text_laws::is_same_but_for_case(#[trigger] r.to[i], to->0)
}

/// Whether the record at the place `i` is the first that is proof of what was asked for.
pub open spec fn is_first_proof(
    records: Seq<record::RecordView>,
    now: u64,
    message_id: Option<Seq<char>>,
    subject: Option<Seq<char>>,
    to: Option<Seq<char>>,
    i: int,
) -> bool {
    &&& 0 <= i < records.len()
    &&& is_proof_of(records[i], now, message_id, subject, to)
    &&& forall|j: int|
        0 <= j < i ==> !is_proof_of(#[trigger] records[j], now, message_id, subject, to)
}

/// A message is accepted exactly where it is proof of what was asked for, whichever of the
/// identifier, the subject and the recipient were given.
proof fn lemma_accepted_iff_proof(
    r: record::RecordView,
    now: u64,
    attempt_id: Seq<char>,
    message_id: Option<Seq<char>>,
    subject: Option<Seq<char>>,
    to: Option<Seq<char>>,
    cutoff: u64,
)
    requires
        now >= 900 ==> cutoff == now - 900,
        now < 900 ==> cutoff == 0,
    ensures
        scan::matches_query(
            (scan::QueryView::VerifySent { attempt_id, message_id, subject, to, cutoff }),
            r,
        ) <==> is_proof_of(r, now, message_id, subject, to),
{
    if message_id is Some {
        reading_laws::law_identifiers_are_compared_whole(r.message_id, message_id->0);
    }
    if to is Some {
        let address = to->0;
        assert forall|i: int| 0 <= i < r.to.len() implies (chars::ascii_lower(#[trigger] r.to[i])
            == chars::ascii_lower(address) <==> text_laws::is_same_but_for_case(r.to[i], address)) by {
            text_laws::law_lower_case_compares_letter_by_letter(r.to[i], address);
        }
        if scan::is_recipient(r.to, address) {
            let i = choose|i: int|
                0 <= i < r.to.len() && chars::ascii_lower(#[trigger] r.to[i])
                    == chars::ascii_lower(address);
            assert(text_laws::is_same_but_for_case(r.to[i], address));
        }
        if exists|i: int|
            0 <= i < r.to.len() && text_laws::is_same_but_for_case(#[trigger] r.to[i], address) {
            let i = choose|i: int|
                0 <= i < r.to.len() && text_laws::is_same_but_for_case(#[trigger] r.to[i], address);
            assert(chars::ascii_lower(r.to[i]) == chars::ascii_lower(address));
        }
    }
}

/// Verification succeeds exactly where a message of the folders is proof of what was asked for,
/// whichever of the identifier, the subject and the recipient were given, and answers with the first
/// such message; where there is none, it fails.
pub proof fn law_verification_succeeds_iff_there_is_proof(
    config: EmailConfig,
    args: json::Json,
    now: u64,
    r: Result<MailStep, MailError>,
    attempt_id: Seq<char>,
    batches: Seq<Option<Seq<record::RecordView>>>,
)
    requires
        tool::may_execute(config, args, now, r),
        json::text_field(args, "action"@) == Some("verify_sent"@),
        json::text_field(args, "attempt_id"@) == Some(attempt_id),
        r matches Ok(MailStep::Scan(s)) ==> batches.len() == s@.folders.len(),
    ensures
        r matches Ok(MailStep::Scan(s)) && (laws::run(s@, batches) matches Some(answer) && {
            let all = laws::all_records(batches);
            let id = json::text_field(args, "message_id"@);
            let subject = json::text_field(args, "subject"@);
            let to = json::text_field(args, "to"@);
            &&& answer.success ==> exists|i: int| #[trigger]
                is_first_proof(all, now, id, subject, to, i) && succeeds_with(
                    answer,
                    scan::verified_json(attempt_id, all[i]),
                )
            &&& !answer.success ==> fails_for(
                answer,
                "Unable to verify a fresh sent message for this attempt"@,
            ) && forall|i: int|
                0 <= i < all.len() ==> !is_proof_of(#[trigger] all[i], now, id, subject, to)
        }),
{
    let cutoff = if now >= 900 {
        (now - 900) as u64
    } else {
        0
    };
    law_verification_is_started(config, args, now, r, cutoff);
    let s = r->Ok_0->Scan_0@;
    let all = laws::all_records(batches);
    let id = json::text_field(args, "message_id"@);
    let subject = json::text_field(args, "subject"@);
    let to = json::text_field(args, "to"@);
    assert(s.folders.contains("Sent"@));
    laws::law_lookup_answers_with_first_match(s, batches);
    lemma_first_match_has_a_place(s.query, all);
    assert forall|i: int| 0 <= i < all.len() implies (scan::matches_query(s.query, #[trigger] all[i])
        <==> is_proof_of(all[i], now, id, subject, to)) by {
        lemma_accepted_iff_proof(all[i], now, attempt_id, id, subject, to, cutoff);
    }
    if scan::first_match(s.query, all) is Some {
        let i = choose|i: int|
            0 <= i < all.len() && #[trigger] all[i] == scan::first_match(s.query, all)->0
                && scan::matches_query(s.query, all[i]) && forall|j: int|
                0 <= j < i ==> !scan::matches_query(s.query, #[trigger] all[j]);
        assert(is_first_proof(all, now, id, subject, to, i));
    }
}

/// What is answered of a verified message says that it is verified, tells of it, and carries the
/// proof: the attempt, the identifier of the message, and that it is fresh and ends the run.
pub proof fn law_verified_answer_carries_message_and_proof(
    attempt_id: Seq<char>,
    r: record::RecordView,
)
    ensures
        ({
            let document = scan::verified_json(attempt_id, r);
            let shown = json::field_of(document, "message"@);
            let signal = json::field_of(document, "proof"@);
            &&& document is Object && document->Object_0.len() == 3
            &&& json::field_of(document, "verified"@) == Some(json::Json::Bool(true))
            &&& shown is Some && reading_laws::tells_of(shown->0, r)
            &&& signal is Some && signal->0 is Object && signal->0->Object_0.len() == 5
            &&& json::field_of(signal->0, "attempt_id"@) == Some(json::Json::Text(attempt_id))
            &&& json::field_of(signal->0, "artifact_id"@) == Some(json::Json::Text(r.message_id))
            &&& json::field_of(signal->0, "fresh"@) == Some(json::Json::Bool(true))
            &&& json::field_of(signal->0, "terminal"@) == Some(json::Json::Bool(true))
            &&& json::field_of(signal->0, "summary"@) == Some(
                json::Json::Text("Fresh email verification succeeded. Stop and report success."@),
            )
        }),
{
    let f = scan::verified_json(attempt_id, r)->Object_0;
    let g = scan::proof_json(attempt_id, r.message_id)->Object_0;
    scan::lemma_proof_keys();
    reveal_strlit("message");
    reveal_strlit("proof");
    reveal_strlit("verified");
    assert("message"@.len() == 7);
    assert("proof"@.len() == 5);
    assert("verified"@.len() == 8);
    reading_laws::law_shown_message_tells_its_record(r, Seq::empty());
    assert forall|i: int| 0 <= i < 3 implies json::field_of(
        json::Json::Object(f),
        (#[trigger] f[i]).0,
    ) == Some(f[i].1) by {
        json::law_field_is_found_by_name(f, f[i].0);
    }
    assert forall|i: int| 0 <= i < 5 implies json::field_of(
        json::Json::Object(g),
        (#[trigger] g[i]).0,
    ) == Some(g[i].1) by {
        json::law_field_is_found_by_name(g, g[i].0);
    }
    assert(f[0].0 == "message"@ && f[1].0 == "proof"@ && f[2].0 == "verified"@);
    assert(g[0].0 == "artifact_id"@ && g[1].0 == "attempt_id"@ && g[2].0 == "fresh"@);
    assert(g[3].0 == "summary"@ && g[4].0 == "terminal"@);
}

/// Of a folder as many messages are fetched as a listing is to show, and twenty-five to look for one.
pub proof fn law_lookups_fetch_twenty_five(query: scan::QueryView)
    ensures
        query matches scan::QueryView::ListRecent { limit } ==> scan::fetch_limit(query) == limit,
        !(query is ListRecent) ==> scan::fetch_limit(query) == 25,
{
}

/// The messages of a folder are taken in whole, one for one, and none where they could not be
/// fetched; a query says all that its fields hold.
pub proof fn law_batches_and_queries_are_taken_whole(
    records: Vec<MailRecord>,
    limit: usize,
    id: String,
    attempt: String,
    message_id: Option<String>,
    subject: Option<String>,
    to: Option<String>,
    cutoff: u64,
)
    ensures
        scan::batch_view(None) is None,
        scan::batch_view(Some(records)) matches Some(views) && views.len() == records@.len()
            && forall|i: int| 0 <= i < records@.len() ==> #[trigger] views[i] == records@[i]@,
        (MailQuery::ListRecent { limit })@ == (scan::QueryView::ListRecent { limit: limit as nat }),
        (MailQuery::Get { message_id: id })@ == (scan::QueryView::Get { message_id: id@ }),
        (MailQuery::VerifySent { attempt_id: attempt, message_id, subject, to, cutoff })@ == (
        scan::QueryView::VerifySent {
            attempt_id: attempt@,
            message_id: chars::string_option(message_id),
            subject: chars::string_option(subject),
            to: chars::string_option(to),
            cutoff,
        }),
        MailError::MissingArgument(id).text() == "Missing '"@ + id@ + "'"@,
        MailError::Unsendable(id).text() == id@,
{
}

} // verus!
