//! Laws of the mail tool's functions, and of a use of the tool from its arguments to its answer.
use crate::json;
use crate::text::chars;
use crate::text::decimal;
use crate::text::laws as text_laws;
use crate::text::words;
use crate::tools::mail::action_laws;
use crate::tools::mail::calendar;
use crate::tools::mail::calendar::MailDate;
use crate::tools::mail::compose;
use crate::tools::mail::identifier;
use crate::tools::mail::laws;
use crate::tools::mail::listing;
use crate::tools::mail::message;
use crate::tools::mail::message::{MailContent, MailHeaders};
use crate::tools::mail::reading_laws;
use crate::tools::mail::record;
use crate::tools::mail::record::MailRecord;
use crate::tools::mail::result;
use crate::tools::mail::result::ToolResult;
use crate::tools::mail::scan;
use crate::tools::mail::scan::{MailQuery, MailScan, ScanStep};
use crate::tools::mail::tool;
use crate::tools::mail::tool::{EmailConfig, MailError, MailStep, MailTool, OutgoingMail};
use vstd::prelude::*;

verus! {

/// A message has the seconds since 1970 of its date, where that exists and is no earlier.
pub proof fn law_timestamp(date: Option<MailDate>, r: u64)
    requires
        call_ensures(calendar::timestamp, (date,), r),
    ensures
        date is None ==> r == 0,
        date matches Some(d) && reading_laws::has_day(d.year, d.month, d.day) && d.hour <= 23
            && d.minute <= 59 && d.second <= 59 && calendar::epoch_seconds(d) >= 0 ==> r
            == calendar::epoch_seconds(date->0),
        date matches Some(d) && !(reading_laws::has_day(d.year, d.month, d.day) && d.hour <= 23
            && d.minute <= 59 && d.second <= 59 && calendar::epoch_seconds(d) >= 0) ==> r == 0,
{
    if date is Some {
        reading_laws::law_dates_exist_as_in_the_calendar(date->0);
    }
}

/// A pair of angle brackets is taken off an identifier, and identifiers are compared whole without
/// them, letter by letter but for case.
pub proof fn law_identifiers(a: &str, b: &str, inner: Seq<char>, bare: &str, same: bool)
    requires
        call_ensures(identifier::without_brackets, (a,), bare),
        call_ensures(identifier::same_identifier, (a, b), same),
    ensures
        a@ == seq!['<'] + inner + seq!['>'] ==> bare@ == inner,
        a@.len() < 2 || a@[0] != '<' || a@[a@.len() - 1] != '>' ==> bare@ == a@,
        same <==> text_laws::is_same_but_for_case(identifier::bare(a@), identifier::bare(b@)),
{
    reading_laws::law_brackets_come_in_pairs(inner);
    reading_laws::law_brackets_come_in_pairs(a@);
    reading_laws::law_identifiers_are_compared_whole(a@, b@);
}

/// Whether `asked` are the greatest of the numbers, in ascending order: as many as the limit says,
/// one where it says none, or all where there are fewer.
pub open spec fn are_the_greatest(uids: Seq<u32>, limit: nat, sorted: Seq<u32>, asked: Seq<u32>) -> bool {
    let most = if limit == 0 {
        1
    } else {
        limit
    };
    &&& sorted.len() == uids.len()
    &&& sorted.to_multiset() == uids.to_multiset()
    &&& forall|i: int, j: int| 0 <= i < j < sorted.len() ==> sorted[i] <= sorted[j]
    &&& uids.len() <= most ==> asked.len() == uids.len()
    &&& uids.len() > most ==> asked.len() == most
    &&& forall|i: int|
        0 <= i < asked.len() ==> #[trigger] asked[i] == sorted[i + uids.len() - asked.len()]
}

/// The greatest numbers are selected, and asked for in decimal with commas between them; nothing is
/// asked for exactly where there are none.
pub proof fn law_selection(
    uids: Vec<u32>,
    limit: usize,
    selected: Vec<u32>,
    text: String,
    request: Option<String>,
) -> (sorted: Seq<u32>)
    requires
        call_ensures(listing::select_recent, (uids, limit), selected),
        call_ensures(listing::render_uid_set, (&selected,), text),
        call_ensures(listing::fetch_request, (uids, limit), request),
    ensures
        are_the_greatest(uids@, limit as nat, sorted, selected@),
        text@ == words::joined(
            selected@.map_values(|n: u32| decimal::decimal(n as nat)),
            seq![','],
        ),
        request is None <==> uids@.len() == 0,
        request matches Some(t) ==> t@ == text@,
{
    reveal_strlit(",");
    assert(","@ =~= seq![',']);
    assert(listing::numerals(selected@) =~= selected@.map_values(
        |n: u32| decimal::decimal(n as nat),
    ));
    reading_laws::law_greatest_numbers_are_asked_for(uids@, limit as nat)
}

/// The preview of a message is its text, whole; without one the start of the words of its HTML;
/// without that the start of the first attachment that is readable text.
pub proof fn law_extract_text(content: &MailContent, i: int, r: String)
    requires
        call_ensures(message::extract_text, (content,), r),
    ensures
        content.text matches Some(text) ==> r@ == text@,
        content.text is None && content.html is Some ==> ({
            let all = words::joined(words::words(content.html->0@), seq![' ']);
            &&& all.len() <= 400 ==> r@ == all
            &&& all.len() > 400 ==> r@ == all.subrange(0, 400)
        }),
        content.text is None && content.html is None && 0 <= i < content.attachments@.len() && (
        forall|j: int| 0 <= j < i ==> !is_text(#[trigger] content.attachments@[j])) && is_text(
            content.attachments@[i],
        ) ==> ({
            let all = vstd::utf8::decode_utf8(content.attachments@[i].contents@);
            &&& all.len() <= 400 ==> r@ == all
            &&& all.len() > 400 ==> r@ == all.subrange(0, 400)
        }),
        content.text is None && content.html is None && (forall|j: int|
            0 <= j < content.attachments@.len() ==> !is_text(#[trigger] content.attachments@[j]))
            ==> r@.len() == 0,
{
    let view = content@;
    let n = content.attachments@.len();
    reading_laws::law_preview_is_the_text(view);
    assert(forall|j: int|
        0 <= j < n ==> (#[trigger] view.attachments[j]) == content.attachments@[j]@);
    if content.text is None && content.html is None {
        if 0 <= i < n && (forall|j: int| 0 <= j < i ==> !is_text(#[trigger] content.attachments@[j])) {
            assert forall|j: int| 0 <= j < i implies (#[trigger] view.attachments[j]).main_type
                != Some("text"@) || !vstd::utf8::valid_utf8(view.attachments[j].contents) by {
                assert(!is_text(content.attachments@[j]));
            }
            reading_laws::law_preview_falls_back_to_an_attachment(view, i);
        }
        if forall|j: int| 0 <= j < n ==> !is_text(#[trigger] content.attachments@[j]) {
            assert forall|j: int| 0 <= j < n implies (#[trigger] view.attachments[j]).main_type
                != Some("text"@) || !vstd::utf8::valid_utf8(view.attachments[j].contents) by {
                assert(!is_text(content.attachments@[j]));
            }
            reading_laws::law_preview_falls_back_to_an_attachment(view, n as int);
        }
    }
}

/// Whether an attachment is marked as text and is valid UTF-8.
pub open spec fn is_text(a: message::MailAttachment) -> bool {
    a.main_type is Some && a.main_type->0@ == "text"@ && vstd::utf8::valid_utf8(a.contents@)
}

/// Whether `r` keeps all that headers and a body say, with a stand-in for what they do not.
pub open spec fn keeps(
    r: MailRecord,
    folder: Seq<char>,
    headers: message::HeadersView,
    content: message::ContentView,
    fresh: Seq<char>,
) -> bool {
    &&& r.folder@ == folder
    &&& headers.message_id is Some ==> r.message_id@ == headers.message_id->0
    &&& headers.message_id is None ==> r.message_id@ == "generated-"@ + fresh
    &&& headers.from is Some && headers.from->0.len() > 0 && headers.from->0[0] is Some ==> r.from@
        == headers.from->0[0]->0
    &&& !(headers.from is Some && headers.from->0.len() > 0 && headers.from->0[0] is Some)
        ==> r.from@ == "unknown"@
    &&& r.to@.map_values(|t: String| t@) == message::recipients(headers.to)
    &&& headers.subject is Some ==> r.subject@ == headers.subject->0
    &&& headers.subject is None ==> r.subject@ == "(no subject)"@
    &&& r.timestamp == calendar::message_time(headers.date)
    &&& r.body_preview@ == message::preview(content)
}

proof fn lemma_keeps(
    r: MailRecord,
    folder: Seq<char>,
    headers: message::HeadersView,
    content: message::ContentView,
    fresh: Seq<char>,
)
    requires
        r@ == message::record_of(folder, headers, content, fresh),
    ensures
        keeps(r, folder, headers, content, fresh),
{
    reading_laws::law_record_keeps_what_the_message_says(folder, headers, content, fresh);
    assert(r.to@.map_values(|t: String| t@) =~= r@.to);
}

/// A record keeps all that headers and a body say. A message is kept exactly where its bytes read as
/// one.
pub proof fn law_records(
    folder: &str,
    headers: &MailHeaders,
    content: &MailContent,
    fresh: &str,
    built: MailRecord,
    raw: &[u8],
    kept: Option<MailRecord>,
    none: Option<MailRecord>,
)
    requires
        call_ensures(message::build_record, (folder, headers, content, fresh), built),
        call_ensures(message::parse_fetch, (folder, Some(raw)), kept),
        call_ensures(message::parse_fetch, (folder, None::<&[u8]>), none),
    ensures
        keeps(built, folder@, headers@, content@, fresh@),
        kept is Some <==> message::parsed_headers(raw@) is Some && message::parsed_content(
            raw@,
        ) is Some,
        kept matches Some(r) ==> exists|id: Seq<char>| #[trigger]
            identifier::is_uuid(id) && keeps(
                r,
                folder@,
                message::parsed_headers(raw@)->0,
                message::parsed_content(raw@)->0,
                id,
            ),
        none is None,
{
    lemma_keeps(built, folder@, headers@, content@, fresh@);
    if kept is Some {
        let id = choose|id: Seq<char>|
            #[trigger] identifier::is_uuid(id) && message::fetched_record(
                folder@,
                Some(raw@),
                id,
            ) == Some(kept->0@);
        lemma_keeps(
            kept->0,
            folder@,
            message::parsed_headers(raw@)->0,
            message::parsed_content(raw@)->0,
            id,
        );
    }
}

/// Whether the bytes of a message read as one.
pub open spec fn is_readable(body: Option<Vec<u8>>) -> bool {
    body is Some && message::parsed_headers(body->0@) is Some && message::parsed_content(
        body->0@,
    ) is Some
}

/// How many of the first `n` messages read as such.
pub open spec fn readable_before(bodies: Seq<Option<Vec<u8>>>, n: int) -> int
    decreases n,
{
    if n <= 0 {
        0
    } else {
        readable_before(bodies, n - 1) + if is_readable(bodies[n - 1]) {
            1int
        } else {
            0int
        }
    }
}

/// Every message that reads as one is kept, at the place of its turn, and no other is.
pub proof fn law_parse_fetches(
    folder: &str,
    bodies: &Vec<Option<Vec<u8>>>,
    r: Vec<MailRecord>,
    i: int,
)
    requires
        call_ensures(message::parse_fetches, (folder, bodies), r),
        0 <= i < bodies@.len(),
    ensures
        r@.len() == readable_before(bodies@, bodies@.len() as int),
        is_readable(bodies@[i]) ==> 0 <= readable_before(bodies@, i) < r@.len() && exists|
            id: Seq<char>,
        | #[trigger]
            identifier::is_uuid(id) && keeps(
                r@[readable_before(bodies@, i)],
                folder@,
                message::parsed_headers(bodies@[i]->0@)->0,
                message::parsed_content(bodies@[i]->0@)->0,
                id,
            ),
{
    let fresh = choose|fresh: Seq<Seq<char>>|
        {
            &&& fresh.len() == bodies@.len()
            &&& forall|i: int| 0 <= i < fresh.len() ==> identifier::is_uuid(#[trigger] fresh[i])
            &&& record::record_views(r@) == #[trigger] message::fetched_records(
                folder@,
                bodies@,
                fresh,
            )
        };
    let all = message::fetched_records(folder@, bodies@, fresh);
    lemma_fetched(folder@, bodies@, fresh, i);
    assert(all.len() == r@.len());
    if is_readable(bodies@[i]) {
        let k = readable_before(bodies@, i);
        assert(all[k] == r@[k]@);
        assert(identifier::is_uuid(fresh[i]));
        lemma_keeps(
            r@[k],
            folder@,
            message::parsed_headers(bodies@[i]->0@)->0,
            message::parsed_content(bodies@[i]->0@)->0,
            fresh[i],
        );
    }
}

proof fn lemma_fetched(
    folder: Seq<char>,
    bodies: Seq<Option<Vec<u8>>>,
    fresh: Seq<Seq<char>>,
    i: int,
)
    requires
        fresh.len() == bodies.len(),
        0 <= i <= bodies.len(),
    ensures
        message::fetched_records(folder, bodies, fresh).len() == readable_before(
            bodies,
            bodies.len() as int,
        ),
        i < bodies.len() && is_readable(bodies[i]) ==> 0 <= readable_before(bodies, i)
            < message::fetched_records(folder, bodies, fresh).len() && message::fetched_records(
            folder,
            bodies,
            fresh,
        )[readable_before(bodies, i)] == message::record_of(
            folder,
            message::parsed_headers(bodies[i]->0@)->0,
            message::parsed_content(bodies[i]->0@)->0,
            fresh[i],
        ),
    decreases bodies.len(),
{
    if bodies.len() > 0 {
        let n = bodies.len() - 1;
        let before = bodies.drop_last();
        lemma_fetched(folder, before, fresh.drop_last(), if i < n { i } else { 0 });
        lemma_readable_before_prefix(bodies, n);
        if i < n {
            lemma_readable_before_prefix(bodies, i);
        }
    }
}

proof fn lemma_readable_before_prefix(bodies: Seq<Option<Vec<u8>>>, n: int)
    requires
        bodies.len() > 0,
        0 <= n < bodies.len(),
    ensures
        readable_before(bodies.drop_last(), n) == readable_before(bodies, n),
        readable_before(bodies, n) >= 0,
    decreases n,
{
    if n > 0 {
        lemma_readable_before_prefix(bodies, n - 1);
    }
}

/// Records are sorted whole, the newest first; what is shown of a record tells all that it holds.
pub proof fn law_sorting_and_showing(
    records: Vec<MailRecord>,
    sorted: Vec<MailRecord>,
    r: &MailRecord,
    one: serde_json::Value,
    other: serde_json::Value,
    list: serde_json::Value,
)
    requires
        call_ensures(record::sort_newest_first, (records,), sorted),
        call_ensures(record::record_value, (r,), one),
        call_ensures(record::sorted_record_value, (r,), other),
        call_ensures(record::records_value, (&records,), list),
    ensures
        action_laws::is_sorted_from(
            record::record_views(records@),
            record::record_views(sorted@),
        ),
        reading_laws::tells_of(json::json_of(one), r@),
        reading_laws::tells_of(json::json_of(other), r@),
        json::json_of(list) matches json::Json::List(items) && items.len() == records@.len()
            && forall|i: int|
            0 <= i < records@.len() ==> reading_laws::tells_of(#[trigger] items[i], records@[i]@),
{
    action_laws::law_records_are_sorted_whole(record::record_views(records@));
    reading_laws::law_shown_message_tells_its_record(r@, record::record_views(records@));
    let items = json::json_of(list)->List_0;
    assert forall|i: int| 0 <= i < records@.len() implies reading_laws::tells_of(
        #[trigger] items[i],
        records@[i]@,
    ) by {
        reading_laws::law_shown_message_tells_its_record(records@[i]@, Seq::empty());
        assert(items[i] == record::record_json(record::record_views(records@)[i]));
    }
}

/// A lookup by identifier accepts exactly the messages with the whole of it, letter by letter but for
/// case. A listing looks for none.
pub proof fn law_get_and_list_accept(
    id: String,
    limit: usize,
    r: &MailRecord,
    got: bool,
    listed: bool,
)
    requires
        call_ensures(MailQuery::accepts, (&(MailQuery::Get { message_id: id }), r), got),
        call_ensures(MailQuery::accepts, (&(MailQuery::ListRecent { limit }), r), listed),
    ensures
        got <==> text_laws::is_same_but_for_case(r.message_id@, id@),
        !listed,
{
    text_laws::law_lower_case_compares_letter_by_letter(r.message_id@, id@);
}

/// A verification accepts exactly the messages that are no older than the cutoff and have the
/// identifier, the subject and the recipient, as far as these are given, whichever of them are.
pub proof fn law_verification_accepts(
    attempt_id: String,
    message_id: Option<String>,
    subject: Option<String>,
    to: Option<String>,
    cutoff: u64,
    r: &MailRecord,
    accepted: bool,
)
    requires
        call_ensures(
            MailQuery::accepts,
            (&(MailQuery::VerifySent { attempt_id, message_id, subject, to, cutoff }), r),
            accepted,
        ),
    ensures
        accepted <==> {
            &&& r.timestamp >= cutoff
            &&& message_id is Some ==> text_laws::is_same_but_for_case(
                identifier::bare(r.message_id@),
                identifier::bare(message_id->0@),
            )
            &&& subject is Some ==> r.subject@ == subject->0@
            &&& to is Some ==> exists|i: int|
                0 <= i < r.to@.len() && text_laws::is_same_but_for_case(
                    (#[trigger] r.to@[i])@,
                    to->0@,
                )
        },
{
    if message_id is Some {
        reading_laws::law_identifiers_are_compared_whole(r.message_id@, message_id->0@);
    }
    if to is Some {
        let address = to->0@;
        assert forall|i: int| 0 <= i < r.to@.len() implies (chars::ascii_lower(r@.to[i])
            == chars::ascii_lower(address) <==> text_laws::is_same_but_for_case(
            (#[trigger] r.to@[i])@,
            address,
        )) by {
            text_laws::law_lower_case_compares_letter_by_letter(r.to@[i]@, address);
        }
        if scan::is_recipient(r@.to, address) {
            let i = choose|i: int|
                0 <= i < r@.to.len() && chars::ascii_lower(#[trigger] r@.to[i])
                    == chars::ascii_lower(address);
            assert(text_laws::is_same_but_for_case(r.to@[i]@, address));
        }
        if exists|i: int|
            0 <= i < r.to@.len() && text_laws::is_same_but_for_case(
                (#[trigger] r.to@[i])@,
                address,
            ) {
            let i = choose|i: int|
                0 <= i < r.to@.len() && text_laws::is_same_but_for_case(
                    (#[trigger] r.to@[i])@,
                    address,
                );
            assert(chars::ascii_lower(r@.to[i]) == chars::ascii_lower(address));
        }
    }
}

/// The tool works on the account that it was given, names itself, and reaches the server of the
/// account; a refusal names what is missing, or gives the whole reason.
pub proof fn law_tool(
    config: EmailConfig,
    made: MailTool,
    t: &MailTool,
    name: &str,
    address: String,
    error: &MailError,
    text: String,
)
    requires
        call_ensures(MailTool::new, (config,), made),
        call_ensures(MailTool::name, (t,), name),
        call_ensures(MailTool::imap_address, (t,), address),
        call_ensures(MailError::message, (error,), text),
    ensures
        made.config == config,
        name@ == "mail"@,
        address@ == t.config.imap_host@ + ":"@ + decimal::decimal(t.config.imap_port as nat),
        error matches MailError::MissingArgument(missing) ==> text@ == "Missing '"@ + missing@
            + "'"@,
        error matches MailError::Unsendable(reason) ==> text@ == reason@,
{
}

/// Mail is looked for in the folder that is asked for, in the usual ones and in the configured one,
/// in order and in none twice.
pub proof fn law_candidate_folders(
    t: &MailTool,
    explicit: Option<&str>,
    r: Vec<String>,
)
    requires
        call_ensures(MailTool::candidate_folders, (t, explicit), r),
    ensures
        action_laws::are_the_folders(
            t.config.imap_folder@,
            (match explicit {
                Some(name) => Some(name@),
                None => None,
            }),
            r@.map_values(|f: String| f@),
        ),
{
    action_laws::law_folders_are_the_usual_and_the_named(
        t.config.imap_folder@,
        chars::str_option(explicit),
        chars::string_list(r@),
    );
    assert(r@.map_values(|f: String| f@) =~= chars::string_list(r@));
}

/// Whether `answer` succeeds with a document that tells from whom a message is, its identifier, its
/// recipient, its subject and its time.
pub open spec fn reports(
    answer: ToolResult,
    from: Seq<char>,
    message_id: Seq<char>,
    to: Seq<char>,
    subject: Seq<char>,
    timestamp: u64,
) -> bool {
    exists|document: json::Json|
        #![trigger json::pretty_text(document)]
        {
            &&& json::pretty_text(document) is Some ==> answer.output@ == json::pretty_text(
                document,
            )->0
            &&& answer.success && answer.error is None
            &&& document is Object && document->Object_0.len() == 5
            &&& json::field_of(document, "from"@) == Some(json::Json::Text(from))
            &&& json::field_of(document, "message_id"@) == Some(json::Json::Text(message_id))
            &&& json::field_of(document, "subject"@) == Some(json::Json::Text(subject))
            &&& json::field_of(document, "timestamp"@) == Some(json::Json::Unsigned(timestamp))
            &&& json::field_of(document, "to"@) == Some(
                json::Json::List(seq![json::Json::Text(to)]),
            )
        }
}

proof fn lemma_reports(
    answer: ToolResult,
    from: Seq<char>,
    message_id: Seq<char>,
    to: Seq<char>,
    subject: Seq<char>,
    timestamp: u64,
)
    requires
        answer@ == result::succeeded(tool::sent_json(from, message_id, to, subject, timestamp)),
    ensures
        reports(answer, from, message_id, to, subject, timestamp),
{
    let document = tool::sent_json(from, message_id, to, subject, timestamp);
    action_laws::law_report_tells_of_the_message(from, message_id, to, subject, timestamp);
    action_laws::law_results_are_whole(document, from, answer);
    assert(json::pretty_text(document) is Some ==> answer.output@ == json::pretty_text(
        document,
    )->0);
}

/// What is reported of a sent message is its own: the account's address, its identifier, its
/// recipient, its subject and the time.
pub proof fn law_sent_message_is_reported(
    t: &MailTool,
    message_id: &str,
    to: &str,
    subject: &str,
    timestamp: u64,
    answer: ToolResult,
    sent: &OutgoingMail,
    finished: ToolResult,
)
    requires
        call_ensures(MailTool::send_metadata, (t, message_id, to, subject, timestamp), answer),
        call_ensures(MailTool::finish_send, (t, sent, timestamp), finished),
    ensures
        reports(answer, t.config.from_address@, message_id@, to@, subject@, timestamp),
        reports(
            finished,
            t.config.from_address@,
            sent.message_id@,
            sent.to@,
            sent.subject@,
            timestamp,
        ),
{
    lemma_reports(answer, t.config.from_address@, message_id@, to@, subject@, timestamp);
    lemma_reports(
        finished,
        t.config.from_address@,
        sent.message_id@,
        sent.to@,
        sent.subject@,
        timestamp,
    );
}

/// Whether `r` is a message of exactly these texts under the identifier made from `uuid`, or the
/// reason for which `lettre` builds none.
pub open spec fn is_composed(
    r: Result<OutgoingMail, MailError>,
    from: Seq<char>,
    uuid: Seq<char>,
    to: Seq<char>,
    subject: Seq<char>,
    body: Seq<char>,
) -> bool {
    let id = "<zeroclaw-"@ + uuid + "@local>"@;
    match r {
        Ok(sent) => {
            &&& sent.message_id@ == id
            &&& sent.to@ == to
            &&& sent.subject@ == subject
            &&& action_laws::is_built_from(sent.email, from, to, subject, body, id)
        },
        Err(e) => {
            &&& e is Unsendable
            &&& compose::email_shape(from, to, subject, body, id) == Err::<
                compose::EmailShape,
                Seq<char>,
            >(e->Unsendable_0@)
        },
    }
}

/// A message is composed of the given texts, each whole and however long, under the identifier made
/// from the given UUID, or from one that is drawn.
pub proof fn law_prepare_send(
    t: &MailTool,
    uuid: &str,
    to: &str,
    subject: &str,
    body: &str,
    given: Result<OutgoingMail, MailError>,
    drawn: Result<OutgoingMail, MailError>,
)
    requires
        call_ensures(MailTool::prepare_send_as, (t, uuid, to, subject, body), given),
        call_ensures(MailTool::prepare_send, (t, to, subject, body), drawn),
    ensures
        is_composed(given, t.config.from_address@, uuid@, to@, subject@, body@),
        exists|u: Seq<char>| #[trigger]
            identifier::is_uuid(u) && is_composed(
                drawn,
                t.config.from_address@,
                u,
                to@,
                subject@,
                body@,
            ),
{
    let from = t.config.from_address@;
    if given is Ok {
        action_laws::lemma_built(
            given->Ok_0.email,
            from,
            to@,
            subject@,
            body@,
            given->Ok_0.message_id@,
        );
    }
    if drawn is Ok {
        let sent = drawn->Ok_0;
        action_laws::lemma_built(sent.email, from, to@, subject@, body@, sent.message_id@);
        let u = choose|u: Seq<char>| #[trigger]
            identifier::is_uuid(u) && sent.message_id@ == tool::client_id(u);
        assert(is_composed(drawn, from, u, to@, subject@, body@));
    } else {
        let reason = drawn->Err_0->Unsendable_0@;
        let id = choose|id: Seq<char>| #[trigger]
            tool::is_client_id(id) && compose::email_shape(from, to@, subject@, body@, id) == Err::<
                compose::EmailShape,
                Seq<char>,
            >(reason);
        let u = choose|u: Seq<char>| #[trigger] identifier::is_uuid(u) && id == tool::client_id(u);
        assert(is_composed(drawn, from, u, to@, subject@, body@));
    }
}

/// Whether a lookup that is given the messages of its folders one after the other may answer with
/// `answer`.
pub open spec fn may_answer(
    scan: MailScan,
    batches: Seq<Option<Vec<MailRecord>>>,
    answer: ToolResult,
) -> bool
    decreases batches.len(),
{
    batches.len() > 0 && exists|step: ScanStep| #[trigger]
        call_ensures(MailScan::absorb, (scan, batches[0]), step) && match step {
            ScanStep::Done(t) => t == answer,
            ScanStep::Continue(next) => may_answer(next, batches.drop_first(), answer),
        }
}

/// The messages of all folders, in the order of the folders.
pub open spec fn all_messages(batches: Seq<Option<Vec<MailRecord>>>) -> Seq<MailRecord>
    decreases batches.len(),
{
    if batches.len() == 0 {
        Seq::empty()
    } else {
        match batches[0] {
            Some(records) => records@ + all_messages(batches.drop_first()),
            None => all_messages(batches.drop_first()),
        }
    }
}

/// What the batches say.
spec fn views(batches: Seq<Option<Vec<MailRecord>>>) -> Seq<Option<Seq<record::RecordView>>> {
    batches.map_values(|b: Option<Vec<MailRecord>>| scan::batch_view(b))
}

proof fn lemma_all_messages(batches: Seq<Option<Vec<MailRecord>>>)
    ensures
        laws::all_records(views(batches)) == record::record_views(all_messages(batches)),
    decreases batches.len(),
{
    if batches.len() > 0 {
        let rest = batches.drop_first();
        lemma_all_messages(rest);
        assert(views(batches).drop_first() =~= views(rest));
        assert(views(batches)[0] == scan::batch_view(batches[0]));
    }
    assert(laws::all_records(views(batches)) =~= record::record_views(all_messages(batches)));
}

proof fn lemma_answer_is_run(
    scan: MailScan,
    batches: Seq<Option<Vec<MailRecord>>>,
    answer: ToolResult,
)
    requires
        may_answer(scan, batches, answer),
    ensures
        laws::run(scan@, views(batches)) == Some(answer@),
    decreases batches.len(),
{
    let step = choose|step: ScanStep| #[trigger]
        call_ensures(MailScan::absorb, (scan, batches[0]), step) && match step {
            ScanStep::Done(t) => t == answer,
            ScanStep::Continue(next) => may_answer(next, batches.drop_first(), answer),
        };
    assert(views(batches)[0] == scan::batch_view(batches[0]));
    match step {
        ScanStep::Done(t) => {},
        ScanStep::Continue(next) => {
            lemma_answer_is_run(next, batches.drop_first(), answer);
            assert(views(batches).drop_first() =~= views(batches.drop_first()));
        },
    }
}

/// Whether `answer` succeeds with the document, printed.
pub open spec fn answers_with(answer: ToolResult, document: json::Json) -> bool {
    &&& answer.success
    &&& answer.error is None
    &&& json::pretty_text(document) is Some ==> answer.output@ == json::pretty_text(document)->0
}

/// Whether `answer` fails for the reason.
pub open spec fn refuses(answer: ToolResult, reason: Seq<char>) -> bool {
    &&& !answer.success
    &&& answer.output@.len() == 0
    &&& answer.error is Some && answer.error->0@ == reason
}

/// The action decides: without one nothing is done, and one that there is not fails.
pub proof fn law_execute_needs_a_known_action(
    t: &MailTool,
    args: &serde_json::Value,
    now: u64,
    r: Result<MailStep, MailError>,
)
    requires
        call_ensures(MailTool::execute, (t, args, now), r),
    ensures
        ({
            let action = json::text_field(json::json_of(*args), "action"@);
            &&& action is None <==> action_laws::misses(r, "action"@)
            &&& action is Some && action->0 != "send"@ && action->0 != "list_recent"@ && action->0
                != "get"@ && action->0 != "verify_sent"@ ==> r is Ok && r->Ok_0 is Done && refuses(
                r->Ok_0->Done_0,
                "Unsupported mail action: "@ + action->0,
            )
        }),
{
    action_laws::law_action_is_needed_and_known(t.config, json::json_of(*args), now, r);
}

/// A send composes the message of exactly the recipient, the subject and the body that the arguments
/// give, however long, and names the first argument that is missing.
pub proof fn law_execute_send(
    t: &MailTool,
    args: &serde_json::Value,
    now: u64,
    r: Result<MailStep, MailError>,
)
    requires
        call_ensures(MailTool::execute, (t, args, now), r),
        json::text_field(json::json_of(*args), "action"@) == Some("send"@),
    ensures
        ({
            let to = json::text_field(json::json_of(*args), "to"@);
            let subject = json::text_field(json::json_of(*args), "subject"@);
            let body = json::text_field(json::json_of(*args), "body"@);
            &&& to is None ==> action_laws::misses(r, "to"@)
            &&& to is Some && subject is None ==> action_laws::misses(r, "subject"@)
            &&& to is Some && subject is Some && body is None ==> action_laws::misses(r, "body"@)
            &&& to is Some && subject is Some && body is Some ==> exists|u: Seq<char>| #[trigger]
                identifier::is_uuid(u) && match r {
                    Ok(step) => step is Send && is_composed(
                        Ok(step->Send_0),
                        t.config.from_address@,
                        u,
                        to->0,
                        subject->0,
                        body->0,
                    ),
                    Err(e) => is_composed(
                        Err(e),
                        t.config.from_address@,
                        u,
                        to->0,
                        subject->0,
                        body->0,
                    ),
                }
        }),
{
    let a = json::json_of(*args);
    let to = json::text_field(a, "to"@);
    let subject = json::text_field(a, "subject"@);
    let body = json::text_field(a, "body"@);
    action_laws::law_send_names_what_is_missing(t.config, a, now, r);
    if to is Some && subject is Some && body is Some {
        action_laws::law_message_is_sent_as_given(
            t.config,
            a,
            now,
            r,
            to->0,
            subject->0,
            body->0,
        );
        match r {
            Ok(step) => {
                let id = step->Send_0.message_id@;
                let u = choose|u: Seq<char>| #[trigger] action_laws::is_made_from(id, u);
                assert(identifier::is_uuid(u));
            },
            Err(e) => {
                let (id, u) = choose|id: Seq<char>, u: Seq<char>| #[trigger]
                    action_laws::is_made_from(id, u) && compose::email_shape(
                        t.config.from_address@,
                        to->0,
                        subject->0,
                        body->0,
                        id,
                    ) == Err::<compose::EmailShape, Seq<char>>(e->Unsendable_0@);
                assert(identifier::is_uuid(u));
            },
        }
    }
}

/// A listing shows, newest first, as many of the messages of all folders as the limit says, ten
/// where none is given, and all of them where there are no more.
pub proof fn law_execute_list_recent(
    t: &MailTool,
    args: &serde_json::Value,
    now: u64,
    r: Result<MailStep, MailError>,
    limit: nat,
    batches: Seq<Option<Vec<MailRecord>>>,
    answer: ToolResult,
) -> (shown: (Seq<record::RecordView>, Seq<record::RecordView>))
    requires
        call_ensures(MailTool::execute, (t, args, now), r),
        json::text_field(json::json_of(*args), "action"@) == Some("list_recent"@),
        json::unsigned_field(json::json_of(*args), "limit"@) is None ==> limit == 10,
        json::unsigned_field(json::json_of(*args), "limit"@) matches Some(n) ==> (n <= usize::MAX
            ==> limit == n) && (n > usize::MAX ==> limit == usize::MAX),
        r matches Ok(MailStep::Scan(s)) ==> batches.len() == s@.folders.len() && may_answer(
            s,
            batches,
            answer,
        ),
    ensures
        r is Ok && r->Ok_0 is Scan,
        action_laws::is_sorted_from(record::record_views(all_messages(batches)), shown.0),
        shown.0.len() <= limit ==> shown.1.len() == shown.0.len(),
        shown.0.len() > limit ==> shown.1.len() == limit,
        forall|i: int| 0 <= i < shown.1.len() ==> #[trigger] shown.1[i] == shown.0[i],
        answers_with(answer, record::records_json(shown.1)),
{
    action_laws::law_listing_is_started(t.config, json::json_of(*args), now, r, limit);
    lemma_answer_is_run(r->Ok_0->Scan_0, batches, answer);
    lemma_all_messages(batches);
    action_laws::law_listing_shows_all_up_to_the_limit(
        t.config,
        json::json_of(*args),
        now,
        r,
        limit,
        views(batches),
    )
}

/// Whether the message at the place `i` is the first with this whole identifier, but for case.
pub open spec fn is_first_with_identifier(
    messages: Seq<MailRecord>,
    id: Seq<char>,
    i: int,
) -> bool {
    &&& 0 <= i < messages.len()
    &&& text_laws::is_same_but_for_case(messages[i].message_id@, id)
    &&& forall|j: int|
        0 <= j < i ==> !text_laws::is_same_but_for_case((#[trigger] messages[j]).message_id@, id)
}

/// A lookup by identifier answers with the first message of all folders that has the whole
/// identifier, letter by letter but for case; where there is none, it says that it was not found.
pub proof fn law_execute_get(
    t: &MailTool,
    args: &serde_json::Value,
    now: u64,
    r: Result<MailStep, MailError>,
    id: Seq<char>,
    batches: Seq<Option<Vec<MailRecord>>>,
    answer: ToolResult,
)
    requires
        call_ensures(MailTool::execute, (t, args, now), r),
        json::text_field(json::json_of(*args), "action"@) == Some("get"@),
        json::text_field(json::json_of(*args), "message_id"@) == Some(id),
        r matches Ok(MailStep::Scan(s)) ==> batches.len() == s@.folders.len() && may_answer(
            s,
            batches,
            answer,
        ),
    ensures
        r is Ok && r->Ok_0 is Scan,
        answer.success ==> exists|i: int| #[trigger]
            is_first_with_identifier(all_messages(batches), id, i) && answers_with(
                answer,
                record::record_json(all_messages(batches)[i]@),
            ),
        !answer.success ==> refuses(answer, "Message not found: "@ + id) && forall|i: int|
            0 <= i < all_messages(batches).len() ==> !text_laws::is_same_but_for_case(
                (#[trigger] all_messages(batches)[i]).message_id@,
                id,
            ),
{
    let a = json::json_of(*args);
    let messages = all_messages(batches);
    let all = laws::all_records(views(batches));
    action_laws::law_get_is_started(t.config, a, now, r);
    lemma_answer_is_run(r->Ok_0->Scan_0, batches, answer);
    lemma_all_messages(batches);
    action_laws::law_get_answers_with_that_message(t.config, a, now, r, id, views(batches));
    assert forall|i: int| 0 <= i < messages.len() implies (#[trigger] messages[i]).message_id@
        == all[i].message_id && all[i] == messages[i]@ by {}
    if answer.success {
        let i = choose|i: int| #[trigger]
            action_laws::is_first_with_identifier(all, id, i) && action_laws::succeeds_with(
                answer@,
                record::record_json(all[i]),
            );
        assert(is_first_with_identifier(messages, id, i)) by {
            assert forall|j: int| 0 <= j < i implies !text_laws::is_same_but_for_case(
                (#[trigger] messages[j]).message_id@,
                id,
            ) by {
                assert(!text_laws::is_same_but_for_case(all[j].message_id, id));
            }
        }
    } else {
        assert forall|i: int| 0 <= i < messages.len() implies !text_laws::is_same_but_for_case(
            (#[trigger] messages[i]).message_id@,
            id,
        ) by {
            assert(!text_laws::is_same_but_for_case(all[i].message_id, id));
        }
    }
}

/// Verification succeeds exactly where a message of the folders is no more than fifteen minutes old
/// and has the identifier, the subject and the recipient, as far as these were given, whichever of
/// them were; it answers with the first such message and its proof. Where there is none, it fails.
pub proof fn law_execute_verify_sent(
    t: &MailTool,
    args: &serde_json::Value,
    now: u64,
    r: Result<MailStep, MailError>,
    attempt_id: Seq<char>,
    batches: Seq<Option<Vec<MailRecord>>>,
    answer: ToolResult,
)
    requires
        call_ensures(MailTool::execute, (t, args, now), r),
        json::text_field(json::json_of(*args), "action"@) == Some("verify_sent"@),
        json::text_field(json::json_of(*args), "attempt_id"@) == Some(attempt_id),
        r matches Ok(MailStep::Scan(s)) ==> batches.len() == s@.folders.len() && may_answer(
            s,
            batches,
            answer,
        ),
    ensures
        r is Ok && r->Ok_0 is Scan,
        ({
            let a = json::json_of(*args);
            let all = record::record_views(all_messages(batches));
            let id = json::text_field(a, "message_id"@);
            let subject = json::text_field(a, "subject"@);
            let to = json::text_field(a, "to"@);
            &&& answer.success ==> exists|i: int| #[trigger]
                action_laws::is_first_proof(all, now, id, subject, to, i) && answers_with(
                    answer,
                    scan::verified_json(attempt_id, all[i]),
                )
            &&& !answer.success ==> refuses(
                answer,
                "Unable to verify a fresh sent message for this attempt"@,
            ) && forall|i: int|
                0 <= i < all.len() ==> !action_laws::is_proof_of(
                    #[trigger] all[i],
                    now,
                    id,
                    subject,
                    to,
                )
        }),
{
    let a = json::json_of(*args);
    let cutoff = if now >= 900 {
        (now - 900) as u64
    } else {
        0
    };
    action_laws::law_verification_is_started(t.config, a, now, r, cutoff);
    lemma_answer_is_run(r->Ok_0->Scan_0, batches, answer);
    lemma_all_messages(batches);
    action_laws::law_verification_succeeds_iff_there_is_proof(
        t.config,
        a,
        now,
        r,
        attempt_id,
        views(batches),
    );
    let all = record::record_views(all_messages(batches));
    let id = json::text_field(a, "message_id"@);
    let subject = json::text_field(a, "subject"@);
    let to = json::text_field(a, "to"@);
    if answer.success {
        let i = choose|i: int| #[trigger]
            action_laws::is_first_proof(all, now, id, subject, to, i)
                && action_laws::succeeds_with(answer@, scan::verified_json(attempt_id, all[i]));
        assert(answers_with(answer, scan::verified_json(attempt_id, all[i])));
    }
}

/// A lookup starts at the first of the folders in which mail is looked for, and names the argument
/// that it needs and does not get.
pub proof fn law_execute_starts_at_the_first_folder(
    t: &MailTool,
    args: &serde_json::Value,
    now: u64,
    r: Result<MailStep, MailError>,
    scan: &MailScan,
    folder: &str,
    limit: usize,
)
    requires
        call_ensures(MailTool::execute, (t, args, now), r),
        r == Ok::<MailStep, MailError>(MailStep::Scan(*scan)),
        call_ensures(MailScan::folder, (scan,), folder),
        call_ensures(MailScan::limit, (scan,), limit),
    ensures
        action_laws::are_the_folders(
            t.config.imap_folder@,
            json::text_field(json::json_of(*args), "folder"@),
            scan@.folders,
        ),
        folder@ == scan@.folders[0],
        ({
            let action = json::text_field(json::json_of(*args), "action"@);
            let asked = json::unsigned_field(json::json_of(*args), "limit"@);
            &&& action == Some("list_recent"@) || action == Some("get"@) || action == Some(
                "verify_sent"@,
            )
            &&& action != Some("list_recent"@) ==> limit == 25
            &&& action == Some("list_recent"@) && asked is None ==> limit == 10
            &&& action == Some("list_recent"@) && asked is Some && asked->0 <= usize::MAX ==> limit
                == asked->0
        }),
{
    action_laws::law_folders_are_the_usual_and_the_named(
        t.config.imap_folder@,
        json::text_field(json::json_of(*args), "folder"@),
        scan@.folders,
    );
    action_laws::lemma_actions_differ();
}

/// Without the argument that it needs a lookup is not started, and the argument is named.
pub proof fn law_execute_names_what_is_missing(
    t: &MailTool,
    args: &serde_json::Value,
    now: u64,
    r: Result<MailStep, MailError>,
)
    requires
        call_ensures(MailTool::execute, (t, args, now), r),
    ensures
        ({
            let a = json::json_of(*args);
            &&& json::text_field(a, "action"@) == Some("get"@) && json::text_field(
                a,
                "message_id"@,
            ) is None ==> action_laws::misses(r, "message_id"@)
            &&& json::text_field(a, "action"@) == Some("verify_sent"@) && json::text_field(
                a,
                "attempt_id"@,
            ) is None ==> action_laws::misses(r, "attempt_id"@)
        }),
{
    action_laws::lemma_actions_differ();
}

} // verus!
