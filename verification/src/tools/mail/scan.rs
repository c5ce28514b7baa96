//! Looking messages up: folder after folder, until what was asked for is found or none is left.
use crate::json;
use crate::text::chars;
use crate::tools::mail::identifier;
use crate::tools::mail::record;
use crate::tools::mail::record::MailRecord;
use crate::tools::mail::result;
use crate::tools::mail::result::ToolResult;
use vstd::prelude::*;

verus! {

/// How many messages of a folder are fetched to look for one.
pub const LOOKUP_LIMIT: usize = 25;

/// What the user is told of a verified message.
pub const VERIFIED_SUMMARY: &'static str = "Fresh email verification succeeded. Stop and report success.";

/// What is asked of the messages in the folders.
#[derive(Debug, Clone)]
pub enum MailQuery {
    /// The most recent messages, up to `limit`.
    ListRecent { limit: usize },
    /// The message with this identifier, in whatever case.
    Get { message_id: String },
    /// A message not older than `cutoff` that has what is given of it. Its identifier may be given
    /// with or without angle brackets.
    VerifySent {
        attempt_id: String,
        message_id: Option<String>,
        subject: Option<String>,
        to: Option<String>,
        cutoff: u64,
    },
}

/// What a `MailQuery` says.
#[verifier::ext_equal]
pub enum QueryView {
    ListRecent { limit: nat },
    Get { message_id: Seq<char> },
    VerifySent {
        attempt_id: Seq<char>,
        message_id: Option<Seq<char>>,
        subject: Option<Seq<char>>,
        to: Option<Seq<char>>,
        cutoff: u64,
    },
}

impl View for MailQuery {
    type V = QueryView;

    open spec fn view(&self) -> QueryView {
        match *self {
            MailQuery::ListRecent { limit } => QueryView::ListRecent { limit: limit as nat },
            MailQuery::Get { message_id } => QueryView::Get { message_id: message_id@ },
            MailQuery::VerifySent {
                attempt_id,
                message_id,
                subject,
                to,
                cutoff,
            } => QueryView::VerifySent {
                attempt_id: attempt_id@,
                message_id: chars::string_option(message_id),
                subject: chars::string_option(subject),
                to: chars::string_option(to),
                cutoff,
            },
        }
    }
}

/// A lookup that waits for the messages of a folder.
#[derive(Debug)]
pub struct MailScan {
    folders: Vec<String>,
    next: usize,
    collected: Vec<MailRecord>,
    query: MailQuery,
}

/// What a `MailScan` says: the folders, how many are done, the records collected from them, and
/// what is asked.
#[verifier::ext_equal]
pub struct ScanView {
    pub folders: Seq<Seq<char>>,
    pub next: nat,
    pub collected: Seq<record::RecordView>,
    pub query: QueryView,
}

/// What a folder's messages lead to.
#[derive(Debug)]
pub enum ScanStep {
    /// Another folder is due.
    Continue(MailScan),
    /// The lookup is done.
    Done(ToolResult),
}

/// What a `ScanStep` says.
#[verifier::ext_equal]
pub enum ScanStepView {
    Continue(ScanView),
    Done(result::ResultView),
}

impl View for ScanStep {
    type V = ScanStepView;

    open spec fn view(&self) -> ScanStepView {
        match *self {
            ScanStep::Continue(scan) => ScanStepView::Continue(scan@),
            ScanStep::Done(r) => ScanStepView::Done(r@),
        }
    }
}

impl View for MailScan {
    type V = ScanView;

    closed spec fn view(&self) -> ScanView {
        ScanView {
            folders: chars::string_list(self.folders@),
            next: self.next as nat,
            collected: record::record_views(self.collected@),
            query: self.query@,
        }
    }
}

/// Whether a record is the one that is looked for. A listing looks for none.
pub open spec fn matches_query(query: QueryView, r: record::RecordView) -> bool {
    match query {
        QueryView::ListRecent { .. } => false,
        QueryView::Get { message_id } => chars::ascii_lower(r.message_id) == chars::ascii_lower(
            message_id,
        ),
        QueryView::VerifySent { message_id, subject, to, cutoff, .. } => {
            &&& r.timestamp >= cutoff
            &&& message_id matches Some(id) ==> identifier::is_same(r.message_id, id)
            &&& subject matches Some(s) ==> r.subject == s
            &&& to matches Some(address) ==> is_recipient(r.to, address)
        },
    }
}

/// Whether one of the addresses is `address`, but for the case of its letters.
pub open spec fn is_recipient(addresses: Seq<Seq<char>>, address: Seq<char>) -> bool {
    exists|i: int|
        0 <= i < addresses.len() && chars::ascii_lower(#[trigger] addresses[i])
            == chars::ascii_lower(address)
}

/// The first record that is looked for.
pub open spec fn first_match(query: QueryView, records: Seq<record::RecordView>) -> Option<
    record::RecordView,
>
    decreases records.len(),
{
    if records.len() == 0 {
        None
    } else if matches_query(query, records[0]) {
        Some(records[0])
    } else {
        first_match(query, records.drop_first())
    }
}

/// The proof that goes with a verified message.
pub open spec fn proof_json(attempt_id: Seq<char>, message_id: Seq<char>) -> json::Json {
    json::Json::Object(
        seq![
            ("artifact_id"@, json::Json::Text(message_id)),
            ("attempt_id"@, json::Json::Text(attempt_id)),
            ("fresh"@, json::Json::Bool(true)),
            ("summary"@, json::Json::Text(VERIFIED_SUMMARY@)),
            ("terminal"@, json::Json::Bool(true)),
        ],
    )
}

/// A verified message with its proof.
pub open spec fn verified_json(attempt_id: Seq<char>, r: record::RecordView) -> json::Json {
    json::Json::Object(
        seq![
            ("message"@, record::sorted_record_json(r)),
            ("proof"@, proof_json(attempt_id, r.message_id)),
            ("verified"@, json::Json::Bool(true)),
        ],
    )
}

/// What is answered with the record that was looked for.
pub open spec fn found(query: QueryView, r: record::RecordView) -> result::ResultView {
    match query {
        QueryView::VerifySent { attempt_id, .. } => result::succeeded(verified_json(attempt_id, r)),
        _ => result::succeeded(record::record_json(r)),
    }
}

/// The first `limit` records.
pub open spec fn limited(records: Seq<record::RecordView>, limit: nat) -> Seq<record::RecordView> {
    if records.len() <= limit {
        records
    } else {
        records.take(limit as int)
    }
}

/// What is answered once all folders are done and nothing that was looked for is found.
pub open spec fn exhausted(query: QueryView, collected: Seq<record::RecordView>) -> result::ResultView {
    match query {
        QueryView::ListRecent { limit } => result::succeeded(
            record::records_json(limited(record::newest_first(collected), limit)),
        ),
        QueryView::Get { message_id } => result::failed("Message not found: "@ + message_id),
        QueryView::VerifySent { .. } => result::failed(
            "Unable to verify a fresh sent message for this attempt"@,
        ),
    }
}

/// The records of a batch; a folder that could not be fetched has none.
pub open spec fn batch_records(batch: Option<Seq<record::RecordView>>) -> Seq<record::RecordView> {
    match batch {
        Some(records) => records,
        None => Seq::empty(),
    }
}

/// What the messages of the folder that is due lead to.
pub open spec fn step(scan: ScanView, batch: Option<Seq<record::RecordView>>) -> ScanStepView {
    let records = batch_records(batch);
    let collected = match scan.query {
        QueryView::ListRecent { .. } => scan.collected + records,
        _ => scan.collected,
    };
    match first_match(scan.query, records) {
        Some(r) => ScanStepView::Done(found(scan.query, r)),
        None => if scan.next + 1 < scan.folders.len() {
            ScanStepView::Continue(ScanView { next: scan.next + 1, collected, ..scan })
        } else {
            ScanStepView::Done(exhausted(scan.query, collected))
        },
    }
}

/// How many messages of a folder are fetched for a query.
pub open spec fn fetch_limit(query: QueryView) -> nat {
    match query {
        QueryView::ListRecent { limit } => limit,
        _ => LOOKUP_LIMIT as nat,
    }
}

/// The view of a batch that may be missing.
pub open spec fn batch_view(batch: Option<Vec<MailRecord>>) -> Option<Seq<record::RecordView>> {
    match batch {
        Some(records) => Some(record::record_views(records@)),
        None => None,
    }
}

/// Whether one of the addresses is `address`, but for the case of its letters.
fn has_recipient(addresses: &Vec<String>, address: &str) -> (r: bool)
    ensures
        r == is_recipient(chars::string_list(addresses@), address@),
{
    let ghost views = chars::string_list(addresses@);
    let mut i: usize = 0;
    while i < addresses.len()
        invariant
            i <= addresses.len(),
            views == chars::string_list(addresses@),
            forall|j: int|
                0 <= j < i ==> chars::ascii_lower(#[trigger] views[j]) != chars::ascii_lower(
                    address@,
                ),
        decreases addresses.len() - i,
    {
        if chars::same_ignoring_ascii_case(addresses[i].as_str(), address) {
            assert(chars::ascii_lower(views[i as int]) == chars::ascii_lower(address@));
            return true;
        }
        i = i + 1;
    }
    false
}

impl MailQuery {
    /// Whether a record is the one that is looked for.
    pub fn accepts(&self, r: &MailRecord) -> (b: bool)
        ensures
            b == matches_query(self@, r@),
    {
        match self {
            MailQuery::ListRecent { .. } => false,
            MailQuery::Get { message_id } => chars::same_ignoring_ascii_case(
                r.message_id.as_str(),
                message_id.as_str(),
            ),
            MailQuery::VerifySent { message_id, subject, to, cutoff, .. } => {
                if r.timestamp < *cutoff {
                    return false;
                }
                match message_id {
                    Some(id) => if !identifier::same_identifier(
                        r.message_id.as_str(),
                        id.as_str(),
                    ) {
                        return false;
                    },
                    None => {},
                }
                match subject {
                    Some(s) => if !chars::same_text(r.subject.as_str(), s.as_str()) {
                        return false;
                    },
                    None => {},
                }
                match to {
                    Some(address) => has_recipient(&r.to, address.as_str()),
                    None => true,
                }
            },
        }
    }

    /// The place of the first record that is looked for.
    fn find(&self, records: &Vec<MailRecord>) -> (r: Option<usize>)
        ensures
            (match r {
                Some(i) => i < records@.len() && first_match(
                    self@,
                    record::record_views(records@),
                ) == Some(records@[i as int]@),
                None => first_match(self@, record::record_views(records@)) is None,
            }),
    {
        let ghost views = record::record_views(records@);
        let mut i: usize = 0;
        assert(views.skip(0) =~= views);
        while i < records.len()
            invariant
                i <= records.len(),
                views == record::record_views(records@),
                first_match(self@, views) == first_match(self@, views.skip(i as int)),
            decreases records.len() - i,
        {
            proof {
                assert(views.skip(i as int)[0] == records@[i as int]@);
                assert(views.skip(i as int).drop_first() =~= views.skip(i + 1));
            }
            if self.accepts(&records[i]) {
                return Some(i);
            }
            i = i + 1;
        }
        assert(views.skip(i as int) =~= Seq::<record::RecordView>::empty());
        None
    }

    /// What is answered with the record that was looked for.
    fn answer(&self, r: &MailRecord) -> (t: ToolResult)
        ensures
            t@ == found(self@, r@),
            t@.output.len() >= 2 && t@.output.first() == '{' && t@.output.last() == '}',
    {
        match self {
            MailQuery::VerifySent { attempt_id, .. } => {
                let value = verified_value(attempt_id.as_str(), r);
                result::success(&value)
            },
            _ => {
                let value = record::record_value(r);
                result::success(&value)
            },
        }
    }

    /// What is answered once all folders are done and nothing that was looked for is found.
    fn give_up(&self, collected: Vec<MailRecord>) -> (t: ToolResult)
        ensures
            t@ == exhausted(self@, record::record_views(collected@)),
    {
        match self {
            MailQuery::ListRecent { limit } => {
                let mut records = record::sort_newest_first(collected);
                let ghost sorted = record::record_views(records@);
                records.truncate(*limit);
                assert(record::record_views(records@) =~= limited(sorted, *limit as nat));
                let value = record::records_value(&records);
                result::success(&value)
            },
            MailQuery::Get { message_id } => result::failure(
                "Message not found: ".to_string().concat(message_id.as_str()),
            ),
            MailQuery::VerifySent { .. } => result::failure(
                "Unable to verify a fresh sent message for this attempt".to_string(),
            ),
        }
    }
}

/// The names of a proof's fields differ in length.
pub proof fn lemma_proof_keys()
    ensures
        "artifact_id"@.len() == 11,
        "attempt_id"@.len() == 10,
        "fresh"@.len() == 5,
        "summary"@.len() == 7,
        "terminal"@.len() == 8,
{
    reveal_strlit("artifact_id");
    reveal_strlit("attempt_id");
    reveal_strlit("fresh");
    reveal_strlit("summary");
    reveal_strlit("terminal");
}

/// The proof that goes with a verified message.
fn proof_value(attempt_id: &str, message_id: &str) -> (value: serde_json::Value)
    ensures
        json::json_of(value) == proof_json(attempt_id@, message_id@),
{
    let fields: Vec<(String, serde_json::Value)> =
        vec![
        json::field("artifact_id", json::text_value(message_id)),
        json::field("attempt_id", json::text_value(attempt_id)),
        json::field("fresh", json::bool_value(true)),
        json::field("summary", json::text_value(VERIFIED_SUMMARY)),
        json::field("terminal", json::bool_value(true)),
    ];
    proof {
        let f = json::fields_view(fields@);
        assert(f =~= proof_json(attempt_id@, message_id@)->Object_0);
        assert(json::distinct_keys(f)) by {
            lemma_proof_keys();
            assert forall|i: int, j: int| 0 <= i < j < f.len() implies (#[trigger] f[i]).0 != (
            #[trigger] f[j]).0 by {
                assert(i == 0 || i == 1 || i == 2 || i == 3);
                assert(j == 1 || j == 2 || j == 3 || j == 4);
            }
        }
    }
    json::object_value(fields)
}

/// A verified message with its proof.
fn verified_value(attempt_id: &str, r: &MailRecord) -> (value: serde_json::Value)
    ensures
        json::json_of(value) == verified_json(attempt_id@, r@),
{
    let fields: Vec<(String, serde_json::Value)> =
        vec![
        json::field("message", record::sorted_record_value(r)),
        json::field("proof", proof_value(attempt_id, r.message_id.as_str())),
        json::field("verified", json::bool_value(true)),
    ];
    proof {
        let f = json::fields_view(fields@);
        assert(f =~= verified_json(attempt_id@, r@)->Object_0);
        assert(json::distinct_keys(f)) by {
            reveal_strlit("message");
            reveal_strlit("proof");
            reveal_strlit("verified");
            assert("message"@.len() == 7);
            assert("proof"@.len() == 5);
            assert("verified"@.len() == 8);
            assert forall|i: int, j: int| 0 <= i < j < f.len() implies (#[trigger] f[i]).0 != (
            #[trigger] f[j]).0 by {
                assert(i == 0 || i == 1);
                assert(j == 1 || j == 2);
            }
        }
    }
    json::object_value(fields)
}

impl MailScan {
    /// A folder is due.
    #[verifier::type_invariant]
    spec fn folder_is_due(self) -> bool {
        self.next < self.folders@.len()
    }

    /// Starts looking through `folders`.
    pub(crate) fn start(folders: Vec<String>, query: MailQuery) -> (r: MailScan)
        requires
            folders@.len() > 0,
        ensures
            r@ == (ScanView {
                folders: chars::string_list(folders@),
                next: 0,
                collected: Seq::empty(),
                query: query@,
            }),
    {
        let collected: Vec<MailRecord> = Vec::new();
        assert(record::record_views(collected@) =~= Seq::<record::RecordView>::empty());
        MailScan { folders, next: 0, collected, query }
    }

    /// The folder whose messages are due.
    pub fn folder(&self) -> (r: &str)
        ensures
            self@.next < self@.folders.len(),
            r@ == self@.folders[self@.next as int],
    {
        proof {
            use_type_invariant(self);
        }
        self.folders[self.next].as_str()
    }

    /// How many messages of the folder are due.
    pub fn limit(&self) -> (r: usize)
        ensures
            r == fetch_limit(self@.query),
    {
        match &self.query {
            MailQuery::ListRecent { limit } => *limit,
            _ => LOOKUP_LIMIT,
        }
    }

    /// Takes in the messages of the folder that is due, nothing where they could not be fetched.
    pub fn absorb(self, batch: Option<Vec<MailRecord>>) -> (r: ScanStep)
        ensures
            r@ == step(self@, batch_view(batch)),
            first_match(self@.query, batch_records(batch_view(batch))) is Some ==> (
            r@ matches ScanStepView::Done(t) && t.output.len() >= 2 && t.output.first() == '{'
                && t.output.last() == '}'),
    {
        proof {
            use_type_invariant(&self);
        }
        let records = match batch {
            Some(records) => records,
            None => Vec::new(),
        };
        assert(record::record_views(records@) =~= batch_records(batch_view(batch)));
        match self.query.find(&records) {
            Some(i) => return ScanStep::Done(self.query.answer(&records[i])),
            None => {},
        }
        let ghost before = self.collected@;
        let MailScan { folders, next, mut collected, query } = self;
        match &query {
            MailQuery::ListRecent { .. } => {
                let mut records = records;
                collected.append(&mut records);
                assert(record::record_views(collected@) =~= record::record_views(before)
                    + batch_records(batch_view(batch)));
            },
            _ => {},
        }
        if folders.len() - next > 1 {
            ScanStep::Continue(MailScan { folders, next: next + 1, collected, query })
        } else {
            ScanStep::Done(query.give_up(collected))
        }
    }
}

} // verus!
