//! The tool: what its arguments ask for, and what is answered once a message is sent.
use crate::json;
use crate::text::chars;
use crate::text::decimal;
use crate::text::order;
use crate::tools::mail::compose;
use crate::tools::mail::compose::ComposedEmail;
use crate::tools::mail::identifier;
use crate::tools::mail::record;
use crate::tools::mail::result;
use crate::tools::mail::result::ToolResult;
use crate::tools::mail::scan;
use crate::tools::mail::scan::MailQuery;
use crate::tools::mail::scan::MailScan;
use vstd::prelude::*;

verus! {

/// How many messages are listed where no limit is given.
pub const DEFAULT_LIST_LIMIT: usize = 10;

/// How old a message may be, in seconds, to be proof of the current attempt.
pub const FRESHNESS_SECS: u64 = 900;

/// The mail account.
#[derive(Debug, Clone)]
pub struct EmailConfig {
    pub username: String,
    pub password: String,
    pub from_address: String,
    pub smtp_host: String,
    pub smtp_port: u16,
    pub smtp_tls: bool,
    pub imap_host: String,
    pub imap_port: u16,
    pub imap_folder: String,
}

/// Sends mail and looks mail up.
#[derive(Debug, Clone)]
pub struct MailTool {
    pub config: EmailConfig,
}

/// A message to be sent.
#[derive(Debug, Clone)]
pub struct OutgoingMail {
    pub message_id: String,
    pub to: String,
    pub subject: String,
    pub email: ComposedEmail,
}

/// What the arguments ask for.
#[derive(Debug)]
pub enum MailStep {
    /// Send a message, then report it.
    Send(OutgoingMail),
    /// Look through the folders.
    Scan(MailScan),
    /// Nothing is left to do.
    Done(ToolResult),
}

/// Why arguments are refused.
#[derive(Debug, Clone, PartialEq, Eq)]
pub enum MailError {
    /// An argument is missing or is no text.
    MissingArgument(String),
    /// The message cannot be composed, for the reason given.
    Unsendable(String),
}

impl MailError {
    /// What the user is told.
    pub open spec fn text(self) -> Seq<char> {
        match self {
            MailError::MissingArgument(name) => "Missing '"@ + name@ + "'"@,
            MailError::Unsendable(reason) => reason@,
        }
    }

    /// What the user is told.
    pub fn message(&self) -> (r: String)
        ensures
            r@ == self.text(),
    {
        match self {
            MailError::MissingArgument(name) => "Missing '".to_string().concat(
                name.as_str(),
            ).concat("'"),
            MailError::Unsendable(reason) => reason.clone(),
        }
    }
}

/// Whether mail is looked for in `folder`: in the one that is asked for, unless its name is blank,
/// in the usual ones, and in the configured one.
pub open spec fn is_candidate(
    imap_folder: Seq<char>,
    explicit: Option<Seq<char>>,
    folder: Seq<char>,
) -> bool {
    ||| explicit matches Some(name) && chars::trimmed(name).len() > 0 && folder == chars::trimmed(
        name,
    )
    ||| folder == "Sent"@
    ||| folder == "Sent Messages"@
    ||| folder == "INBOX"@
    ||| folder == imap_folder
}

/// Whether `folders` are the folders in which mail is looked for, in order and none twice.
pub open spec fn lists_candidates(
    imap_folder: Seq<char>,
    explicit: Option<Seq<char>>,
    folders: Seq<Seq<char>>,
) -> bool {
    &&& order::strictly_increasing(folders)
    &&& forall|folder: Seq<char>| #[trigger]
        folders.contains(folder) <==> is_candidate(imap_folder, explicit, folder)
}

/// There is one list of the folders in which mail is looked for.
pub proof fn law_candidate_list_is_unique(
    imap_folder: Seq<char>,
    explicit: Option<Seq<char>>,
    a: Seq<Seq<char>>,
    b: Seq<Seq<char>>,
)
    requires
        lists_candidates(imap_folder, explicit, a),
        lists_candidates(imap_folder, explicit, b),
    ensures
        a == b,
{
    assert forall|t: Seq<char>| a.contains(t) <==> b.contains(t) by {
        assert(a.contains(t) <==> is_candidate(imap_folder, explicit, t));
        assert(b.contains(t) <==> is_candidate(imap_folder, explicit, t));
    }
    order::law_increasing_list_is_unique(a, b);
}

/// Puts `text` into a strictly increasing list, unless it is there.
fn insert_text(list: &mut Vec<String>, text: String)
    requires
        order::strictly_increasing(chars::string_list(old(list)@)),
    ensures
        order::strictly_increasing(chars::string_list(final(list)@)),
        forall|t: Seq<char>| #[trigger]
            chars::string_list(final(list)@).contains(t) <==> (chars::string_list(
                old(list)@,
            ).contains(t) || t == text@),
{
    let ghost before = chars::string_list(list@);
    let mut i: usize = 0;
    while i < list.len() && !order::text_at_or_before(text.as_str(), list[i].as_str())
        invariant
            i <= list.len(),
            before == chars::string_list(list@),
            forall|j: int| 0 <= j < i ==> !order::at_or_before(text@, #[trigger] before[j]),
        decreases list.len() - i,
    {
        i = i + 1;
    }
    if i < list.len() && chars::same_text(text.as_str(), list[i].as_str()) {
        assert(before[i as int] == text@);
        assert(before.contains(text@));
        return ;
    }
    list.insert(i, text);
    proof {
        let after = chars::string_list(list@);
        assert(after =~= before.insert(i as int, text@));
        assert forall|j: int, k: int| 0 <= j < k < after.len() implies order::before(
            #[trigger] after[j],
            #[trigger] after[k],
        ) by {
            if k == i {
                order::lemma_order_total(text@, before[j]);
            } else if j == i {
                if k > i + 1 {
                    assert(order::before(before[i as int], before[k - 1]));
                    order::lemma_before_transitive(text@, before[i as int], before[k - 1]);
                }
            } else {
                let x = if j < i { j } else { j - 1 };
                let y = if k < i { k } else { k - 1 };
                assert(order::before(before[x], before[y]));
            }
        }
        assert forall|t: Seq<char>| #[trigger] after.contains(t) <==> (before.contains(t) || t
            == text@) by {
            if after.contains(t) {
                let j = choose|j: int| 0 <= j < after.len() && after[j] == t;
                if j != i {
                    let x = if j < i { j } else { j - 1 };
                    assert(before[x] == t);
                }
            }
            if before.contains(t) {
                let x = choose|x: int| 0 <= x < before.len() && before[x] == t;
                let j = if x < i { x } else { x + 1 };
                assert(after[j] == t);
            }
            if t == text@ {
                assert(after[i as int] == t);
            }
        }
    }
}

/// What is reported of a message that was sent.
pub open spec fn sent_json(
    from: Seq<char>,
    message_id: Seq<char>,
    to: Seq<char>,
    subject: Seq<char>,
    timestamp: u64,
) -> json::Json {
    json::Json::Object(
        seq![
            ("from"@, json::Json::Text(from)),
            ("message_id"@, json::Json::Text(message_id)),
            ("subject"@, json::Json::Text(subject)),
            ("timestamp"@, json::Json::Unsigned(timestamp)),
            ("to"@, json::text_list(seq![to])),
        ],
    )
}

/// A schema that asks for a value of the type `name`.
pub open spec fn type_json(name: Seq<char>) -> json::Json {
    json::Json::Object(seq![("type"@, json::Json::Text(name))])
}

/// The actions the tool takes.
pub open spec fn actions() -> Seq<Seq<char>> {
    seq!["send"@, "list_recent"@, "get"@, "verify_sent"@]
}

/// The schema of the arguments' properties.
pub open spec fn properties_json() -> json::Json {
    json::Json::Object(
        seq![
            (
                "action"@,
                json::Json::Object(
                    seq![
                        ("enum"@, json::text_list(actions())),
                        ("type"@, json::Json::Text("string"@)),
                    ],
                ),
            ),
            ("attempt_id"@, type_json("string"@)),
            ("body"@, type_json("string"@)),
            ("folder"@, type_json("string"@)),
            ("limit"@, type_json("integer"@)),
            ("message_id"@, type_json("string"@)),
            ("subject"@, type_json("string"@)),
            ("to"@, type_json("string"@)),
        ],
    )
}

/// The schema of the arguments.
pub open spec fn schema_json() -> json::Json {
    json::Json::Object(
        seq![
            ("properties"@, properties_json()),
            ("required"@, json::text_list(seq!["action"@])),
            ("type"@, json::Json::Text("object"@)),
        ],
    )
}

/// Whether the argument `name` is reported as missing.
pub open spec fn lacks(r: Result<MailStep, MailError>, name: Seq<char>) -> bool {
    r matches Err(MailError::MissingArgument(missing)) && missing@ == name
}

/// Whether `outgoing` is a message from the account that bears the identifier which is reported of
/// it.
pub open spec fn is_outgoing(
    from: Seq<char>,
    to: Seq<char>,
    subject: Seq<char>,
    body: Seq<char>,
    outgoing: OutgoingMail,
) -> bool {
    &&& is_client_id(outgoing.message_id@)
    &&& outgoing.to@ == to
    &&& outgoing.subject@ == subject
    &&& compose::email_shape(from, to, subject, body, outgoing.message_id@) matches Ok(shape)
        && outgoing.email.has_shape(shape)
    &&& outgoing.email.is_headed_by(outgoing.message_id@)
}

/// Whether no message can be composed under some identifier, for the reason `reason`.
pub open spec fn is_unsendable(
    from: Seq<char>,
    to: Seq<char>,
    subject: Seq<char>,
    body: Seq<char>,
    reason: Seq<char>,
) -> bool {
    exists|id: Seq<char>| #[trigger]
        is_client_id(id) && compose::email_shape(from, to, subject, body, id) == Err::<
            compose::EmailShape,
            Seq<char>,
        >(reason)
}

/// The identifier that the tool makes from a drawn UUID.
pub open spec fn client_id(uuid: Seq<char>) -> Seq<char> {
    "<zeroclaw-"@ + uuid + "@local>"@
}

/// Whether `id` is an identifier as the tool makes them.
pub open spec fn is_client_id(id: Seq<char>) -> bool {
    exists|uuid: Seq<char>| #[trigger] identifier::is_uuid(uuid) && id == client_id(uuid)
}

/// What is drawn apart leads to identifiers that differ.
pub proof fn law_identifiers_differ(a: Seq<char>, b: Seq<char>)
    requires
        a != b,
    ensures
        client_id(a) != client_id(b),
{
    let head = "<zeroclaw-"@.len() as int;
    let tail = "@local>"@.len();
    assert(client_id(a).subrange(head, client_id(a).len() - tail) =~= a);
    assert(client_id(b).subrange(head, client_id(b).len() - tail) =~= b);
}

/// An identifier as the tool makes them is made of visible ASCII characters.
proof fn lemma_client_id_is_word(uuid: Seq<char>)
    requires
        identifier::is_uuid(uuid),
    ensures
        compose::is_ascii_word(client_id(uuid)),
{
    reveal_strlit("<zeroclaw-");
    reveal_strlit("@local>");
    let id = client_id(uuid);
    assert forall|i: int| 0 <= i < id.len() implies '!' <= #[trigger] id[i] && id[i] <= '~' by {
        if 10 <= i < 46 {
            assert(id[i] == uuid[i - 10]);
            assert(identifier::is_hex_digit(uuid[i - 10]) || uuid[i - 10] == '-');
        }
    }
}

/// Whether sending comes to `r`: the first missing argument is reported, then what keeps the
/// message from being composed.
pub open spec fn may_send(config: EmailConfig, args: json::Json, r: Result<MailStep, MailError>) -> bool {
    match (
        json::text_field(args, "to"@),
        json::text_field(args, "subject"@),
        json::text_field(args, "body"@),
    ) {
        (Some(to), Some(subject), Some(body)) => match r {
            Ok(MailStep::Send(outgoing)) => is_outgoing(
                config.from_address@,
                to,
                subject,
                body,
                outgoing,
            ),
            Err(MailError::Unsendable(reason)) => is_unsendable(
                config.from_address@,
                to,
                subject,
                body,
                reason@,
            ),
            _ => false,
        },
        (None, _, _) => lacks(r, "to"@),
        (_, None, _) => lacks(r, "subject"@),
        _ => lacks(r, "body"@),
    }
}

/// Whether a lookup is started, at its first folder.
pub open spec fn starts_scan(
    config: EmailConfig,
    args: json::Json,
    query: scan::QueryView,
    r: Result<MailStep, MailError>,
) -> bool {
    &&& r matches Ok(MailStep::Scan(s))
    &&& s@.next == 0
    &&& s@.collected.len() == 0
    &&& s@.query == query
    &&& lists_candidates(config.imap_folder@, json::text_field(args, "folder"@), s@.folders)
}

/// How many messages are to be listed.
pub open spec fn list_limit(args: json::Json) -> nat {
    match json::unsigned_field(args, "limit"@) {
        Some(n) => if n <= usize::MAX {
            n as nat
        } else {
            usize::MAX as nat
        },
        None => DEFAULT_LIST_LIMIT as nat,
    }
}

/// The time from which on a message is fresh.
pub open spec fn freshness_cutoff(now: u64) -> u64 {
    if now >= FRESHNESS_SECS {
        (now - FRESHNESS_SECS) as u64
    } else {
        0
    }
}

/// Whether the arguments `args` at the time `now` come to `r`.
pub open spec fn may_execute(
    config: EmailConfig,
    args: json::Json,
    now: u64,
    r: Result<MailStep, MailError>,
) -> bool {
    match json::text_field(args, "action"@) {
        None => lacks(r, "action"@),
        Some(action) => if action == "send"@ {
            may_send(config, args, r)
        } else if action == "list_recent"@ {
            starts_scan(
                config,
                args,
                scan::QueryView::ListRecent { limit: list_limit(args) },
                r,
            )
        } else if action == "get"@ {
            match json::text_field(args, "message_id"@) {
                Some(message_id) => starts_scan(
                    config,
                    args,
                    scan::QueryView::Get { message_id },
                    r,
                ),
                None => lacks(r, "message_id"@),
            }
        } else if action == "verify_sent"@ {
            match json::text_field(args, "attempt_id"@) {
                Some(attempt_id) => starts_scan(
                    config,
                    args,
                    scan::QueryView::VerifySent {
                        attempt_id,
                        message_id: json::text_field(args, "message_id"@),
                        subject: json::text_field(args, "subject"@),
                        to: json::text_field(args, "to"@),
                        cutoff: freshness_cutoff(now),
                    },
                    r,
                ),
                None => lacks(r, "attempt_id"@),
            }
        } else {
            r matches Ok(MailStep::Done(t)) && t@ == result::failed(
                "Unsupported mail action: "@ + action,
            )
        },
    }
}

/// The refusal of arguments that lack `name`.
fn missing(name: &str) -> (r: MailError)
    ensures
        r matches MailError::MissingArgument(n) && n@ == name@,
{
    MailError::MissingArgument(name.to_string())
}

/// A text that is kept.
fn kept(text: Option<&str>) -> (r: Option<String>)
    ensures
        chars::string_option(r) == chars::str_option(text),
{
    match text {
        Some(t) => Some(t.to_string()),
        None => None,
    }
}

/// A schema that asks for a value of the type `name`.
fn type_schema(name: &str) -> (value: serde_json::Value)
    ensures
        json::json_of(value) == type_json(name@),
{
    let fields: Vec<(String, serde_json::Value)> = vec![json::field("type", json::text_value(name))];
    assert(json::fields_view(fields@) =~= type_json(name@)->Object_0);
    json::object_value(fields)
}

/// The schema of the action.
fn action_schema() -> (value: serde_json::Value)
    ensures
        json::json_of(value) == properties_json()->Object_0[0].1,
{
    let names: Vec<String> =
        vec![
        "send".to_string(),
        "list_recent".to_string(),
        "get".to_string(),
        "verify_sent".to_string(),
    ];
    assert(chars::string_list(names@) =~= actions());
    let fields: Vec<(String, serde_json::Value)> =
        vec![
        json::field("enum", json::texts_value(&names)),
        json::field("type", json::text_value("string")),
    ];
    proof {
        let f = json::fields_view(fields@);
        assert(f =~= properties_json()->Object_0[0].1->Object_0);
        assert(json::distinct_keys(f)) by {
            reveal_strlit("enum");
            reveal_strlit("type");
            assert("enum"@[0] != "type"@[0]);
            assert forall|i: int, j: int| 0 <= i < j < f.len() implies (#[trigger] f[i]).0 != (
            #[trigger] f[j]).0 by {
                assert(i == 0 && j == 1);
            }
        }
    }
    json::object_value(fields)
}

/// The keys of the properties are distinct.
proof fn lemma_property_keys()
    ensures
        json::distinct_keys(properties_json()->Object_0),
{
    reveal_strlit("action");
    reveal_strlit("attempt_id");
    reveal_strlit("body");
    reveal_strlit("folder");
    reveal_strlit("limit");
    reveal_strlit("message_id");
    reveal_strlit("subject");
    reveal_strlit("to");
    assert("action"@.len() == 6);
    assert("attempt_id"@.len() == 10);
    assert("body"@.len() == 4);
    assert("folder"@.len() == 6);
    assert("limit"@.len() == 5);
    assert("message_id"@.len() == 10);
    assert("subject"@.len() == 7);
    assert("to"@.len() == 2);
    assert("action"@[0] != "folder"@[0]);
    assert("attempt_id"@[0] != "message_id"@[0]);
    let f = properties_json()->Object_0;
    assert forall|i: int, j: int| 0 <= i < j < f.len() implies (#[trigger] f[i]).0 != (
    #[trigger] f[j]).0 by {
        assert(i == 0 || i == 1 || i == 2 || i == 3 || i == 4 || i == 5 || i == 6);
        assert(j == 1 || j == 2 || j == 3 || j == 4 || j == 5 || j == 6 || j == 7);
    }
}

/// The schema of the arguments' properties.
fn properties_schema() -> (value: serde_json::Value)
    ensures
        json::json_of(value) == properties_json(),
{
    let fields: Vec<(String, serde_json::Value)> =
        vec![
        json::field("action", action_schema()),
        json::field("attempt_id", type_schema("string")),
        json::field("body", type_schema("string")),
        json::field("folder", type_schema("string")),
        json::field("limit", type_schema("integer")),
        json::field("message_id", type_schema("string")),
        json::field("subject", type_schema("string")),
        json::field("to", type_schema("string")),
    ];
    proof {
        assert(json::fields_view(fields@) =~= properties_json()->Object_0);
        lemma_property_keys();
    }
    json::object_value(fields)
}

impl MailTool {
    /// A tool for the account.
    pub fn new(config: EmailConfig) -> (r: MailTool)
        ensures
            r.config == config,
    {
        MailTool { config }
    }

    /// The name of the tool.
    pub fn name(&self) -> (r: &str)
        ensures
            r@ == "mail"@,
    {
        "mail"
    }

    /// What the tool is for.
    pub fn description(&self) -> (r: &str)
        ensures
            r@
                == "Send and verify email over the configured IMAP/SMTP account. Prefer this over shell or browser email flows when available."@,
    {
        "Send and verify email over the configured IMAP/SMTP account. Prefer this over shell or browser email flows when available."
    }

    /// The schema of the arguments.
    pub fn parameters_schema(&self) -> (value: serde_json::Value)
        ensures
            json::json_of(value) == schema_json(),
    {
        let required: Vec<String> = vec!["action".to_string()];
        assert(chars::string_list(required@) =~= seq!["action"@]);
        let fields: Vec<(String, serde_json::Value)> =
            vec![
            json::field("properties", properties_schema()),
            json::field("required", json::texts_value(&required)),
            json::field("type", json::text_value("object")),
        ];
        proof {
            let f = json::fields_view(fields@);
            assert(f =~= schema_json()->Object_0);
            assert(json::distinct_keys(f)) by {
                reveal_strlit("properties");
                reveal_strlit("required");
                reveal_strlit("type");
                assert("properties"@.len() == 10);
                assert("required"@.len() == 8);
                assert("type"@.len() == 4);
                assert forall|i: int, j: int| 0 <= i < j < f.len() implies (#[trigger] f[i]).0 != (
                #[trigger] f[j]).0 by {
                    assert(i == 0 || i == 1);
                    assert(j == 1 || j == 2);
                }
            }
        }
        json::object_value(fields)
    }

    /// Where the IMAP server is reached.
    pub fn imap_address(&self) -> (r: String)
        ensures
            r@ == self.config.imap_host@ + ":"@ + decimal::decimal(self.config.imap_port as nat),
    {
        let port = decimal::numeral(self.config.imap_port as u64);
        self.config.imap_host.clone().concat(":").concat(port.as_str())
    }

    /// The folders in which mail is looked for, in order and none twice.
    pub fn candidate_folders(&self, explicit_folder: Option<&str>) -> (r: Vec<String>)
        ensures
            lists_candidates(
                self.config.imap_folder@,
                chars::str_option(explicit_folder),
                chars::string_list(r@),
            ),
            r@.len() > 0,
    {
        let mut folders: Vec<String> = Vec::new();
        match explicit_folder {
            Some(name) => {
                let folder = chars::trim(name);
                if !folder.is_empty() {
                    insert_text(&mut folders, folder.to_string());
                }
            },
            None => {},
        }
        insert_text(&mut folders, "Sent".to_string());
        insert_text(&mut folders, "Sent Messages".to_string());
        insert_text(&mut folders, "INBOX".to_string());
        insert_text(&mut folders, self.config.imap_folder.clone());
        assert(chars::string_list(folders@).contains("Sent"@));
        folders
    }

    /// What is answered once a message is sent.
    pub fn send_metadata(&self, message_id: &str, to: &str, subject: &str, timestamp: u64) -> (r:
        ToolResult)
        ensures
            r@ == result::succeeded(
                sent_json(self.config.from_address@, message_id@, to@, subject@, timestamp),
            ),
    {
        let recipients: Vec<String> = vec![to.to_string()];
        assert(chars::string_list(recipients@) =~= seq![to@]);
        let fields: Vec<(String, serde_json::Value)> =
            vec![
            json::field("from", json::text_value(self.config.from_address.as_str())),
            json::field("message_id", json::text_value(message_id)),
            json::field("subject", json::text_value(subject)),
            json::field("timestamp", json::number_value(timestamp)),
            json::field("to", json::texts_value(&recipients)),
        ];
        proof {
            let f = json::fields_view(fields@);
            assert(f =~= sent_json(
                self.config.from_address@,
                message_id@,
                to@,
                subject@,
                timestamp,
            )->Object_0);
            assert(json::distinct_keys(f)) by {
                record::lemma_record_keys();
                assert forall|i: int, j: int| 0 <= i < j < f.len() implies (#[trigger] f[i]).0 != (
                #[trigger] f[j]).0 by {
                    assert(i == 0 || i == 1 || i == 2 || i == 3);
                    assert(j == 1 || j == 2 || j == 3 || j == 4);
                }
            }
        }
        let value = json::object_value(fields);
        result::success(&value)
    }

    /// Composes a message under the identifier made from `uuid`, which the message bears.
    pub fn prepare_send_as(&self, uuid: &str, to: &str, subject: &str, body: &str) -> (r: Result<
        OutgoingMail,
        MailError,
    >)
        requires
            identifier::is_uuid(uuid@),
        ensures
            (match (
                r,
                compose::email_shape(
                    self.config.from_address@,
                    to@,
                    subject@,
                    body@,
                    client_id(uuid@),
                ),
            ) {
                (Ok(outgoing), Ok(shape)) => {
                    &&& outgoing.message_id@ == client_id(uuid@)
                    &&& outgoing.to@ == to@
                    &&& outgoing.subject@ == subject@
                    &&& outgoing.email.has_shape(shape)
                    &&& outgoing.email.is_headed_by(client_id(uuid@))
                },
                (Err(MailError::Unsendable(reason)), Err(text)) => reason@ == text,
                _ => false,
            }),
    {
        let message_id = "<zeroclaw-".to_string().concat(uuid).concat("@local>");
        proof {
            lemma_client_id_is_word(uuid@);
        }
        match compose::compose_email(
            self.config.from_address.as_str(),
            to,
            subject,
            body,
            message_id.as_str(),
        ) {
            Ok(email) => Ok(
                OutgoingMail {
                    message_id,
                    to: to.to_string(),
                    subject: subject.to_string(),
                    email,
                },
            ),
            Err(reason) => Err(MailError::Unsendable(reason)),
        }
    }

    /// Composes a message under an identifier made from a freshly drawn UUID, which the message
    /// bears.
    pub fn prepare_send(&self, to: &str, subject: &str, body: &str) -> (r: Result<
        OutgoingMail,
        MailError,
    >)
        ensures
            (match r {
                Ok(outgoing) => is_outgoing(
                    self.config.from_address@,
                    to@,
                    subject@,
                    body@,
                    outgoing,
                ),
                Err(MailError::Unsendable(reason)) => is_unsendable(
                    self.config.from_address@,
                    to@,
                    subject@,
                    body@,
                    reason@,
                ),
                Err(_) => false,
            }),
    {
        let uuid = identifier::fresh_uuid();
        assert(is_client_id(client_id(uuid@)));
        self.prepare_send_as(uuid.as_str(), to, subject, body)
    }

    /// What is answered once `outgoing` is sent, at the time `timestamp`.
    pub fn finish_send(&self, outgoing: &OutgoingMail, timestamp: u64) -> (r: ToolResult)
        ensures
            r@ == result::succeeded(
                sent_json(
                    self.config.from_address@,
                    outgoing.message_id@,
                    outgoing.to@,
                    outgoing.subject@,
                    timestamp,
                ),
            ),
    {
        self.send_metadata(
            outgoing.message_id.as_str(),
            outgoing.to.as_str(),
            outgoing.subject.as_str(),
            timestamp,
        )
    }

    /// Starts to look through the folders.
    fn start_scan(&self, args: &serde_json::Value, query: MailQuery) -> (r: MailStep)
        ensures
            starts_scan(
                self.config,
                json::json_of(*args),
                query@,
                Ok::<MailStep, MailError>(r),
            ),
    {
        let folders = self.candidate_folders(json::text_argument(args, "folder"));
        MailStep::Scan(MailScan::start(folders, query))
    }

    /// What the arguments ask for. `now` is the time in seconds since the epoch.
    pub fn execute(&self, args: &serde_json::Value, now: u64) -> (r: Result<MailStep, MailError>)
        ensures
            may_execute(self.config, json::json_of(*args), now, r),
    {
        let action = match json::text_argument(args, "action") {
            Some(action) => action,
            None => return Err(missing("action")),
        };
        if chars::same_text(action, "send") {
            let to = match json::text_argument(args, "to") {
                Some(to) => to,
                None => return Err(missing("to")),
            };
            let subject = match json::text_argument(args, "subject") {
                Some(subject) => subject,
                None => return Err(missing("subject")),
            };
            let body = match json::text_argument(args, "body") {
                Some(body) => body,
                None => return Err(missing("body")),
            };
            match self.prepare_send(to, subject, body) {
                Ok(outgoing) => Ok(MailStep::Send(outgoing)),
                Err(error) => Err(error),
            }
        } else if chars::same_text(action, "list_recent") {
            let limit: usize = match json::unsigned_argument(args, "limit") {
                Some(n) => if n <= usize::MAX as u64 {
                    n as usize
                } else {
                    usize::MAX
                },
                None => DEFAULT_LIST_LIMIT,
            };
            Ok(self.start_scan(args, MailQuery::ListRecent { limit }))
        } else if chars::same_text(action, "get") {
            match json::text_argument(args, "message_id") {
                Some(message_id) => Ok(
                    self.start_scan(args, MailQuery::Get { message_id: message_id.to_string() }),
                ),
                None => Err(missing("message_id")),
            }
        } else if chars::same_text(action, "verify_sent") {
            let attempt_id = match json::text_argument(args, "attempt_id") {
                Some(attempt_id) => attempt_id.to_string(),
                None => return Err(missing("attempt_id")),
            };
            let query = MailQuery::VerifySent {
                attempt_id,
                message_id: kept(json::text_argument(args, "message_id")),
                subject: kept(json::text_argument(args, "subject")),
                to: kept(json::text_argument(args, "to")),
                cutoff: now.saturating_sub(FRESHNESS_SECS),
            };
            Ok(self.start_scan(args, query))
        } else {
            Ok(
                MailStep::Done(
                    result::failure("Unsupported mail action: ".to_string().concat(action)),
                ),
            )
        }
    }
}

} // verus!
