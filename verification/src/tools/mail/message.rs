//! From the raw bytes of a message to the record that is kept of it.
use crate::text::{chars, words};
use crate::tools::mail::calendar;
use crate::tools::mail::calendar::MailDate;
use crate::tools::mail::identifier;
use crate::tools::mail::record;
use crate::tools::mail::record::MailRecord;
use mail_parser::MimeHeaders;
use vstd::prelude::*;

verus! {

/// How much of an HTML body or an attachment is kept as a preview.
pub const PREVIEW_CHARS: usize = 400;

/// What is read of the headers of a message. A list of addresses holds nothing for a mailbox
/// without an address.
#[derive(Debug, Clone)]
pub struct MailHeaders {
    pub from: Option<Vec<Option<String>>>,
    pub to: Option<Vec<Option<String>>>,
    pub subject: Option<String>,
    pub message_id: Option<String>,
    pub date: Option<MailDate>,
}

/// An attachment: the main part of its content type, where it has one, and its bytes.
#[derive(Debug, Clone)]
pub struct MailAttachment {
    pub main_type: Option<String>,
    pub contents: Vec<u8>,
}

/// What is read of the body of a message.
#[derive(Debug, Clone)]
pub struct MailContent {
    pub text: Option<String>,
    pub html: Option<String>,
    pub attachments: Vec<MailAttachment>,
}

/// What a `MailHeaders` says.
#[verifier::ext_equal]
pub struct HeadersView {
    pub from: Option<Seq<Option<Seq<char>>>>,
    pub to: Option<Seq<Option<Seq<char>>>>,
    pub subject: Option<Seq<char>>,
    pub message_id: Option<Seq<char>>,
    pub date: Option<MailDate>,
}

/// What a `MailAttachment` says.
#[verifier::ext_equal]
pub struct AttachmentView {
    pub main_type: Option<Seq<char>>,
    pub contents: Seq<u8>,
}

/// What a `MailContent` says.
#[verifier::ext_equal]
pub struct ContentView {
    pub text: Option<Seq<char>>,
    pub html: Option<Seq<char>>,
    pub attachments: Seq<AttachmentView>,
}

/// What a list of addresses says.
pub open spec fn address_views(addresses: Option<Vec<Option<String>>>) -> Option<
    Seq<Option<Seq<char>>>,
> {
    match addresses {
        Some(list) => Some(list@.map_values(|a: Option<String>| chars::string_option(a))),
        None => None,
    }
}

impl View for MailHeaders {
    type V = HeadersView;

    open spec fn view(&self) -> HeadersView {
        HeadersView {
            from: address_views(self.from),
            to: address_views(self.to),
            subject: chars::string_option(self.subject),
            message_id: chars::string_option(self.message_id),
            date: self.date,
        }
    }
}

impl View for MailAttachment {
    type V = AttachmentView;

    open spec fn view(&self) -> AttachmentView {
        AttachmentView {
            main_type: chars::string_option(self.main_type),
            contents: self.contents@,
        }
    }
}

impl View for MailContent {
    type V = ContentView;

    open spec fn view(&self) -> ContentView {
        ContentView {
            text: chars::string_option(self.text),
            html: chars::string_option(self.html),
            attachments: self.attachments@.map_values(|a: MailAttachment| a@),
        }
    }
}

/// The headers that `mail_parser` reads in the bytes of a message, where it reads a message there.
pub uninterp spec fn parsed_headers(raw: Seq<u8>) -> Option<HeadersView>;

/// The body that `mail_parser` reads in the bytes of a message, where it reads a message there.
pub uninterp spec fn parsed_content(raw: Seq<u8>) -> Option<ContentView>;

/// `mail_parser::MessageParser::parse`, and of the message the sender, the recipients, the subject,
/// the identifier and the date. They depend on the bytes alone.
#[verifier::external_body]
fn parse_headers(raw: &[u8]) -> (r: Option<MailHeaders>)
    ensures
        (match r {
            Some(headers) => parsed_headers(raw@) == Some(headers@),
            None => parsed_headers(raw@) is None,
        }),
{
    let message = mail_parser::MessageParser::default().parse(raw)?;
    let list = |all: &mail_parser::Address| {
        all.iter().map(|one| one.address().map(str::to_owned)).collect()
    };
    Some(MailHeaders {
        from: message.from().map(list),
        to: message.to().map(list),
        subject: message.subject().map(str::to_owned),
        message_id: message.message_id().map(str::to_owned),
        date: message.date().map(|d| MailDate {
            year: d.year, month: d.month, day: d.day, hour: d.hour, minute: d.minute, second: d.second,
        }),
    })
}

/// `mail_parser::MessageParser::parse`, and of the message the first body as text, the first body
/// as HTML and the attachments. They depend on the bytes alone.
#[verifier::external_body]
fn parse_content(raw: &[u8]) -> (r: Option<MailContent>)
    ensures
        (match r {
            Some(content) => parsed_content(raw@) == Some(content@),
            None => parsed_content(raw@) is None,
        }),
{
    let message = mail_parser::MessageParser::default().parse(raw)?;
    Some(MailContent {
        text: message.body_text(0).map(|text| text.into_owned()),
        html: message.body_html(0).map(|text| text.into_owned()),
        attachments: message.attachments().map(|part| MailAttachment {
            main_type: part.content_type().map(|kind| kind.ctype().to_owned()),
            contents: part.contents().to_vec(),
        }).collect(),
    })
}

/// `std::str::from_utf8`: the text that the bytes encode, where they are valid UTF-8.
#[verifier::external_body]
fn utf8_text(bytes: &[u8]) -> (r: Option<&str>)
    ensures
        r is Some <==> vstd::utf8::valid_utf8(bytes@),
        r is Some ==> r->0@ == vstd::utf8::decode_utf8(bytes@),
{
    std::str::from_utf8(bytes).ok()
}

/// Whether an attachment is readable text.
pub open spec fn is_readable(a: AttachmentView) -> bool {
    a.main_type == Some("text"@) && vstd::utf8::valid_utf8(a.contents)
}

/// The start of the first attachment that is readable text, nothing where there is none.
pub open spec fn attached_text(attachments: Seq<AttachmentView>) -> Seq<char>
    decreases attachments.len(),
{
    if attachments.len() == 0 {
        Seq::empty()
    } else if is_readable(attachments[0]) {
        chars::first_chars(
            vstd::utf8::decode_utf8(attachments[0].contents),
            PREVIEW_CHARS as nat,
        )
    } else {
        attached_text(attachments.drop_first())
    }
}

/// The preview of a message: its text, or the start of its HTML with white space collapsed, or
/// what is attached as text.
pub open spec fn preview(content: ContentView) -> Seq<char> {
    match content.text {
        Some(text) => text,
        None => match content.html {
            Some(html) => chars::first_chars(
                words::joined(words::words(html), seq![' ']),
                PREVIEW_CHARS as nat,
            ),
            None => attached_text(content.attachments),
        },
    }
}

/// The address of the first sender, `unknown` where there is none.
pub open spec fn sender(from: Option<Seq<Option<Seq<char>>>>) -> Seq<char> {
    match from {
        Some(list) if list.len() > 0 && list[0] is Some => list[0]->0,
        _ => "unknown"@,
    }
}

/// The addresses in a list, without the mailboxes that have none.
pub open spec fn present(list: Seq<Option<Seq<char>>>) -> Seq<Seq<char>>
    decreases list.len(),
{
    if list.len() == 0 {
        Seq::empty()
    } else {
        match list.last() {
            Some(address) => present(list.drop_last()).push(address),
            None => present(list.drop_last()),
        }
    }
}

/// The addresses of the recipients.
pub open spec fn recipients(to: Option<Seq<Option<Seq<char>>>>) -> Seq<Seq<char>> {
    match to {
        Some(list) => present(list),
        None => Seq::empty(),
    }
}

/// The record of a message found in `folder`. Where the message has no identifier, one is made
/// from `fresh`.
pub open spec fn record_of(
    folder: Seq<char>,
    headers: HeadersView,
    content: ContentView,
    fresh: Seq<char>,
) -> record::RecordView {
    record::RecordView {
        folder,
        message_id: match headers.message_id {
            Some(id) => id,
            None => "generated-"@ + fresh,
        },
        from: sender(headers.from),
        to: recipients(headers.to),
        subject: match headers.subject {
            Some(subject) => subject,
            None => "(no subject)"@,
        },
        timestamp: calendar::message_time(headers.date) as u64,
        body_preview: preview(content),
    }
}

/// The record of a fetched message, where its body came with it and reads as a message.
pub open spec fn fetched_record(
    folder: Seq<char>,
    body: Option<Seq<u8>>,
    fresh: Seq<char>,
) -> Option<record::RecordView> {
    match body {
        Some(raw) => match (parsed_headers(raw), parsed_content(raw)) {
            (Some(headers), Some(content)) => Some(record_of(folder, headers, content, fresh)),
            _ => None,
        },
        None => None,
    }
}

/// The view of bytes that may be absent.
pub open spec fn bytes_option(bytes: Option<Vec<u8>>) -> Option<Seq<u8>> {
    match bytes {
        Some(b) => Some(b@),
        None => None,
    }
}

/// The records of the fetched messages, in order; `fresh` holds an identifier for each message.
pub open spec fn fetched_records(
    folder: Seq<char>,
    bodies: Seq<Option<Vec<u8>>>,
    fresh: Seq<Seq<char>>,
) -> Seq<record::RecordView>
    decreases bodies.len(),
{
    if bodies.len() == 0 {
        Seq::empty()
    } else {
        let earlier = fetched_records(folder, bodies.drop_last(), fresh.drop_last());
        match fetched_record(folder, bytes_option(bodies.last()), fresh.last()) {
            Some(r) => earlier.push(r),
            None => earlier,
        }
    }
}

/// The preview of a message.
pub fn extract_text(content: &MailContent) -> (r: String)
    ensures
        r@ == preview(content@),
{
    match &content.text {
        Some(text) => return text.clone(),
        None => {},
    }
    match &content.html {
        Some(html) => {
            let collapsed = words::single_spaced(html.as_str());
            return chars::keep_first(collapsed.as_str(), PREVIEW_CHARS).to_string();
        },
        None => {},
    }
    let ghost views = content@.attachments;
    let mut i: usize = 0;
    assert(views.skip(0) =~= views);
    while i < content.attachments.len()
        invariant
            i <= content.attachments.len(),
            views == content@.attachments,
            preview(content@) == attached_text(views),
            attached_text(views) == attached_text(views.skip(i as int)),
        decreases content.attachments.len() - i,
    {
        let part = &content.attachments[i];
        proof {
            assert(views.skip(i as int)[0] == part@);
            assert(views.skip(i as int).drop_first() =~= views.skip(i + 1));
        }
        let is_text = match &part.main_type {
            Some(kind) => chars::same_text(kind.as_str(), "text"),
            None => false,
        };
        if is_text {
            match utf8_text(part.contents.as_slice()) {
                Some(text) => return chars::keep_first(text, PREVIEW_CHARS).to_string(),
                None => {},
            }
        }
        i = i + 1;
    }
    assert(views.skip(i as int) =~= Seq::<AttachmentView>::empty());
    String::new()
}

/// The address of the first sender.
fn sender_address(from: &Option<Vec<Option<String>>>) -> (r: String)
    ensures
        r@ == sender(address_views(*from)),
{
    match from {
        Some(list) => if list.len() > 0 {
            match &list[0] {
                Some(address) => return address.clone(),
                None => {},
            }
        },
        None => {},
    }
    "unknown".to_string()
}

/// The addresses of the recipients.
fn recipient_addresses(to: &Option<Vec<Option<String>>>) -> (r: Vec<String>)
    ensures
        chars::string_list(r@) == recipients(address_views(*to)),
{
    let mut out: Vec<String> = Vec::new();
    match to {
        Some(list) => {
            let ghost views = address_views(*to)->0;
            let mut i: usize = 0;
            assert(chars::string_list(out@) =~= present(views.take(0)));
            while i < list.len()
                invariant
                    i <= list.len(),
                    *to == Some(*list),
                    views == address_views(*to)->0,
                    chars::string_list(out@) == present(views.take(i as int)),
                decreases list.len() - i,
            {
                let ghost before = out@;
                proof {
                    assert(views.take(i + 1).drop_last() =~= views.take(i as int));
                    assert(views.take(i + 1).last() == chars::string_option(list@[i as int]));
                }
                match &list[i] {
                    Some(address) => {
                        out.push(address.clone());
                        assert(chars::string_list(out@) =~= chars::string_list(before).push(
                            address@,
                        ));
                    },
                    None => {},
                }
                i = i + 1;
            }
            assert(views.take(i as int) =~= views);
        },
        None => {
            assert(chars::string_list(out@) =~= Seq::<Seq<char>>::empty());
        },
    }
    out
}

/// The record of a message found in `folder`. Where the message has no identifier, one is made
/// from `fresh`.
pub fn build_record(folder: &str, headers: &MailHeaders, content: &MailContent, fresh: &str) -> (r:
    MailRecord)
    ensures
        r@ == record_of(folder@, headers@, content@, fresh@),
{
    MailRecord {
        folder: folder.to_string(),
        message_id: match &headers.message_id {
            Some(id) => id.clone(),
            None => "generated-".to_string().concat(fresh),
        },
        from: sender_address(&headers.from),
        to: recipient_addresses(&headers.to),
        subject: match &headers.subject {
            Some(subject) => subject.clone(),
            None => "(no subject)".to_string(),
        },
        timestamp: calendar::timestamp(headers.date),
        body_preview: extract_text(content),
    }
}

/// The record of a fetched message, where its body came with it and reads as a message.
pub fn parse_fetch(folder: &str, body: Option<&[u8]>) -> (r: Option<MailRecord>)
    ensures
        exists|fresh: Seq<char>|
            {
                &&& #[trigger] identifier::is_uuid(fresh)
                &&& match body {
                    Some(raw) => fetched_record(folder@, Some(raw@), fresh) == (match r {
                        Some(found) => Some(found@),
                        None => None,
                    }),
                    None => r is None,
                }
            },
{
    let fresh = identifier::fresh_uuid();
    let r = match body {
        Some(raw) => match parse_headers(raw) {
            Some(headers) => match parse_content(raw) {
                Some(content) => Some(
                    build_record(folder, &headers, &content, fresh.as_str()),
                ),
                None => None,
            },
            None => None,
        },
        None => None,
    };
    assert(identifier::is_uuid(fresh@));
    r
}

/// The records of the fetched messages, in order.
pub fn parse_fetches(folder: &str, bodies: &Vec<Option<Vec<u8>>>) -> (r: Vec<MailRecord>)
    ensures
        exists|fresh: Seq<Seq<char>>|
            {
                &&& fresh.len() == bodies@.len()
                &&& forall|i: int| 0 <= i < fresh.len() ==> identifier::is_uuid(#[trigger] fresh[i])
                &&& record::record_views(r@) == #[trigger] fetched_records(folder@, bodies@, fresh)
            },
{
    let mut out: Vec<MailRecord> = Vec::new();
    let ghost mut fresh: Seq<Seq<char>> = Seq::empty();
    let mut i: usize = 0;
    assert(record::record_views(out@) =~= fetched_records(folder@, bodies@.take(0), fresh));
    while i < bodies.len()
        invariant
            i <= bodies.len(),
            fresh.len() == i,
            forall|j: int| 0 <= j < fresh.len() ==> identifier::is_uuid(#[trigger] fresh[j]),
            record::record_views(out@) == fetched_records(folder@, bodies@.take(i as int), fresh),
        decreases bodies.len() - i,
    {
        let ghost before = out@;
        let body = match &bodies[i] {
            Some(bytes) => Some(bytes.as_slice()),
            None => None,
        };
        let found = parse_fetch(folder, body);
        proof {
            let id = choose|id: Seq<char>|
                {
                    &&& #[trigger] identifier::is_uuid(id)
                    &&& match body {
                        Some(raw) => fetched_record(folder@, Some(raw@), id) == (match found {
                            Some(f) => Some(f@),
                            None => None,
                        }),
                        None => found is None,
                    }
                };
            assert(bodies@.take(i + 1).drop_last() =~= bodies@.take(i as int));
            assert(bodies@.take(i + 1).last() == bodies@[i as int]);
            assert(fresh.push(id).drop_last() =~= fresh);
            fresh = fresh.push(id);
        }
        match found {
            Some(r) => {
                out.push(r);
                assert(record::record_views(out@) =~= record::record_views(before).push(r@));
            },
            None => {},
        }
        i = i + 1;
    }
    assert(bodies@.take(i as int) =~= bodies@);
    out
}

} // verus!
