//! Fetching messages and reading them.
use zeroclaw::tools::mail::calendar::timestamp;
use zeroclaw::tools::mail::calendar::MailDate;
use zeroclaw::tools::mail::listing::fetch_request;
use zeroclaw::tools::mail::listing::render_uid_set;
use zeroclaw::tools::mail::listing::select_recent;
use zeroclaw::tools::mail::message::build_record;
use zeroclaw::tools::mail::message::extract_text;
use zeroclaw::tools::mail::message::parse_fetch;
use zeroclaw::tools::mail::message::parse_fetches;
use zeroclaw::tools::mail::message::MailAttachment;
use zeroclaw::tools::mail::message::MailContent;
use zeroclaw::tools::mail::message::MailHeaders;
use zeroclaw::tools::mail::record::sort_newest_first;
use zeroclaw::tools::mail::record::MailRecord;

fn date(year: u16, month: u8, day: u8, hour: u8, minute: u8, second: u8) -> Option<MailDate> {
    Some(MailDate { year, month, day, hour, minute, second })
}

fn content() -> MailContent {
    MailContent { text: None, html: None, attachments: Vec::new() }
}

fn attachment(main_type: Option<&str>, contents: &[u8]) -> MailAttachment {
    MailAttachment { main_type: main_type.map(|t| t.to_string()), contents: contents.to_vec() }
}

fn record(message_id: &str, timestamp: u64) -> MailRecord {
    MailRecord {
        folder: "Sent".to_string(),
        message_id: message_id.to_string(),
        from: "a@example.com".to_string(),
        to: vec!["b@example.com".to_string()],
        subject: "s".to_string(),
        timestamp,
        body_preview: String::new(),
    }
}

#[test]
fn dates_are_seconds_since_the_epoch() {
    assert_eq!(timestamp(date(1970, 1, 1, 0, 0, 0)), 0);
    assert_eq!(timestamp(date(2000, 2, 29, 12, 0, 1)), 951825601);
    assert_eq!(timestamp(date(2001, 9, 9, 1, 46, 40)), 1000000000);
    assert_eq!(timestamp(date(2026, 3, 5, 23, 59, 59)), 1772755199);
    assert_eq!(timestamp(date(2100, 3, 1, 0, 0, 0)), 4107542400);
}

#[test]
fn missing_or_impossible_dates_are_zero() {
    assert_eq!(timestamp(None), 0);
    assert_eq!(timestamp(date(2001, 2, 29, 0, 0, 0)), 0);
    assert_eq!(timestamp(date(1900, 2, 29, 0, 0, 0)), 0);
    assert_eq!(timestamp(date(2001, 13, 1, 0, 0, 0)), 0);
    assert_eq!(timestamp(date(2001, 0, 1, 0, 0, 0)), 0);
    assert_eq!(timestamp(date(2001, 4, 31, 0, 0, 0)), 0);
    assert_eq!(timestamp(date(2001, 1, 0, 0, 0, 0)), 0);
    assert_eq!(timestamp(date(2001, 1, 1, 24, 0, 0)), 0);
    assert_eq!(timestamp(date(2001, 1, 1, 0, 60, 0)), 0);
    assert_eq!(timestamp(date(2016, 12, 31, 23, 59, 60)), 0);
}

#[test]
fn dates_before_the_epoch_are_zero() {
    assert_eq!(timestamp(date(1969, 12, 31, 23, 59, 59)), 0);
    assert_eq!(timestamp(date(1960, 1, 1, 0, 0, 0)), 0);
    assert_eq!(timestamp(date(0, 1, 1, 0, 0, 0)), 0);
    assert_eq!(timestamp(date(1970, 1, 1, 0, 0, 1)), 1);
}

#[test]
fn latest_uids_are_selected() {
    assert_eq!(select_recent(vec![5, 1, 9, 3], 2), vec![5, 9]);
    assert_eq!(select_recent(vec![5, 1, 9, 3], 10), vec![1, 3, 5, 9]);
    assert_eq!(select_recent(vec![5, 1, 9, 3], 0), vec![9]);
    assert_eq!(select_recent(vec![], 3), Vec::<u32>::new());
    assert_eq!(select_recent(vec![2, 2, 1], 2), vec![2, 2]);
}

#[test]
fn uids_are_asked_for_in_ascending_order() {
    assert_eq!(render_uid_set(&vec![3, 40, 500]), "3,40,500");
    assert_eq!(fetch_request(vec![9, 10, 2], 2), Some("9,10".to_string()));
    assert_eq!(fetch_request(vec![u32::MAX], usize::MAX), Some("4294967295".to_string()));
    assert_eq!(fetch_request(vec![], 2), None);
}

#[test]
fn text_body_is_kept_whole() {
    let mut c = content();
    let long = "x ".repeat(500);
    c.text = Some(long.clone());
    c.html = Some("<p>no</p>".to_string());
    assert_eq!(extract_text(&c), long);
}

#[test]
fn html_body_is_collapsed_and_cut() {
    let mut c = content();
    c.html = Some("  <p>a\n b</p> ".to_string());
    assert_eq!(extract_text(&c), "<p>a b</p>");
    c.html = Some("ä ".repeat(500));
    let preview = extract_text(&c);
    assert_eq!(preview.chars().count(), 400);
    assert!(preview.ends_with("ä "));
}

#[test]
fn first_readable_attachment_is_previewed() {
    let mut c = content();
    c.attachments = vec![
        attachment(Some("image"), b"png"),
        attachment(None, b"untyped"),
        attachment(Some("text"), &[0xff, 0xfe]),
        attachment(Some("text"), "grün".as_bytes()),
        attachment(Some("text"), b"later"),
    ];
    assert_eq!(extract_text(&c), "grün");
    c.attachments = vec![attachment(Some("text"), &[b'a'; 401])];
    assert_eq!(extract_text(&c), "a".repeat(400));
    assert_eq!(extract_text(&content()), "");
}

#[test]
fn record_fills_in_what_is_missing() {
    let bare =
        MailHeaders { from: None, to: None, subject: None, message_id: None, date: None };
    let r = build_record("INBOX", &bare, &content(), "f00");
    assert_eq!(r.folder, "INBOX");
    assert_eq!(r.message_id, "generated-f00");
    assert_eq!(r.from, "unknown");
    assert!(r.to.is_empty());
    assert_eq!(r.subject, "(no subject)");
    assert_eq!(r.timestamp, 0);
    assert_eq!(r.body_preview, "");
}

#[test]
fn record_keeps_what_is_there() {
    let headers = MailHeaders {
        from: Some(vec![None, Some("late@example.com".to_string())]),
        to: Some(vec![Some("b@example.com".to_string()), None, Some("c@example.com".to_string())]),
        subject: Some("Hi".to_string()),
        message_id: Some("m@example.com".to_string()),
        date: date(2001, 9, 9, 1, 46, 40),
    };
    let mut c = content();
    c.text = Some("body".to_string());
    let r = build_record("Sent", &headers, &c, "f00");
    assert_eq!(r.message_id, "m@example.com");
    assert_eq!(r.from, "unknown");
    assert_eq!(r.to, vec!["b@example.com".to_string(), "c@example.com".to_string()]);
    assert_eq!(r.subject, "Hi");
    assert_eq!(r.timestamp, 1000000000);
    assert_eq!(r.body_preview, "body");
}

const RAW: &[u8] = b"From: Ann <ann@example.com>\r\nTo: Bob <bob@example.com>, cy@example.com\r\nSubject: Greetings\r\nMessage-ID: <m1@example.com>\r\nDate: Sun, 09 Sep 2001 01:46:40 +0000\r\nContent-Type: text/plain\r\n\r\nHello there\r\n";

#[test]
fn raw_message_is_read() {
    let r = parse_fetch("Sent", Some(RAW)).expect("a message");
    assert_eq!(r.folder, "Sent");
    assert_eq!(r.message_id, "m1@example.com");
    assert_eq!(r.from, "ann@example.com");
    assert_eq!(r.to, vec!["bob@example.com".to_string(), "cy@example.com".to_string()]);
    assert_eq!(r.subject, "Greetings");
    assert_eq!(r.timestamp, 1000000000);
    assert_eq!(r.body_preview, "Hello there\r\n");
}

#[test]
fn time_zone_of_a_date_is_not_taken_into_account() {
    let raw: &[u8] = b"Subject: x\r\nDate: Sun, 09 Sep 2001 01:46:40 +1000\r\n\r\nx\r\n";
    assert_eq!(parse_fetch("INBOX", Some(raw)).expect("a message").timestamp, 1000000000);
}

#[test]
fn raw_message_without_identifier_gets_a_fresh_one() {
    let raw: &[u8] = b"Subject: x\r\n\r\n\r\n";
    let r = parse_fetch("INBOX", Some(raw)).expect("a message");
    let id = r.message_id.strip_prefix("generated-").expect("a generated identifier");
    assert_eq!(id.len(), 36);
    for (i, c) in id.chars().enumerate() {
        match i {
            8 | 13 | 18 | 23 => assert_eq!(c, '-'),
            14 => assert_eq!(c, '4'),
            19 => assert!("89ab".contains(c)),
            _ => assert!(c.is_ascii_digit() || ('a'..='f').contains(&c)),
        }
    }
    assert_eq!(r.from, "unknown");
    let again = parse_fetch("INBOX", Some(raw)).expect("a message");
    assert_ne!(r.message_id, again.message_id);
}

#[test]
fn raw_attachment_is_previewed() {
    let raw: &[u8] = b"Subject: x\r\nMIME-Version: 1.0\r\nContent-Type: multipart/mixed; boundary=B\r\n\r\n--B\r\nContent-Type: text/csv\r\nContent-Disposition: attachment; filename=a.csv\r\n\r\n1,2\r\n--B--\r\n";
    let r = parse_fetch("INBOX", Some(raw)).expect("a message");
    assert!(r.body_preview.contains("1,2"));
}

#[test]
fn raw_html_is_previewed_as_text() {
    let raw: &[u8] = b"Subject: x\r\nContent-Type: text/html\r\n\r\n<p>Hello <b>you</b></p>\r\n";
    let r = parse_fetch("INBOX", Some(raw)).expect("a message");
    assert!(r.body_preview.contains("Hello"));
    assert!(!r.body_preview.contains("<p>"));
}

#[test]
fn missing_and_empty_bodies_are_skipped() {
    assert!(parse_fetch("INBOX", None).is_none());
    let nothing: &[u8] = b"";
    assert!(parse_fetch("INBOX", Some(nothing)).is_none());
    let records = parse_fetches("INBOX", &vec![None, Some(RAW.to_vec()), Some(Vec::new()), Some(RAW.to_vec())]);
    assert_eq!(records.len(), 2);
    assert_eq!(records[0].message_id, "m1@example.com");
    assert_eq!(records[1].folder, "INBOX");
}

#[test]
fn sorting_puts_newest_first_and_is_stable() {
    let sorted = sort_newest_first(vec![
        record("a", 5),
        record("b", 9),
        record("c", 5),
        record("d", 1),
        record("e", 9),
    ]);
    let ids: Vec<&str> = sorted.iter().map(|r| r.message_id.as_str()).collect();
    assert_eq!(ids, vec!["b", "e", "a", "c", "d"]);
    assert!(sort_newest_first(Vec::new()).is_empty());
}
