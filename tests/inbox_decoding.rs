use chrono::{Datelike, Local, Timelike};
use rutt::{
    body_from_text, decode_message, emails_from_messages, format_date, parse_date_from_header,
    sort_newest_first, Email, MailDate, NameAddr, RawAddress, RawEnvelope, RawMessage,
};

fn local_date(d: chrono::DateTime<Local>) -> MailDate {
    MailDate {
        timestamp: d.timestamp(),
        year: d.year(),
        month: d.month(),
        day: d.day(),
        hour: d.hour(),
        minute: d.minute(),
    }
}

fn email(uid: u32, subject: &str, from: &str, date: MailDate, is_read: bool) -> Email {
    Email {
        _uid: uid,
        subject: subject.to_string(),
        from: NameAddr { name: None, email: Some(from.to_string()) },
        to: Vec::new(),
        cc: Vec::new(),
        bcc: Vec::new(),
        date,
        is_read,
        body: None,
    }
}

fn bytes(s: &str) -> Option<Vec<u8>> {
    Some(s.as_bytes().to_vec())
}

fn address(name: Option<&str>, mailbox: Option<&str>, host: Option<&str>) -> RawAddress {
    RawAddress { name: name.and_then(bytes), mailbox: mailbox.and_then(bytes), host: host.and_then(bytes) }
}

fn envelope(subject: Option<Vec<u8>>, from: Option<Vec<RawAddress>>) -> RawEnvelope {
    RawEnvelope { subject, from, to: None, cc: None, bcc: None }
}

fn epoch() -> MailDate {
    MailDate { timestamp: 0, year: 1970, month: 1, day: 1, hour: 0, minute: 0 }
}

#[test]
fn test_parse_date_from_header_rfc2822() {
    let header = b"Date: Wed, 15 Jan 2025 10:30:45 +0000\r\n\r\n";
    let result = parse_date_from_header(header);
    assert!(result.is_some());
    let date = result.unwrap();
    assert_eq!(&format_date(&date)[..10], "2025/01/15");
    assert_eq!(date.timestamp, 1_736_937_045);
}

#[test]
fn test_parse_date_from_header_invalid() {
    let header = b"Date: Invalid Date Format\r\n\r\n";
    assert!(parse_date_from_header(header).is_none());
}

#[test]
fn test_parse_date_from_header_missing() {
    let header = b"Subject: Test Subject\r\n\r\n";
    assert!(parse_date_from_header(header).is_none());
}

#[test]
fn date_field_name_ignores_case_and_skips_unreadable() {
    let header = b"DATE: nonsense\r\ndAtE: Wed, 15 Jan 2025 10:30:45 +0100\r\n\r\n";
    let date = parse_date_from_header(header).unwrap();
    assert_eq!(date.timestamp, 1_736_937_045 - 3600);
    assert!(parse_date_from_header(b"Dates: Wed, 15 Jan 2025 10:30:45 +0000\r\n\r\n").is_none());
}

#[test]
fn test_email_sorting() {
    let now = Local::now();
    let emails = vec![
        email(1, "First", "a@test.com", local_date(now - chrono::Duration::days(2)), false),
        email(2, "Second", "b@test.com", local_date(now - chrono::Duration::days(1)), true),
        email(3, "Third", "c@test.com", local_date(now), false),
    ];
    let emails = sort_newest_first(emails);
    assert_eq!(emails[0].subject, "Third");
    assert_eq!(emails[1].subject, "Second");
    assert_eq!(emails[2].subject, "First");
}

#[test]
fn test_email_list_creation() {
    let emails = vec![
        email(100, "Test Email 1", "sender1@example.com", local_date(Local::now()), false),
        email(
            101,
            "Test Email 2",
            "sender2@example.com",
            local_date(Local::now() - chrono::Duration::hours(1)),
            true,
        ),
    ];
    assert_eq!(emails.len(), 2);
    assert_eq!(emails[0]._uid, 100);
    assert_eq!(emails[1]._uid, 101);
    assert_ne!(emails[0].is_read, emails[1].is_read);
}

#[test]
fn test_email_field_validation() {
    let email = Email {
        _uid: 999,
        subject: String::new(),
        from: NameAddr { name: None, email: Some(String::new()) },
        to: Vec::new(),
        cc: Vec::new(),
        bcc: Vec::new(),
        date: local_date(Local::now()),
        is_read: false,
        body: None,
    };
    assert_eq!(email.subject, "");
    assert_eq!(email.from.email.as_deref(), Some(""));
    assert!(!email.is_read);
}

#[test]
fn test_long_subject_handling() {
    let long_subject = "A".repeat(100);
    let email = email(1000, &long_subject, "test@test.com", local_date(Local::now()), false);
    assert_eq!(email.subject.len(), 100);
    assert_eq!(email.subject, long_subject);
}

#[test]
fn sort_keeps_every_record() {
    let d = |t: i64| MailDate { timestamp: t, ..epoch() };
    let emails = vec![
        email(1, "a", "x", d(5), false),
        email(2, "b", "x", d(9), false),
        email(3, "c", "x", d(5), false),
        email(4, "d", "x", d(1), false),
        email(5, "e", "x", d(7), false),
    ];
    let sorted = sort_newest_first(emails);
    let stamps: Vec<i64> = sorted.iter().map(|e| e.date.timestamp).collect();
    assert_eq!(stamps, vec![9, 7, 5, 5, 1]);
    // Records 1 and 3 share an instant and keep their order.
    let uids: Vec<u32> = sorted.iter().map(|e| e._uid).collect();
    assert_eq!(uids, vec![2, 5, 1, 3, 4]);
    assert!(sort_newest_first(vec![]).is_empty());
}

#[test]
fn sender_always_has_an_address() {
    let m = RawMessage {
        uid: Some(7),
        seen: true,
        envelope: Some(envelope(bytes("Hi"), Some(vec![address(Some(""), Some("bob"), None)]))),
        header: None,
    };
    let e = decode_message(&m, epoch()).unwrap();
    assert_eq!(e._uid, 7);
    assert!(e.is_read);
    assert_eq!(e.subject, "Hi");
    assert_eq!(e.from.name, None);
    assert_eq!(e.from.email.as_deref(), Some("bob@"));
    assert_eq!(e.date, epoch());
}

#[test]
fn recipients_need_mailbox_and_host() {
    let mut env = envelope(Some(vec![0xff, 0xfe]), None);
    env.to = Some(vec![
        address(Some("Ann"), Some("ann"), Some("x.org")),
        address(None, Some("solo"), None),
        address(Some(""), Some("cy"), Some("z.net")),
    ]);
    env.cc = Some(vec![address(Some("Dee"), None, Some("y.org"))]);
    let m = RawMessage { uid: None, seen: false, envelope: Some(env), header: None };
    let e = decode_message(&m, epoch()).unwrap();
    assert_eq!(e._uid, 0);
    assert_eq!(e.subject, "(no subject)");
    assert_eq!(e.from.name, None);
    assert_eq!(e.from.email, None);
    assert_eq!(e.to.len(), 3);
    assert_eq!(e.to[0].to_string(), "Ann <ann@x.org>");
    assert_eq!(e.to[1].name, None);
    assert_eq!(e.to[1].email, None);
    assert_eq!(e.to[2].to_string(), "cy@z.net");
    assert_eq!(e.cc[0].to_string(), "Dee <(unknown)>");
    assert!(e.bcc.is_empty());
}

#[test]
fn messages_without_envelope_are_skipped() {
    let dated = RawMessage {
        uid: Some(1),
        seen: false,
        envelope: Some(envelope(bytes("old"), None)),
        header: bytes("Date: Wed, 15 Jan 2025 10:30:45 +0000\r\n\r\n"),
    };
    let bare = RawMessage { uid: Some(2), seen: false, envelope: None, header: None };
    let undated = RawMessage {
        uid: Some(3),
        seen: false,
        envelope: Some(envelope(bytes("new"), None)),
        header: bytes("Subject: x\r\n\r\n"),
    };
    let now = MailDate { timestamp: 1_800_000_000, ..epoch() };
    assert!(decode_message(&bare, now).is_none());
    let emails = emails_from_messages(&vec![dated, bare, undated], now);
    assert_eq!(emails.len(), 2);
    assert_eq!(emails[0]._uid, 3);
    assert_eq!(emails[0].date, now);
    assert_eq!(emails[1]._uid, 1);
    assert_eq!(emails[1].date.timestamp, 1_736_937_045);
}

#[test]
fn body_text_forms() {
    assert_eq!(body_from_text(&bytes("Hello\nworld")), "Hello\nworld");
    assert_eq!(body_from_text(&Some(vec![0xc3, 0x28])), "(Unable to decode message body)");
    assert_eq!(body_from_text(&None), "(No body content)");
}

#[test]
fn date_validity_check() {
    assert!(epoch().check_valid());
    let leap = MailDate { year: 2024, month: 2, day: 29, ..epoch() };
    assert!(leap.check_valid());
    let not_leap = MailDate { year: 2100, month: 2, day: 29, ..epoch() };
    assert!(!not_leap.check_valid());
    let bad_hour = MailDate { hour: 24, ..epoch() };
    assert!(!bad_hour.check_valid());
}

#[test]
fn recent_range_takes_newest_messages() {
    assert_eq!(rutt::recent_range(0, 200), None);
    assert_eq!(rutt::recent_range(10, 0), None);
    assert_eq!(rutt::recent_range(50, 200), Some((1, 50)));
    assert_eq!(rutt::recent_range(200, 200), Some((1, 200)));
    assert_eq!(rutt::recent_range(1000, 200), Some((801, 1000)));
    assert_eq!(rutt::recent_range(u32::MAX, 1), Some((u32::MAX, u32::MAX)));
}

#[test]
fn clip_shortens_long_text() {
    assert_eq!(rutt::clip("short", 25, 22), "short");
    let exact = "a".repeat(25);
    assert_eq!(rutt::clip(&exact, 25, 22), exact);
    let long = "b".repeat(26);
    assert_eq!(rutt::clip(&long, 25, 22), format!("{}...", "b".repeat(22)));
    // Counted in characters, so text outside ASCII is never cut inside a character.
    let wide = "é".repeat(30);
    assert_eq!(rutt::clip(&wide, 25, 22), format!("{}...", "é".repeat(22)));
}

#[test]
fn sender_from_empty_or_missing_list() {
    let empty = RawMessage {
        uid: Some(1),
        seen: false,
        envelope: Some(envelope(None, Some(vec![]))),
        header: None,
    };
    let e = decode_message(&empty, epoch()).unwrap();
    assert_eq!(e.from.to_string(), "(unknown)");
    let named = RawMessage {
        uid: Some(2),
        seen: false,
        envelope: Some(envelope(None, Some(vec![address(Some("Zoe"), Some("zoe"), Some("q.io"))]))),
        header: None,
    };
    assert_eq!(decode_message(&named, epoch()).unwrap().from.to_string(), "Zoe <zoe@q.io>");
}
