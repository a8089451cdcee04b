use vstd::prelude::*;

use chrono::{Datelike, Timelike};

use crate::date::MailDate;

verus! {

/// The header fields of a raw message, each as its name and its decoded
/// value, in order; `None` where the message does not parse.
pub uninterp spec fn mail_header_fields(raw: Seq<u8>) -> Option<Seq<(Seq<char>, Seq<char>)>>;

/// The instant, in seconds since the Unix epoch, that an RFC 2822 date
/// denotes; `None` where the text is no such date.
pub uninterp spec fn rfc2822_instant(text: Seq<char>) -> Option<int>;

/// The instant that `text` denotes when read with the chrono format `fmt`;
/// `None` where it does not match.
pub uninterp spec fn formatted_instant(text: Seq<char>, fmt: Seq<char>) -> Option<int>;

/// Relies on `mailparse::parse_mail`, with `MailHeader::get_key` and
/// `get_value` for each of its header fields.
#[verifier::external_body]
fn parse_header_fields(raw: &[u8]) -> (r: Option<Vec<(String, String)>>)
    ensures
        match r {
            Some(h) => mail_header_fields(raw@) == Some(
                h@.map_values(|p: (String, String)| (p.0@, p.1@)),
            ),
            None => mail_header_fields(raw@) is None,
        },
{
    match mailparse::parse_mail(raw) {
        Ok(mail) => Some(mail.headers.iter().map(|h| (h.get_key(), h.get_value())).collect()),
        Err(_) => None,
    }
}

/// Relies on chrono's `DateTime::parse_from_rfc2822` for the instant, and on
/// `with_timezone(&Local)` for its wall-clock reading on this machine.
#[verifier::external_body]
fn parse_rfc2822(text: &str) -> (r: Option<MailDate>)
    ensures
        match r {
            Some(d) => rfc2822_instant(text@) == Some(d.timestamp as int),
            None => rfc2822_instant(text@) is None,
        },
{
    match chrono::DateTime::parse_from_rfc2822(text) {
        Ok(d) => {
            let l = d.with_timezone(&chrono::Local);
            Some(MailDate { timestamp: l.timestamp(), year: l.year(), month: l.month(), day: l.day(), hour: l.hour(), minute: l.minute() })
        },
        Err(_) => None,
    }
}

/// Relies on chrono's `DateTime::parse_from_str` for the instant, and on
/// `with_timezone(&Local)` for its wall-clock reading on this machine.
#[verifier::external_body]
fn parse_with_format(text: &str, fmt: &str) -> (r: Option<MailDate>)
    ensures
        match r {
            Some(d) => formatted_instant(text@, fmt@) == Some(d.timestamp as int),
            None => formatted_instant(text@, fmt@) is None,
        },
{
    match chrono::DateTime::parse_from_str(text, fmt) {
        Ok(d) => {
            let l = d.with_timezone(&chrono::Local);
            Some(MailDate { timestamp: l.timestamp(), year: l.year(), month: l.month(), day: l.day(), hour: l.hour(), minute: l.minute() })
        },
        Err(_) => None,
    }
}

/// The fallback layout for dates that are not quite RFC 2822.
pub open spec fn fallback_format() -> Seq<char> {
    "%a, %d %b %Y %H:%M:%S %z"@
}

/// A header name that equals `date` up to ASCII case.
pub open spec fn is_date_name(k: Seq<char>) -> bool {
    &&& k.len() == 4
    &&& (k[0] == 'd' || k[0] == 'D')
    &&& (k[1] == 'a' || k[1] == 'A')
    &&& (k[2] == 't' || k[2] == 'T')
    &&& (k[3] == 'e' || k[3] == 'E')
}

/// The instant a date value denotes: as RFC 2822, else in the fallback
/// layout.
pub open spec fn value_instant(v: Seq<char>) -> Option<int> {
    if rfc2822_instant(v) is Some {
        rfc2822_instant(v)
    } else {
        formatted_instant(v, fallback_format())
    }
}

/// The instant of the first `Date` field whose value can be read.
pub open spec fn first_date_instant(fields: Seq<(Seq<char>, Seq<char>)>) -> Option<int>
    decreases fields.len(),
{
    if fields.len() == 0 {
        None
    } else if is_date_name(fields[0].0) && value_instant(fields[0].1) is Some {
        value_instant(fields[0].1)
    } else {
        first_date_instant(fields.drop_first())
    }
}

/// The instant that the header block `raw` gives as the message's date.
pub open spec fn header_date_instant(raw: Seq<u8>) -> Option<int> {
    match mail_header_fields(raw) {
        Some(fields) => first_date_instant(fields),
        None => None,
    }
}

fn is_date_field_name(k: &str) -> (r: bool)
    ensures
        r == is_date_name(k@),
{
    if k.unicode_len() != 4 {
        return false;
    }
    let (a, b, c, d) = (k.get_char(0), k.get_char(1), k.get_char(2), k.get_char(3));
    (a == 'd' || a == 'D') && (b == 'a' || b == 'A') && (c == 't' || c == 'T') && (d == 'e' || d
        == 'E')
}

/// Reads the send date from a raw header block: the first `Date` field (the
/// name taken up to ASCII case) whose value reads as an RFC 2822 date or in
/// the fallback layout.
pub fn parse_date_from_header(header: &[u8]) -> (r: Option<MailDate>)
    ensures
        match r {
            Some(d) => header_date_instant(header@) == Some(d.timestamp as int),
            None => header_date_instant(header@) is None,
        },
{
    let fields = match parse_header_fields(header) {
        Some(f) => f,
        None => return None,
    };
    let ghost all = fields@.map_values(|p: (String, String)| (p.0@, p.1@));
    let mut i: usize = 0;
    proof {
        assert(all.skip(0) =~= all);
    }
    while i < fields.len()
        invariant
            0 <= i <= fields@.len(),
            all == fields@.map_values(|p: (String, String)| (p.0@, p.1@)),
            mail_header_fields(header@) == Some(all),
            first_date_instant(all) == first_date_instant(all.skip(i as int)),
        decreases fields@.len() - i,
    {
        proof {
            assert(all.skip(i as int).drop_first() =~= all.skip(i + 1));
            assert(all.skip(i as int)[0] == all[i as int]);
        }
        let name = fields[i].0.as_str();
        if is_date_field_name(name) {
            let value = fields[i].1.as_str();
            match parse_rfc2822(value) {
                Some(d) => return Some(d),
                None => {},
            }
            match parse_with_format(value, "%a, %d %b %Y %H:%M:%S %z") {
                Some(d) => return Some(d),
                None => {},
            }
        }
        i += 1;
    }
    proof {
        assert(all.skip(i as int) =~= Seq::<(Seq<char>, Seq<char>)>::empty());
    }
    None
}

} // verus!
