use vstd::prelude::*;
use vstd::string::StringExecFns;
use vstd::utf8::{decode_utf8, valid_utf8};

use crate::address::NameAddr;

verus! {

/// An address as the server's envelope gives it: each part raw, and
/// possibly missing.
#[derive(Clone, Debug)]
pub struct RawAddress {
    pub name: Option<Vec<u8>>,
    pub mailbox: Option<Vec<u8>>,
    pub host: Option<Vec<u8>>,
}

/// The envelope of a message as the server gives it.
#[derive(Clone, Debug)]
pub struct RawEnvelope {
    pub subject: Option<Vec<u8>>,
    pub from: Option<Vec<RawAddress>>,
    pub to: Option<Vec<RawAddress>>,
    pub cc: Option<Vec<RawAddress>>,
    pub bcc: Option<Vec<RawAddress>>,
}

/// The text that `b` holds, where it is valid UTF-8.
pub open spec fn utf8_of(b: Option<Vec<u8>>) -> Option<Seq<char>> {
    match b {
        Some(v) => if valid_utf8(v@) {
            Some(decode_utf8(v@))
        } else {
            None
        },
        None => None,
    }
}

/// The text that `b` holds, or the empty text where it is missing or not
/// valid UTF-8.
pub open spec fn utf8_or_empty(b: Option<Vec<u8>>) -> Seq<char> {
    match utf8_of(b) {
        Some(t) => t,
        None => Seq::empty(),
    }
}

pub open spec fn opt_text(o: Option<String>) -> Option<Seq<char>> {
    match o {
        Some(s) => Some(s@),
        None => None,
    }
}

/// The two parts of an address as text.
pub open spec fn addr_view(a: NameAddr) -> (Option<Seq<char>>, Option<Seq<char>>) {
    (opt_text(a.name), opt_text(a.email))
}

/// `mailbox@host`.
pub open spec fn joined(mailbox: Seq<char>, host: Seq<char>) -> Seq<char> {
    mailbox + seq!['@'] + host
}

pub open spec fn nonempty(t: Seq<char>) -> Option<Seq<char>> {
    if t.len() > 0 {
        Some(t)
    } else {
        None
    }
}

/// A sender: the name where it is not empty, and always an address, built
/// from whatever mailbox and host there are.
pub open spec fn sender_view(a: RawAddress) -> (Option<Seq<char>>, Option<Seq<char>>) {
    (nonempty(utf8_or_empty(a.name)), Some(joined(utf8_or_empty(a.mailbox), utf8_or_empty(a.host))))
}

/// A recipient: the name where it is not empty, and an address only where
/// both mailbox and host are.
pub open spec fn recipient_view(a: RawAddress) -> (Option<Seq<char>>, Option<Seq<char>>) {
    let (m, h) = (utf8_or_empty(a.mailbox), utf8_or_empty(a.host));
    (
        nonempty(utf8_or_empty(a.name)),
        if m.len() > 0 && h.len() > 0 {
            Some(joined(m, h))
        } else {
            None
        },
    )
}

/// The subject, or `(no subject)` where it is missing or not valid UTF-8.
pub open spec fn subject_view(b: Option<Vec<u8>>) -> Seq<char> {
    match utf8_of(b) {
        Some(t) => t,
        None => "(no subject)"@,
    }
}

/// Relies on `std::str::from_utf8`, which succeeds exactly on valid UTF-8
/// and then holds the decoded text.
#[verifier::external_body]
fn utf8_text(b: &[u8]) -> (r: Option<String>)
    ensures
        match r {
            Some(s) => valid_utf8(b@) && s@ == decode_utf8(b@),
            None => !valid_utf8(b@),
        },
{
    match std::str::from_utf8(b) {
        Ok(s) => Some(s.to_string()),
        Err(_) => None,
    }
}

/// Decodes optional raw text.
pub fn text_of(b: &Option<Vec<u8>>) -> (r: Option<String>)
    ensures
        opt_text(r) == utf8_of(*b),
{
    match b {
        Some(v) => utf8_text(v.as_slice()),
        None => None,
    }
}

fn text_or_empty(b: &Option<Vec<u8>>) -> (r: String)
    ensures
        r@ == utf8_or_empty(*b),
{
    match text_of(b) {
        Some(s) => s,
        None => String::new(),
    }
}

fn nonempty_text(t: String) -> (r: Option<String>)
    ensures
        opt_text(r) == nonempty(t@),
{
    if t.as_str().is_empty() {
        None
    } else {
        Some(t)
    }
}

fn join_address(mailbox: String, host: &String) -> (r: String)
    ensures
        r@ == joined(mailbox@, host@),
{
    proof {
        reveal_strlit("@");
    }
    let mut out = mailbox;
    out.append("@");
    out.append(host.as_str());
    out
}

/// The sender of a message, from its envelope address.
pub fn decode_sender(a: &RawAddress) -> (r: NameAddr)
    ensures
        addr_view(r) == sender_view(*a),
{
    let name = nonempty_text(text_or_empty(&a.name));
    let host = text_or_empty(&a.host);
    let email = join_address(text_or_empty(&a.mailbox), &host);
    NameAddr { name, email: Some(email) }
}

/// A recipient of a message, from its envelope address.
pub fn decode_recipient(a: &RawAddress) -> (r: NameAddr)
    ensures
        addr_view(r) == recipient_view(*a),
{
    let name = nonempty_text(text_or_empty(&a.name));
    let mailbox = text_or_empty(&a.mailbox);
    let host = text_or_empty(&a.host);
    let email = if mailbox.as_str().is_empty() || host.as_str().is_empty() {
        None
    } else {
        Some(join_address(mailbox, &host))
    };
    NameAddr { name, email }
}

/// The first sender listed, or an address with neither part.
pub open spec fn from_view(list: Option<Vec<RawAddress>>) -> (Option<Seq<char>>, Option<Seq<char>>) {
    match list {
        Some(v) => if v@.len() > 0 {
            sender_view(v@[0])
        } else {
            (None, None)
        },
        None => (None, None),
    }
}

/// `r` holds every recipient of `list`, in order; nothing where the list is
/// missing.
pub open spec fn recipients_match(r: Vec<NameAddr>, list: Option<Vec<RawAddress>>) -> bool {
    match list {
        Some(v) => {
            &&& r@.len() == v@.len()
            &&& forall|i: int| 0 <= i < v@.len() ==> addr_view(#[trigger] r@[i]) == recipient_view(v@[i])
        },
        None => r@.len() == 0,
    }
}

/// The first sender listed, or an address with neither part.
pub fn decode_from(list: &Option<Vec<RawAddress>>) -> (r: NameAddr)
    ensures
        addr_view(r) == from_view(*list),
{
    match list {
        Some(v) => if v.len() > 0 {
            decode_sender(&v[0])
        } else {
            NameAddr { name: None, email: None }
        },
        None => NameAddr { name: None, email: None },
    }
}

/// Every recipient listed, in order; none where the list is missing.
pub fn decode_recipients(list: &Option<Vec<RawAddress>>) -> (r: Vec<NameAddr>)
    ensures
        recipients_match(r, *list),
{
    let mut out: Vec<NameAddr> = Vec::new();
    match list {
        Some(v) => {
            let mut i: usize = 0;
            while i < v.len()
                invariant
                    i <= v@.len(),
                    out@.len() == i,
                    forall|j: int| 0 <= j < i ==> addr_view(#[trigger] out@[j]) == recipient_view(v@[j]),
                decreases v@.len() - i,
            {
                out.push(decode_recipient(&v[i]));
                i += 1;
            }
        },
        None => {},
    }
    out
}

/// The subject of a message.
pub fn decode_subject(b: &Option<Vec<u8>>) -> (r: String)
    ensures
        r@ == subject_view(*b),
{
    match text_of(b) {
        Some(s) => s,
        None => String::from_str("(no subject)"),
    }
}

} // verus!
