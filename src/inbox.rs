use vstd::multiset::Multiset;
use vstd::prelude::*;
use vstd::string::StringExecFns;

use crate::controller::Email;
use crate::date::MailDate;
use crate::envelope::{
    addr_view, decode_from, decode_recipients, decode_subject, from_view, recipients_match,
    subject_view, text_of, utf8_of, RawEnvelope,
};
use crate::header_date::{header_date_instant, parse_date_from_header};

verus! {

broadcast use vstd::seq_lib::group_to_multiset_ensures;

/// One message of a fetch, as the server gives it.
#[derive(Clone, Debug)]
pub struct RawMessage {
    pub uid: Option<u32>,
    pub seen: bool,
    pub envelope: Option<RawEnvelope>,
    pub header: Option<Vec<u8>>,
}

/// The date of a message: the one its header gives, else `now`.
pub open spec fn date_matches(header: Option<Vec<u8>>, now: MailDate, d: MailDate) -> bool {
    match header {
        Some(h) => match header_date_instant(h@) {
            Some(t) => d.timestamp == t,
            None => d == now,
        },
        None => d == now,
    }
}

/// `e` is the record of the message `m`, which has an envelope.
pub open spec fn decoded_as(m: RawMessage, now: MailDate, e: Email) -> bool {
    let env = m.envelope->0;
    &&& e._uid == match m.uid {
        Some(u) => u,
        None => 0u32,
    }
    &&& e.is_read == m.seen
    &&& e.body is None
    &&& e.subject@ == subject_view(env.subject)
    &&& addr_view(e.from) == from_view(env.from)
    &&& recipients_match(e.to, env.to)
    &&& recipients_match(e.cc, env.cc)
    &&& recipients_match(e.bcc, env.bcc)
    &&& date_matches(m.header, now, e.date)
}

pub open spec fn has_envelope(m: RawMessage) -> bool {
    m.envelope is Some
}

/// `r` holds, in order, the records of the messages of `ms` that have an
/// envelope.
pub open spec fn decoded_list(ms: Seq<RawMessage>, now: MailDate, r: Seq<Email>) -> bool {
    let kept = ms.filter(|m: RawMessage| has_envelope(m));
    &&& r.len() == kept.len()
    &&& forall|i: int| 0 <= i < r.len() ==> decoded_as(kept[i], now, #[trigger] r[i])
}

/// Newest first: the dates never increase along the list.
pub open spec fn newest_first(s: Seq<Email>) -> bool {
    forall|i: int, j: int| 0 <= i < j < s.len() ==> s[i].date.timestamp >= s[j].date.timestamp
}

/// The records sent at the instant `t`.
pub open spec fn sent_at(t: i64) -> spec_fn(Email) -> bool {
    |e: Email| e.date.timestamp == t
}

/// For every instant, the records of that instant appear in `r` in the order
/// they have in `s`.
pub open spec fn same_order_per_instant(r: Seq<Email>, s: Seq<Email>) -> bool {
    forall|t: i64| #[trigger] r.filter(sent_at(t)) == s.filter(sent_at(t))
}

/// The record of a message, where it has an envelope; `now` stands in for
/// a date that its header does not give.
pub fn decode_message(m: &RawMessage, now: MailDate) -> (r: Option<Email>)
    ensures
        match r {
            Some(e) => has_envelope(*m) && decoded_as(*m, now, e),
            None => !has_envelope(*m),
        },
{
    let env = match &m.envelope {
        Some(e) => e,
        None => return None,
    };
    let date = match &m.header {
        Some(h) => match parse_date_from_header(h.as_slice()) {
            Some(d) => d,
            None => now,
        },
        None => now,
    };
    Some(
        Email {
            _uid: match m.uid {
                Some(u) => u,
                None => 0,
            },
            subject: decode_subject(&env.subject),
            from: decode_from(&env.from),
            to: decode_recipients(&env.to),
            cc: decode_recipients(&env.cc),
            bcc: decode_recipients(&env.bcc),
            date,
            is_read: m.seen,
            body: None,
        },
    )
}

/// The records of the messages that have an envelope, in the order given.
pub fn decode_messages(msgs: &Vec<RawMessage>, now: MailDate) -> (r: Vec<Email>)
    ensures
        decoded_list(msgs@, now, r@),
{
    let mut out: Vec<Email> = Vec::new();
    let mut i: usize = 0;
    while i < msgs.len()
        invariant
            i <= msgs@.len(),
            decoded_list(msgs@.take(i as int), now, out@),
        decreases msgs@.len() - i,
    {
        proof {
            assert(msgs@.take(i + 1) =~= msgs@.take(i as int).push(msgs@[i as int]));
            msgs@.take(i as int).lemma_filter_push(msgs@[i as int], |m: RawMessage| has_envelope(m));
        }
        match decode_message(&msgs[i], now) {
            Some(e) => out.push(e),
            None => {},
        }
        i += 1;
    }
    proof {
        assert(msgs@.take(msgs@.len() as int) =~= msgs@);
    }
    out
}

proof fn lemma_insert_to_multiset(s: Seq<Email>, k: int, e: Email)
    requires
        0 <= k <= s.len(),
    ensures
        s.insert(k, e).to_multiset() =~= s.to_multiset().insert(e),
{
    let t = s.insert(k, e);
    s.insert_ensures(k, e);
    assert(t.remove(k) =~= s);
    assert(t.contains(e)) by {
        assert(t[k] == e);
    }
}

proof fn lemma_insert_filter(s: Seq<Email>, k: int, e: Email, t: i64)
    requires
        0 <= k <= s.len(),
        forall|j: int| k <= j < s.len() ==> s[j].date.timestamp < e.date.timestamp,
    ensures
        s.insert(k, e).filter(sent_at(t)) == if e.date.timestamp == t {
            s.filter(sent_at(t)).push(e)
        } else {
            s.filter(sent_at(t))
        },
{
    let p = sent_at(t);
    let (front, back) = (s.take(k), s.skip(k));
    assert(s.insert(k, e) =~= front.push(e) + back);
    assert(s =~= front + back);
    Seq::filter_distributes_over_add(front.push(e), back, p);
    Seq::filter_distributes_over_add(front, back, p);
    front.lemma_filter_push(e, p);
    if e.date.timestamp == t {
        assert(back.all(|x: Email| !p(x)));
        back.lemma_all_neg_filter_empty(p);
        assert(back.filter(p) =~= Seq::<Email>::empty());
        assert(front.filter(p).push(e) + back.filter(p) =~= front.filter(p).push(e));
        assert(front.filter(p) + back.filter(p) =~= front.filter(p));
    }
}

/// Inserts `e` into a list kept newest first, after every record at least
/// as new.
fn insert_newest_first(out: &mut Vec<Email>, e: Email)
    requires
        newest_first(old(out)@),
    ensures
        newest_first(final(out)@),
        final(out)@.to_multiset() == old(out)@.to_multiset().insert(e),
        forall|t: i64|
            #[trigger] final(out)@.filter(sent_at(t)) == if e.date.timestamp == t {
                old(out)@.filter(sent_at(t)).push(e)
            } else {
                old(out)@.filter(sent_at(t))
            },
{
    let ghost e0 = e;
    let mut k: usize = out.len();
    while k > 0 && out[k - 1].date.timestamp < e.date.timestamp
        invariant
            k <= out@.len(),
            out@ == old(out)@,
            newest_first(out@),
            forall|j: int| k <= j < out@.len() ==> out@[j].date.timestamp < e.date.timestamp,
        decreases k,
    {
        k -= 1;
    }
    let ghost before = out@;
    proof {
        before.insert_ensures(k as int, e);
        lemma_insert_to_multiset(before, k as int, e);
        assert forall|t: i64|
            #[trigger] before.insert(k as int, e).filter(sent_at(t)) == if e.date.timestamp == t {
                before.filter(sent_at(t)).push(e)
            } else {
                before.filter(sent_at(t))
            } by {
            lemma_insert_filter(before, k as int, e, t);
        }
        if k > 0 {
            assert(before[k - 1].date.timestamp >= e.date.timestamp);
            assert forall|j: int| 0 <= j < k implies before[j].date.timestamp
                >= e.date.timestamp by {
                if j < k - 1 {
                    assert(before[j].date.timestamp >= before[k - 1].date.timestamp);
                }
            }
        }
    }
    out.insert(k, e);
    proof {
        let t = out@;
        assert(t =~= before.insert(k as int, e0));
        assert forall|i: int, j: int| 0 <= i < j < t.len() implies t[i].date.timestamp
            >= t[j].date.timestamp by {
            if j < k {
            } else if j == k {
            } else if i < k {
                assert(t[j] == before[j - 1]);
                assert(before[i].date.timestamp >= before[j - 1].date.timestamp);
            } else if i == k {
                assert(t[j] == before[j - 1]);
            } else {
                assert(t[j] == before[j - 1]);
                assert(t[i] == before[i - 1]);
            }
        }
    }
}

/// Orders records newest first; records of the same instant keep their
/// order.
pub fn sort_newest_first(emails: Vec<Email>) -> (r: Vec<Email>)
    ensures
        newest_first(r@),
        r@.to_multiset() == emails@.to_multiset(),
        same_order_per_instant(r@, emails@),
{
    let ghost all = emails@;
    let mut out: Vec<Email> = Vec::new();
    let mut rest = emails;
    let ghost mut done: int = 0;
    proof {
        assert(rest@ =~= all.skip(0));
        assert forall|t: i64| #[trigger] out@.filter(sent_at(t)) == all.take(0).filter(sent_at(t)) by {
            assert(all.take(0) =~= Seq::<Email>::empty());
            assert(out@ =~= Seq::<Email>::empty());
        }
    }
    while rest.len() > 0
        invariant
            0 <= done <= all.len(),
            rest@ == all.skip(done),
            newest_first(out@),
            out@.to_multiset().add(rest@.to_multiset()) == all.to_multiset(),
            forall|t: i64| #[trigger] out@.filter(sent_at(t)) == all.take(done).filter(sent_at(t)),
        decreases rest@.len(),
    {
        let ghost r0 = rest@;
        let ghost o0 = out@;
        let e = rest.remove(0);
        proof {
            assert(r0.to_multiset() =~= rest@.to_multiset().insert(e));
            assert(e == all[done]);
            assert(rest@ =~= all.skip(done + 1));
            assert(all.take(done + 1) =~= all.take(done).push(e));
        }
        insert_newest_first(&mut out, e);
        proof {
            assert(out@.to_multiset().add(rest@.to_multiset()) =~= all.to_multiset());
            assert forall|t: i64| #[trigger] out@.filter(sent_at(t)) == all.take(done + 1).filter(
                sent_at(t),
            ) by {
                all.take(done).lemma_filter_push(e, sent_at(t));
                assert(o0.filter(sent_at(t)) == all.take(done).filter(sent_at(t)));
            }
            done = done + 1;
        }
    }
    proof {
        assert(rest@.to_multiset() =~= Multiset::empty());
        assert(out@.to_multiset().add(rest@.to_multiset()) =~= out@.to_multiset());
        assert(done == all.len());
        assert(all.take(done) =~= all);
    }
    out
}

/// The records of a fetch: the messages that have an envelope, decoded and
/// ordered newest first.
pub fn emails_from_messages(msgs: &Vec<RawMessage>, now: MailDate) -> (r: Vec<Email>)
    ensures
        newest_first(r@),
        exists|d: Seq<Email>|
            {
                &&& decoded_list(msgs@, now, d)
                &&& r@.to_multiset() == d.to_multiset()
                &&& same_order_per_instant(r@, d)
            },
{
    let decoded = decode_messages(msgs, now);
    let r = sort_newest_first(decoded);
    proof {
        assert(decoded_list(msgs@, now, decoded@) && r@.to_multiset() == decoded@.to_multiset()
            && same_order_per_instant(r@, decoded@));
    }
    r
}

/// The sequence numbers `(first, last)` of the newest `limit` messages of a
/// mailbox that holds `total`; `None` where there is nothing to fetch.
pub fn recent_range(total: u32, limit: u32) -> (r: Option<(u32, u32)>)
    ensures
        total == 0 || limit == 0 ==> r is None,
        total > 0 && limit > 0 ==> r == Some(
            (if total > limit { (total - limit + 1) as u32 } else { 1u32 }, total),
        ),
{
    if total == 0 || limit == 0 {
        None
    } else if total > limit {
        Some((total - limit + 1, total))
    } else {
        Some((1, total))
    }
}

/// The body shown for a fetch that returned the text `text` (`None` where
/// the server sent no message or no text).
pub open spec fn body_view(text: Option<Vec<u8>>) -> Seq<char> {
    match text {
        Some(_) => match utf8_of(text) {
            Some(t) => t,
            None => "(Unable to decode message body)"@,
        },
        None => "(No body content)"@,
    }
}

/// The body of a message from the text that a fetch returned.
pub fn body_from_text(text: &Option<Vec<u8>>) -> (r: String)
    ensures
        r@ == body_view(*text),
{
    match text {
        Some(_) => match text_of(text) {
            Some(t) => t,
            None => String::from_str("(Unable to decode message body)"),
        },
        None => String::from_str("(No body content)"),
    }
}

} // verus!
