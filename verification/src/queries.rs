//! Searches through the entries of the local source chain.

#![allow(non_snake_case)]

use vstd::prelude::*;
use crate::hash::AnyHash;
use crate::seqs::{lemma_filter_take_step, lemma_first_of_filter, lemma_filter_take_all, lemma_map_push};
use crate::entries::{DeliveryNotice, NoticeAck, NoticeReply, ReceptionAck, ReceptionProof, ReplyAck};

verus! {

/// An entry committed to the local source chain, with the hashes and the
/// timestamp of its creation.
#[derive(Debug)]
pub struct LocalRecord<T> {
    pub ah: AnyHash,
    pub eh: AnyHash,
    pub ts: i64,
    pub entry: T,
}

/// No filter, or a filter on a given hash.
pub open spec fn matches_opt(filter: Option<AnyHash>, h: AnyHash) -> bool {
    match filter {
        Some(f) => f@ == h@,
        None => true,
    }
}

fn opt_hash_matches(filter: &Option<AnyHash>, h: &AnyHash) -> (r: bool)
    ensures
        r == matches_opt(*filter, *h),
{
    match filter {
        Some(f) => f.same_as(h),
        None => true,
    }
}

/// The entries of a list of local records.
pub open spec fn entries_of<T>(s: Seq<LocalRecord<T>>) -> Seq<T> {
    s.map_values(|r: LocalRecord<T>| r.entry)
}

pub open spec fn reply_ack_filter(d: Option<AnyHash>, r: Option<AnyHash>) -> spec_fn(ReplyAck) -> bool {
    |a: ReplyAck| matches_opt(d, a.distribution_ah) && matches_opt(r, a.recipient)
}

pub open spec fn reception_ack_filter(d: Option<AnyHash>, r: Option<AnyHash>) -> spec_fn(ReceptionAck) -> bool {
    |a: ReceptionAck| matches_opt(d, a.distribution_ah) && matches_opt(r, a.recipient)
}

/// Find the ReplyAcks of a distribution and/or of a recipient, in chain order.
pub fn query_ReplyAck(
    locals: &Vec<LocalRecord<ReplyAck>>,
    maybe_distribution: Option<AnyHash>,
    maybe_recipient: Option<AnyHash>,
) -> (res: Vec<ReplyAck>)
    ensures
        res@ == entries_of(locals@).filter(reply_ack_filter(maybe_distribution, maybe_recipient)),
{
    let ghost pred = reply_ack_filter(maybe_distribution, maybe_recipient);
    let ghost all = entries_of(locals@);
    let mut res: Vec<ReplyAck> = Vec::new();
    let mut i: usize = 0;
    while i < locals.len()
        invariant
            0 <= i <= locals.len(),
            all == entries_of(locals@),
            pred == reply_ack_filter(maybe_distribution, maybe_recipient),
            res@ == all.take(i as int).filter(pred),
        decreases locals.len() - i,
    {
        let a = locals[i].entry;
        proof {
            assert(all.take(i + 1) =~= all.take(i as int).push(all[i as int]));
            all.take(i as int).lemma_filter_push(all[i as int], pred);
        }
        if opt_hash_matches(&maybe_distribution, &a.distribution_ah) && opt_hash_matches(
            &maybe_recipient,
            &a.recipient,
        ) {
            res.push(a);
        }
        i = i + 1;
    }
    assert(all.take(locals.len() as int) =~= all);
    res
}

/// Find the ReceptionAcks of a distribution and/or of a recipient, in chain order.
pub fn query_ReceptionAck(
    locals: &Vec<LocalRecord<ReceptionAck>>,
    maybe_distribution: Option<AnyHash>,
    maybe_recipient: Option<AnyHash>,
) -> (res: Vec<ReceptionAck>)
    ensures
        res@ == entries_of(locals@).filter(
            reception_ack_filter(maybe_distribution, maybe_recipient),
        ),
{
    let ghost pred = reception_ack_filter(maybe_distribution, maybe_recipient);
    let ghost all = entries_of(locals@);
    let mut res: Vec<ReceptionAck> = Vec::new();
    let mut i: usize = 0;
    while i < locals.len()
        invariant
            0 <= i <= locals.len(),
            all == entries_of(locals@),
            pred == reception_ack_filter(maybe_distribution, maybe_recipient),
            res@ == all.take(i as int).filter(pred),
        decreases locals.len() - i,
    {
        let a = locals[i].entry;
        proof {
            assert(all.take(i + 1) =~= all.take(i as int).push(all[i as int]));
            all.take(i as int).lemma_filter_push(all[i as int], pred);
        }
        if opt_hash_matches(&maybe_distribution, &a.distribution_ah) && opt_hash_matches(
            &maybe_recipient,
            &a.recipient,
        ) {
            res.push(a);
        }
        i = i + 1;
    }
    assert(all.take(locals.len() as int) =~= all);
    res
}

/// Field by which DeliveryNotices are searched.
#[derive(Clone, Copy, Debug)]
pub enum DeliveryNoticeQueryField {
    Sender(AnyHash),
    Distribution(AnyHash),
    Parcel(AnyHash),
}

/// Field by which ReceptionProofs are searched.
#[derive(Clone, Copy, Debug)]
pub enum ReceptionProofQueryField {
    Notice(AnyHash),
    Parcel(AnyHash),
}

/// Field by which NoticeAcks are searched.
#[derive(Clone, Copy, Debug)]
pub enum NoticeAckQueryField {
    Recipient(AnyHash),
    Distribution(AnyHash),
}

pub open spec fn notice_matches(field: DeliveryNoticeQueryField, n: DeliveryNotice) -> bool {
    match field {
        DeliveryNoticeQueryField::Sender(h) => n.sender@ == h@,
        DeliveryNoticeQueryField::Distribution(h) => n.distribution_ah@ == h@,
        DeliveryNoticeQueryField::Parcel(h) => n.summary.parcel_reference.spec_entry_address()@ == h@,
    }
}

pub open spec fn notice_filter(field: DeliveryNoticeQueryField) -> spec_fn(LocalRecord<DeliveryNotice>) -> bool {
    |r: LocalRecord<DeliveryNotice>| notice_matches(field, r.entry)
}

pub open spec fn notice_and_time(r: LocalRecord<DeliveryNotice>) -> (DeliveryNotice, i64) {
    (r.entry, r.ts)
}

pub(crate) fn notice_matches_exec(field: &DeliveryNoticeQueryField, n: &DeliveryNotice) -> (r: bool)
    ensures
        r == notice_matches(*field, *n),
{
    match field {
        DeliveryNoticeQueryField::Sender(h) => n.sender.same_as(h),
        DeliveryNoticeQueryField::Distribution(h) => n.distribution_ah.same_as(h),
        DeliveryNoticeQueryField::Parcel(h) => n.summary.parcel_reference.entry_address().same_as(h),
    }
}

/// Find the DeliveryNotices with a given field, with their creation time, in chain order.
pub fn query_DeliveryNotice(
    locals: &Vec<LocalRecord<DeliveryNotice>>,
    query_field: DeliveryNoticeQueryField,
) -> (res: Vec<(DeliveryNotice, i64)>)
    ensures
        res@ == locals@.filter(notice_filter(query_field)).map_values(
            |r: LocalRecord<DeliveryNotice>| notice_and_time(r),
        ),
{
    let ghost pred = notice_filter(query_field);
    let ghost f = |r: LocalRecord<DeliveryNotice>| notice_and_time(r);
    let mut res: Vec<(DeliveryNotice, i64)> = Vec::new();
    let mut i: usize = 0;
    while i < locals.len()
        invariant
            0 <= i <= locals.len(),
            pred == notice_filter(query_field),
            f == (|r: LocalRecord<DeliveryNotice>| notice_and_time(r)),
            res@ == locals@.take(i as int).filter(pred).map_values(f),
        decreases locals.len() - i,
    {
        let record = &locals[i];
        proof {
            lemma_filter_take_step(locals@, pred, i as int);
            lemma_map_push(locals@.take(i as int).filter(pred), locals@[i as int], f);
        }
        if notice_matches_exec(&query_field, &record.entry) {
            res.push((record.entry.clone(), record.ts));
        }
        i = i + 1;
    }
    proof {
        lemma_filter_take_all(locals@, pred);
    }
    res
}

pub open spec fn notice_ack_matches(field: NoticeAckQueryField, a: NoticeAck) -> bool {
    match field {
        NoticeAckQueryField::Recipient(h) => a.recipient@ == h@,
        NoticeAckQueryField::Distribution(h) => a.distribution_ah@ == h@,
    }
}

pub open spec fn notice_ack_filter(field: NoticeAckQueryField) -> spec_fn(NoticeAck) -> bool {
    |a: NoticeAck| notice_ack_matches(field, a)
}

/// Find the NoticeAcks with a given field, in chain order.
pub fn query_NoticeAck(locals: &Vec<LocalRecord<NoticeAck>>, field: NoticeAckQueryField) -> (res: Vec<NoticeAck>)
    ensures
        res@ == entries_of(locals@).filter(notice_ack_filter(field)),
{
    let ghost pred = notice_ack_filter(field);
    let ghost all = entries_of(locals@);
    let mut res: Vec<NoticeAck> = Vec::new();
    let mut i: usize = 0;
    while i < locals.len()
        invariant
            0 <= i <= locals.len(),
            all == entries_of(locals@),
            pred == notice_ack_filter(field),
            res@ == all.take(i as int).filter(pred),
        decreases locals.len() - i,
    {
        let a = locals[i].entry;
        proof {
            lemma_filter_take_step(all, pred, i as int);
        }
        let keep = match &field {
            NoticeAckQueryField::Recipient(h) => a.recipient.same_as(h),
            NoticeAckQueryField::Distribution(h) => a.distribution_ah.same_as(h),
        };
        if keep {
            res.push(a);
        }
        i = i + 1;
    }
    proof {
        lemma_filter_take_all(all, pred);
    }
    res
}

pub open spec fn reply_filter(notice_eh: AnyHash) -> spec_fn(NoticeReply) -> bool {
    |r: NoticeReply| r.notice_eh@ == notice_eh@
}

/// The first element kept by a filter, if any.
pub open spec fn first_of<A>(s: Seq<A>) -> Option<A> {
    if s.len() > 0 {
        Some(s[0])
    } else {
        None
    }
}

/// Find the first NoticeReply to a given notice.
pub fn query_NoticeReply(locals: &Vec<LocalRecord<NoticeReply>>, notice_eh: AnyHash) -> (res: Option<NoticeReply>)
    ensures
        res == first_of(entries_of(locals@).filter(reply_filter(notice_eh))),
{
    let ghost pred = reply_filter(notice_eh);
    let ghost all = entries_of(locals@);
    let mut i: usize = 0;
    while i < locals.len()
        invariant
            0 <= i <= locals.len(),
            all == entries_of(locals@),
            pred == reply_filter(notice_eh),
            all.take(i as int).filter(pred).len() == 0,
        decreases locals.len() - i,
    {
        let reply = locals[i].entry;
        proof {
            lemma_filter_take_step(all, pred, i as int);
        }
        if reply.notice_eh.same_as(&notice_eh) {
            proof {
                lemma_first_of_filter(all, pred, i as int);
            }
            return Some(reply);
        }
        i = i + 1;
    }
    proof {
        lemma_filter_take_all(all, pred);
    }
    None
}

pub open spec fn proof_matches(field: ReceptionProofQueryField, p: ReceptionProof) -> bool {
    match field {
        ReceptionProofQueryField::Notice(h) => p.notice_eh@ == h@,
        ReceptionProofQueryField::Parcel(h) => p.parcel_eh@ == h@,
    }
}

pub open spec fn proof_filter(field: ReceptionProofQueryField) -> spec_fn(LocalRecord<ReceptionProof>) -> bool {
    |r: LocalRecord<ReceptionProof>| proof_matches(field, r.entry)
}

/// Find the first ReceptionProof with a given field, with its entry hash and creation time.
pub fn query_ReceptionProof(locals: &Vec<LocalRecord<ReceptionProof>>, field: ReceptionProofQueryField) -> (res:
    Option<(AnyHash, i64, ReceptionProof)>)
    ensures
        res == match first_of(locals@.filter(proof_filter(field))) {
            Some(r) => Some((r.eh, r.ts, r.entry)),
            None => None,
        },
{
    let ghost pred = proof_filter(field);
    let mut i: usize = 0;
    while i < locals.len()
        invariant
            0 <= i <= locals.len(),
            pred == proof_filter(field),
            locals@.take(i as int).filter(pred).len() == 0,
        decreases locals.len() - i,
    {
        let record = &locals[i];
        proof {
            lemma_filter_take_step(locals@, pred, i as int);
        }
        let found = match &field {
            ReceptionProofQueryField::Notice(h) => record.entry.notice_eh.same_as(h),
            ReceptionProofQueryField::Parcel(h) => record.entry.parcel_eh.same_as(h),
        };
        if found {
            proof {
                lemma_first_of_filter(locals@, pred, i as int);
            }
            return Some((record.eh, record.ts, record.entry));
        }
        i = i + 1;
    }
    proof {
        lemma_filter_take_all(locals@, pred);
    }
    None
}

/// ReceptionAcks and ReplyAcks are selected by the distribution and the
/// recipient asked for, where one is asked for; an absent filter keeps all.
pub proof fn lemma_ack_filters(d: Option<AnyHash>, r: Option<AnyHash>, reception: ReceptionAck, reply: ReplyAck)
    ensures
        reception_ack_filter(d, r)(reception) == ((d matches Some(x) ==> x@ == reception.distribution_ah@)
            && (r matches Some(y) ==> y@ == reception.recipient@)),
        reply_ack_filter(d, r)(reply) == ((d matches Some(x) ==> x@ == reply.distribution_ah@)
            && (r matches Some(y) ==> y@ == reply.recipient@)),
{
}

/// A NoticeAck is found by its recipient or by its distribution, as asked.
pub proof fn lemma_notice_ack_fields(h: AnyHash, a: NoticeAck)
    ensures
        notice_ack_filter(NoticeAckQueryField::Recipient(h))(a) == (a.recipient@ == h@),
        notice_ack_filter(NoticeAckQueryField::Distribution(h))(a) == (a.distribution_ah@ == h@),
{
}

/// A DeliveryNotice is found by its sender, its distribution or the address
/// of its parcel, as asked.
pub proof fn lemma_notice_fields(h: AnyHash, r: LocalRecord<DeliveryNotice>)
    ensures
        notice_filter(DeliveryNoticeQueryField::Sender(h))(r) == (r.entry.sender@ == h@),
        notice_filter(DeliveryNoticeQueryField::Distribution(h))(r) == (r.entry.distribution_ah@ == h@),
        notice_filter(DeliveryNoticeQueryField::Parcel(h))(r)
            == (r.entry.summary.parcel_reference.spec_entry_address()@ == h@),
{
}

/// A NoticeReply is found by its notice; a ReceptionProof by its notice or by
/// its parcel, as asked.
pub proof fn lemma_reply_and_proof_fields(h: AnyHash, reply: NoticeReply, r: LocalRecord<ReceptionProof>)
    ensures
        reply_filter(h)(reply) == (reply.notice_eh@ == h@),
        proof_filter(ReceptionProofQueryField::Notice(h))(r) == (r.entry.notice_eh@ == h@),
        proof_filter(ReceptionProofQueryField::Parcel(h))(r) == (r.entry.parcel_eh@ == h@),
{
}

} // verus!
