//! The inbox: items left on the DHT for this agent, and which of them to commit.

use vstd::prelude::*;
use crate::hash::{contains_hash, lemma_hash_views_push, AnyHash};
use crate::types::{ItemKind, ParcelReference};
use crate::entries::{DeliveryNotice, NoticeReply, ParcelManifest, PendingItem, ReceptionProof};
use crate::chunks::has_hash;
use crate::seqs::{lemma_filter_take_all, lemma_filter_take_step, lemma_map_push};

verus! {

/// An item together with the hash of its entry.
#[derive(Debug)]
pub struct HashedItem<T> {
    pub eh: AnyHash,
    pub value: T,
}

pub open spec fn accepted_unreceived(proofs: Seq<ReceptionProof>) -> spec_fn(NoticeReply) -> bool {
    |r: NoticeReply| r.has_accepted && !exists|i: int| 0 <= i < proofs.len() && #[trigger] proofs[i].notice_eh@ == r.notice_eh@
}

pub open spec fn notice_eh_of(r: NoticeReply) -> AnyHash {
    r.notice_eh
}

fn has_proof_for(proofs: &Vec<ReceptionProof>, notice_eh: &AnyHash) -> (r: bool)
    ensures
        r == exists|i: int| 0 <= i < proofs.len() && #[trigger] proofs@[i].notice_eh@ == notice_eh@,
{
    let mut i: usize = 0;
    while i < proofs.len()
        invariant
            0 <= i <= proofs.len(),
            forall|j: int| 0 <= j < i ==> proofs@[j].notice_eh@ != notice_eh@,
        decreases proofs.len() - i,
    {
        if proofs[i].notice_eh.same_as(notice_eh) {
            return true;
        }
        i = i + 1;
    }
    false
}

/// The notices accepted by this agent whose parcel has not been received yet
/// (no ReceptionProof for them), in the order of the replies.
pub fn unreceived_notices(replies: &Vec<NoticeReply>, proofs: &Vec<ReceptionProof>) -> (res: Vec<AnyHash>)
    ensures
        res@ == replies@.filter(accepted_unreceived(proofs@)).map_values(|r: NoticeReply| notice_eh_of(r)),
{
    let ghost pred = accepted_unreceived(proofs@);
    let ghost f = |r: NoticeReply| notice_eh_of(r);
    let mut res: Vec<AnyHash> = Vec::new();
    let mut i: usize = 0;
    while i < replies.len()
        invariant
            0 <= i <= replies.len(),
            pred == accepted_unreceived(proofs@),
            f == (|r: NoticeReply| notice_eh_of(r)),
            res@ == replies@.take(i as int).filter(pred).map_values(f),
        decreases replies.len() - i,
    {
        let reply = replies[i];
        proof {
            lemma_filter_take_step(replies@, pred, i as int);
            lemma_map_push(replies@.take(i as int).filter(pred), replies@[i as int], f);
        }
        if reply.has_accepted && !has_proof_for(proofs, &reply.notice_eh) {
            res.push(reply.notice_eh);
        }
        i = i + 1;
    }
    proof {
        lemma_filter_take_all(replies@, pred);
    }
    res
}

/// Position of the last notice whose parcel is the given entry.
pub open spec fn last_notice_for(notices: Seq<DeliveryNotice>, eh: AnyHash) -> Option<int>
    decreases notices.len(),
{
    if notices.len() == 0 {
        None
    } else if notices.last().summary.parcel_reference.spec_entry_address()@ == eh@ {
        Some(notices.len() - 1)
    } else {
        last_notice_for(notices.drop_last(), eh)
    }
}

proof fn lemma_last_notice_for_bounds(notices: Seq<DeliveryNotice>, eh: AnyHash)
    ensures
        last_notice_for(notices, eh) matches Some(j) ==> 0 <= j < notices.len()
            && notices[j].summary.parcel_reference.spec_entry_address()@ == eh@,
    decreases notices.len(),
{
    if notices.len() > 0 {
        lemma_last_notice_for_bounds(notices.drop_last(), eh);
    }
}

fn find_last_notice(notices: &Vec<DeliveryNotice>, eh: &AnyHash) -> (r: Option<usize>)
    ensures
        r == match last_notice_for(notices@, *eh) {
            Some(j) => Some(j as usize),
            None => None::<usize>,
        },
        r matches Some(j) ==> j < notices.len(),
{
    let mut found: Option<usize> = None;
    let mut i: usize = 0;
    while i < notices.len()
        invariant
            0 <= i <= notices.len(),
            found == match last_notice_for(notices@.take(i as int), *eh) {
                Some(j) => Some(j as usize),
                None => None::<usize>,
            },
            found matches Some(j) ==> j < i,
        decreases notices.len() - i,
    {
        proof {
            assert(notices@.take(i + 1).drop_last() =~= notices@.take(i as int));
            lemma_last_notice_for_bounds(notices@.take(i as int), *eh);
        }
        if notices[i].summary.parcel_reference.entry_address().same_as(eh) {
            found = Some(i);
        }
        i = i + 1;
    }
    proof {
        assert(notices@.take(notices.len() as int) =~= notices@);
    }
    found
}

/// Whether no later element has the same hash: the one a map keyed by hash keeps.
pub open spec fn is_last_of(ehs: Seq<AnyHash>, i: int) -> bool {
    forall|j: int| i < j < ehs.len() ==> ehs[j]@ != ehs[i]@
}

fn last_of(ehs: &Vec<AnyHash>, i: usize) -> (r: bool)
    requires
        i < ehs.len(),
    ensures
        r == is_last_of(ehs@, i as int),
{
    let mut j: usize = i + 1;
    while j < ehs.len()
        invariant
            i < j <= ehs.len(),
            forall|k: int| i < k < j ==> ehs@[k]@ != ehs@[i as int]@,
        decreases ehs.len() - j,
    {
        if ehs[j].same_as(&ehs[i]) {
            return false;
        }
        j = j + 1;
    }
    true
}

/// Whether a chunk is wanted because an accepted manifest of the given notices
/// lists it and it has not been received yet.
pub open spec fn wanted_by_notices(
    notices: Seq<DeliveryNotice>,
    local_manifests: Seq<Option<ParcelManifest>>,
    received_chunks: Seq<AnyHash>,
    eh: AnyHash,
) -> bool {
    exists|n: int|
        0 <= n < notices.len() && notices[n].summary.parcel_reference.spec_is_manifest()
            && (#[trigger] local_manifests[n] matches Some(m) && has_hash(m.chunks@, eh))
            && !has_hash(received_chunks, eh)
}

/// Which of the parcels found in the inbox to commit.
#[derive(Debug)]
pub struct InboxPlan {
    /// Positions of the entries to commit, each with the notice it answers.
    pub parcels: Vec<(usize, DeliveryNotice)>,
    /// Positions of the manifests to commit.
    pub manifests: Vec<usize>,
    /// Positions of the chunks to commit (and whose inbox link to delete).
    pub chunks: Vec<usize>,
}

/// An inbox entry is committed when it is the last one with its hash and an
/// unreceived accepted notice is for it.
pub open spec fn parcel_selected(entry_ehs: Seq<AnyHash>, notices: Seq<DeliveryNotice>, i: int) -> bool {
    is_last_of(entry_ehs, i) && last_notice_for(notices, entry_ehs[i]) is Some
}

pub open spec fn manifest_ehs(manifests: Seq<HashedItem<ParcelManifest>>) -> Seq<AnyHash> {
    manifests.map_values(|m: HashedItem<ParcelManifest>| m.eh)
}

/// A chunk is wanted when it is listed by an accepted manifest not received
/// yet, or by a manifest committed from the inbox.
pub open spec fn chunk_wanted(
    notices: Seq<DeliveryNotice>,
    local_manifests: Seq<Option<ParcelManifest>>,
    received_chunks: Seq<AnyHash>,
    manifests: Seq<HashedItem<ParcelManifest>>,
    eh: AnyHash,
) -> bool {
    ||| wanted_by_notices(notices, local_manifests, received_chunks, eh)
    ||| exists|i: int|
        0 <= i < manifests.len() && parcel_selected(manifest_ehs(manifests), notices, i) && has_hash(
            #[trigger] manifests[i].value.chunks@,
            eh,
        )
}

/// Whether the n-th notice makes a chunk wanted.
pub open spec fn wanted_by_notice(
    notices: Seq<DeliveryNotice>,
    local_manifests: Seq<Option<ParcelManifest>>,
    received_chunks: Seq<AnyHash>,
    n: int,
    eh: AnyHash,
) -> bool {
    notices[n].summary.parcel_reference.spec_is_manifest()
        && (local_manifests[n] matches Some(m) && has_hash(m.chunks@, eh))
        && !has_hash(received_chunks, eh)
}

proof fn lemma_wanted_step(
    notices: Seq<DeliveryNotice>,
    local_manifests: Seq<Option<ParcelManifest>>,
    received_chunks: Seq<AnyHash>,
    n: int,
)
    requires
        0 <= n < notices.len(),
    ensures
        forall|eh: AnyHash|
            wanted_by_notices(notices.take(n + 1), local_manifests, received_chunks, eh) <==> (
            wanted_by_notices(notices.take(n), local_manifests, received_chunks, eh)
                || wanted_by_notice(notices, local_manifests, received_chunks, n, eh)),
{
    assert forall|eh: AnyHash|
        wanted_by_notices(notices.take(n + 1), local_manifests, received_chunks, eh) <==> (
        wanted_by_notices(notices.take(n), local_manifests, received_chunks, eh)
            || wanted_by_notice(notices, local_manifests, received_chunks, n, eh)) by {
        let t = notices.take(n + 1);
        let u = notices.take(n);
        if wanted_by_notices(t, local_manifests, received_chunks, eh) {
            let j = choose|j: int|
                0 <= j < t.len() && t[j].summary.parcel_reference.spec_is_manifest()
                    && (#[trigger] local_manifests[j] matches Some(m) && has_hash(m.chunks@, eh))
                    && !has_hash(received_chunks, eh);
            if j < n {
                assert(u[j] == t[j]);
            }
        }
        if wanted_by_notices(u, local_manifests, received_chunks, eh) {
            let j = choose|j: int|
                0 <= j < u.len() && u[j].summary.parcel_reference.spec_is_manifest()
                    && (#[trigger] local_manifests[j] matches Some(m) && has_hash(m.chunks@, eh))
                    && !has_hash(received_chunks, eh);
            assert(t[j] == u[j]);
        }
        if wanted_by_notice(notices, local_manifests, received_chunks, n, eh) {
            assert(t[n] == notices[n]);
        }
    }
}

fn chunks_wanted_by_notices(
    notices: &Vec<DeliveryNotice>,
    local_manifests: &Vec<Option<ParcelManifest>>,
    received_chunks: &Vec<AnyHash>,
) -> (res: Vec<AnyHash>)
    requires
        local_manifests.len() == notices.len(),
    ensures
        forall|eh: AnyHash| has_hash(res@, eh) <==> wanted_by_notices(notices@, local_manifests@, received_chunks@, eh),
{
    let mut res: Vec<AnyHash> = Vec::new();
    let mut n: usize = 0;
    while n < notices.len()
        invariant
            0 <= n <= notices.len(),
            local_manifests.len() == notices.len(),
            forall|eh: AnyHash| has_hash(res@, eh) <==> wanted_by_notices(notices@.take(n as int), local_manifests@, received_chunks@, eh),
        decreases notices.len() - n,
    {
        let ghost before = res@;
        let is_manifest = match &notices[n].summary.parcel_reference {
            ParcelReference::Manifest(_) => true,
            ParcelReference::AppEntry(_) => false,
        };
        if is_manifest {
            if let Some(m) = &local_manifests[n] {
                let mut k: usize = 0;
                while k < m.chunks.len()
                    invariant
                        0 <= k <= m.chunks.len(),
                        n < local_manifests.len(),
                        local_manifests@[n as int] == Some(*m),
                        forall|eh: AnyHash| has_hash(res@, eh) <==> (has_hash(before, eh) || (has_hash(m.chunks@.take(k as int), eh) && !has_hash(received_chunks@, eh))),
                    decreases m.chunks.len() - k,
                {
                    let c = m.chunks[k];
                    let ghost prev = res@;
                    assert(forall|eh: AnyHash| has_hash(prev, eh) <==> (has_hash(before, eh) || (has_hash(m.chunks@.take(k as int), eh) && !has_hash(received_chunks@, eh))));
                    let fresh = !contains_hash(received_chunks, &c);
                    if fresh {
                        res.push(c);
                    }
                    let ghost old_k = k as int;
                    k = k + 1;
                    proof {
                        assert(m.chunks@.take(k as int) =~= m.chunks@.take(old_k).push(c));
                        assert forall|eh: AnyHash| has_hash(res@, eh) <==> (has_hash(before, eh) || (has_hash(m.chunks@.take(k as int), eh) && !has_hash(received_chunks@, eh))) by {
                            lemma_hash_views_push(m.chunks@.take(old_k), c, eh@);
                            assert(has_hash(prev, eh) <==> (has_hash(before, eh) || (has_hash(m.chunks@.take(old_k), eh) && !has_hash(received_chunks@, eh))));
                            if fresh {
                                lemma_hash_views_push(prev, c, eh@);
                            }
                        }
                    }
                }
                proof {
                    assert(m.chunks@.take(m.chunks.len() as int) =~= m.chunks@);
                }
            }
        }
        proof {
            lemma_wanted_step(notices@, local_manifests@, received_chunks@, n as int);
            assert forall|eh: AnyHash| has_hash(res@, eh) <==> wanted_by_notices(notices@.take(n + 1), local_manifests@, received_chunks@, eh) by {
                assert(has_hash(before, eh) <==> wanted_by_notices(notices@.take(n as int), local_manifests@, received_chunks@, eh));
                if !(is_manifest && local_manifests@[n as int] is Some) {
                    assert(res@ == before);
                    assert(!wanted_by_notice(notices@, local_manifests@, received_chunks@, n as int, eh));
                }
            }
        }
        n = n + 1;
    }
    proof {
        assert(notices@.take(notices.len() as int) =~= notices@);
    }
    res
}

/// A list of hashes extended with more hashes.
fn append_hashes(init: Vec<AnyHash>, src: &Vec<AnyHash>) -> (r: Vec<AnyHash>)
    ensures
        forall|eh: AnyHash| has_hash(r@, eh) <==> (has_hash(init@, eh) || has_hash(src@, eh)),
{
    let ghost start = init@;
    let mut dst = init;
    let mut k: usize = 0;
    while k < src.len()
        invariant
            0 <= k <= src.len(),
            forall|eh: AnyHash| has_hash(dst@, eh) <==> (has_hash(start, eh) || has_hash(src@.take(k as int), eh)),
        decreases src.len() - k,
    {
        let c = src[k];
        let ghost prev = dst@;
        assert(forall|eh: AnyHash| has_hash(prev, eh) <==> (has_hash(start, eh) || has_hash(src@.take(k as int), eh)));
        dst.push(c);
        let ghost old_k = k as int;
        k = k + 1;
        proof {
            assert(src@.take(k as int) =~= src@.take(old_k).push(c));
            assert forall|eh: AnyHash| has_hash(dst@, eh) <==> (has_hash(start, eh) || has_hash(src@.take(k as int), eh)) by {
                lemma_hash_views_push(src@.take(old_k), c, eh@);
                lemma_hash_views_push(prev, c, eh@);
            }
        }
    }
    proof {
        assert(src@.take(src.len() as int) =~= src@);
        assert(forall|eh: AnyHash| has_hash(dst@, eh) <==> (has_hash(start, eh) || has_hash(src@.take(src.len() as int), eh)));
        assert forall|eh: AnyHash| has_hash(dst@, eh) <==> (has_hash(start, eh) || has_hash(src@, eh)) by {
            assert(has_hash(dst@, eh) <==> (has_hash(start, eh) || has_hash(src@.take(src.len() as int), eh)));
        }
    }
    dst
}

/// Positions from 0 to n - 1.
pub open spec fn positions(n: nat) -> Seq<usize> {
    Seq::new(n, |i: int| i as usize)
}

pub open spec fn parcel_filter(entry_ehs: Seq<AnyHash>, notices: Seq<DeliveryNotice>) -> spec_fn(usize) -> bool {
    |i: usize| parcel_selected(entry_ehs, notices, i as int)
}

/// An entry to commit with the notice it answers.
pub open spec fn parcel_pair(entry_ehs: Seq<AnyHash>, notices: Seq<DeliveryNotice>, i: usize) -> (usize, DeliveryNotice) {
    (i, notices[last_notice_for(notices, entry_ehs[i as int]).unwrap()])
}

pub open spec fn chunk_filter(
    chunk_ehs: Seq<AnyHash>,
    notices: Seq<DeliveryNotice>,
    local_manifests: Seq<Option<ParcelManifest>>,
    received_chunks: Seq<AnyHash>,
    manifests: Seq<HashedItem<ParcelManifest>>,
) -> spec_fn(usize) -> bool {
    |i: usize| is_last_of(chunk_ehs, i as int) && chunk_wanted(notices, local_manifests, received_chunks, manifests, chunk_ehs[i as int])
}

proof fn lemma_positions_take(n: nat, i: int)
    requires
        0 <= i < n,
    ensures
        positions(n).take(i + 1) == positions(n).take(i).push(i as usize),
        positions(n)[i] == i as usize,
{
    assert(positions(n).take(i + 1) =~= positions(n).take(i).push(i as usize));
}

/// Which of the parcels found in the inbox to commit. Entries and manifests
/// are committed when an accepted notice whose parcel was not received yet is
/// for them, each with the last such notice; chunks when such a notice's
/// manifest, or a manifest committed here, lists them and they were not
/// received yet. Of several items with the same hash, the last one counts.
pub fn plan_inbox(
    entry_ehs: &Vec<AnyHash>,
    manifests: &Vec<HashedItem<ParcelManifest>>,
    chunk_ehs: &Vec<AnyHash>,
    notices: &Vec<DeliveryNotice>,
    local_manifests: &Vec<Option<ParcelManifest>>,
    received_chunks: &Vec<AnyHash>,
) -> (plan: InboxPlan)
    requires
        local_manifests.len() == notices.len(),
    ensures
        plan.parcels@ == positions(entry_ehs.len() as nat).filter(parcel_filter(entry_ehs@, notices@)).map_values(
            |i: usize| parcel_pair(entry_ehs@, notices@, i),
        ),
        plan.manifests@ == positions(manifests.len() as nat).filter(
            parcel_filter(manifest_ehs(manifests@), notices@),
        ),
        plan.chunks@ == positions(chunk_ehs.len() as nat).filter(
            chunk_filter(chunk_ehs@, notices@, local_manifests@, received_chunks@, manifests@),
        ),
{
    // Entries
    let ghost pred = parcel_filter(entry_ehs@, notices@);
    let ghost f = |i: usize| parcel_pair(entry_ehs@, notices@, i);
    let ghost pos = positions(entry_ehs.len() as nat);
    let mut parcels: Vec<(usize, DeliveryNotice)> = Vec::new();
    let mut i: usize = 0;
    while i < entry_ehs.len()
        invariant
            0 <= i <= entry_ehs.len(),
            pred == parcel_filter(entry_ehs@, notices@),
            f == (|i: usize| parcel_pair(entry_ehs@, notices@, i)),
            pos == positions(entry_ehs.len() as nat),
            parcels@ == pos.take(i as int).filter(pred).map_values(f),
        decreases entry_ehs.len() - i,
    {
        proof {
            lemma_positions_take(entry_ehs.len() as nat, i as int);
            lemma_filter_take_step(pos, pred, i as int);
            lemma_map_push(pos.take(i as int).filter(pred), i, f);
        }
        let ghost prev = parcels@;
        assert(pred(i) == (is_last_of(entry_ehs@, i as int) && last_notice_for(notices@, entry_ehs@[i as int]) is Some));
        if last_of(entry_ehs, i) {
            if let Some(j) = find_last_notice(notices, &entry_ehs[i]) {
                proof {
                    lemma_last_notice_for_bounds(notices@, entry_ehs@[i as int]);
                }
                let pair = (i, notices[j].clone());
                assert(pair == f(i));
                parcels.push(pair);
            }
        }
        i = i + 1;
    }
    proof {
        lemma_filter_take_all(pos, pred);
    }
    // Manifests, and the chunks they list
    let mut wanted = chunks_wanted_by_notices(notices, local_manifests, received_chunks);
    let ghost mehs = manifest_ehs(manifests@);
    let ghost mpred = parcel_filter(mehs, notices@);
    let ghost mpos = positions(manifests.len() as nat);
    let mut manifest_plan: Vec<usize> = Vec::new();
    let mut ehs: Vec<AnyHash> = Vec::new();
    let mut k: usize = 0;
    while k < manifests.len()
        invariant
            0 <= k <= manifests.len(),
            ehs.len() == k,
            forall|j: int| 0 <= j < k ==> #[trigger] ehs@[j] == manifests@[j].eh,
        decreases manifests.len() - k,
    {
        ehs.push(manifests[k].eh);
        k = k + 1;
    }
    assert(ehs@ =~= mehs);
    let mut i: usize = 0;
    while i < manifests.len()
        invariant
            0 <= i <= manifests.len(),
            ehs@ == mehs,
            mehs == manifest_ehs(manifests@),
            mpred == parcel_filter(mehs, notices@),
            mpos == positions(manifests.len() as nat),
            local_manifests.len() == notices.len(),
            manifest_plan@ == mpos.take(i as int).filter(mpred),
            forall|eh: AnyHash| has_hash(wanted@, eh) <==> (wanted_by_notices(notices@, local_manifests@, received_chunks@, eh)
                || exists|k: int| 0 <= k < i && parcel_selected(mehs, notices@, k) && has_hash(#[trigger] manifests@[k].value.chunks@, eh)),
        decreases manifests.len() - i,
    {
        proof {
            lemma_positions_take(manifests.len() as nat, i as int);
            lemma_filter_take_step(mpos, mpred, i as int);
        }
        let ghost before = wanted@;
        let ghost old_i = i as int;
        assert(forall|eh: AnyHash| has_hash(before, eh) <==> (wanted_by_notices(notices@, local_manifests@, received_chunks@, eh)
                || exists|k: int| 0 <= k < old_i && parcel_selected(mehs, notices@, k) && has_hash(#[trigger] manifests@[k].value.chunks@, eh)));
        assert(mpred(i) == parcel_selected(mehs, notices@, i as int));
        let selected = last_of(&ehs, i) && find_last_notice(notices, &ehs[i]).is_some();
        if selected {
            manifest_plan.push(i);
            wanted = append_hashes(wanted, &manifests[i].value.chunks);
            assert(forall|eh: AnyHash| has_hash(wanted@, eh) <==> (has_hash(before, eh) || has_hash(manifests@[old_i].value.chunks@, eh)));
        }
        i = i + 1;
        proof {
            lemma_last_notice_for_bounds(notices@, ehs@[old_i]);
            assert(selected == parcel_selected(mehs, notices@, old_i));
            assert forall|eh: AnyHash| has_hash(wanted@, eh) <==> (wanted_by_notices(notices@, local_manifests@, received_chunks@, eh)
                || exists|k: int| 0 <= k < i && parcel_selected(mehs, notices@, k) && has_hash(#[trigger] manifests@[k].value.chunks@, eh)) by {
                assert(has_hash(before, eh) <==> (wanted_by_notices(notices@, local_manifests@, received_chunks@, eh)
                    || exists|k: int| 0 <= k < old_i && parcel_selected(mehs, notices@, k) && has_hash(#[trigger] manifests@[k].value.chunks@, eh)));
                if selected {
                    assert(has_hash(wanted@, eh) <==> (has_hash(before, eh) || has_hash(manifests@[old_i].value.chunks@, eh)));
                    if has_hash(manifests@[old_i].value.chunks@, eh) {
                        assert(0 <= old_i < i && parcel_selected(mehs, notices@, old_i) && has_hash(manifests@[old_i].value.chunks@, eh));
                    }
                } else {
                    assert(wanted@ == before);
                }
                if exists|k: int| 0 <= k < i && parcel_selected(mehs, notices@, k) && has_hash(#[trigger] manifests@[k].value.chunks@, eh) {
                    let k = choose|k: int| 0 <= k < i && parcel_selected(mehs, notices@, k) && has_hash(#[trigger] manifests@[k].value.chunks@, eh);
                    if k < old_i {
                        assert(exists|k: int| 0 <= k < old_i && parcel_selected(mehs, notices@, k) && has_hash(#[trigger] manifests@[k].value.chunks@, eh));
                    }
                }
                if exists|k: int| 0 <= k < old_i && parcel_selected(mehs, notices@, k) && has_hash(#[trigger] manifests@[k].value.chunks@, eh) {
                    let k = choose|k: int| 0 <= k < old_i && parcel_selected(mehs, notices@, k) && has_hash(#[trigger] manifests@[k].value.chunks@, eh);
                    assert(0 <= k < i);
                }
            }
        }
    }
    proof {
        lemma_filter_take_all(mpos, mpred);
    }
    // Chunks
    let ghost cpred = chunk_filter(chunk_ehs@, notices@, local_manifests@, received_chunks@, manifests@);
    let ghost cpos = positions(chunk_ehs.len() as nat);
    let mut chunk_plan: Vec<usize> = Vec::new();
    let mut i: usize = 0;
    while i < chunk_ehs.len()
        invariant
            0 <= i <= chunk_ehs.len(),
            cpred == chunk_filter(chunk_ehs@, notices@, local_manifests@, received_chunks@, manifests@),
            cpos == positions(chunk_ehs.len() as nat),
            chunk_plan@ == cpos.take(i as int).filter(cpred),
            forall|eh: AnyHash| has_hash(wanted@, eh) <==> chunk_wanted(notices@, local_manifests@, received_chunks@, manifests@, eh),
        decreases chunk_ehs.len() - i,
    {
        proof {
            lemma_positions_take(chunk_ehs.len() as nat, i as int);
            lemma_filter_take_step(cpos, cpred, i as int);
        }
        assert(cpred(i) == (is_last_of(chunk_ehs@, i as int) && chunk_wanted(notices@, local_manifests@, received_chunks@, manifests@, chunk_ehs@[i as int])));
        assert(has_hash(wanted@, chunk_ehs@[i as int]) <==> chunk_wanted(notices@, local_manifests@, received_chunks@, manifests@, chunk_ehs@[i as int]));
        if last_of(chunk_ehs, i) && contains_hash(&wanted, &chunk_ehs[i]) {
            chunk_plan.push(i);
        }
        i = i + 1;
    }
    proof {
        lemma_filter_take_all(cpos, cpred);
    }
    InboxPlan { parcels, manifests: manifest_plan, chunks: chunk_plan }
}

/// The positions kept by a filter are in range and in increasing order.
proof fn lemma_filtered_positions_increasing(n: nat, p: spec_fn(usize) -> bool)
    requires
        n <= usize::MAX,
    ensures
        forall|a: int| 0 <= a < positions(n).filter(p).len() ==> #[trigger] positions(n).filter(p)[a] < n,
        forall|a: int, b: int|
            0 <= a < b < positions(n).filter(p).len() ==> #[trigger] positions(n).filter(p)[a]
                < #[trigger] positions(n).filter(p)[b],
    decreases n,
{
    if n == 0 {
        assert(positions(n).filter(p) =~= Seq::<usize>::empty()) by {
            assert(positions(n) =~= Seq::<usize>::empty());
        }
    } else {
        let m = (n - 1) as nat;
        lemma_filtered_positions_increasing(m, p);
        assert(positions(n) =~= positions(m).push(m as usize));
        positions(m).lemma_filter_push(m as usize, p);
    }
}

/// Items kept only where no later item has the same hash never share a hash.
proof fn lemma_last_of_filter_distinct(ehs: Seq<AnyHash>, p: spec_fn(usize) -> bool, a: int, b: int)
    requires
        ehs.len() <= usize::MAX,
        forall|i: usize| #[trigger] p(i) ==> is_last_of(ehs, i as int),
        0 <= a < b < positions(ehs.len()).filter(p).len(),
    ensures
        ehs[positions(ehs.len()).filter(p)[a] as int]@ != ehs[positions(ehs.len()).filter(p)[b] as int]@,
{
    let f = positions(ehs.len()).filter(p);
    lemma_filtered_positions_increasing(ehs.len(), p);
    positions(ehs.len()).lemma_filter_pred(p, a);
    assert(f[a] < f[b]);
    assert(f[b] < ehs.len());
    assert(is_last_of(ehs, f[a] as int));
}

/// An inbox plan commits each hash at most once: no two planned entries, no
/// two planned manifests and no two planned chunks have the same hash.
pub proof fn lemma_plan_inbox_one_per_hash(
    entry_ehs: Seq<AnyHash>,
    manifests: Seq<HashedItem<ParcelManifest>>,
    chunk_ehs: Seq<AnyHash>,
    notices: Seq<DeliveryNotice>,
    local_manifests: Seq<Option<ParcelManifest>>,
    received_chunks: Seq<AnyHash>,
    a: int,
    b: int,
)
    requires
        entry_ehs.len() <= usize::MAX,
        manifests.len() <= usize::MAX,
        chunk_ehs.len() <= usize::MAX,
        0 <= a < b,
    ensures
        ({
            let planned = positions(entry_ehs.len()).filter(parcel_filter(entry_ehs, notices));
            b < planned.len() ==> entry_ehs[planned[a] as int]@ != entry_ehs[planned[b] as int]@
        }),
        ({
            let planned = positions(manifests.len()).filter(parcel_filter(manifest_ehs(manifests), notices));
            b < planned.len() ==> manifests[planned[a] as int].eh@ != manifests[planned[b] as int].eh@
        }),
        ({
            let planned = positions(chunk_ehs.len()).filter(
                chunk_filter(chunk_ehs, notices, local_manifests, received_chunks, manifests),
            );
            b < planned.len() ==> chunk_ehs[planned[a] as int]@ != chunk_ehs[planned[b] as int]@
        }),
{
    let pe = parcel_filter(entry_ehs, notices);
    if b < positions(entry_ehs.len()).filter(pe).len() {
        lemma_last_of_filter_distinct(entry_ehs, pe, a, b);
    }
    let mehs = manifest_ehs(manifests);
    let pm = parcel_filter(mehs, notices);
    assert(mehs.len() == manifests.len());
    if b < positions(manifests.len()).filter(pm).len() {
        lemma_last_of_filter_distinct(mehs, pm, a, b);
        lemma_filtered_positions_increasing(manifests.len(), pm);
    }
    let pc = chunk_filter(chunk_ehs, notices, local_manifests, received_chunks, manifests);
    if b < positions(chunk_ehs.len()).filter(pc).len() {
        lemma_last_of_filter_distinct(chunk_ehs, pc, a, b);
    }
}

} // verus!
