//! Manifests and their chunks: what is missing, incomplete or orphaned.

#![allow(non_snake_case)]

use vstd::prelude::*;
use crate::hash::{contains_hash, hash_views, AnyHash};
use crate::entries::{DeliveryNotice, ParcelManifest, ReceptionProof};
use crate::queries::{first_of, proof_filter, query_ReceptionProof, LocalRecord, ReceptionProofQueryField};
use crate::seqs::{lemma_filter_take_all, lemma_filter_take_step, lemma_first_of_filter, lemma_map_push};

verus! {

/// Whether a hash is among a list of hashes.
pub open spec fn has_hash(hs: Seq<AnyHash>, h: AnyHash) -> bool {
    hash_views(hs).contains(h@)
}

pub open spec fn missing_filter(local: Seq<AnyHash>) -> spec_fn(AnyHash) -> bool {
    |h: AnyHash| !has_hash(local, h)
}

/// The chunks of a manifest that are not among the local chunks, in manifest order.
pub open spec fn spec_missing_chunks(chunks: Seq<AnyHash>, local: Seq<AnyHash>) -> Seq<AnyHash> {
    chunks.filter(missing_filter(local))
}

/// The chunks of a manifest that are not found among the local chunks.
pub fn determine_missing_chunks(manifest: &ParcelManifest, local_chunks: &Vec<AnyHash>) -> (res: Vec<AnyHash>)
    ensures
        res@ == spec_missing_chunks(manifest.chunks@, local_chunks@),
{
    let ghost pred = missing_filter(local_chunks@);
    let mut res: Vec<AnyHash> = Vec::new();
    let mut i: usize = 0;
    while i < manifest.chunks.len()
        invariant
            0 <= i <= manifest.chunks.len(),
            pred == missing_filter(local_chunks@),
            res@ == manifest.chunks@.take(i as int).filter(pred),
        decreases manifest.chunks.len() - i,
    {
        let chunk_eh = manifest.chunks[i];
        proof {
            lemma_filter_take_step(manifest.chunks@, pred, i as int);
        }
        if !contains_hash(local_chunks, &chunk_eh) {
            res.push(chunk_eh);
        }
        i = i + 1;
    }
    proof {
        lemma_filter_take_all(manifest.chunks@, pred);
    }
    res
}

/// A chunk is reported missing exactly when the manifest lists it and no
/// local chunk has its hash; the missing chunks keep the manifest's order.
pub proof fn lemma_missing_chunks_members(chunks: Seq<AnyHash>, local: Seq<AnyHash>, h: AnyHash)
    ensures
        spec_missing_chunks(chunks, local).contains(h) <==> (chunks.contains(h) && forall|j: int|
            0 <= j < local.len() ==> (#[trigger] local[j])@ != h@),
        spec_missing_chunks(chunks, local).len() <= chunks.len(),
{
    broadcast use vstd::seq_lib::group_filter_ensures;

    let pred = missing_filter(local);
    if spec_missing_chunks(chunks, local).contains(h) {
        chunks.lemma_filter_contains_rev(pred, h);
        assert forall|j: int| 0 <= j < local.len() implies (#[trigger] local[j])@ != h@ by {
            if local[j]@ == h@ {
                assert(hash_views(local)[j] == h@);
            }
        }
    }
    if chunks.contains(h) && forall|j: int| 0 <= j < local.len() ==> (#[trigger] local[j])@ != h@ {
        if hash_views(local).contains(h@) {
            let j = choose|j: int| 0 <= j < hash_views(local).len() && hash_views(local)[j] == h@;
            assert(local[j]@ == h@);
        }
        let i = choose|i: int| 0 <= i < chunks.len() && chunks[i] == h;
        chunks.lemma_filter_contains(pred, i);
    }
}

/// Whether every chunk of a manifest is among the local chunks.
pub open spec fn is_complete(chunks: Seq<AnyHash>, local: Seq<AnyHash>) -> bool {
    forall|j: int| 0 <= j < chunks.len() ==> has_hash(local, #[trigger] chunks[j])
}

fn all_present(chunks: &Vec<AnyHash>, local: &Vec<AnyHash>) -> (r: bool)
    ensures
        r == is_complete(chunks@, local@),
{
    let mut i: usize = 0;
    while i < chunks.len()
        invariant
            0 <= i <= chunks.len(),
            forall|j: int| 0 <= j < i ==> has_hash(local@, #[trigger] chunks@[j]),
        decreases chunks.len() - i,
    {
        if !contains_hash(local, &chunks[i]) {
            return false;
        }
        i = i + 1;
    }
    true
}

pub open spec fn incomplete_filter(local: Seq<AnyHash>) -> spec_fn(LocalRecord<ParcelManifest>) -> bool {
    |r: LocalRecord<ParcelManifest>| !is_complete(r.entry.chunks@, local)
}

pub open spec fn eh_of(r: LocalRecord<ParcelManifest>) -> AnyHash {
    r.eh
}

/// Entry hashes of the manifests that miss some chunk, in chain order.
pub fn scan_incomplete_manifests(manifests: &Vec<LocalRecord<ParcelManifest>>, local_chunks: &Vec<AnyHash>) -> (res: Vec<AnyHash>)
    ensures
        res@ == manifests@.filter(incomplete_filter(local_chunks@)).map_values(
            |r: LocalRecord<ParcelManifest>| eh_of(r),
        ),
{
    let ghost pred = incomplete_filter(local_chunks@);
    let ghost f = |r: LocalRecord<ParcelManifest>| eh_of(r);
    let mut res: Vec<AnyHash> = Vec::new();
    let mut i: usize = 0;
    while i < manifests.len()
        invariant
            0 <= i <= manifests.len(),
            pred == incomplete_filter(local_chunks@),
            f == (|r: LocalRecord<ParcelManifest>| eh_of(r)),
            res@ == manifests@.take(i as int).filter(pred).map_values(f),
        decreases manifests.len() - i,
    {
        let record = &manifests[i];
        proof {
            lemma_filter_take_step(manifests@, pred, i as int);
            lemma_map_push(manifests@.take(i as int).filter(pred), manifests@[i as int], f);
        }
        if !all_present(&record.entry.chunks, local_chunks) {
            res.push(record.eh);
        }
        i = i + 1;
    }
    proof {
        lemma_filter_take_all(manifests@, pred);
    }
    res
}

/// A manifest is reported incomplete exactly when some of its chunks are missing.
pub proof fn lemma_incomplete_iff_missing(m: LocalRecord<ParcelManifest>, local: Seq<AnyHash>)
    ensures
        incomplete_filter(local)(m) <==> spec_missing_chunks(m.entry.chunks@, local).len() > 0,
{
    crate::seqs::lemma_filter_empty_iff(m.entry.chunks@, missing_filter(local));
}

/// Whether a chunk is listed by one of the manifests.
pub open spec fn is_known_chunk(manifests: Seq<ParcelManifest>, h: AnyHash) -> bool {
    exists|i: int| 0 <= i < manifests.len() && has_hash(manifests[i].chunks@, h)
}

pub open spec fn orphan_filter(manifests: Seq<ParcelManifest>) -> spec_fn(AnyHash) -> bool {
    |h: AnyHash| !is_known_chunk(manifests, h)
}

fn is_known(manifests: &Vec<ParcelManifest>, h: &AnyHash) -> (r: bool)
    ensures
        r == is_known_chunk(manifests@, *h),
{
    let mut i: usize = 0;
    while i < manifests.len()
        invariant
            0 <= i <= manifests.len(),
            forall|j: int| 0 <= j < i ==> !has_hash(manifests@[j].chunks@, *h),
        decreases manifests.len() - i,
    {
        if contains_hash(&manifests[i].chunks, h) {
            return true;
        }
        i = i + 1;
    }
    false
}

/// The chunks that no manifest lists, in chain order.
pub fn orphan_chunks(manifests: &Vec<ParcelManifest>, chunk_ehs: &Vec<AnyHash>) -> (res: Vec<AnyHash>)
    ensures
        res@ == chunk_ehs@.filter(orphan_filter(manifests@)),
{
    let ghost pred = orphan_filter(manifests@);
    let mut res: Vec<AnyHash> = Vec::new();
    let mut i: usize = 0;
    while i < chunk_ehs.len()
        invariant
            0 <= i <= chunk_ehs.len(),
            pred == orphan_filter(manifests@),
            res@ == chunk_ehs@.take(i as int).filter(pred),
        decreases chunk_ehs.len() - i,
    {
        let eh = chunk_ehs[i];
        proof {
            lemma_filter_take_step(chunk_ehs@, pred, i as int);
        }
        if !is_known(manifests, &eh) {
            res.push(eh);
        }
        i = i + 1;
    }
    proof {
        lemma_filter_take_all(chunk_ehs@, pred);
    }
    res
}

/// The public and the private chunks that no manifest of the same visibility lists.
pub fn scan_orphan_chunks(
    public_manifests: &Vec<ParcelManifest>,
    public_chunks: &Vec<AnyHash>,
    private_manifests: &Vec<ParcelManifest>,
    private_chunks: &Vec<AnyHash>,
) -> (res: (Vec<AnyHash>, Vec<AnyHash>))
    ensures
        res.0@ == public_chunks@.filter(orphan_filter(public_manifests@)),
        res.1@ == private_chunks@.filter(orphan_filter(private_manifests@)),
{
    let public_orphans = orphan_chunks(public_manifests, public_chunks);
    let private_orphans = orphan_chunks(private_manifests, private_chunks);
    (public_orphans, private_orphans)
}

pub open spec fn manifest_filter(chunk_eh: AnyHash) -> spec_fn(ParcelManifest) -> bool {
    |m: ParcelManifest| has_hash(m.chunks@, chunk_eh)
}

/// Two manifests with the same content.
pub open spec fn same_manifest(a: ParcelManifest, b: ParcelManifest) -> bool {
    a.description == b.description && a.data_hash == b.data_hash && a.chunks@ == b.chunks@
}

/// The first manifest that lists a given chunk.
pub fn find_ParcelManifest(manifests: &Vec<ParcelManifest>, chunk_eh: &AnyHash) -> (res: Option<ParcelManifest>)
    ensures
        res is None <==> manifests@.filter(manifest_filter(*chunk_eh)).len() == 0,
        res matches Some(m) ==> same_manifest(m, manifests@.filter(manifest_filter(*chunk_eh))[0]),
{
    let ghost pred = manifest_filter(*chunk_eh);
    let mut i: usize = 0;
    while i < manifests.len()
        invariant
            0 <= i <= manifests.len(),
            pred == manifest_filter(*chunk_eh),
            manifests@.take(i as int).filter(pred).len() == 0,
        decreases manifests.len() - i,
    {
        proof {
            lemma_filter_take_step(manifests@, pred, i as int);
        }
        if contains_hash(&manifests[i].chunks, chunk_eh) {
            proof {
                lemma_first_of_filter(manifests@, pred, i as int);
            }
            return Some(manifests[i].clone());
        }
        i = i + 1;
    }
    proof {
        lemma_filter_take_all(manifests@, pred);
    }
    None
}

pub open spec fn parcel_notice_filter(parcel_eh: AnyHash) -> spec_fn(DeliveryNotice) -> bool {
    |n: DeliveryNotice| n.summary.parcel_reference.spec_entry_address()@ == parcel_eh@
}

/// The DeliveryNotices, among those of the chain, whose parcel is the given entry.
pub fn find_notice_with_parcel(notices: &Vec<DeliveryNotice>, parcel_eh: &AnyHash) -> (res: Vec<DeliveryNotice>)
    ensures
        res@ == notices@.filter(parcel_notice_filter(*parcel_eh)),
{
    let ghost pred = parcel_notice_filter(*parcel_eh);
    let mut res: Vec<DeliveryNotice> = Vec::new();
    let mut i: usize = 0;
    while i < notices.len()
        invariant
            0 <= i <= notices.len(),
            pred == parcel_notice_filter(*parcel_eh),
            res@ == notices@.take(i as int).filter(pred),
        decreases notices.len() - i,
    {
        proof {
            lemma_filter_take_step(notices@, pred, i as int);
        }
        let summary_eh = notices[i].summary.parcel_reference.entry_address();
        if summary_eh.same_as(parcel_eh) {
            res.push(notices[i].clone());
        }
        i = i + 1;
    }
    proof {
        lemma_filter_take_all(notices@, pred);
    }
    res
}

pub open spec fn manifest_record_lists(chunk_eh: AnyHash) -> spec_fn(LocalRecord<ParcelManifest>) -> bool {
    |r: LocalRecord<ParcelManifest>| has_hash(r.entry.chunks@, chunk_eh)
}

pub open spec fn notice_record_for(parcel_eh: AnyHash) -> spec_fn(LocalRecord<DeliveryNotice>) -> bool {
    |r: LocalRecord<DeliveryNotice>| r.entry.summary.parcel_reference.spec_entry_address()@ == parcel_eh@
}

pub open spec fn notice_record_eh(r: LocalRecord<DeliveryNotice>) -> AnyHash {
    r.eh
}

/// The manifest a chunk belongs to, with the notices that deliver it: the
/// first local manifest listing the chunk, and the entry hashes of the local
/// notices whose parcel is that manifest. Nothing when no manifest lists the
/// chunk or no notice delivers it (this agent then authored the manifest).
pub open spec fn spec_manifest_of_chunk(
    chunk_eh: AnyHash,
    manifests: Seq<LocalRecord<ParcelManifest>>,
    notices: Seq<LocalRecord<DeliveryNotice>>,
) -> Option<(AnyHash, Seq<AnyHash>)> {
    match first_of(manifests.filter(manifest_record_lists(chunk_eh))) {
        None => None,
        Some(m) => {
            let delivering = notices.filter(notice_record_for(m.eh));
            if delivering.len() == 0 {
                None
            } else {
                Some((m.eh, delivering.map_values(|r: LocalRecord<DeliveryNotice>| notice_record_eh(r))))
            }
        },
    }
}

/// Position of the first local manifest listing a chunk.
fn first_manifest_listing(chunk_eh: &AnyHash, manifests: &Vec<LocalRecord<ParcelManifest>>) -> (r: Option<usize>)
    ensures
        r is None <==> manifests@.filter(manifest_record_lists(*chunk_eh)).len() == 0,
        r matches Some(i) ==> i < manifests.len() && manifests@.filter(manifest_record_lists(*chunk_eh))[0]
            == manifests@[i as int],
{
    let ghost pred = manifest_record_lists(*chunk_eh);
    let mut i: usize = 0;
    while i < manifests.len()
        invariant
            0 <= i <= manifests.len(),
            pred == manifest_record_lists(*chunk_eh),
            manifests@.take(i as int).filter(pred).len() == 0,
        decreases manifests.len() - i,
    {
        proof {
            lemma_filter_take_step(manifests@, pred, i as int);
        }
        if contains_hash(&manifests[i].entry.chunks, chunk_eh) {
            proof {
                lemma_first_of_filter(manifests@, pred, i as int);
            }
            return Some(i);
        }
        i = i + 1;
    }
    proof {
        lemma_filter_take_all(manifests@, pred);
    }
    None
}

/// The manifest a chunk belongs to, and the notices that deliver it, if both exist.
pub fn manifest_of_chunk(
    chunk_eh: &AnyHash,
    manifests: &Vec<LocalRecord<ParcelManifest>>,
    notices: &Vec<LocalRecord<DeliveryNotice>>,
) -> (r: Option<(AnyHash, Vec<AnyHash>)>)
    ensures
        match (r, spec_manifest_of_chunk(*chunk_eh, manifests@, notices@)) {
            (None, None) => true,
            (Some((m, ns)), Some((sm, sns))) => m == sm && ns@ == sns,
            _ => false,
        },
{
    let manifest_eh = match first_manifest_listing(chunk_eh, manifests) {
        None => { return None; },
        Some(i) => manifests[i].eh,
    };
    let ghost npred = notice_record_for(manifest_eh);
    let ghost f = |r: LocalRecord<DeliveryNotice>| notice_record_eh(r);
    let mut ehs: Vec<AnyHash> = Vec::new();
    let mut k: usize = 0;
    while k < notices.len()
        invariant
            0 <= k <= notices.len(),
            npred == notice_record_for(manifest_eh),
            f == (|r: LocalRecord<DeliveryNotice>| notice_record_eh(r)),
            ehs@ == notices@.take(k as int).filter(npred).map_values(f),
        decreases notices.len() - k,
    {
        proof {
            lemma_filter_take_step(notices@, npred, k as int);
            lemma_map_push(notices@.take(k as int).filter(npred), notices@[k as int], f);
        }
        if notices[k].entry.summary.parcel_reference.entry_address().same_as(&manifest_eh) {
            ehs.push(notices[k].eh);
        }
        k = k + 1;
    }
    proof {
        lemma_filter_take_all(notices@, npred);
    }
    if ehs.len() == 0 {
        return None;
    }
    Some((manifest_eh, ehs))
}

/// What a check of a manifest finds for one of its notices.
#[derive(Clone, Copy, Debug)]
pub enum ManifestCheck {
    /// Chunks are missing: the percentage of chunks received.
    Incomplete(usize),
    /// A ReceptionProof was already committed: its entry hash.
    Received(AnyHash),
    /// All chunks are there: this ReceptionProof is to be committed.
    Prove(ReceptionProof),
    /// Same notice as an earlier one, whose ReceptionProof this is.
    ProvedAbove(ReceptionProof),
}

/// What a check finds for the notice at position k.
pub open spec fn spec_manifest_check(
    manifest_eh: AnyHash,
    notice_ehs: Seq<AnyHash>,
    received_pct: usize,
    proofs: Seq<LocalRecord<ReceptionProof>>,
    k: int,
) -> ManifestCheck {
    let notice_eh = notice_ehs[k];
    let proof = ReceptionProof { notice_eh, parcel_eh: manifest_eh };
    if received_pct != 100 {
        ManifestCheck::Incomplete(received_pct)
    } else {
        match first_of(proofs.filter(proof_filter(ReceptionProofQueryField::Notice(notice_eh)))) {
            Some(r) => ManifestCheck::Received(r.eh),
            None => if exists|j: int| 0 <= j < k && notice_ehs[j]@ == notice_eh@ {
                ManifestCheck::ProvedAbove(proof)
            } else {
                ManifestCheck::Prove(proof)
            },
        }
    }
}

fn earlier_same(notice_ehs: &Vec<AnyHash>, k: usize) -> (r: bool)
    requires
        k < notice_ehs.len(),
    ensures
        r == exists|j: int| 0 <= j < k && notice_ehs@[j]@ == notice_ehs@[k as int]@,
{
    let mut j: usize = 0;
    while j < k
        invariant
            0 <= j <= k < notice_ehs.len(),
            forall|i: int| 0 <= i < j ==> notice_ehs@[i]@ != notice_ehs@[k as int]@,
        decreases k - j,
    {
        if notice_ehs[j].same_as(&notice_ehs[k]) {
            return true;
        }
        j = j + 1;
    }
    false
}

/// Check a manifest's notices once its chunks are counted: while chunks are
/// missing each notice is reported with the percentage received; once all are
/// there, each notice gets a ReceptionProof, the one already committed or a
/// new one.
pub fn check_manifest(
    manifest_eh: AnyHash,
    notice_ehs: &Vec<AnyHash>,
    received_pct: usize,
    proofs: &Vec<LocalRecord<ReceptionProof>>,
) -> (res: Vec<(AnyHash, ManifestCheck)>)
    ensures
        res.len() == notice_ehs.len(),
        forall|k: int| 0 <= k < notice_ehs.len() ==> #[trigger] res@[k] == (
            notice_ehs@[k],
            spec_manifest_check(manifest_eh, notice_ehs@, received_pct, proofs@, k),
        ),
        received_pct != 100 ==> forall|k: int| 0 <= k < notice_ehs.len() ==> #[trigger] res@[k].1
            == ManifestCheck::Incomplete(received_pct),
{
    let mut res: Vec<(AnyHash, ManifestCheck)> = Vec::new();
    let mut k: usize = 0;
    while k < notice_ehs.len()
        invariant
            0 <= k <= notice_ehs.len(),
            res.len() == k,
            forall|i: int| 0 <= i < k ==> #[trigger] res@[i] == (
                notice_ehs@[i],
                spec_manifest_check(manifest_eh, notice_ehs@, received_pct, proofs@, i),
            ),
        decreases notice_ehs.len() - k,
    {
        let notice_eh = notice_ehs[k];
        let check = if received_pct != 100 {
            ManifestCheck::Incomplete(received_pct)
        } else {
            match query_ReceptionProof(proofs, ReceptionProofQueryField::Notice(notice_eh)) {
                Some((proof_eh, _ts, _proof)) => ManifestCheck::Received(proof_eh),
                None => {
                    let proof = ReceptionProof { notice_eh, parcel_eh: manifest_eh };
                    if earlier_same(notice_ehs, k) {
                        ManifestCheck::ProvedAbove(proof)
                    } else {
                        ManifestCheck::Prove(proof)
                    }
                },
            }
        };
        res.push((notice_eh, check));
        k = k + 1;
    }
    res
}

/// A check never plans a second ReceptionProof for a notice: a notice met
/// again further down the list is never to be proved again.
pub proof fn lemma_check_manifest_proves_once(
    manifest_eh: AnyHash,
    notice_ehs: Seq<AnyHash>,
    received_pct: usize,
    proofs: Seq<LocalRecord<ReceptionProof>>,
    i: int,
    j: int,
)
    requires
        0 <= i < j < notice_ehs.len(),
        notice_ehs[i]@ == notice_ehs[j]@,
    ensures
        !(spec_manifest_check(manifest_eh, notice_ehs, received_pct, proofs, j) is Prove),
{
    assert(0 <= i < j && notice_ehs[i]@ == notice_ehs[j]@);
}

/// Once all chunks are there, every notice is proved: by a ReceptionProof
/// already on the chain, or by one to commit; while chunks are missing, none
/// is, and each is answered with the percentage of chunks received.
pub proof fn lemma_check_manifest_complete(
    manifest_eh: AnyHash,
    notice_ehs: Seq<AnyHash>,
    received_pct: usize,
    proofs: Seq<LocalRecord<ReceptionProof>>,
    k: int,
)
    requires
        0 <= k < notice_ehs.len(),
    ensures
        (spec_manifest_check(manifest_eh, notice_ehs, received_pct, proofs, k) is Incomplete) == (received_pct != 100),
        received_pct != 100 ==> spec_manifest_check(manifest_eh, notice_ehs, received_pct, proofs, k)
            == ManifestCheck::Incomplete(received_pct),
        spec_manifest_check(manifest_eh, notice_ehs, received_pct, proofs, k) matches ManifestCheck::Prove(p)
            ==> p.notice_eh == notice_ehs[k] && p.parcel_eh == manifest_eh,
{
}

/// The first position holding the same hash as position k.
proof fn lemma_first_occurrence(s: Seq<AnyHash>, k: int) -> (j: int)
    requires
        0 <= k < s.len(),
    ensures
        0 <= j <= k,
        s[j]@ == s[k]@,
        forall|i: int| 0 <= i < j ==> s[i]@ != s[k]@,
    decreases k,
{
    if exists|i: int| 0 <= i < k && s[i]@ == s[k]@ {
        let i = choose|i: int| 0 <= i < k && s[i]@ == s[k]@;
        lemma_first_occurrence(s, i)
    } else {
        k
    }
}

/// Checking a manifest twice: once the ReceptionProofs that a first check
/// plans are committed, a second check plans none, answers as before every
/// notice that was already proved or while chunks are missing, and once all
/// chunks are there answers every notice with a committed proof.
pub proof fn lemma_check_manifest_twice(
    manifest_eh: AnyHash,
    notice_ehs: Seq<AnyHash>,
    received_pct: usize,
    proofs: Seq<LocalRecord<ReceptionProof>>,
    committed: Seq<LocalRecord<ReceptionProof>>,
    k: int,
)
    requires
        0 <= k < notice_ehs.len(),
        forall|j: int|
            #![trigger spec_manifest_check(manifest_eh, notice_ehs, received_pct, proofs, j)]
            0 <= j < notice_ehs.len() ==> (spec_manifest_check(manifest_eh, notice_ehs, received_pct, proofs, j) matches ManifestCheck::Prove(p)
                ==> exists|i: int| 0 <= i < committed.len() && #[trigger] committed[i].entry == p),
    ensures
        ({
            let first = spec_manifest_check(manifest_eh, notice_ehs, received_pct, proofs, k);
            let second = spec_manifest_check(manifest_eh, notice_ehs, received_pct, proofs + committed, k);
            &&& !(second is Prove)
            &&& !(second is ProvedAbove)
            &&& (first is Received || first is Incomplete) ==> second == first
            &&& received_pct == 100 ==> second is Received
        }),
{
    let n = notice_ehs[k];
    let pred = proof_filter(ReceptionProofQueryField::Notice(n));
    Seq::filter_distributes_over_add(proofs, committed, pred);
    if received_pct == 100 && proofs.filter(pred).len() == 0 {
        let j = lemma_first_occurrence(notice_ehs, k);
        let pred_j = proof_filter(ReceptionProofQueryField::Notice(notice_ehs[j]));
        crate::seqs::lemma_filter_empty_iff(proofs, pred);
        crate::seqs::lemma_filter_empty_iff(proofs, pred_j);
        assert forall|i: int| 0 <= i < proofs.len() implies !pred_j(#[trigger] proofs[i]) by {
            assert(!pred(proofs[i]));
        }
        assert(proofs.filter(pred_j).len() == 0);
        assert(!(exists|i: int| 0 <= i < j && notice_ehs[i]@ == notice_ehs[j]@));
        let p = ReceptionProof { notice_eh: notice_ehs[j], parcel_eh: manifest_eh };
        assert(spec_manifest_check(manifest_eh, notice_ehs, received_pct, proofs, j) == ManifestCheck::Prove(p));
        let i = choose|i: int| 0 <= i < committed.len() && #[trigger] committed[i].entry == p;
        assert(pred(committed[i]));
        committed.lemma_filter_contains(pred, i);
        assert(committed.filter(pred).len() > 0);
    }
}

/// The answer reported for a notice by a check, given how a ReceptionProof
/// hashes: the percentage while chunks are missing, otherwise the entry hash
/// of the notice's ReceptionProof.
pub open spec fn check_answer(check: ManifestCheck, hash_of: spec_fn(ReceptionProof) -> AnyHash) -> Result<AnyHash, usize> {
    match check {
        ManifestCheck::Incomplete(pct) => Err(pct),
        ManifestCheck::Received(eh) => Ok(eh),
        ManifestCheck::Prove(p) => Ok(hash_of(p)),
        ManifestCheck::ProvedAbove(p) => Ok(hash_of(p)),
    }
}

/// A second check gives the same answers as the first: once the proofs the
/// first check plans are committed, each under its hash, every notice is
/// answered with the same hash (or percentage) as before. The hash of a proof
/// depends on its bytes only.
pub proof fn lemma_check_manifest_same_answers(
    manifest_eh: AnyHash,
    notice_ehs: Seq<AnyHash>,
    received_pct: usize,
    proofs: Seq<LocalRecord<ReceptionProof>>,
    committed: Seq<LocalRecord<ReceptionProof>>,
    hash_of: spec_fn(ReceptionProof) -> AnyHash,
    k: int,
)
    requires
        0 <= k < notice_ehs.len(),
        forall|j: int|
            #![trigger spec_manifest_check(manifest_eh, notice_ehs, received_pct, proofs, j)]
            0 <= j < notice_ehs.len() ==> (spec_manifest_check(manifest_eh, notice_ehs, received_pct, proofs, j) matches ManifestCheck::Prove(p)
                ==> exists|i: int| 0 <= i < committed.len() && #[trigger] committed[i].entry == p),
        forall|i: int|
            0 <= i < committed.len() ==> #[trigger] committed[i].eh == hash_of(committed[i].entry)
                && committed[i].entry.parcel_eh@ == manifest_eh@,
        forall|a: ReceptionProof, b: ReceptionProof|
            a.notice_eh@ == b.notice_eh@ && a.parcel_eh@ == b.parcel_eh@ ==> #[trigger] hash_of(a) == #[trigger] hash_of(b),
    ensures
        check_answer(spec_manifest_check(manifest_eh, notice_ehs, received_pct, proofs + committed, k), hash_of)
            == check_answer(spec_manifest_check(manifest_eh, notice_ehs, received_pct, proofs, k), hash_of),
{
    lemma_check_manifest_twice(manifest_eh, notice_ehs, received_pct, proofs, committed, k);
    let n = notice_ehs[k];
    let pred = proof_filter(ReceptionProofQueryField::Notice(n));
    Seq::filter_distributes_over_add(proofs, committed, pred);
    if received_pct == 100 && proofs.filter(pred).len() == 0 {
        let all = (proofs + committed).filter(pred);
        assert(all =~= committed.filter(pred));
        assert(committed.filter(pred).len() > 0);
        let r = committed.filter(pred)[0];
        committed.lemma_filter_pred(pred, 0);
        assert(committed.filter(pred).contains(r));
        committed.lemma_filter_contains_rev(pred, r);
        let i = choose|i: int| 0 <= i < committed.len() && committed[i] == r;
        assert(r.eh == hash_of(r.entry));
        let p = ReceptionProof { notice_eh: n, parcel_eh: manifest_eh };
        assert(r.entry.notice_eh@ == p.notice_eh@ && r.entry.parcel_eh@ == p.parcel_eh@);
        assert(hash_of(r.entry) == hash_of(p));
    }
}

} // verus!
