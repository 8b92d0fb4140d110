//! Parcels: their size, their distribution, their publication and their commit.

use vstd::prelude::*;
use crate::hash::{contains_hash, hash_views, lemma_hash_views_push, AnyHash};
use crate::types::{
    DeliverySummary, DistributionStrategy, EntryVisibility, ManifestReference, ParcelDescription,
    ParcelReference, PublicParcel,
};
use crate::entries::{DeliveryEntryTypes, DeliveryNotice, ParcelManifest};
use crate::errors::DeliveryError;
use crate::chunks::has_hash;
use crate::inbox::positions;
use crate::seqs::{lemma_filter_take_all, lemma_filter_take_step};

verus! {

/// Size of a parcel made of chunks: every chunk but the last has the maximum
/// chunk size.
pub open spec fn spec_parcel_size(chunk_count: nat, max_chunk_size: u32, last_chunk_size: usize) -> int {
    (chunk_count - 1) * max_chunk_size + last_chunk_size
}

/// A parcel of one chunk is as big as that chunk; each chunk more adds the
/// maximum chunk size; and with a last chunk no bigger than the maximum, a
/// parcel is never bigger than its chunk count times the maximum chunk size.
pub proof fn lemma_parcel_size_laws(chunk_count: nat, max_chunk_size: u32, last_chunk_size: usize)
    requires
        chunk_count > 0,
    ensures
        spec_parcel_size(1, max_chunk_size, last_chunk_size) == last_chunk_size,
        spec_parcel_size(chunk_count + 1, max_chunk_size, last_chunk_size)
            == spec_parcel_size(chunk_count, max_chunk_size, last_chunk_size) + max_chunk_size,
        last_chunk_size <= max_chunk_size ==> spec_parcel_size(chunk_count, max_chunk_size, last_chunk_size)
            <= chunk_count * max_chunk_size,
{
    assert((1 - 1) * max_chunk_size == 0) by (nonlinear_arith);
    assert(chunk_count * max_chunk_size == (chunk_count - 1) * max_chunk_size + max_chunk_size) by (nonlinear_arith)
        requires chunk_count > 0,
    ;
    assert((chunk_count + 1 - 1) * max_chunk_size == (chunk_count - 1) * max_chunk_size + max_chunk_size)
        by (nonlinear_arith)
        requires chunk_count > 0,
    ;
}

/// Size of the parcel of a manifest, from the size of its last chunk. The
/// manifest has chunks and the size fits in 64 bits.
pub fn determine_parcel_size(manifest: &ParcelManifest, max_chunk_size: u32, last_chunk_size: usize) -> (r: u64)
    requires
        manifest.chunks.len() > 0,
        spec_parcel_size(manifest.chunks.len() as nat, max_chunk_size, last_chunk_size) <= u64::MAX,
    ensures
        r == spec_parcel_size(manifest.chunks.len() as nat, max_chunk_size, last_chunk_size),
{
    let full_chunks = (manifest.chunks.len() - 1) as u64;
    assert(full_chunks * max_chunk_size <= u64::MAX) by (nonlinear_arith)
        requires
            full_chunks * max_chunk_size + last_chunk_size <= u64::MAX,
            last_chunk_size >= 0,
    ;
    full_chunks * (max_chunk_size as u64) + last_chunk_size as u64
}

/// The manifest to commit: its size is the computed one when the author gave none.
pub fn commit_parcel_manifest(manifest: ParcelManifest, computed_size: u64) -> (r: ParcelManifest)
    ensures
        r.description.name == manifest.description.name,
        r.description.size == if manifest.description.size == 0 {
            computed_size
        } else {
            manifest.description.size
        },
        r.data_hash == manifest.data_hash,
        r.chunks@ == manifest.chunks@,
{
    let mut manifest = manifest;
    if manifest.description.size == 0 {
        manifest.description.size = computed_size;
    }
    manifest
}

/// An entry as found at an address.
#[derive(Debug)]
pub enum FetchedEntry {
    /// An app entry: its serialized bytes.
    App(Vec<u8>),
    /// An entry of another kind.
    Other,
}

/// Size of the app entry at an address: the length of its serialized bytes.
/// `record` is what was found there: nothing, a record without an entry, or a
/// record with its entry.
pub fn get_app_entry_size(record: &Option<Option<FetchedEntry>>) -> (r: Result<usize, DeliveryError>)
    ensures
        r == match record {
            None => Err::<usize, DeliveryError>(DeliveryError::NoElementFound),
            Some(None) => Err(DeliveryError::NoAppEntryFound),
            Some(Some(FetchedEntry::Other)) => Err(DeliveryError::EntryNotApp),
            Some(Some(FetchedEntry::App(bytes))) => Ok(bytes.len()),
        },
{
    match record {
        None => Err(DeliveryError::NoElementFound),
        Some(None) => Err(DeliveryError::NoAppEntryFound),
        Some(Some(FetchedEntry::Other)) => Err(DeliveryError::EntryNotApp),
        Some(Some(FetchedEntry::App(bytes))) => Ok(bytes.len()),
    }
}

/// What is needed to publish a parcel.
#[derive(Debug)]
pub struct PublishParcelInput {
    pub name: String,
    pub manifest: ParcelManifest,
    pub zome_origin: String,
    pub data_type: String,
}

/// A parcel can only be published with chunks.
pub fn check_publishable(input: &PublishParcelInput) -> (r: Result<(), DeliveryError>)
    ensures
        r is Ok <==> input.manifest.chunks.len() > 0,
        r matches Err(e) ==> e == DeliveryError::NoChunksInManifest,
{
    if input.manifest.chunks.len() == 0 {
        return Err(DeliveryError::NoChunksInManifest);
    }
    Ok(())
}

/// The public parcel announcing a published manifest, marked public.
pub fn publish_parcel(input: &PublishParcelInput, manifest_eh: AnyHash, max_chunk_size: u32, last_chunk_size: usize) -> (r: PublicParcel)
    requires
        input.manifest.chunks.len() > 0,
        spec_parcel_size(input.manifest.chunks.len() as nat, max_chunk_size, last_chunk_size) <= u64::MAX,
    ensures
        r.description.name == input.name,
        r.description.size == spec_parcel_size(input.manifest.chunks.len() as nat, max_chunk_size, last_chunk_size),
        r.reference == ParcelReference::Manifest(
            ManifestReference {
                manifest_eh,
                entry_zome_name: input.zome_origin,
                entry_type_name: input.data_type,
            },
        ),
        r.visibility == EntryVisibility::Public,
{
    let size = determine_parcel_size(&input.manifest, max_chunk_size, last_chunk_size);
    PublicParcel {
        description: ParcelDescription { name: input.name.clone(), size },
        reference: ParcelReference::Manifest(
            ManifestReference {
                manifest_eh,
                entry_zome_name: input.zome_origin.clone(),
                entry_type_name: input.data_type.clone(),
            },
        ),
        visibility: EntryVisibility::Public,
    }
}

/// What is needed to distribute a parcel.
#[derive(Debug)]
pub struct DistributeParcelInput {
    pub recipients: Vec<AnyHash>,
    pub strategy: DistributionStrategy,
    pub parcel_reference: ParcelReference,
    pub parcel_name: String,
}

/// The recipients without duplicates: each recipient once, in the order of
/// its first occurrence.
pub fn dedup_recipients(recipients: &Vec<AnyHash>) -> (r: Vec<AnyHash>)
    ensures
        hash_views(r@).no_duplicates(),
        forall|h: AnyHash| has_hash(r@, h) <==> has_hash(recipients@, h),
        r.len() <= recipients.len(),
{
    let mut r: Vec<AnyHash> = Vec::new();
    let mut i: usize = 0;
    while i < recipients.len()
        invariant
            0 <= i <= recipients.len(),
            r.len() <= i,
            hash_views(r@).no_duplicates(),
            forall|h: AnyHash| has_hash(r@, h) <==> has_hash(recipients@.take(i as int), h),
        decreases recipients.len() - i,
    {
        let h = recipients[i];
        let ghost prev = r@;
        assert(forall|x: AnyHash| has_hash(prev, x) <==> has_hash(recipients@.take(i as int), x));
        let seen = contains_hash(&r, &h);
        if !seen {
            r.push(h);
            proof {
                assert(hash_views(r@) =~= hash_views(prev).push(h@));
            }
        }
        let ghost old_i = i as int;
        i = i + 1;
        proof {
            assert(recipients@.take(i as int) =~= recipients@.take(old_i).push(h));
            assert forall|x: AnyHash| has_hash(r@, x) <==> has_hash(recipients@.take(i as int), x) by {
                lemma_hash_views_push(recipients@.take(old_i), h, x@);
                assert(has_hash(prev, x) <==> has_hash(recipients@.take(old_i), x));
                if !seen {
                    lemma_hash_views_push(prev, h, x@);
                }
            }
        }
    }
    proof {
        assert(recipients@.take(recipients.len() as int) =~= recipients@);
    }
    r
}

/// Size announced for a manifest parcel: its number of chunks times the
/// maximum chunk size.
pub fn manifest_parcel_size(chunk_count: usize, max_chunk_size: u32) -> (r: u64)
    requires
        chunk_count * max_chunk_size <= u64::MAX,
    ensures
        r == chunk_count * max_chunk_size,
{
    (chunk_count as u64) * (max_chunk_size as u64)
}

/// The recipients and the summary of a distribution, given the parcel's size.
pub fn distribute_parcel(input: &DistributeParcelInput, parcel_size: u64) -> (r: (Vec<AnyHash>, DeliverySummary))
    ensures
        hash_views(r.0@).no_duplicates(),
        forall|h: AnyHash| has_hash(r.0@, h) <==> has_hash(input.recipients@, h),
        r.1 == (DeliverySummary {
            distribution_strategy: input.strategy,
            parcel_description: ParcelDescription { name: input.parcel_name, size: parcel_size },
            parcel_reference: input.parcel_reference,
        }),
{
    let recipients = dedup_recipients(&input.recipients);
    let summary = DeliverySummary {
        distribution_strategy: input.strategy,
        parcel_description: ParcelDescription { name: input.parcel_name.clone(), size: parcel_size },
        parcel_reference: input.parcel_reference.clone(),
    };
    (recipients, summary)
}

pub open spec fn not_local_filter(chunk_ehs: Seq<AnyHash>, local_ehs: Seq<AnyHash>) -> spec_fn(usize) -> bool {
    |i: usize| !has_hash(local_ehs, chunk_ehs[i as int])
}

/// Positions of the received chunks that are not committed locally yet.
pub fn commit_received_chunks(chunk_ehs: &Vec<AnyHash>, local_ehs: &Vec<AnyHash>) -> (r: Vec<usize>)
    ensures
        r@ == positions(chunk_ehs.len() as nat).filter(not_local_filter(chunk_ehs@, local_ehs@)),
{
    let ghost pred = not_local_filter(chunk_ehs@, local_ehs@);
    let ghost pos = positions(chunk_ehs.len() as nat);
    let mut r: Vec<usize> = Vec::new();
    let mut i: usize = 0;
    while i < chunk_ehs.len()
        invariant
            0 <= i <= chunk_ehs.len(),
            pred == not_local_filter(chunk_ehs@, local_ehs@),
            pos == positions(chunk_ehs.len() as nat),
            r@ == pos.take(i as int).filter(pred),
        decreases chunk_ehs.len() - i,
    {
        proof {
            assert(pos.take(i + 1) =~= pos.take(i as int).push(i));
            lemma_filter_take_step(pos, pred, i as int);
        }
        if !contains_hash(local_ehs, &chunk_ehs[i]) {
            r.push(i);
        }
        i = i + 1;
    }
    proof {
        lemma_filter_take_all(pos, pred);
    }
    r
}

/// The chunks at the given positions.
pub open spec fn chunks_at(chunk_ehs: Seq<AnyHash>, planned: Seq<usize>) -> Seq<AnyHash> {
    planned.map_values(|i: usize| chunk_ehs[i as int])
}

/// Committing the received chunks that are not local yet leaves every received
/// chunk local, and commits none that was local already.
pub proof fn lemma_received_chunks_all_local(chunk_ehs: Seq<AnyHash>, local_ehs: Seq<AnyHash>)
    requires
        chunk_ehs.len() <= usize::MAX,
    ensures
        ({
            let planned = positions(chunk_ehs.len()).filter(not_local_filter(chunk_ehs, local_ehs));
            &&& forall|i: int| 0 <= i < chunk_ehs.len() ==> has_hash(
                local_ehs + chunks_at(chunk_ehs, planned),
                #[trigger] chunk_ehs[i],
            )
            &&& forall|k: int| 0 <= k < planned.len() ==> !has_hash(local_ehs, chunk_ehs[#[trigger] planned[k] as int])
        }),
{
    let pred = not_local_filter(chunk_ehs, local_ehs);
    let pos = positions(chunk_ehs.len());
    let planned = pos.filter(pred);
    let committed = chunks_at(chunk_ehs, planned);
    assert forall|k: int| 0 <= k < planned.len() implies !has_hash(local_ehs, chunk_ehs[#[trigger] planned[k] as int]) by {
        pos.lemma_filter_pred(pred, k);
    }
    assert forall|i: int| 0 <= i < chunk_ehs.len() implies has_hash(local_ehs + committed, #[trigger] chunk_ehs[i]) by {
        let c = chunk_ehs[i];
        assert(hash_views(local_ehs + committed) =~= hash_views(local_ehs) + hash_views(committed));
        if has_hash(local_ehs, c) {
            let j = choose|j: int| 0 <= j < hash_views(local_ehs).len() && hash_views(local_ehs)[j] == c@;
            assert(hash_views(local_ehs + committed)[j] == c@);
        } else {
            assert(pos[i] == i as usize);
            assert(pred(pos[i]));
            pos.lemma_filter_contains(pred, i);
            assert(planned.contains(i as usize));
            let k = choose|k: int| 0 <= k < planned.len() && planned[k] == i as usize;
            assert(committed[k] == c);
            let at = local_ehs.len() + k;
            assert(hash_views(local_ehs + committed)[at] == c@);
        }
    }
}

/// What is needed to commit a received parcel in the zome that defines its type.
#[derive(Debug)]
pub struct CommitParcelInput {
    pub zome_index: u8,
    pub entry_index: u8,
    pub entry_visibility: EntryVisibility,
    /// The serialized bytes of the parcel entry.
    pub entry: Vec<u8>,
    pub maybe_link_ah: Option<AnyHash>,
}

/// How to commit a received parcel: where its entry type is defined, and
/// whether a ReceptionProof is committed right away (for a plain entry; a
/// manifest waits for its chunks).
pub fn call_commit_parcel(entry: Vec<u8>, notice: &DeliveryNotice, zome_names: &Vec<String>, maybe_link_ah: Option<AnyHash>) -> (r: (CommitParcelInput, bool))
    requires
        zome_names.len() < 256,
        exists|i: int|
            0 <= i < zome_names.len() && zome_names@[i]@ == notice.summary.parcel_reference.spec_integrity_zome_name(),
    ensures
        r.0.zome_index < zome_names.len(),
        zome_names@[r.0.zome_index as int]@ == notice.summary.parcel_reference.spec_integrity_zome_name(),
        forall|j: int| 0 <= j < r.0.zome_index ==> zome_names@[j]@ != notice.summary.parcel_reference.spec_integrity_zome_name(),
        r.0.entry_index == match notice.summary.parcel_reference {
            ParcelReference::Manifest(_) => DeliveryEntryTypes::PrivateManifest.index(),
            ParcelReference::AppEntry(e) => e.entry_index,
        },
        r.0.entry_visibility == match notice.summary.parcel_reference {
            ParcelReference::Manifest(_) => EntryVisibility::Private,
            ParcelReference::AppEntry(e) => e.visibility,
        },
        r.0.entry == entry,
        r.0.maybe_link_ah == maybe_link_ah,
        r.1 == notice.summary.parcel_reference is AppEntry,
{
    let reference = &notice.summary.parcel_reference;
    let input = CommitParcelInput {
        zome_index: reference.zome_index(zome_names),
        entry_index: reference.entry_index(),
        entry_visibility: reference.entry_visibility(),
        entry,
        maybe_link_ah,
    };
    let proof_now = match reference {
        ParcelReference::AppEntry(_) => true,
        ParcelReference::Manifest(_) => false,
    };
    (input, proof_now)
}

} // verus!
