//! DNA properties and the validation rules of the delivery entries.

#![allow(non_snake_case)]

use vstd::prelude::*;
use crate::entries::{DeliveryEntry, Distribution, ParcelChunk, ParcelManifest};
use crate::types::{ParcelDescription, PublicParcel};

verus! {

/// Why an entry or the DNA properties are invalid.
#[derive(Clone, Copy, Debug, PartialEq, Eq, Structural)]
pub enum InvalidReason {
    /// The DNA properties could not be read.
    NoProperties,
    /// DNA property "max_parcel_name_length" must be > 0.
    MaxParcelNameLengthZero,
    /// DNA property "max_parcel_name_length" must be bigger than "min_parcel_name_length".
    MaxParcelNameLengthTooSmall,
    /// DNA property "max_chunk_size" must be > 0.
    MaxChunkSizeZero,
    /// DNA property "max_parcel_size" must be > 0.
    MaxParcelSizeZero,
    /// DNA property "max_parcel_size" must be bigger than "max_chunk_size".
    MaxParcelSizeTooSmall,
    /// The parcel name is shorter than the minimum.
    ParcelNameTooSmall { len: usize, min: u16 },
    /// The parcel name is longer than the maximum.
    ParcelNameTooBig { len: usize, max: u32 },
    /// The parcel is bigger than the maximum.
    ParcelTooBig { size: u64, max: u64 },
    /// The parcel size is 0.
    ParcelSizeZero,
    /// A distribution needs at least one recipient.
    NoRecipient,
    /// A chunk must have some content.
    ChunkEmpty,
    /// A chunk can't be bigger than the maximum, given in KiB.
    ChunkTooBig { max_kib: u32 },
    /// A manifest needs chunks.
    MissingChunks,
    /// A manifest lists more chunks than a parcel may have.
    TooManyChunks { count: usize, max: u64 },
    /// CounterSign entries are not allowed.
    CounterSignNotAllowed,
}

/// Outcome of a validation.
#[derive(Clone, Copy, Debug, PartialEq, Eq, Structural)]
pub enum ValidationOutcome {
    Valid,
    Invalid(InvalidReason),
}

/// Properties of the DNA.
#[derive(Clone, Copy, Debug, PartialEq, Eq, Structural)]
pub struct DeliveryProperties {
    pub max_chunk_size: u32,
    pub max_parcel_size: u64,
    pub max_parcel_name_length: u32,
    pub min_parcel_name_length: u16,
}

impl DeliveryProperties {
    /// The properties are consistent.
    pub open spec fn spec_is_valid(self) -> bool {
        &&& self.max_parcel_name_length > 0
        &&& self.max_parcel_name_length >= self.min_parcel_name_length
        &&& self.max_chunk_size > 0
        &&& self.max_parcel_size > 0
        &&& self.max_parcel_size >= self.max_chunk_size
    }

    /// The first rule the properties break, if any.
    pub open spec fn spec_check(self) -> ValidationOutcome {
        if self.max_parcel_name_length == 0 {
            ValidationOutcome::Invalid(InvalidReason::MaxParcelNameLengthZero)
        } else if self.max_parcel_name_length < self.min_parcel_name_length {
            ValidationOutcome::Invalid(InvalidReason::MaxParcelNameLengthTooSmall)
        } else if self.max_chunk_size == 0 {
            ValidationOutcome::Invalid(InvalidReason::MaxChunkSizeZero)
        } else if self.max_parcel_size == 0 {
            ValidationOutcome::Invalid(InvalidReason::MaxParcelSizeZero)
        } else if self.max_parcel_size < self.max_chunk_size {
            ValidationOutcome::Invalid(InvalidReason::MaxParcelSizeTooSmall)
        } else {
            ValidationOutcome::Valid
        }
    }

    /// Check the properties; the first broken rule is reported.
    pub fn validate(&self) -> (r: ValidationOutcome)
        ensures
            r == self.spec_check(),
            r == ValidationOutcome::Valid <==> self.spec_is_valid(),
    {
        if self.max_parcel_name_length == 0 {
            return ValidationOutcome::Invalid(InvalidReason::MaxParcelNameLengthZero);
        }
        if self.max_parcel_name_length < self.min_parcel_name_length as u32 {
            return ValidationOutcome::Invalid(InvalidReason::MaxParcelNameLengthTooSmall);
        }
        if self.max_chunk_size == 0 {
            return ValidationOutcome::Invalid(InvalidReason::MaxChunkSizeZero);
        }
        if self.max_parcel_size == 0 {
            return ValidationOutcome::Invalid(InvalidReason::MaxParcelSizeZero);
        }
        if self.max_parcel_size < self.max_chunk_size as u64 {
            return ValidationOutcome::Invalid(InvalidReason::MaxParcelSizeTooSmall);
        }
        ValidationOutcome::Valid
    }
}

/// Check of the DNA at genesis: its properties must exist and be valid.
pub fn genesis_self_check(maybe_properties: Option<DeliveryProperties>) -> (r: ValidationOutcome)
    ensures
        r == match maybe_properties {
            None => ValidationOutcome::Invalid(InvalidReason::NoProperties),
            Some(p) => p.spec_check(),
        },
        maybe_properties matches Some(p) ==> (r == ValidationOutcome::Valid <==> p.spec_is_valid()),
{
    match maybe_properties {
        None => ValidationOutcome::Invalid(InvalidReason::NoProperties),
        Some(properties) => properties.validate(),
    }
}

/// Length in bytes of the UTF-8 encoding of a string.
pub open spec fn byte_len(s: Seq<char>) -> usize {
    vstd::utf8::encode_utf8(s).len() as usize
}

/// The rules on a parcel description; the first broken rule is reported.
/// Without properties, a description is not checked.
pub open spec fn spec_validate_description(pd: ParcelDescription, props: Option<DeliveryProperties>) -> ValidationOutcome {
    match props {
        None => ValidationOutcome::Valid,
        Some(p) => {
            let len = byte_len(pd.name@);
            if len < p.min_parcel_name_length {
                ValidationOutcome::Invalid(
                    InvalidReason::ParcelNameTooSmall { len: len, min: p.min_parcel_name_length },
                )
            } else if len > p.max_parcel_name_length {
                ValidationOutcome::Invalid(
                    InvalidReason::ParcelNameTooBig { len: len, max: p.max_parcel_name_length },
                )
            } else if pd.size > p.max_parcel_size {
                ValidationOutcome::Invalid(
                    InvalidReason::ParcelTooBig { size: pd.size, max: p.max_parcel_size },
                )
            } else if pd.size == 0 {
                ValidationOutcome::Invalid(InvalidReason::ParcelSizeZero)
            } else {
                ValidationOutcome::Valid
            }
        },
    }
}

/// Check a parcel description against the DNA properties.
pub fn validate_description(pd: &ParcelDescription, props: Option<DeliveryProperties>) -> (r: ValidationOutcome)
    ensures
        r == spec_validate_description(*pd, props),
{
    let dna_properties = match props {
        None => { return ValidationOutcome::Valid; },
        Some(p) => p,
    };
    let len = pd.name.as_str().len();
    if len < dna_properties.min_parcel_name_length as usize {
        return ValidationOutcome::Invalid(
            InvalidReason::ParcelNameTooSmall { len, min: dna_properties.min_parcel_name_length },
        );
    }
    if len > dna_properties.max_parcel_name_length as usize {
        return ValidationOutcome::Invalid(
            InvalidReason::ParcelNameTooBig { len, max: dna_properties.max_parcel_name_length },
        );
    }
    if pd.size > dna_properties.max_parcel_size {
        return ValidationOutcome::Invalid(
            InvalidReason::ParcelTooBig { size: pd.size, max: dna_properties.max_parcel_size },
        );
    }
    if pd.size == 0 {
        return ValidationOutcome::Invalid(InvalidReason::ParcelSizeZero);
    }
    ValidationOutcome::Valid
}

/// A public parcel must have a valid description.
pub fn validate_PublicParcel(pp: &PublicParcel, props: Option<DeliveryProperties>) -> (r: ValidationOutcome)
    ensures
        r == spec_validate_description(pp.description, props),
{
    validate_description(&pp.description, props)
}

/// The rules on a distribution.
pub open spec fn spec_validate_distribution(distribution: Distribution, props: Option<DeliveryProperties>) -> ValidationOutcome {
    if distribution.recipients.len() == 0 {
        ValidationOutcome::Invalid(InvalidReason::NoRecipient)
    } else {
        spec_validate_description(distribution.delivery_summary.parcel_description, props)
    }
}

/// A distribution needs a recipient and a valid parcel description.
pub fn validate_Distribution(distribution: &Distribution, props: Option<DeliveryProperties>) -> (r: ValidationOutcome)
    ensures
        r == spec_validate_distribution(*distribution, props),
{
    if distribution.recipients.len() == 0 {
        return ValidationOutcome::Invalid(InvalidReason::NoRecipient);
    }
    validate_description(&distribution.delivery_summary.parcel_description, props)
}

/// The rules on a chunk.
pub open spec fn spec_validate_chunk(chunk: ParcelChunk, props: Option<DeliveryProperties>) -> ValidationOutcome {
    if byte_len(chunk.data@) == 0 {
        ValidationOutcome::Invalid(InvalidReason::ChunkEmpty)
    } else {
        match props {
            None => ValidationOutcome::Valid,
            Some(p) => if byte_len(chunk.data@) > p.max_chunk_size {
                ValidationOutcome::Invalid(InvalidReason::ChunkTooBig { max_kib: p.max_chunk_size / 1024 })
            } else {
                ValidationOutcome::Valid
            },
        }
    }
}

/// A chunk must hold some data, and no more than the maximum chunk size.
pub fn validate_ParcelChunk(chunk: &ParcelChunk, props: Option<DeliveryProperties>) -> (r: ValidationOutcome)
    ensures
        r == spec_validate_chunk(*chunk, props),
{
    if chunk.data.as_str().len() == 0 {
        return ValidationOutcome::Invalid(InvalidReason::ChunkEmpty);
    }
    let dna_properties = match props {
        None => { return ValidationOutcome::Valid; },
        Some(p) => p,
    };
    if chunk.data.as_str().len() > dna_properties.max_chunk_size as usize {
        return ValidationOutcome::Invalid(
            InvalidReason::ChunkTooBig { max_kib: dna_properties.max_chunk_size / 1024 },
        );
    }
    ValidationOutcome::Valid
}

/// Most chunks a parcel may have: one more than fit whole in the maximum parcel size.
pub open spec fn max_chunk_count(p: DeliveryProperties) -> int {
    p.max_parcel_size / (p.max_chunk_size as u64) + 1
}

/// Properties with which a manifest can be checked: the chunk size is not zero.
pub open spec fn spec_properties_usable(props: Option<DeliveryProperties>) -> bool {
    props matches Some(p) ==> p.max_chunk_size > 0
}

/// The rules on a manifest.
pub open spec fn spec_validate_manifest(manifest: ParcelManifest, props: Option<DeliveryProperties>) -> ValidationOutcome {
    if spec_validate_description(manifest.description, props) != ValidationOutcome::Valid {
        spec_validate_description(manifest.description, props)
    } else if manifest.chunks.len() == 0 {
        ValidationOutcome::Invalid(InvalidReason::MissingChunks)
    } else {
        match props {
            None => ValidationOutcome::Valid,
            Some(p) => if manifest.chunks.len() > max_chunk_count(p) {
                ValidationOutcome::Invalid(
                    InvalidReason::TooManyChunks {
                        count: manifest.chunks.len(),
                        max: if max_chunk_count(p) <= u64::MAX { max_chunk_count(p) as u64 } else { u64::MAX },
                    },
                )
            } else {
                ValidationOutcome::Valid
            },
        }
    }
}

/// A manifest needs a valid description and some chunks, and no more chunks
/// than a parcel may have.
pub fn validate_ParcelManifest(manifest: &ParcelManifest, props: Option<DeliveryProperties>) -> (r: ValidationOutcome)
    requires
        spec_properties_usable(props),
    ensures
        r == spec_validate_manifest(*manifest, props),
{
    let described = validate_description(&manifest.description, props);
    if described != ValidationOutcome::Valid {
        return described;
    }
    if manifest.chunks.len() == 0 {
        return ValidationOutcome::Invalid(InvalidReason::MissingChunks);
    }
    let dna_properties = match props {
        None => { return ValidationOutcome::Valid; },
        Some(p) => p,
    };
    let whole_chunks: u64 = dna_properties.max_parcel_size / (dna_properties.max_chunk_size as u64);
    let count = manifest.chunks.len();
    // More chunks than whole_chunks + 1, computed without overflow
    if (count - 1) as u64 > whole_chunks {
        let max: u64 = if whole_chunks < u64::MAX { whole_chunks + 1 } else { u64::MAX };
        return ValidationOutcome::Invalid(InvalidReason::TooManyChunks { count, max });
    }
    ValidationOutcome::Valid
}

/// The rules on an entry of the delivery zome, by entry type.
pub open spec fn spec_validate_app_entry(entry: DeliveryEntry, props: Option<DeliveryProperties>) -> ValidationOutcome {
    match entry {
        DeliveryEntry::Distribution(d) => spec_validate_distribution(d, props),
        DeliveryEntry::PrivateChunk(c) => spec_validate_chunk(c, props),
        DeliveryEntry::PublicChunk(c) => spec_validate_chunk(c, props),
        DeliveryEntry::PrivateManifest(m) => spec_validate_manifest(m, props),
        DeliveryEntry::PublicManifest(m) => spec_validate_manifest(m, props),
        DeliveryEntry::PublicParcel(pp) => spec_validate_description(pp.description, props),
        _ => ValidationOutcome::Valid,
    }
}

/// Validate an entry of the delivery zome according to its entry type.
pub fn validate_app_entry(entry: &DeliveryEntry, props: Option<DeliveryProperties>) -> (r: ValidationOutcome)
    requires
        spec_properties_usable(props),
    ensures
        r == spec_validate_app_entry(*entry, props),
{
    match entry {
        DeliveryEntry::Distribution(d) => validate_Distribution(d, props),
        DeliveryEntry::PrivateChunk(c) => validate_ParcelChunk(c, props),
        DeliveryEntry::PublicChunk(c) => validate_ParcelChunk(c, props),
        DeliveryEntry::PrivateManifest(m) => validate_ParcelManifest(m, props),
        DeliveryEntry::PublicManifest(m) => validate_ParcelManifest(m, props),
        DeliveryEntry::PublicParcel(pp) => validate_PublicParcel(pp, props),
        _ => ValidationOutcome::Valid,
    }
}

/// The content of an entry being created.
#[derive(Debug)]
pub enum EntryContent {
    CounterSign,
    Agent,
    CapClaim,
    CapGrant,
    /// An entry of the delivery zome.
    App(DeliveryEntry),
}

/// The rules on any entry.
pub open spec fn spec_validate_entry(entry: EntryContent, props: Option<DeliveryProperties>) -> ValidationOutcome {
    match entry {
        EntryContent::CounterSign => ValidationOutcome::Invalid(InvalidReason::CounterSignNotAllowed),
        EntryContent::App(e) => spec_validate_app_entry(e, props),
        _ => ValidationOutcome::Valid,
    }
}

/// Validate any entry: CounterSign entries are refused, agent keys and
/// capabilities accepted, and entries of the zome checked by type.
pub fn validate_entry(entry: &EntryContent, props: Option<DeliveryProperties>) -> (r: ValidationOutcome)
    requires
        spec_properties_usable(props),
    ensures
        r == spec_validate_entry(*entry, props),
{
    match entry {
        EntryContent::CounterSign => ValidationOutcome::Invalid(InvalidReason::CounterSignNotAllowed),
        EntryContent::Agent => ValidationOutcome::Valid,
        EntryContent::CapClaim => ValidationOutcome::Valid,
        EntryContent::CapGrant => ValidationOutcome::Valid,
        EntryContent::App(e) => validate_app_entry(e, props),
    }
}

/// An operation to validate.
#[derive(Debug)]
pub enum Op {
    CreateRecord,
    CreateEntry(EntryContent),
    CreateLink,
    DeleteLink,
    Update,
    Delete,
    AgentActivity,
}

/// Validate an operation: only the creation of an entry can be invalid.
pub fn validate(op: &Op, props: Option<DeliveryProperties>) -> (r: ValidationOutcome)
    requires
        spec_properties_usable(props),
    ensures
        r == match op {
            Op::CreateEntry(e) => spec_validate_entry(*e, props),
            _ => ValidationOutcome::Valid,
        },
{
    match op {
        Op::CreateEntry(e) => validate_entry(e, props),
        _ => ValidationOutcome::Valid,
    }
}

/// Properties that pass the genesis check can be used to validate any entry.
pub proof fn lemma_genesis_properties_usable(p: DeliveryProperties)
    requires
        p.spec_is_valid(),
    ensures
        spec_properties_usable(Some(p)),
        max_chunk_count(p) >= 2,
{
    assert(p.max_parcel_size / (p.max_chunk_size as u64) >= 1) by (nonlinear_arith)
        requires
            p.max_parcel_size >= p.max_chunk_size,
            p.max_chunk_size > 0,
    ;
}

/// A distribution entry, validated as an entry of the zome or as any entry,
/// is judged by the rules on distributions: a distribution without recipient
/// is invalid, and one with recipients stands or falls with its parcel's
/// description.
pub proof fn lemma_distribution_entry_rules(d: Distribution, props: Option<DeliveryProperties>)
    ensures
        spec_validate_app_entry(DeliveryEntry::Distribution(d), props) == spec_validate_distribution(d, props),
        spec_validate_entry(EntryContent::App(DeliveryEntry::Distribution(d)), props)
            == spec_validate_distribution(d, props),
        d.recipients.len() == 0 ==> spec_validate_app_entry(DeliveryEntry::Distribution(d), props)
            == ValidationOutcome::Invalid(InvalidReason::NoRecipient),
        d.recipients.len() > 0 ==> spec_validate_app_entry(DeliveryEntry::Distribution(d), props)
            == spec_validate_description(d.delivery_summary.parcel_description, props),
{
}

/// A chunk without data is invalid, as a private or as a public chunk.
pub proof fn lemma_empty_chunk_invalid(c: ParcelChunk, props: Option<DeliveryProperties>)
    requires
        c.data@.len() == 0,
    ensures
        spec_validate_app_entry(DeliveryEntry::PrivateChunk(c), props)
            == ValidationOutcome::Invalid(InvalidReason::ChunkEmpty),
        spec_validate_app_entry(DeliveryEntry::PublicChunk(c), props)
            == ValidationOutcome::Invalid(InvalidReason::ChunkEmpty),
{
}

/// A parcel description is valid exactly when, under the DNA properties, its
/// name is neither shorter nor longer in bytes than they allow and its size
/// is not zero and not above the maximum; without properties, any is valid.
pub proof fn lemma_description_valid_iff(pd: ParcelDescription, props: Option<DeliveryProperties>)
    ensures
        (spec_validate_description(pd, props) == ValidationOutcome::Valid) <==> (props matches Some(p) ==> (
            p.min_parcel_name_length <= byte_len(pd.name@) <= p.max_parcel_name_length
                && 0 < pd.size <= p.max_parcel_size)),
{
}

/// A chunk is valid exactly when it holds some data, and, under the DNA
/// properties, no more bytes than the maximum chunk size.
pub proof fn lemma_chunk_valid_iff(c: ParcelChunk, props: Option<DeliveryProperties>)
    ensures
        (spec_validate_chunk(c, props) == ValidationOutcome::Valid) <==> (byte_len(c.data@) > 0 && (props matches Some(p)
            ==> byte_len(c.data@) <= p.max_chunk_size)),
{
}

/// A manifest is valid exactly when its description is, it lists some chunks,
/// and, under the DNA properties, no more than a parcel may have.
pub proof fn lemma_manifest_valid_iff(m: ParcelManifest, props: Option<DeliveryProperties>)
    ensures
        (spec_validate_manifest(m, props) == ValidationOutcome::Valid) <==> (
            spec_validate_description(m.description, props) == ValidationOutcome::Valid
            && m.chunks.len() > 0
            && (props matches Some(p) ==> m.chunks.len() <= max_chunk_count(p))),
{
}

/// Each entry of the zome is judged by the rules of its type: chunks,
/// private or public, by the rules on chunks, manifests by those on
/// manifests, a public parcel by those on its description; the other types
/// are always valid. As any entry, it is judged the same way.
pub proof fn lemma_app_entry_rules(e: DeliveryEntry, props: Option<DeliveryProperties>)
    ensures
        spec_validate_entry(EntryContent::App(e), props) == spec_validate_app_entry(e, props),
        e matches DeliveryEntry::PrivateChunk(c) ==> spec_validate_app_entry(e, props) == spec_validate_chunk(c, props),
        e matches DeliveryEntry::PublicChunk(c) ==> spec_validate_app_entry(e, props) == spec_validate_chunk(c, props),
        e matches DeliveryEntry::PrivateManifest(m) ==> spec_validate_app_entry(e, props) == spec_validate_manifest(m, props),
        e matches DeliveryEntry::PublicManifest(m) ==> spec_validate_app_entry(e, props) == spec_validate_manifest(m, props),
        e matches DeliveryEntry::PublicParcel(pp) ==> spec_validate_app_entry(e, props)
            == spec_validate_description(pp.description, props),
        (e is DeliveryNotice || e is ReceptionAck || e is NoticeReply || e is ReceptionProof || e is NoticeAck
            || e is ReplyAck || e is PendingItem) ==> spec_validate_app_entry(e, props) == ValidationOutcome::Valid,
{
}

/// A CounterSign entry is always refused; agent keys and capabilities are
/// always accepted.
pub proof fn lemma_non_app_entry_rules(props: Option<DeliveryProperties>)
    ensures
        spec_validate_entry(EntryContent::CounterSign, props)
            == ValidationOutcome::Invalid(InvalidReason::CounterSignNotAllowed),
        spec_validate_entry(EntryContent::Agent, props) == ValidationOutcome::Valid,
        spec_validate_entry(EntryContent::CapClaim, props) == ValidationOutcome::Valid,
        spec_validate_entry(EntryContent::CapGrant, props) == ValidationOutcome::Valid,
{
}

} // verus!
