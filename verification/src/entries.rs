//! All zome entry types.

use vstd::prelude::*;
use crate::hash::{AnyHash, Signature};
use crate::types::{DeliverySummary, EntryVisibility, ItemKind, ParcelDescription, PublicParcel};
use crate::errors::DeliveryError;

verus! {

/// Data encrypted for one recipient: a nonce and the cipher text.
#[derive(Debug)]
pub struct EncryptedData {
    pub nonce: [u8; 24],
    pub bytes: Vec<u8>,
}

impl Clone for EncryptedData {
    fn clone(&self) -> (r: Self)
        ensures
            r.nonce == self.nonce,
            r.bytes@ == self.bytes@,
    {
        let bytes = self.bytes.clone();
        assert(bytes@ =~= self.bytes@);
        EncryptedData { nonce: self.nonce, bytes }
    }
}

/// A request to send a parcel to one or more recipients.
#[derive(Debug)]
pub struct Distribution {
    pub recipients: Vec<AnyHash>,
    pub delivery_summary: DeliverySummary,
    /// Signed by the entry's author.
    pub summary_signature: Signature,
}

/// A received delivery request.
#[derive(Debug)]
pub struct DeliveryNotice {
    pub distribution_ah: AnyHash,
    pub summary: DeliverySummary,
    pub sender: AnyHash,
    pub sender_summary_signature: Signature,
}

impl Clone for DeliveryNotice {
    fn clone(&self) -> (r: Self)
        ensures
            r == *self,
    {
        DeliveryNotice {
            distribution_ah: self.distribution_ah,
            summary: self.summary.clone(),
            sender: self.sender,
            sender_summary_signature: self.sender_summary_signature,
        }
    }
}

/// Confirms that a notice has been well received by a recipient.
#[derive(Clone, Copy, Debug)]
pub struct NoticeAck {
    pub distribution_ah: AnyHash,
    pub recipient: AnyHash,
    pub signing_recipient: AnyHash,
    pub recipient_summary_signature: Signature,
}

/// Accepts or refuses a delivery.
#[derive(Clone, Copy, Debug)]
pub struct NoticeReply {
    pub notice_eh: AnyHash,
    pub has_accepted: bool,
}

/// Confirms a recipient's reply on the sender's side.
#[derive(Clone, Copy, Debug)]
pub struct ReplyAck {
    pub distribution_ah: AnyHash,
    pub recipient: AnyHash,
    pub has_accepted: bool,
    pub signing_recipient: AnyHash,
    pub recipient_signature: Signature,
}

/// A chunk of data of a parcel.
#[derive(Debug)]
pub struct ParcelChunk {
    pub data_hash: String,
    pub data: String,
}

impl Clone for ParcelChunk {
    fn clone(&self) -> (r: Self)
        ensures
            r == *self,
    {
        ParcelChunk { data_hash: self.data_hash.clone(), data: self.data.clone() }
    }
}

/// Holds the list of chunks that make up a parcel.
#[derive(Debug)]
pub struct ParcelManifest {
    pub description: ParcelDescription,
    pub data_hash: String,
    pub chunks: Vec<AnyHash>,
}

impl Clone for ParcelManifest {
    fn clone(&self) -> (r: Self)
        ensures
            r.description == self.description,
            r.data_hash == self.data_hash,
            r.chunks@ == self.chunks@,
    {
        let chunks = self.chunks.clone();
        assert(chunks@ =~= self.chunks@);
        ParcelManifest {
            description: self.description.clone(),
            data_hash: self.data_hash.clone(),
            chunks,
        }
    }
}

/// Proof, on the recipient's side, that a parcel has been received.
#[derive(Clone, Copy, Debug)]
pub struct ReceptionProof {
    pub notice_eh: AnyHash,
    pub parcel_eh: AnyHash,
}

/// Confirms, on the sender's side, that a parcel has been received.
#[derive(Clone, Copy, Debug)]
pub struct ReceptionAck {
    pub distribution_ah: AnyHash,
    pub recipient: AnyHash,
    pub signing_recipient: AnyHash,
    pub recipient_signature: Signature,
}

/// A public entry holding a private item encrypted for one recipient,
/// waiting to be received by that recipient.
#[derive(Debug)]
pub struct PendingItem {
    pub kind: ItemKind,
    pub author: AnyHash,
    /// Signature of the item by its author.
    pub author_signature: Signature,
    pub encrypted_data: EncryptedData,
    pub distribution_ah: AnyHash,
}

impl PendingItem {
    /// Two pending items hold the same data.
    pub open spec fn same_item(&self, other: &PendingItem) -> bool {
        &&& self.kind == other.kind
        &&& self.author == other.author
        &&& self.author_signature == other.author_signature
        &&& self.encrypted_data.nonce == other.encrypted_data.nonce
        &&& self.encrypted_data.bytes@ == other.encrypted_data.bytes@
        &&& self.distribution_ah == other.distribution_ah
    }
}

impl Clone for PendingItem {
    fn clone(&self) -> (r: Self)
        ensures
            r.same_item(self),
    {
        PendingItem {
            kind: self.kind,
            author: self.author,
            author_signature: self.author_signature,
            encrypted_data: self.encrypted_data.clone(),
            distribution_ah: self.distribution_ah,
        }
    }
}

/// All entry types of the delivery zome.
#[derive(Debug)]
pub enum DeliveryEntry {
    DeliveryNotice(DeliveryNotice),
    ReceptionAck(ReceptionAck),
    NoticeReply(NoticeReply),
    Distribution(Distribution),
    PrivateChunk(ParcelChunk),
    PrivateManifest(ParcelManifest),
    ReceptionProof(ReceptionProof),
    NoticeAck(NoticeAck),
    ReplyAck(ReplyAck),
    PendingItem(PendingItem),
    PublicManifest(ParcelManifest),
    PublicChunk(ParcelChunk),
    PublicParcel(PublicParcel),
}

/// The entry types of the delivery zome, in the order of their entry index.
#[derive(Clone, Copy, Debug, PartialEq, Eq, Structural)]
pub enum DeliveryEntryTypes {
    DeliveryNotice,
    ReceptionAck,
    NoticeReply,
    Distribution,
    PrivateChunk,
    PrivateManifest,
    ReceptionProof,
    NoticeAck,
    ReplyAck,
    PendingItem,
    PublicManifest,
    PublicChunk,
    PublicParcel,
}

/// Number of entry types of the delivery zome.
pub const ENTRY_TYPE_COUNT: u8 = 13;

impl DeliveryEntryTypes {
    /// Entry index of an entry type: its position in the declaration.
    pub open spec fn index(self) -> u8 {
        match self {
            DeliveryEntryTypes::DeliveryNotice => 0,
            DeliveryEntryTypes::ReceptionAck => 1,
            DeliveryEntryTypes::NoticeReply => 2,
            DeliveryEntryTypes::Distribution => 3,
            DeliveryEntryTypes::PrivateChunk => 4,
            DeliveryEntryTypes::PrivateManifest => 5,
            DeliveryEntryTypes::ReceptionProof => 6,
            DeliveryEntryTypes::NoticeAck => 7,
            DeliveryEntryTypes::ReplyAck => 8,
            DeliveryEntryTypes::PendingItem => 9,
            DeliveryEntryTypes::PublicManifest => 10,
            DeliveryEntryTypes::PublicChunk => 11,
            DeliveryEntryTypes::PublicParcel => 12,
        }
    }
}

impl DeliveryEntryTypes {
    /// Whether entries of a type are published: pending items and what is
    /// shared publicly are, the rest stays on the source chain.
    pub open spec fn spec_visibility(self) -> EntryVisibility {
        if self.index() >= 9 {
            EntryVisibility::Public
        } else {
            EntryVisibility::Private
        }
    }

    /// The entry index of an entry type.
    pub fn entry_index(&self) -> (r: u8)
        ensures
            r == self.index(),
    {
        match self {
            DeliveryEntryTypes::DeliveryNotice => 0,
            DeliveryEntryTypes::ReceptionAck => 1,
            DeliveryEntryTypes::NoticeReply => 2,
            DeliveryEntryTypes::Distribution => 3,
            DeliveryEntryTypes::PrivateChunk => 4,
            DeliveryEntryTypes::PrivateManifest => 5,
            DeliveryEntryTypes::ReceptionProof => 6,
            DeliveryEntryTypes::NoticeAck => 7,
            DeliveryEntryTypes::ReplyAck => 8,
            DeliveryEntryTypes::PendingItem => 9,
            DeliveryEntryTypes::PublicManifest => 10,
            DeliveryEntryTypes::PublicChunk => 11,
            DeliveryEntryTypes::PublicParcel => 12,
        }
    }

    /// The visibility of the entries of a type.
    pub fn visibility(&self) -> (r: EntryVisibility)
        ensures
            r == self.spec_visibility(),
    {
        match self {
            DeliveryEntryTypes::PendingItem => EntryVisibility::Public,
            DeliveryEntryTypes::PublicManifest => EntryVisibility::Public,
            DeliveryEntryTypes::PublicChunk => EntryVisibility::Public,
            DeliveryEntryTypes::PublicParcel => EntryVisibility::Public,
            _ => EntryVisibility::Private,
        }
    }
}

/// Entry type of an entry.
pub open spec fn entry_type_of(entry: &DeliveryEntry) -> DeliveryEntryTypes {
    match entry {
        DeliveryEntry::DeliveryNotice(_) => DeliveryEntryTypes::DeliveryNotice,
        DeliveryEntry::ReceptionAck(_) => DeliveryEntryTypes::ReceptionAck,
        DeliveryEntry::NoticeReply(_) => DeliveryEntryTypes::NoticeReply,
        DeliveryEntry::Distribution(_) => DeliveryEntryTypes::Distribution,
        DeliveryEntry::PrivateChunk(_) => DeliveryEntryTypes::PrivateChunk,
        DeliveryEntry::PrivateManifest(_) => DeliveryEntryTypes::PrivateManifest,
        DeliveryEntry::ReceptionProof(_) => DeliveryEntryTypes::ReceptionProof,
        DeliveryEntry::NoticeAck(_) => DeliveryEntryTypes::NoticeAck,
        DeliveryEntry::ReplyAck(_) => DeliveryEntryTypes::ReplyAck,
        DeliveryEntry::PendingItem(_) => DeliveryEntryTypes::PendingItem,
        DeliveryEntry::PublicManifest(_) => DeliveryEntryTypes::PublicManifest,
        DeliveryEntry::PublicChunk(_) => DeliveryEntryTypes::PublicChunk,
        DeliveryEntry::PublicParcel(_) => DeliveryEntryTypes::PublicParcel,
    }
}

/// All link types of the delivery zome.
#[derive(Clone, Copy, Debug, PartialEq, Eq, Structural)]
pub enum LinkTypes {
    Members,
    Inbox,
    Pendings,
    PublicParcels,
}

impl LinkTypes {
    /// The link type's index: its position in the declaration.
    pub fn link_index(&self) -> (r: u8)
        ensures
            r == match self {
                LinkTypes::Members => 0u8,
                LinkTypes::Inbox => 1u8,
                LinkTypes::Pendings => 2u8,
                LinkTypes::PublicParcels => 3u8,
            },
    {
        match self {
            LinkTypes::Members => 0,
            LinkTypes::Inbox => 1,
            LinkTypes::Pendings => 2,
            LinkTypes::PublicParcels => 3,
        }
    }
}

/// The entry type at a given entry index.
pub fn entry_index_to_variant(entry_index: u8) -> (r: Result<DeliveryEntryTypes, DeliveryError>)
    ensures
        r is Ok <==> entry_index < ENTRY_TYPE_COUNT,
        r matches Ok(t) ==> t.index() == entry_index,
        r matches Err(e) ==> e == DeliveryError::UnknownEntryDefIndex(entry_index),
{
    match entry_index {
        0 => Ok(DeliveryEntryTypes::DeliveryNotice),
        1 => Ok(DeliveryEntryTypes::ReceptionAck),
        2 => Ok(DeliveryEntryTypes::NoticeReply),
        3 => Ok(DeliveryEntryTypes::Distribution),
        4 => Ok(DeliveryEntryTypes::PrivateChunk),
        5 => Ok(DeliveryEntryTypes::PrivateManifest),
        6 => Ok(DeliveryEntryTypes::ReceptionProof),
        7 => Ok(DeliveryEntryTypes::NoticeAck),
        8 => Ok(DeliveryEntryTypes::ReplyAck),
        9 => Ok(DeliveryEntryTypes::PendingItem),
        10 => Ok(DeliveryEntryTypes::PublicManifest),
        11 => Ok(DeliveryEntryTypes::PublicChunk),
        12 => Ok(DeliveryEntryTypes::PublicParcel),
        _ => Err(DeliveryError::UnknownEntryDefIndex(entry_index)),
    }
}

/// Entry indexes and entry types correspond one to one.
pub proof fn lemma_entry_index_round_trip(t: DeliveryEntryTypes, u: DeliveryEntryTypes)
    ensures
        t.index() < ENTRY_TYPE_COUNT,
        t.index() == u.index() ==> t == u,
{
}

} // verus!
