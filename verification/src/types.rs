//! Delivery related types and states.

use vstd::prelude::*;

use crate::hash::AnyHash;
use crate::entries::DeliveryEntryTypes;

verus! {

/// Name of the integrity zome that defines the delivery entry types.
pub const DELIVERY_INTEGRITY_ZOME_NAME: &'static str = "zDeliveryIntegrity";

/// Entry index under which a received manifest is committed: that of the
/// PrivateManifest entry type (see `lemma_manifest_entry_index`).
pub const MANIFEST_ENTRY_INDEX: u8 = 5;

} // verus!


verus! {

/// State of a single delivery of an item to a unique recipient.
#[derive(Clone, Copy, Debug, PartialEq, Eq, Structural)]
pub enum DeliveryState {
    /// Initial state; Distribution entry committed.
    Unsent,
    /// There is a link to a PendingItem holding the DeliveryNotice and the inbox link is alive.
    PendingNotice,
    /// NoticeAck committed.
    NoticeDelivered,
    /// Negative reply received.
    ParcelRefused,
    /// Positive reply received.
    ParcelAccepted,
    /// There is a link to a PendingItem holding the parcel and the inbox link is alive.
    PendingParcel,
    /// ReceptionAck committed.
    ParcelDelivered,
}

/// Possible states of a Distribution.
#[derive(Clone, Copy, Debug, PartialEq, Eq, Structural)]
pub enum DistributionState {
    /// Initial state; Distribution committed.
    Unsent,
    /// All deliveries have been sent (no Unsent state).
    AllNoticesSent,
    /// All notices have been received (no Unsent or PendingNotice state).
    AllNoticeReceived,
    /// All replies have been received.
    AllRepliesReceived,
    /// All deliveries have ParcelRefused or ParcelDelivered state.
    AllAcceptedParcelsReceived,
    /// Delete entry committed.
    Deleted,
}

/// Possible states of a DeliveryNotice, on the recipient's side.
#[derive(Clone, Copy, Debug, PartialEq, Eq, Structural)]
pub enum NoticeState {
    /// DeliveryNotice committed.
    Unreplied,
    /// Positive NoticeReply committed.
    Accepted,
    /// Negative NoticeReply committed.
    Refused,
    /// Some chunks of an accepted manifest are still missing.
    PartiallyReceived,
    /// ReceptionProof committed.
    Received,
    /// Parcel deleted.
    Deleted,
}

/// Whether an entry is published on the DHT or kept on the source chain.
#[derive(Clone, Copy, Debug, PartialEq, Eq, Structural)]
pub enum EntryVisibility {
    Public,
    Private,
}

/// How a parcel travels from sender to recipient.
#[allow(non_camel_case_types)]
#[derive(Clone, Copy, Debug, PartialEq, Eq, Structural)]
pub enum DistributionStrategy {
    /// DM first, DHT otherwise.
    NORMAL,
    /// Only via DM, no DHT.
    DM_ONLY,
    /// Encrypted to recipients on the DHT, no DM.
    DHT_ONLY,
}

impl DistributionStrategy {
    pub open spec fn spec_can_dm(self) -> bool {
        self != DistributionStrategy::DHT_ONLY
    }

    pub open spec fn spec_can_dht(self) -> bool {
        self != DistributionStrategy::DM_ONLY
    }

    /// Whether items may be sent by direct message.
    pub fn can_dm(&self) -> (r: bool)
        ensures
            r == self.spec_can_dm(),
    {
        match self {
            DistributionStrategy::NORMAL => true,
            DistributionStrategy::DHT_ONLY => false,
            DistributionStrategy::DM_ONLY => true,
        }
    }

    /// Whether items may be left on the DHT.
    pub fn can_dht(&self) -> (r: bool)
        ensures
            r == self.spec_can_dht(),
    {
        match self {
            DistributionStrategy::NORMAL => true,
            DistributionStrategy::DHT_ONLY => true,
            DistributionStrategy::DM_ONLY => false,
        }
    }
}

/// A received manifest is committed under the PrivateManifest entry type.
pub proof fn lemma_manifest_entry_index()
    ensures
        MANIFEST_ENTRY_INDEX == DeliveryEntryTypes::PrivateManifest.index(),
{
}

/// Every strategy leaves at least one way of sending an item.
pub proof fn lemma_strategy_has_a_channel(s: DistributionStrategy)
    ensures
        s.spec_can_dm() || s.spec_can_dht(),
{
}

/// The kinds of structs a PendingItem can embed.
#[derive(Clone, Copy, Debug, PartialEq, Eq, Structural)]
pub enum ItemKind {
    /// Sent by the recipient.
    NoticeAck,
    /// Sent by the recipient.
    NoticeReply,
    /// Sent by the recipient.
    ReceptionProof,
    /// Sent by the sender.
    DeliveryNotice,
    /// Sent by the sender.
    ParcelChunk,
    /// Sent by the sender; a ParcelManifest is sent as AppEntryBytes.
    AppEntryBytes,
}

impl ItemKind {
    /// Items sent by the sender of a parcel.
    pub open spec fn spec_sent_by_sender(self) -> bool {
        ||| self == ItemKind::DeliveryNotice
        ||| self == ItemKind::ParcelChunk
        ||| self == ItemKind::AppEntryBytes
    }

    /// Whether a pending item of this kind is linked from its distribution.
    pub fn can_link_to_distribution(&self) -> (r: bool)
        ensures
            r == self.spec_sent_by_sender(),
    {
        match self {
            ItemKind::DeliveryNotice => true,
            ItemKind::AppEntryBytes => true,
            ItemKind::ParcelChunk => true,
            _ => false,
        }
    }
}

/// Information for committing an entry.
#[derive(Debug)]
pub struct EntryReference {
    pub eh: AnyHash,
    pub zome_name: String,
    pub entry_index: u8,
    pub visibility: EntryVisibility,
}

/// Information about where the data is from.
#[derive(Debug)]
pub struct ManifestReference {
    pub manifest_eh: AnyHash,
    pub entry_zome_name: String,
    pub entry_type_name: String,
}

/// A parcel is a generic entry or a ParcelManifest.
#[derive(Debug)]
pub enum ParcelReference {
    /// Any entry type.
    AppEntry(EntryReference),
    /// A ParcelManifest.
    Manifest(ManifestReference),
}

impl Clone for EntryReference {
    fn clone(&self) -> (r: Self)
        ensures
            r == *self,
    {
        EntryReference {
            eh: self.eh,
            zome_name: self.zome_name.clone(),
            entry_index: self.entry_index,
            visibility: self.visibility,
        }
    }
}

impl Clone for ManifestReference {
    fn clone(&self) -> (r: Self)
        ensures
            r == *self,
    {
        ManifestReference {
            manifest_eh: self.manifest_eh,
            entry_zome_name: self.entry_zome_name.clone(),
            entry_type_name: self.entry_type_name.clone(),
        }
    }
}

impl Clone for ParcelReference {
    fn clone(&self) -> (r: Self)
        ensures
            r == *self,
    {
        match self {
            ParcelReference::AppEntry(e) => ParcelReference::AppEntry(e.clone()),
            ParcelReference::Manifest(m) => ParcelReference::Manifest(m.clone()),
        }
    }
}

impl ParcelReference {
    /// Hash of the referenced entry.
    pub open spec fn spec_entry_address(&self) -> AnyHash {
        match self {
            ParcelReference::Manifest(m) => m.manifest_eh,
            ParcelReference::AppEntry(e) => e.eh,
        }
    }

    pub open spec fn spec_is_manifest(&self) -> bool {
        self is Manifest
    }

    pub fn entry_address(&self) -> (r: AnyHash)
        ensures
            r == self.spec_entry_address(),
    {
        match self {
            ParcelReference::Manifest(m) => m.manifest_eh,
            ParcelReference::AppEntry(e) => e.eh,
        }
    }

    /// Entry index of the referenced entry type: for a manifest, that of
    /// the PrivateManifest entry type.
    pub fn entry_index(&self) -> (r: u8)
        ensures
            r == match self {
                ParcelReference::Manifest(_) => DeliveryEntryTypes::PrivateManifest.index(),
                ParcelReference::AppEntry(e) => e.entry_index,
            },
    {
        match self {
            ParcelReference::Manifest(_) => MANIFEST_ENTRY_INDEX,
            ParcelReference::AppEntry(e) => e.entry_index,
        }
    }

    /// Name of the integrity zome that defines the referenced entry type.
    pub open spec fn spec_integrity_zome_name(&self) -> Seq<char> {
        match self {
            ParcelReference::Manifest(_) => DELIVERY_INTEGRITY_ZOME_NAME@,
            ParcelReference::AppEntry(e) => e.zome_name@,
        }
    }

    pub fn entry_integrity_zome_name(&self) -> (r: String)
        ensures
            r@ == self.spec_integrity_zome_name(),
    {
        match self {
            ParcelReference::Manifest(_) => DELIVERY_INTEGRITY_ZOME_NAME.to_string(),
            ParcelReference::AppEntry(e) => e.zome_name.clone(),
        }
    }

    pub fn entry_visibility(&self) -> (r: EntryVisibility)
        ensures
            r == match self {
                ParcelReference::Manifest(_) => EntryVisibility::Private,
                ParcelReference::AppEntry(e) => e.visibility,
            },
    {
        match self {
            ParcelReference::Manifest(_) => EntryVisibility::Private,
            ParcelReference::AppEntry(e) => e.visibility,
        }
    }

    /// Position of the referenced integrity zome among the DNA's zomes.
    /// The zome must be one of them, and the DNA has fewer than 256 zomes.
    pub fn zome_index(&self, zome_names: &Vec<String>) -> (r: u8)
        requires
            zome_names.len() < 256,
            exists|i: int| 0 <= i < zome_names.len() && zome_names@[i]@ == self.spec_integrity_zome_name(),
        ensures
            r < zome_names.len(),
            zome_names@[r as int]@ == self.spec_integrity_zome_name(),
            forall|j: int| 0 <= j < r ==> zome_names@[j]@ != self.spec_integrity_zome_name(),
    {
        let izn = self.entry_integrity_zome_name();
        let mut i: usize = 0;
        while i < zome_names.len()
            invariant
                0 <= i <= zome_names.len(),
                zome_names.len() < 256,
                izn@ == self.spec_integrity_zome_name(),
                forall|j: int| 0 <= j < i ==> zome_names@[j]@ != izn@,
                exists|k: int| 0 <= k < zome_names.len() && zome_names@[k]@ == izn@,
            decreases zome_names.len() - i,
        {
            if zome_names[i] == izn {
                return i as u8;
            }
            i = i + 1;
        }
        assert(false);
        0
    }
}

/// Name and size of a parcel, as its author describes it.
#[derive(Debug)]
pub struct ParcelDescription {
    pub name: String,
    pub size: u64,
}

impl Clone for ParcelDescription {
    fn clone(&self) -> (r: Self)
        ensures
            r == *self,
    {
        ParcelDescription { name: self.name.clone(), size: self.size }
    }
}

/// Shared data between a Distribution and a DeliveryNotice.
#[derive(Debug)]
pub struct DeliverySummary {
    pub distribution_strategy: DistributionStrategy,
    pub parcel_description: ParcelDescription,
    pub parcel_reference: ParcelReference,
}

impl Clone for DeliverySummary {
    fn clone(&self) -> (r: Self)
        ensures
            r == *self,
    {
        DeliverySummary {
            distribution_strategy: self.distribution_strategy,
            parcel_description: self.parcel_description.clone(),
            parcel_reference: self.parcel_reference.clone(),
        }
    }
}

/// A parcel shared publicly: its description and where it is found.
#[derive(Debug)]
pub struct PublicParcel {
    pub description: ParcelDescription,
    pub reference: ParcelReference,
    /// Visibility of the published parcel: public once published.
    pub visibility: EntryVisibility,
}

impl Clone for PublicParcel {
    fn clone(&self) -> (r: Self)
        ensures
            r == *self,
    {
        PublicParcel {
            description: self.description.clone(),
            reference: self.reference.clone(),
            visibility: self.visibility,
        }
    }
}

} // verus!
