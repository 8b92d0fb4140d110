//! Errors of the delivery zome's logic.

use vstd::prelude::*;

verus! {

/// Why an operation of the delivery zome failed.
#[derive(Clone, Copy, Debug, PartialEq, Eq, Structural)]
pub enum DeliveryError {
    /// Unknown EntryDefIndex.
    UnknownEntryDefIndex(u8),
    /// Failed finding a DeliveryNotice for a received parcel.
    NoticeNotFoundForParcel,
    /// No notice found for the parcel's distribution.
    NoNoticeForDistribution,
    /// A direct message can't be sent to oneself.
    CantSendToSelf,
    /// Neither a direct message nor the DHT could deliver the item.
    FailedToSendItem,
    /// The call to commit_pending_item() failed.
    CommitPendingItemFailed,
    /// A manifest to publish has no chunks.
    NoChunksInManifest,
    /// Verifying a PendingItem's signature failed.
    VerifyingSignatureFailed,
    /// A PendingItem's signature does not match its content.
    SignatureMismatch,
    /// The link to the public parcel was not found.
    PublicParcelLinkNotFound,
    /// No record found at the given address.
    NoElementFound,
    /// The record at the given address holds no entry.
    NoAppEntryFound,
    /// The entry at the given address is not an app entry.
    EntryNotApp,
}

} // verus!
