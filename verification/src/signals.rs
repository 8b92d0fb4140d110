//! What the zome tells the UI and other agents about: signals, gossip and tips.

#![allow(non_snake_case)]

use vstd::prelude::*;
use crate::hash::AnyHash;
use crate::types::ParcelReference;
use crate::entries::{
    DeliveryNotice, Distribution, NoticeAck, NoticeReply, ParcelChunk, ParcelManifest, PendingItem,
    ReceptionAck, ReceptionProof, ReplyAck,
};

verus! {

/// Protocol for notifying the UI of system level events.
#[derive(Debug)]
pub enum SystemSignalProtocol {
    PostCommitStart { entry_type: String },
    PostCommitEnd { entry_type: String, succeeded: bool },
    SelfCallStart { zome_name: String, fn_name: String },
    SelfCallEnd { zome_name: String, fn_name: String, succeeded: bool },
}

/// A system level event, as sent to the UI.
#[derive(Debug)]
pub struct SystemSignal {
    pub System: SystemSignalProtocol,
}

/// A public parcel announcement between agents: the parcel reference's entry
/// hash, the time of the announcement and the parcel reference.
pub type PublicParcelTip = (AnyHash, i64, ParcelReference);

/// Protocol for gossiping between agents.
#[derive(Debug)]
pub enum DeliveryGossipProtocol {
    PublicParcelPublished(PublicParcelTip),
    PublicParcelUnpublished(PublicParcelTip),
    Ping,
    Pong,
}

impl DeliveryGossipProtocol {
    /// How a gossip message is shown.
    pub open spec fn spec_to_string(&self) -> Seq<char> {
        match self {
            DeliveryGossipProtocol::PublicParcelPublished(_) => "PublicParcel Published"@,
            DeliveryGossipProtocol::PublicParcelUnpublished(_) => "PublicParcel Unpublished"@,
            DeliveryGossipProtocol::Ping => "Ping"@,
            DeliveryGossipProtocol::Pong => "Pong"@,
        }
    }

    /// The text shown for a gossip message: its kind, without its content.
    pub fn to_string(&self) -> (r: String)
        ensures
            r@ == self.spec_to_string(),
    {
        match self {
            DeliveryGossipProtocol::PublicParcelPublished(_) => "PublicParcel Published".to_owned(),
            DeliveryGossipProtocol::PublicParcelUnpublished(_) => "PublicParcel Unpublished".to_owned(),
            DeliveryGossipProtocol::Ping => "Ping".to_owned(),
            DeliveryGossipProtocol::Pong => "Pong".to_owned(),
        }
    }
}

/// Protocol for tipping other agents about public parcels.
#[derive(Debug)]
pub enum DeliveryTipProtocol {
    PublicParcelPublished(PublicParcelTip),
    PublicParcelUnpublished(PublicParcelTip),
}

impl DeliveryTipProtocol {
    /// How a tip is shown.
    pub open spec fn spec_to_string(&self) -> Seq<char> {
        match self {
            DeliveryTipProtocol::PublicParcelPublished(_) => "PublicParcel Published"@,
            DeliveryTipProtocol::PublicParcelUnpublished(_) => "PublicParcel Unpublished"@,
        }
    }

    /// The text shown for a tip: its kind, without its content.
    pub fn to_string(&self) -> (r: String)
        ensures
            r@ == self.spec_to_string(),
    {
        match self {
            DeliveryTipProtocol::PublicParcelPublished(_) => "PublicParcel Published".to_owned(),
            DeliveryTipProtocol::PublicParcelUnpublished(_) => "PublicParcel Unpublished".to_owned(),
        }
    }
}

/// How an entry changed.
#[derive(Clone, Copy, Debug, PartialEq, Eq, Structural)]
pub enum EntryStateChange {
    /// Nothing changed.
    Unchanged,
    Created,
    Deleted,
    Updated,
}

/// An entry's hash, time, author and change.
#[derive(Clone, Copy, Debug)]
pub struct EntryInfo {
    pub hash: AnyHash,
    pub ts: i64,
    pub author: AnyHash,
    pub state: EntryStateChange,
}

/// An entry of the delivery zome, by kind.
#[derive(Debug)]
pub enum DeliveryEntryKind {
    DeliveryNotice(DeliveryNotice),
    ReceptionAck(ReceptionAck),
    NoticeReply(NoticeReply),
    Distribution(Distribution),
    ParcelManifest(ParcelManifest),
    ParcelChunk(ParcelChunk),
    NoticeAck(NoticeAck),
    ReplyAck(ReplyAck),
    ReceptionProof(ReceptionProof),
    PendingItem(PendingItem),
    PublicParcel(ParcelReference),
}

/// Protocol for notifying the UI.
#[derive(Debug)]
pub enum DeliverySignalProtocol {
    System(SystemSignalProtocol),
    Gossip(DeliveryGossipProtocol),
    Entry((EntryInfo, DeliveryEntryKind)),
}

/// A batch of notifications for the UI, from one agent.
#[derive(Debug)]
pub struct DeliverySignal {
    pub from: AnyHash,
    pub pulses: Vec<DeliverySignalProtocol>,
}

/// Protocol for notifying the UI of new entries.
#[derive(Debug)]
pub enum SignalProtocol {
    NewLocalManifest((AnyHash, i64, ParcelManifest)),
    NewLocalChunk((AnyHash, ParcelChunk)),
    /// The entry hashes of the DeliveryNotices of the chunk, and the
    /// percentage of the parcel's chunks received.
    ReceivedChunk((Vec<AnyHash>, usize)),
    NewDistribution((AnyHash, i64, Distribution)),
    NewNotice((AnyHash, i64, DeliveryNotice)),
    NewNoticeAck((AnyHash, i64, NoticeAck)),
    NewReply((AnyHash, i64, NoticeReply)),
    NewReplyAck((AnyHash, i64, ReplyAck)),
    NewReceptionProof((AnyHash, i64, ReceptionProof)),
    NewReceptionAck((AnyHash, i64, ReceptionAck)),
    NewPendingItem((AnyHash, PendingItem)),
    NewPublicParcel((i64, ParcelReference, AnyHash)),
}

/// A parcel published on the DHT, as listed by the public parcels anchor.
#[derive(Debug)]
pub struct PublicParcelRecord {
    pub pr_eh: AnyHash,
    pub pp_eh: AnyHash,
    pub description: crate::types::ParcelDescription,
    pub creation_ts: i64,
    pub author: AnyHash,
    /// When and by whom it was unpublished, if it was.
    pub deleteInfo: Option<(i64, AnyHash)>,
}

/// A tip to broadcast to peers about a public parcel.
#[derive(Debug)]
pub struct BroadcastInput {
    pub peers: Vec<AnyHash>,
    pub pr: ParcelReference,
    pub timestamp: i64,
    pub removed: bool,
}

} // verus!
