//! The zome's public API as other zomes see it: entry kinds and parcel references.

use vstd::prelude::*;
use crate::hash::AnyHash;
use crate::types::DistributionStrategy;

verus! {

/// Identifier of an entry definition.
#[derive(Debug)]
pub enum EntryDefId {
    App(String),
    CapClaim,
    CapGrant,
}

impl Clone for EntryDefId {
    fn clone(&self) -> (r: Self)
        ensures
            r == *self,
    {
        match self {
            EntryDefId::App(name) => EntryDefId::App(name.clone()),
            EntryDefId::CapClaim => EntryDefId::CapClaim,
            EntryDefId::CapGrant => EntryDefId::CapGrant,
        }
    }
}

/// The zome name and entry definition of an app entry.
pub type AppType = (String, EntryDefId);

/// The kind of a parcel.
#[derive(Debug)]
pub enum ParcelKind {
    AppEntry(AppType),
    Manifest,
}

/// A parcel: an app entry of a given type, or a manifest.
#[derive(Debug)]
pub enum ParcelReference {
    AppEntry((AppType, AnyHash)),
    Manifest(AnyHash),
}

/// A parcel and its size.
#[derive(Debug)]
pub struct ParcelSummary {
    pub size: usize,
    pub reference: ParcelReference,
}

/// Name of the manifest entry definition.
pub const PARCEL_MANIFEST_ENTRY_NAME: &'static str = "ParcelManifest";

impl ParcelReference {
    /// Hash of the parcel's entry.
    pub fn entry_address(&self) -> (r: AnyHash)
        ensures
            r == match self {
                ParcelReference::Manifest(eh) => *eh,
                ParcelReference::AppEntry((_, eh)) => *eh,
            },
    {
        match self {
            ParcelReference::Manifest(eh) => *eh,
            ParcelReference::AppEntry((_, eh)) => *eh,
        }
    }

    /// Entry definition of the parcel's entry.
    pub fn entry_def_id(&self) -> (r: EntryDefId)
        ensures
            match self {
                ParcelReference::Manifest(_) => r matches EntryDefId::App(name) && name@ == PARCEL_MANIFEST_ENTRY_NAME@,
                ParcelReference::AppEntry((app_type, _)) => r == app_type.1,
            },
    {
        match self {
            ParcelReference::Manifest(_) => EntryDefId::App(PARCEL_MANIFEST_ENTRY_NAME.to_string()),
            ParcelReference::AppEntry((app_type, _)) => app_type.1.clone(),
        }
    }
}

/// Input of a parcel distribution.
#[derive(Debug)]
pub struct DistributeParcelInput {
    pub recipients: Vec<AnyHash>,
    pub strategy: DistributionStrategy,
    pub parcel_kind: ParcelKind,
    pub parcel_eh: AnyHash,
}

/// Input of a reply to a notice.
#[derive(Clone, Copy, Debug)]
pub struct RespondToNoticeInput {
    pub notice_eh: AnyHash,
    pub has_accepted: bool,
}

/// All entry kinds of the DNA.
#[derive(Clone, Copy, Debug, PartialEq, Eq, Structural)]
pub enum EntryKind {
    Path,
    PubEncKey,
    DeliveryNotice,
    DeliveryReceipt,
    DeliveryReply,
    Distribution,
    NoticeReceived,
    ParcelReceived,
    ReplyReceived,
    PendingItem,
    ParcelManifest,
    ParcelChunk,
}

/// The entry kinds, in declaration order.
pub open spec fn all_entry_kinds() -> Seq<EntryKind> {
    seq![
        EntryKind::Path,
        EntryKind::PubEncKey,
        EntryKind::DeliveryNotice,
        EntryKind::DeliveryReceipt,
        EntryKind::DeliveryReply,
        EntryKind::Distribution,
        EntryKind::NoticeReceived,
        EntryKind::ParcelReceived,
        EntryKind::ReplyReceived,
        EntryKind::PendingItem,
        EntryKind::ParcelManifest,
        EntryKind::ParcelChunk,
    ]
}

impl EntryKind {
    /// The name of an entry kind: the name of its variant.
    pub fn as_ref(&self) -> (r: &'static str)
        ensures
            r@ == self.spec_name(),
    {
        match self {
            EntryKind::Path => "Path",
            EntryKind::PubEncKey => "PubEncKey",
            EntryKind::DeliveryNotice => "DeliveryNotice",
            EntryKind::DeliveryReceipt => "DeliveryReceipt",
            EntryKind::DeliveryReply => "DeliveryReply",
            EntryKind::Distribution => "Distribution",
            EntryKind::NoticeReceived => "NoticeReceived",
            EntryKind::ParcelReceived => "ParcelReceived",
            EntryKind::ReplyReceived => "ReplyReceived",
            EntryKind::PendingItem => "PendingItem",
            EntryKind::ParcelManifest => "ParcelManifest",
            EntryKind::ParcelChunk => "ParcelChunk",
        }
    }

    pub open spec fn spec_name(self) -> Seq<char> {
        match self {
            EntryKind::Path => "Path"@,
            EntryKind::PubEncKey => "PubEncKey"@,
            EntryKind::DeliveryNotice => "DeliveryNotice"@,
            EntryKind::DeliveryReceipt => "DeliveryReceipt"@,
            EntryKind::DeliveryReply => "DeliveryReply"@,
            EntryKind::Distribution => "Distribution"@,
            EntryKind::NoticeReceived => "NoticeReceived"@,
            EntryKind::ParcelReceived => "ParcelReceived"@,
            EntryKind::ReplyReceived => "ReplyReceived"@,
            EntryKind::PendingItem => "PendingItem"@,
            EntryKind::ParcelManifest => "ParcelManifest"@,
            EntryKind::ParcelChunk => "ParcelChunk"@,
        }
    }

    /// The entry kind with the given name, if any.
    pub open spec fn spec_from_str(input: Seq<char>) -> Result<EntryKind, ()> {
        if exists|k: EntryKind| k.spec_name() == input {
            Ok(choose|k: EntryKind| k.spec_name() == input)
        } else {
            Err(())
        }
    }

    /// The entry kind with the given name.
    pub fn from_str(input: &str) -> (r: Result<EntryKind, ()>)
        ensures
            r == EntryKind::spec_from_str(input@),
    {
        proof {
            lemma_entry_kind_names_distinct();
        }
        let name = input.to_owned();
        let kinds = [
            EntryKind::Path,
            EntryKind::PubEncKey,
            EntryKind::DeliveryNotice,
            EntryKind::DeliveryReceipt,
            EntryKind::DeliveryReply,
            EntryKind::Distribution,
            EntryKind::NoticeReceived,
            EntryKind::ParcelReceived,
            EntryKind::ReplyReceived,
            EntryKind::PendingItem,
            EntryKind::ParcelManifest,
            EntryKind::ParcelChunk,
        ];
        assert(kinds@ =~= all_entry_kinds());
        let mut i: usize = 0;
        while i < 12
            invariant
                0 <= i <= 12,
                kinds@ == all_entry_kinds(),
                name@ == input@,
                forall|j: int| 0 <= j < i ==> all_entry_kinds()[j].spec_name() != input@,
            decreases 12 - i,
        {
            let kind = kinds[i];
            if kind.as_ref().to_owned() == name {
                proof {
                    assert(kind.spec_name() == input@);
                    let c = choose|k: EntryKind| k.spec_name() == input@;
                    lemma_entry_kind_names_distinct();
                    assert(c.spec_name() == kind.spec_name());
                }
                return Ok(kind);
            }
            i = i + 1;
        }
        assert forall|k: EntryKind| k.spec_name() != input@ by {
            assert(all_entry_kinds().contains(k)) by {
                match k {
                    EntryKind::Path => assert(all_entry_kinds()[0] == k),
                    EntryKind::PubEncKey => assert(all_entry_kinds()[1] == k),
                    EntryKind::DeliveryNotice => assert(all_entry_kinds()[2] == k),
                    EntryKind::DeliveryReceipt => assert(all_entry_kinds()[3] == k),
                    EntryKind::DeliveryReply => assert(all_entry_kinds()[4] == k),
                    EntryKind::Distribution => assert(all_entry_kinds()[5] == k),
                    EntryKind::NoticeReceived => assert(all_entry_kinds()[6] == k),
                    EntryKind::ParcelReceived => assert(all_entry_kinds()[7] == k),
                    EntryKind::ReplyReceived => assert(all_entry_kinds()[8] == k),
                    EntryKind::PendingItem => assert(all_entry_kinds()[9] == k),
                    EntryKind::ParcelManifest => assert(all_entry_kinds()[10] == k),
                    EntryKind::ParcelChunk => assert(all_entry_kinds()[11] == k),
                }
            }
        }
        Err(())
    }
}

/// Length, first, second and seventh character of an entry kind's name.
spec fn name_signature(k: EntryKind) -> (nat, char, char, char) {
    match k {
        EntryKind::Path => (4, 'P', 'a', ' '),
        EntryKind::PubEncKey => (9, 'P', 'u', 'K'),
        EntryKind::DeliveryNotice => (14, 'D', 'e', 'r'),
        EntryKind::DeliveryReceipt => (15, 'D', 'e', 'r'),
        EntryKind::DeliveryReply => (13, 'D', 'e', 'r'),
        EntryKind::Distribution => (12, 'D', 'i', 'b'),
        EntryKind::NoticeReceived => (14, 'N', 'o', 'R'),
        EntryKind::ParcelReceived => (14, 'P', 'a', 'R'),
        EntryKind::ReplyReceived => (13, 'R', 'e', 'e'),
        EntryKind::PendingItem => (11, 'P', 'e', 'g'),
        EntryKind::ParcelManifest => (14, 'P', 'a', 'M'),
        EntryKind::ParcelChunk => (11, 'P', 'a', 'C'),
    }
}

proof fn lemma_name_signature(k: EntryKind)
    ensures
        k.spec_name().len() == name_signature(k).0,
        k.spec_name()[0] == name_signature(k).1,
        k.spec_name()[1] == name_signature(k).2,
        k != EntryKind::Path ==> k.spec_name()[6] == name_signature(k).3,
{
    reveal_strlit("Path");
    reveal_strlit("PubEncKey");
    reveal_strlit("DeliveryNotice");
    reveal_strlit("DeliveryReceipt");
    reveal_strlit("DeliveryReply");
    reveal_strlit("Distribution");
    reveal_strlit("NoticeReceived");
    reveal_strlit("ParcelReceived");
    reveal_strlit("ReplyReceived");
    reveal_strlit("PendingItem");
    reveal_strlit("ParcelManifest");
    reveal_strlit("ParcelChunk");
}

/// Different entry kinds have different names.
pub proof fn lemma_entry_kind_names_distinct()
    ensures
        forall|a: EntryKind, b: EntryKind| a.spec_name() == b.spec_name() ==> a == b,
{
    assert forall|a: EntryKind, b: EntryKind| a.spec_name() == b.spec_name() implies a == b by {
        lemma_name_signature(a);
        lemma_name_signature(b);
        if a == EntryKind::Path || b == EntryKind::Path {
            assert(name_signature(a).0 == name_signature(b).0);
        } else {
            assert(name_signature(a) == name_signature(b));
        }
    }
}

/// Every entry kind is found again by its name.
pub proof fn lemma_entry_kind_round_trip(k: EntryKind)
    ensures
        EntryKind::spec_from_str(k.spec_name()) == Ok::<EntryKind, ()>(k),
{
    lemma_entry_kind_names_distinct();
    let c = choose|c: EntryKind| c.spec_name() == k.spec_name();
    assert(c.spec_name() == k.spec_name());
}

} // verus!
