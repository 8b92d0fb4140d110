use zome_delivery::entries::{DeliveryNotice, EncryptedData, ParcelManifest, PendingItem};
use zome_delivery::errors::DeliveryError;
use zome_delivery::hash::{AnyHash, Signature};
use zome_delivery::links::{commit_pending_item, inbox_address, probe_all_inbox_items, unlink_public_parcel, CommitPendingItemInput};
use zome_delivery::parcel::{
    call_commit_parcel, check_publishable, commit_parcel_manifest, commit_received_chunks, dedup_recipients,
    determine_parcel_size, distribute_parcel, get_app_entry_size, manifest_parcel_size, publish_parcel,
    DistributeParcelInput, FetchedEntry, PublishParcelInput,
};
use zome_delivery::types::{
    DeliverySummary, DistributionStrategy, EntryReference, EntryVisibility, ItemKind, ManifestReference,
    ParcelDescription, ParcelReference, DELIVERY_INTEGRITY_ZOME_NAME,
};

fn h(n: u8) -> AnyHash {
    let mut bytes = [0u8; 39];
    bytes[0] = 0x84;
    bytes[1] = 0x21;
    bytes[2] = 0x24;
    bytes[3] = n;
    bytes[38] = n;
    AnyHash { bytes }
}

fn agent(n: u8) -> AnyHash {
    let mut a = h(n);
    a.bytes[1] = 0x20;
    a
}

fn manifest(name: &str, size: u64, n: usize) -> ParcelManifest {
    ParcelManifest {
        description: ParcelDescription { name: name.to_string(), size },
        data_hash: "x".to_string(),
        chunks: (0..n).map(|i| h(i as u8)).collect(),
    }
}

fn app_parcel(n: u8, zome: &str) -> ParcelReference {
    ParcelReference::AppEntry(EntryReference {
        eh: h(n),
        zome_name: zome.to_string(),
        entry_index: 4,
        visibility: EntryVisibility::Public,
    })
}

fn manifest_parcel(n: u8) -> ParcelReference {
    ParcelReference::Manifest(ManifestReference {
        manifest_eh: h(n),
        entry_zome_name: "files".to_string(),
        entry_type_name: "file".to_string(),
    })
}

fn notice(parcel: ParcelReference) -> DeliveryNotice {
    DeliveryNotice {
        distribution_ah: h(1),
        summary: DeliverySummary {
            distribution_strategy: DistributionStrategy::NORMAL,
            parcel_description: ParcelDescription { name: "p".to_string(), size: 1 },
            parcel_reference: parcel,
        },
        sender: agent(50),
        sender_summary_signature: Signature { bytes: [0u8; 64] },
    }
}

fn pending(kind: ItemKind) -> PendingItem {
    PendingItem {
        kind,
        author: agent(50),
        author_signature: Signature { bytes: [2u8; 64] },
        encrypted_data: EncryptedData { nonce: [0u8; 24], bytes: vec![1] },
        distribution_ah: h(7),
    }
}

#[test]
fn parcel_size_formula() {
    let m = manifest("f", 0, 3);
    assert_eq!(determine_parcel_size(&m, 1000, 250), 2250);
    assert_eq!(determine_parcel_size(&manifest("g", 0, 1), 1000, 17), 17);
    assert_eq!(manifest_parcel_size(3, 1000), 3000);
}

#[test]
fn manifest_size_is_filled_when_missing() {
    let m = commit_parcel_manifest(manifest("f", 0, 2), 1500);
    assert_eq!(m.description.size, 1500);
    let m = commit_parcel_manifest(manifest("f", 42, 2), 1500);
    assert_eq!(m.description.size, 42);
    assert_eq!(m.chunks.len(), 2);
}

#[test]
fn publishing_needs_chunks() {
    let input = PublishParcelInput { name: "pic".to_string(), manifest: manifest("f", 0, 0), zome_origin: "files".to_string(), data_type: "image".to_string() };
    assert_eq!(check_publishable(&input), Err(DeliveryError::NoChunksInManifest));
    let input = PublishParcelInput { manifest: manifest("f", 0, 2), ..input };
    assert_eq!(check_publishable(&input), Ok(()));
    let pp = publish_parcel(&input, h(9), 100, 5);
    assert_eq!(pp.description.name, "pic");
    assert_eq!(pp.description.size, 105);
    assert_eq!(pp.visibility, EntryVisibility::Public);
    match pp.reference {
        ParcelReference::Manifest(m) => {
            assert!(m.manifest_eh.same_as(&h(9)));
            assert_eq!(m.entry_zome_name, "files");
            assert_eq!(m.entry_type_name, "image");
        },
        _ => panic!("a published parcel is a manifest"),
    }
}

#[test]
fn distribution_has_each_recipient_once() {
    let recipients = dedup_recipients(&vec![agent(1), agent(2), agent(1), agent(3), agent(2)]);
    assert_eq!(recipients.len(), 3);
    assert!(recipients[0].same_as(&agent(1)));
    assert!(recipients[1].same_as(&agent(2)));
    assert!(recipients[2].same_as(&agent(3)));
    let input = DistributeParcelInput {
        recipients: vec![agent(1), agent(1)],
        strategy: DistributionStrategy::DHT_ONLY,
        parcel_reference: manifest_parcel(9),
        parcel_name: "doc".to_string(),
    };
    let (recipients, summary) = distribute_parcel(&input, 77);
    assert_eq!(recipients.len(), 1);
    assert_eq!(summary.distribution_strategy, DistributionStrategy::DHT_ONLY);
    assert_eq!(summary.parcel_description.name, "doc");
    assert_eq!(summary.parcel_description.size, 77);
    assert!(summary.parcel_reference.entry_address().same_as(&h(9)));
}

#[test]
fn only_new_chunks_are_committed() {
    assert_eq!(commit_received_chunks(&vec![h(1), h(2), h(3)], &vec![h(2)]), vec![0, 2]);
    assert_eq!(commit_received_chunks(&vec![h(1)], &vec![h(1)]), Vec::<usize>::new());
}

#[test]
fn commit_of_a_received_parcel() {
    let zomes = vec!["a".to_string(), "secret".to_string(), DELIVERY_INTEGRITY_ZOME_NAME.to_string()];
    let (input, prove_now) = call_commit_parcel(vec![1, 2], &notice(app_parcel(9, "secret")), &zomes, Some(h(4)));
    assert_eq!(input.zome_index, 1);
    assert_eq!(input.entry_index, 4);
    assert_eq!(input.entry_visibility, EntryVisibility::Public);
    assert_eq!(input.entry, vec![1, 2]);
    assert!(input.maybe_link_ah.unwrap().same_as(&h(4)));
    assert!(prove_now);
    let (input, prove_now) = call_commit_parcel(vec![3], &notice(manifest_parcel(8)), &zomes, None);
    assert_eq!(input.zome_index, 2);
    assert_eq!(input.entry_index, 5);
    assert_eq!(input.entry_visibility, EntryVisibility::Private);
    assert!(!prove_now);
}

#[test]
fn app_entry_size_errors() {
    assert_eq!(get_app_entry_size(&None), Err(DeliveryError::NoElementFound));
    assert_eq!(get_app_entry_size(&Some(None)), Err(DeliveryError::NoAppEntryFound));
    assert_eq!(get_app_entry_size(&Some(Some(FetchedEntry::Other))), Err(DeliveryError::EntryNotApp));
    assert_eq!(get_app_entry_size(&Some(Some(FetchedEntry::App(vec![0u8; 12])))), Ok(12));
}

#[test]
fn pending_item_links() {
    let me = agent(60);
    let input = CommitPendingItemInput { item: pending(ItemKind::DeliveryNotice), recipient: agent(61) };
    let (from_distribution, inbox) = commit_pending_item(&input, &me);
    let from_distribution = from_distribution.unwrap();
    assert!(from_distribution.base.same_as(&h(7)));
    assert_eq!(from_distribution.tag, agent(61).bytes.to_vec());
    // The inbox is the recipient's key seen as an entry hash: same digest, entry prefix.
    assert_eq!(inbox.base.bytes[0..3], [0x84, 0x21, 0x24]);
    assert_eq!(inbox.base.bytes[3..], agent(61).bytes[3..]);
    assert!(!inbox.base.same_as(&agent(61)));
    assert_eq!(inbox.tag, me.bytes.to_vec());
    let input = CommitPendingItemInput { item: pending(ItemKind::NoticeReply), recipient: agent(61) };
    assert!(commit_pending_item(&input, &me).0.is_none());
}

#[test]
fn inbox_of_an_agent() {
    let inbox = inbox_address(&agent(9));
    assert_eq!(inbox.bytes[1], 0x21);
    assert_eq!(inbox.bytes[3..], agent(9).bytes[3..]);
}

#[test]
fn inbox_items_by_kind() {
    let pairs = vec![(pending(ItemKind::ParcelChunk), 1u32), (pending(ItemKind::NoticeAck), 2u32), (pending(ItemKind::ParcelChunk), 3u32)];
    let chunks = probe_all_inbox_items(pairs, Some(ItemKind::ParcelChunk));
    assert_eq!(chunks.iter().map(|p| p.1).collect::<Vec<u32>>(), vec![1, 3]);
    let pairs = vec![(pending(ItemKind::ParcelChunk), 1u32), (pending(ItemKind::NoticeAck), 2u32)];
    assert_eq!(probe_all_inbox_items(pairs, None).len(), 2);
}

#[test]
fn public_parcel_link_to_remove() {
    let links = vec![(h(1), false), (h(2), true), (h(2), false)];
    assert_eq!(unlink_public_parcel(&links, &h(2)), Ok(2));
    assert_eq!(unlink_public_parcel(&links, &h(3)), Err(DeliveryError::PublicParcelLinkNotFound));
    assert_eq!(unlink_public_parcel(&vec![(h(4), true)], &h(4)), Err(DeliveryError::PublicParcelLinkNotFound));
}

#[test]
fn agents_never_share_an_inbox() {
    let a = inbox_address(&agent(1));
    let b = inbox_address(&agent(2));
    assert!(!a.same_as(&b));
    let input = CommitPendingItemInput { item: pending(ItemKind::DeliveryNotice), recipient: agent(1) };
    let (_, link) = commit_pending_item(&input, &agent(3));
    assert!(link.base.same_as(&a));
}
