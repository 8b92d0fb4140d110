use zome_delivery::entries::{entry_index_to_variant, DeliveryEntryTypes, LinkTypes, ENTRY_TYPE_COUNT};
use zome_delivery::errors::DeliveryError;
use zome_delivery::hash::{contains_hash, AnyHash, Signature};
use zome_delivery::signals::{DeliveryGossipProtocol, DeliveryTipProtocol};
use zome_delivery::types::{
    DistributionStrategy, EntryReference, EntryVisibility, ItemKind, ManifestReference, ParcelReference,
    DELIVERY_INTEGRITY_ZOME_NAME, MANIFEST_ENTRY_INDEX,
};
use zome_delivery::zome_api::{self, EntryDefId, EntryKind};

fn h(n: u8) -> AnyHash {
    let mut bytes = [0u8; 39];
    bytes[0] = 0x84;
    bytes[1] = 0x21;
    bytes[2] = 0x24;
    bytes[3] = n;
    AnyHash { bytes }
}

fn app_ref(n: u8, zome: &str, index: u8, visibility: EntryVisibility) -> ParcelReference {
    ParcelReference::AppEntry(EntryReference { eh: h(n), zome_name: zome.to_string(), entry_index: index, visibility })
}

fn manifest_ref(n: u8) -> ParcelReference {
    ParcelReference::Manifest(ManifestReference {
        manifest_eh: h(n),
        entry_zome_name: "files".to_string(),
        entry_type_name: "file".to_string(),
    })
}

#[test]
fn hashes_compare_bytewise() {
    assert!(h(1).same_as(&h(1)));
    assert!(!h(1).same_as(&h(2)));
    let s = Signature { bytes: [7u8; 64] };
    assert!(s.same_as(&Signature { bytes: [7u8; 64] }));
    assert!(!s.same_as(&Signature { bytes: [8u8; 64] }));
    assert!(contains_hash(&vec![h(1), h(2)], &h(2)));
    assert!(!contains_hash(&vec![h(1), h(2)], &h(3)));
    assert!(!contains_hash(&vec![], &h(3)));
}

#[test]
fn strategies_allow_their_channels() {
    assert!(DistributionStrategy::NORMAL.can_dm());
    assert!(DistributionStrategy::NORMAL.can_dht());
    assert!(DistributionStrategy::DM_ONLY.can_dm());
    assert!(!DistributionStrategy::DM_ONLY.can_dht());
    assert!(!DistributionStrategy::DHT_ONLY.can_dm());
    assert!(DistributionStrategy::DHT_ONLY.can_dht());
}

#[test]
fn only_sender_items_link_to_distribution() {
    assert!(ItemKind::DeliveryNotice.can_link_to_distribution());
    assert!(ItemKind::ParcelChunk.can_link_to_distribution());
    assert!(ItemKind::AppEntryBytes.can_link_to_distribution());
    assert!(!ItemKind::NoticeAck.can_link_to_distribution());
    assert!(!ItemKind::NoticeReply.can_link_to_distribution());
    assert!(!ItemKind::ReceptionProof.can_link_to_distribution());
}

#[test]
fn parcel_reference_of_an_app_entry() {
    let r = app_ref(5, "secret", 3, EntryVisibility::Public);
    assert!(r.entry_address().same_as(&h(5)));
    assert_eq!(r.entry_index(), 3);
    assert_eq!(r.entry_visibility(), EntryVisibility::Public);
    assert_eq!(r.entry_integrity_zome_name(), "secret");
}

#[test]
fn parcel_reference_of_a_manifest() {
    let r = manifest_ref(9);
    assert!(r.entry_address().same_as(&h(9)));
    assert_eq!(r.entry_index(), MANIFEST_ENTRY_INDEX);
    assert_eq!(r.entry_index(), 5);
    assert_eq!(entry_index_to_variant(r.entry_index()), Ok(DeliveryEntryTypes::PrivateManifest));
    assert_eq!(r.entry_visibility(), EntryVisibility::Private);
    assert_eq!(r.entry_integrity_zome_name(), DELIVERY_INTEGRITY_ZOME_NAME);
}

#[test]
fn zome_index_is_the_first_matching_zome() {
    let zomes = vec!["a".to_string(), "secret".to_string(), "secret".to_string()];
    let r = app_ref(1, "secret", 0, EntryVisibility::Private);
    assert_eq!(r.zome_index(&zomes), 1);
    let zomes = vec![DELIVERY_INTEGRITY_ZOME_NAME.to_string(), "b".to_string()];
    assert_eq!(manifest_ref(2).zome_index(&zomes), 0);
}

#[test]
fn entry_indexes_map_to_entry_types() {
    assert_eq!(entry_index_to_variant(0), Ok(DeliveryEntryTypes::DeliveryNotice));
    assert_eq!(entry_index_to_variant(5), Ok(DeliveryEntryTypes::PrivateManifest));
    assert_eq!(entry_index_to_variant(12), Ok(DeliveryEntryTypes::PublicParcel));
    assert_eq!(entry_index_to_variant(ENTRY_TYPE_COUNT), Err(DeliveryError::UnknownEntryDefIndex(13)));
    assert_eq!(entry_index_to_variant(200), Err(DeliveryError::UnknownEntryDefIndex(200)));
}

#[test]
fn entry_index_round_trip_on_every_index() {
    let mut seen = Vec::new();
    for i in 0..ENTRY_TYPE_COUNT {
        let t = entry_index_to_variant(i).unwrap();
        assert!(!seen.contains(&t));
        seen.push(t);
    }
    assert_eq!(seen.len(), 13);
}

#[test]
fn entry_kind_names_round_trip() {
    let kinds = [
        EntryKind::Path,
        EntryKind::PubEncKey,
        EntryKind::DeliveryNotice,
        EntryKind::DeliveryReceipt,
        EntryKind::DeliveryReply,
        EntryKind::Distribution,
        EntryKind::NoticeReceived,
        EntryKind::ParcelReceived,
        EntryKind::ReplyReceived,
        EntryKind::PendingItem,
        EntryKind::ParcelManifest,
        EntryKind::ParcelChunk,
    ];
    for k in kinds.iter() {
        assert_eq!(EntryKind::from_str(k.as_ref()), Ok(*k));
    }
    assert_eq!(EntryKind::ParcelChunk.as_ref(), "ParcelChunk");
    assert_eq!(EntryKind::from_str("Parcel"), Err(()));
    assert_eq!(EntryKind::from_str(""), Err(()));
}

#[test]
fn zome_api_parcel_reference_entry_def() {
    let m = zome_api::ParcelReference::Manifest(h(4));
    assert!(m.entry_address().same_as(&h(4)));
    match m.entry_def_id() {
        EntryDefId::App(name) => assert_eq!(name, "ParcelManifest"),
        _ => panic!("a manifest is an app entry"),
    }
    let a = zome_api::ParcelReference::AppEntry((("mail".to_string(), EntryDefId::App("Mail".to_string())), h(6)));
    assert!(a.entry_address().same_as(&h(6)));
    match a.entry_def_id() {
        EntryDefId::App(name) => assert_eq!(name, "Mail"),
        _ => panic!("the app type's entry def"),
    }
    let c = zome_api::ParcelReference::AppEntry((("caps".to_string(), EntryDefId::CapGrant), h(7)));
    assert!(matches!(c.entry_def_id(), EntryDefId::CapGrant));
}

#[test]
fn gossip_and_tips_show_their_kind() {
    let tip = (h(1), 10i64, manifest_ref(2));
    assert_eq!(DeliveryGossipProtocol::PublicParcelPublished(tip).to_string(), "PublicParcel Published");
    let tip = (h(1), 10i64, manifest_ref(2));
    assert_eq!(DeliveryGossipProtocol::PublicParcelUnpublished(tip).to_string(), "PublicParcel Unpublished");
    assert_eq!(DeliveryGossipProtocol::Ping.to_string(), "Ping");
    assert_eq!(DeliveryGossipProtocol::Pong.to_string(), "Pong");
    let tip = (h(1), 10i64, manifest_ref(2));
    assert_eq!(DeliveryTipProtocol::PublicParcelPublished(tip).to_string(), "PublicParcel Published");
    let tip = (h(1), 10i64, manifest_ref(2));
    assert_eq!(DeliveryTipProtocol::PublicParcelUnpublished(tip).to_string(), "PublicParcel Unpublished");
}

#[test]
fn entry_types_visibility_and_index() {
    for i in 0..ENTRY_TYPE_COUNT {
        let t = entry_index_to_variant(i).unwrap();
        assert_eq!(t.entry_index(), i);
        let expected = if i >= 9 { EntryVisibility::Public } else { EntryVisibility::Private };
        assert_eq!(t.visibility(), expected);
    }
    assert_eq!(DeliveryEntryTypes::PendingItem.visibility(), EntryVisibility::Public);
    assert_eq!(DeliveryEntryTypes::Distribution.visibility(), EntryVisibility::Private);
}

#[test]
fn link_types_in_declaration_order() {
    assert_eq!(LinkTypes::Members.link_index(), 0);
    assert_eq!(LinkTypes::Inbox.link_index(), 1);
    assert_eq!(LinkTypes::Pendings.link_index(), 2);
    assert_eq!(LinkTypes::PublicParcels.link_index(), 3);
}
