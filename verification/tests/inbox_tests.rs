use zome_delivery::entries::{DeliveryNotice, NoticeReply, ParcelManifest, ReceptionProof};
use zome_delivery::hash::{AnyHash, Signature};
use zome_delivery::inbox::{plan_inbox, unreceived_notices, HashedItem};
use zome_delivery::types::{
    DeliverySummary, DistributionStrategy, EntryReference, EntryVisibility, ManifestReference, ParcelDescription,
    ParcelReference,
};

fn h(n: u8) -> AnyHash {
    let mut bytes = [0u8; 39];
    bytes[0] = 0x84;
    bytes[1] = 0x21;
    bytes[2] = 0x24;
    bytes[3] = n;
    AnyHash { bytes }
}

fn notice(distribution: u8, parcel: ParcelReference) -> DeliveryNotice {
    DeliveryNotice {
        distribution_ah: h(distribution),
        summary: DeliverySummary {
            distribution_strategy: DistributionStrategy::NORMAL,
            parcel_description: ParcelDescription { name: "p".to_string(), size: 1 },
            parcel_reference: parcel,
        },
        sender: h(50),
        sender_summary_signature: Signature { bytes: [0u8; 64] },
    }
}

fn app_parcel(n: u8) -> ParcelReference {
    ParcelReference::AppEntry(EntryReference {
        eh: h(n),
        zome_name: "secret".to_string(),
        entry_index: 0,
        visibility: EntryVisibility::Private,
    })
}

fn manifest_parcel(n: u8) -> ParcelReference {
    ParcelReference::Manifest(ManifestReference {
        manifest_eh: h(n),
        entry_zome_name: "files".to_string(),
        entry_type_name: "file".to_string(),
    })
}

fn manifest(chunks: Vec<AnyHash>) -> ParcelManifest {
    ParcelManifest {
        description: ParcelDescription { name: "file".to_string(), size: 10 },
        data_hash: "x".to_string(),
        chunks,
    }
}

#[test]
fn accepted_notices_without_proof_are_unreceived() {
    let replies = vec![
        NoticeReply { notice_eh: h(1), has_accepted: true },
        NoticeReply { notice_eh: h(2), has_accepted: false },
        NoticeReply { notice_eh: h(3), has_accepted: true },
    ];
    let proofs = vec![ReceptionProof { notice_eh: h(3), parcel_eh: h(9) }];
    let res = unreceived_notices(&replies, &proofs);
    assert_eq!(res.len(), 1);
    assert!(res[0].same_as(&h(1)));
}

#[test]
fn inbox_plan_commits_what_was_accepted() {
    // Accepted: an app entry h(9) and a manifest h(8) whose local copy lists h(30), h(31).
    let notices = vec![notice(1, app_parcel(9)), notice(2, manifest_parcel(8)), notice(3, app_parcel(9))];
    let local_manifests = vec![None, Some(manifest(vec![h(30), h(31)])), None];
    let entry_ehs = vec![h(9), h(7)];
    let manifests = vec![HashedItem { eh: h(8), value: manifest(vec![h(32)]) }, HashedItem { eh: h(6), value: manifest(vec![h(33)]) }];
    let chunk_ehs = vec![h(30), h(31), h(32), h(33), h(30)];
    let plan = plan_inbox(&entry_ehs, &manifests, &chunk_ehs, &notices, &local_manifests, &vec![h(31)]);
    // The entry h(9) is committed with the last notice for it.
    assert_eq!(plan.parcels.len(), 1);
    assert_eq!(plan.parcels[0].0, 0);
    assert!(plan.parcels[0].1.distribution_ah.same_as(&h(3)));
    // The manifest h(8) is accepted, h(6) is not.
    assert_eq!(plan.manifests, vec![0]);
    // h(30): listed by an accepted manifest and not received, last occurrence at 4;
    // h(31): already received; h(32): listed by the committed manifest; h(33): not wanted.
    assert_eq!(plan.chunks, vec![2, 4]);
}

#[test]
fn inbox_plan_of_nothing_accepted() {
    let plan = plan_inbox(&vec![h(9)], &vec![], &vec![h(30)], &vec![], &vec![], &vec![]);
    assert!(plan.parcels.is_empty());
    assert!(plan.manifests.is_empty());
    assert!(plan.chunks.is_empty());
}

#[test]
fn inbox_plan_commits_each_hash_once() {
    let notices = vec![notice(1, app_parcel(9))];
    let plan = plan_inbox(&vec![h(9), h(9), h(9)], &vec![], &vec![], &notices, &vec![None], &vec![]);
    assert_eq!(plan.parcels.len(), 1);
    assert_eq!(plan.parcels[0].0, 2);
}
