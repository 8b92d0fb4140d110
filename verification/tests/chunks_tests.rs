use zome_delivery::chunks::{
    check_manifest, determine_missing_chunks, find_ParcelManifest, find_notice_with_parcel, manifest_of_chunk, orphan_chunks,
    scan_incomplete_manifests, scan_orphan_chunks, ManifestCheck,
};
use zome_delivery::entries::{DeliveryNotice, NoticeAck, NoticeReply, ParcelManifest, ReceptionAck, ReceptionProof, ReplyAck};
use zome_delivery::hash::{AnyHash, Signature};
use zome_delivery::queries::{
    query_DeliveryNotice, query_NoticeAck, query_NoticeReply, query_ReceptionAck, query_ReceptionProof, query_ReplyAck,
    DeliveryNoticeQueryField, LocalRecord, NoticeAckQueryField, ReceptionProofQueryField,
};
use zome_delivery::types::{
    DeliverySummary, DistributionStrategy, EntryReference, EntryVisibility, ManifestReference, ParcelDescription,
    ParcelReference,
};

fn h(n: u8) -> AnyHash {
    let mut bytes = [0u8; 39];
    bytes[0] = 0x84;
    bytes[1] = 0x21;
    bytes[2] = 0x24;
    bytes[3] = n;
    AnyHash { bytes }
}

fn sig(n: u8) -> Signature {
    Signature { bytes: [n; 64] }
}

fn record<T>(n: u8, entry: T) -> LocalRecord<T> {
    LocalRecord { ah: h(100 + n), eh: h(n), ts: n as i64, entry }
}

fn manifest(name: &str, chunks: Vec<AnyHash>) -> ParcelManifest {
    ParcelManifest {
        description: ParcelDescription { name: name.to_string(), size: 100 },
        data_hash: "abc".to_string(),
        chunks,
    }
}

fn notice(distribution: u8, sender: u8, parcel: ParcelReference) -> DeliveryNotice {
    DeliveryNotice {
        distribution_ah: h(distribution),
        summary: DeliverySummary {
            distribution_strategy: DistributionStrategy::NORMAL,
            parcel_description: ParcelDescription { name: "p".to_string(), size: 1 },
            parcel_reference: parcel,
        },
        sender: h(sender),
        sender_summary_signature: sig(1),
    }
}

fn app_parcel(n: u8) -> ParcelReference {
    ParcelReference::AppEntry(EntryReference {
        eh: h(n),
        zome_name: "secret".to_string(),
        entry_index: 0,
        visibility: EntryVisibility::Private,
    })
}

fn manifest_parcel(n: u8) -> ParcelReference {
    ParcelReference::Manifest(ManifestReference {
        manifest_eh: h(n),
        entry_zome_name: "files".to_string(),
        entry_type_name: "file".to_string(),
    })
}

fn same(a: &Vec<AnyHash>, b: &[u8]) -> bool {
    a.len() == b.len() && a.iter().zip(b.iter()).all(|(x, n)| x.same_as(&h(*n)))
}

#[test]
fn missing_chunks_keep_manifest_order() {
    let m = manifest("f", vec![h(1), h(2), h(3), h(2)]);
    assert!(same(&determine_missing_chunks(&m, &vec![h(1)]), &[2, 3, 2]));
    assert!(same(&determine_missing_chunks(&m, &vec![h(1), h(2), h(3)]), &[]));
    assert!(same(&determine_missing_chunks(&m, &vec![]), &[1, 2, 3, 2]));
}

#[test]
fn incomplete_manifests_are_those_with_missing_chunks() {
    let manifests = vec![record(10, manifest("a", vec![h(1), h(2)])), record(11, manifest("b", vec![h(3)]))];
    assert!(same(&scan_incomplete_manifests(&manifests, &vec![h(1), h(2)]), &[11]));
    assert!(same(&scan_incomplete_manifests(&manifests, &vec![h(3)]), &[10]));
    assert!(same(&scan_incomplete_manifests(&manifests, &vec![h(1), h(2), h(3)]), &[]));
}

#[test]
fn orphan_chunks_are_listed_by_no_manifest() {
    let manifests = vec![manifest("a", vec![h(1), h(2)])];
    assert!(same(&orphan_chunks(&manifests, &vec![h(1), h(5), h(2), h(6)]), &[5, 6]));
    let (public, private) = scan_orphan_chunks(&manifests, &vec![h(7), h(1)], &vec![], &vec![h(2)]);
    assert!(same(&public, &[7]));
    assert!(same(&private, &[2]));
}

#[test]
fn manifest_of_a_chunk_is_the_first_listing_it() {
    let manifests = vec![manifest("a", vec![h(1)]), manifest("b", vec![h(2)]), manifest("c", vec![h(2)])];
    assert_eq!(find_ParcelManifest(&manifests, &h(2)).unwrap().description.name, "b");
    assert!(find_ParcelManifest(&manifests, &h(3)).is_none());
}

#[test]
fn notices_of_a_parcel() {
    let notices = vec![notice(1, 50, app_parcel(9)), notice(2, 50, manifest_parcel(8)), notice(3, 51, app_parcel(9))];
    let found = find_notice_with_parcel(&notices, &h(9));
    assert_eq!(found.len(), 2);
    assert!(found[0].distribution_ah.same_as(&h(1)));
    assert!(found[1].distribution_ah.same_as(&h(3)));
    assert!(find_notice_with_parcel(&notices, &h(7)).is_empty());
}

#[test]
fn check_of_an_incomplete_manifest() {
    let res = check_manifest(h(9), &vec![h(20), h(21)], 50, &vec![]);
    assert_eq!(res.len(), 2);
    assert!(matches!(res[0].1, ManifestCheck::Incomplete(50)));
    assert!(matches!(res[1].1, ManifestCheck::Incomplete(50)));
}

#[test]
fn check_of_a_complete_manifest_proves_each_notice_once() {
    let proofs = vec![record(30, ReceptionProof { notice_eh: h(21), parcel_eh: h(9) })];
    let res = check_manifest(h(9), &vec![h(20), h(21), h(20)], 100, &proofs);
    match res[0].1 {
        ManifestCheck::Prove(p) => {
            assert!(p.notice_eh.same_as(&h(20)));
            assert!(p.parcel_eh.same_as(&h(9)));
        },
        _ => panic!("first notice is proved"),
    }
    match res[1].1 {
        ManifestCheck::Received(eh) => assert!(eh.same_as(&h(30))),
        _ => panic!("second notice already has its proof"),
    }
    assert!(matches!(res[2].1, ManifestCheck::ProvedAbove(_)));
    assert!(res[2].0.same_as(&h(20)));
}

#[test]
fn queries_on_acks() {
    let replies = vec![
        record(1, ReplyAck { distribution_ah: h(1), recipient: h(2), has_accepted: true, signing_recipient: h(2), recipient_signature: sig(1) }),
        record(2, ReplyAck { distribution_ah: h(1), recipient: h(3), has_accepted: false, signing_recipient: h(3), recipient_signature: sig(1) }),
        record(3, ReplyAck { distribution_ah: h(4), recipient: h(2), has_accepted: false, signing_recipient: h(2), recipient_signature: sig(1) }),
    ];
    assert_eq!(query_ReplyAck(&replies, Some(h(1)), None).len(), 2);
    assert_eq!(query_ReplyAck(&replies, None, Some(h(2))).len(), 2);
    let both = query_ReplyAck(&replies, Some(h(1)), Some(h(3)));
    assert_eq!(both.len(), 1);
    assert!(!both[0].has_accepted);
    assert_eq!(query_ReplyAck(&replies, None, None).len(), 3);
    let receptions = vec![record(5, ReceptionAck { distribution_ah: h(1), recipient: h(2), signing_recipient: h(2), recipient_signature: sig(1) })];
    assert_eq!(query_ReceptionAck(&receptions, Some(h(1)), Some(h(2))).len(), 1);
    assert_eq!(query_ReceptionAck(&receptions, Some(h(4)), None).len(), 0);
    let acks = vec![
        record(6, NoticeAck { distribution_ah: h(1), recipient: h(2), signing_recipient: h(2), recipient_summary_signature: sig(1) }),
        record(7, NoticeAck { distribution_ah: h(4), recipient: h(2), signing_recipient: h(2), recipient_summary_signature: sig(1) }),
    ];
    assert_eq!(query_NoticeAck(&acks, NoticeAckQueryField::Recipient(h(2))).len(), 2);
    assert_eq!(query_NoticeAck(&acks, NoticeAckQueryField::Distribution(h(4))).len(), 1);
}

#[test]
fn queries_on_notices_replies_and_proofs() {
    let notices = vec![record(20, notice(1, 50, app_parcel(9))), record(21, notice(2, 51, manifest_parcel(8)))];
    let by_sender = query_DeliveryNotice(&notices, DeliveryNoticeQueryField::Sender(h(51)));
    assert_eq!(by_sender.len(), 1);
    assert_eq!(by_sender[0].1, 21);
    assert_eq!(query_DeliveryNotice(&notices, DeliveryNoticeQueryField::Distribution(h(1))).len(), 1);
    assert_eq!(query_DeliveryNotice(&notices, DeliveryNoticeQueryField::Parcel(h(8))).len(), 1);
    assert_eq!(query_DeliveryNotice(&notices, DeliveryNoticeQueryField::Parcel(h(7))).len(), 0);
    let replies = vec![
        record(30, NoticeReply { notice_eh: h(20), has_accepted: false }),
        record(31, NoticeReply { notice_eh: h(20), has_accepted: true }),
    ];
    assert_eq!(query_NoticeReply(&replies, h(20)).unwrap().has_accepted, false);
    assert!(query_NoticeReply(&replies, h(21)).is_none());
    let proofs = vec![record(40, ReceptionProof { notice_eh: h(20), parcel_eh: h(9) })];
    let (eh, ts, p) = query_ReceptionProof(&proofs, ReceptionProofQueryField::Parcel(h(9))).unwrap();
    assert!(eh.same_as(&h(40)));
    assert_eq!(ts, 40);
    assert!(p.notice_eh.same_as(&h(20)));
    assert!(query_ReceptionProof(&proofs, ReceptionProofQueryField::Notice(h(21))).is_none());
}

#[test]
fn manifest_of_a_chunk_and_its_notices() {
    let manifests = vec![record(10, manifest("a", vec![h(1)])), record(11, manifest("b", vec![h(2)])), record(12, manifest("c", vec![h(2)]))];
    let notices = vec![
        record(20, notice(1, 50, manifest_parcel(11))),
        record(21, notice(2, 50, manifest_parcel(12))),
        record(22, notice(3, 51, manifest_parcel(11))),
    ];
    let (m, ns) = manifest_of_chunk(&h(2), &manifests, &notices).unwrap();
    assert!(m.same_as(&h(11)));
    assert!(same(&ns, &[20, 22]));
    // No manifest lists the chunk.
    assert!(manifest_of_chunk(&h(3), &manifests, &notices).is_none());
    // The manifest listing the chunk was delivered by no notice.
    assert!(manifest_of_chunk(&h(1), &manifests, &notices).is_none());
}

#[test]
fn second_check_of_a_manifest_proves_nothing_new() {
    let mut proofs = vec![record(30, ReceptionProof { notice_eh: h(21), parcel_eh: h(9) })];
    let notice_ehs = vec![h(20), h(21), h(20)];
    let first = check_manifest(h(9), &notice_ehs, 100, &proofs);
    let mut n: u8 = 40;
    for (_, check) in first.iter() {
        if let ManifestCheck::Prove(p) = check {
            proofs.push(record(n, *p));
            n += 1;
        }
    }
    let second = check_manifest(h(9), &notice_ehs, 100, &proofs);
    assert_eq!(second.len(), 3);
    for (_, check) in second.iter() {
        assert!(matches!(check, ManifestCheck::Received(_)));
    }
    assert!(matches!(second[0].1, ManifestCheck::Received(eh) if eh.same_as(&h(40))));
    assert!(matches!(second[1].1, ManifestCheck::Received(eh) if eh.same_as(&h(30))));
    assert!(matches!(second[2].1, ManifestCheck::Received(eh) if eh.same_as(&h(40))));
}
