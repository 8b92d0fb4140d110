use zome_delivery::entries::{
    DeliveryNotice, Distribution, EncryptedData, NoticeAck, NoticeReply, ParcelManifest, PendingItem, ReceptionAck,
    ReceptionProof, ReplyAck,
};
use zome_delivery::hash::{AnyHash, Signature};
use zome_delivery::protocol::{receive_reception, receive_reply};
use zome_delivery::queries::LocalRecord;
use zome_delivery::state::{
    determine_distribution_state, find_PendingItem, get_delivery_state, get_distribution_state, get_notice,
    get_notice_state, respond_to_notice, GetDeliveryStateInput,
};
use zome_delivery::types::{
    DeliveryState, DeliverySummary, DistributionState, DistributionStrategy, EntryReference, EntryVisibility, ItemKind,
    ManifestReference, NoticeState, ParcelDescription, ParcelReference,
};
use zome_delivery::zome_api::RespondToNoticeInput;

fn h(n: u8) -> AnyHash {
    let mut bytes = [0u8; 39];
    bytes[0] = 0x84;
    bytes[1] = 0x21;
    bytes[2] = 0x24;
    bytes[3] = n;
    AnyHash { bytes }
}

fn sig(n: u8) -> Signature {
    Signature { bytes: [n; 64] }
}

fn record<T>(n: u8, entry: T) -> LocalRecord<T> {
    LocalRecord { ah: h(100 + n), eh: h(n), ts: n as i64, entry }
}

fn summary(parcel: ParcelReference) -> DeliverySummary {
    DeliverySummary {
        distribution_strategy: DistributionStrategy::NORMAL,
        parcel_description: ParcelDescription { name: "parcel".to_string(), size: 10 },
        parcel_reference: parcel,
    }
}

fn app_parcel(n: u8) -> ParcelReference {
    ParcelReference::AppEntry(EntryReference {
        eh: h(n),
        zome_name: "secret".to_string(),
        entry_index: 0,
        visibility: EntryVisibility::Private,
    })
}

fn manifest_parcel(n: u8) -> ParcelReference {
    ParcelReference::Manifest(ManifestReference {
        manifest_eh: h(n),
        entry_zome_name: "files".to_string(),
        entry_type_name: "file".to_string(),
    })
}

fn notice(distribution: u8, parcel: ParcelReference) -> DeliveryNotice {
    DeliveryNotice {
        distribution_ah: h(distribution),
        summary: summary(parcel),
        sender: h(50),
        sender_summary_signature: sig(1),
    }
}

fn pending(kind: ItemKind, distribution: u8) -> PendingItem {
    PendingItem {
        kind,
        author: h(50),
        author_signature: sig(2),
        encrypted_data: EncryptedData { nonce: [0u8; 24], bytes: vec![1, 2, 3] },
        distribution_ah: h(distribution),
    }
}

fn manifest(chunks: Vec<AnyHash>) -> ParcelManifest {
    ParcelManifest {
        description: ParcelDescription { name: "file".to_string(), size: 100 },
        data_hash: "abc".to_string(),
        chunks,
    }
}

#[test]
fn distribution_state_is_the_least_advanced_delivery() {
    assert_eq!(determine_distribution_state(&vec![DeliveryState::ParcelDelivered, DeliveryState::Unsent]), DistributionState::Unsent);
    assert_eq!(determine_distribution_state(&vec![DeliveryState::PendingNotice, DeliveryState::ParcelDelivered]), DistributionState::AllNoticesSent);
    assert_eq!(determine_distribution_state(&vec![DeliveryState::NoticeDelivered, DeliveryState::ParcelRefused]), DistributionState::AllNoticeReceived);
    assert_eq!(determine_distribution_state(&vec![DeliveryState::ParcelAccepted, DeliveryState::ParcelDelivered]), DistributionState::AllRepliesReceived);
    assert_eq!(determine_distribution_state(&vec![DeliveryState::PendingParcel, DeliveryState::ParcelRefused]), DistributionState::AllRepliesReceived);
    assert_eq!(
        determine_distribution_state(&vec![DeliveryState::ParcelRefused, DeliveryState::ParcelDelivered]),
        DistributionState::AllAcceptedParcelsReceived
    );
}

#[test]
fn distribution_state_of_no_delivery() {
    assert_eq!(determine_distribution_state(&vec![]), DistributionState::AllAcceptedParcelsReceived);
}

#[test]
fn delivery_state_steps() {
    let input = GetDeliveryStateInput { distribution_ah: h(1), recipient: h(2) };
    let none_r: Vec<LocalRecord<ReceptionAck>> = vec![];
    let none_p: Vec<LocalRecord<ReplyAck>> = vec![];
    let none_a: Vec<LocalRecord<NoticeAck>> = vec![];
    assert_eq!(get_delivery_state(&input, &none_r, &none_p, &none_a, &vec![]), DeliveryState::Unsent);
    assert_eq!(
        get_delivery_state(&input, &none_r, &none_p, &none_a, &vec![pending(ItemKind::DeliveryNotice, 1)]),
        DeliveryState::PendingNotice
    );
    let ack = NoticeAck { distribution_ah: h(1), recipient: h(2), signing_recipient: h(2), recipient_summary_signature: sig(3) };
    let acks = vec![record(10, ack)];
    assert_eq!(get_delivery_state(&input, &none_r, &none_p, &acks, &vec![]), DeliveryState::NoticeDelivered);
    let other = NoticeAck { distribution_ah: h(1), recipient: h(3), signing_recipient: h(3), recipient_summary_signature: sig(3) };
    assert_eq!(get_delivery_state(&input, &none_r, &none_p, &vec![record(11, other)], &vec![]), DeliveryState::Unsent);
    let refuse = ReplyAck { distribution_ah: h(1), recipient: h(2), has_accepted: false, signing_recipient: h(2), recipient_signature: sig(4) };
    assert_eq!(get_delivery_state(&input, &none_r, &vec![record(12, refuse)], &acks, &vec![]), DeliveryState::ParcelRefused);
    let accept = ReplyAck { distribution_ah: h(1), recipient: h(2), has_accepted: true, signing_recipient: h(2), recipient_signature: sig(4) };
    let accepts = vec![record(13, accept)];
    assert_eq!(get_delivery_state(&input, &none_r, &accepts, &acks, &vec![]), DeliveryState::ParcelAccepted);
    assert_eq!(
        get_delivery_state(&input, &none_r, &accepts, &acks, &vec![pending(ItemKind::AppEntryBytes, 1)]),
        DeliveryState::PendingParcel
    );
    let receipt = ReceptionAck { distribution_ah: h(1), recipient: h(2), signing_recipient: h(2), recipient_signature: sig(5) };
    assert_eq!(get_delivery_state(&input, &vec![record(14, receipt)], &accepts, &acks, &vec![]), DeliveryState::ParcelDelivered);
}

#[test]
fn distribution_state_of_each_recipient() {
    let distribution = Distribution { recipients: vec![h(2), h(3)], delivery_summary: summary(app_parcel(9)), summary_signature: sig(1) };
    let receipt = ReceptionAck { distribution_ah: h(1), recipient: h(2), signing_recipient: h(2), recipient_signature: sig(5) };
    let full = get_distribution_state(h(1), &distribution, &vec![record(1, receipt)], &vec![], &vec![], &vec![vec![], vec![pending(ItemKind::DeliveryNotice, 1)]]);
    assert_eq!(full.delivery_states, vec![DeliveryState::ParcelDelivered, DeliveryState::PendingNotice]);
    assert_eq!(full.distribution_state, DistributionState::AllNoticesSent);
}

#[test]
fn first_pending_item_of_a_kind() {
    let items = vec![pending(ItemKind::NoticeAck, 1), pending(ItemKind::DeliveryNotice, 2), pending(ItemKind::DeliveryNotice, 3)];
    let found = find_PendingItem(&items, ItemKind::DeliveryNotice).unwrap();
    assert!(found.distribution_ah.same_as(&h(2)));
    assert!(find_PendingItem(&items, ItemKind::ParcelChunk).is_none());
}

#[test]
fn notice_states() {
    let n = notice(1, app_parcel(9));
    let no_replies: Vec<LocalRecord<NoticeReply>> = vec![];
    let no_proofs: Vec<LocalRecord<ReceptionProof>> = vec![];
    let (s, missing) = get_notice_state(h(20), &n, &no_replies, &no_proofs, &None, &vec![]);
    assert_eq!(s, NoticeState::Unreplied);
    assert!(missing.is_empty());
    let refuse = vec![record(30, NoticeReply { notice_eh: h(20), has_accepted: false })];
    assert_eq!(get_notice_state(h(20), &n, &refuse, &no_proofs, &None, &vec![]).0, NoticeState::Refused);
    let accept = vec![record(31, NoticeReply { notice_eh: h(20), has_accepted: true })];
    assert_eq!(get_notice_state(h(20), &n, &accept, &no_proofs, &None, &vec![]).0, NoticeState::Accepted);
    let proofs = vec![record(32, ReceptionProof { notice_eh: h(20), parcel_eh: h(9) })];
    assert_eq!(get_notice_state(h(20), &n, &accept, &proofs, &None, &vec![]).0, NoticeState::Received);
}

#[test]
fn notice_state_of_a_partially_received_manifest() {
    let n = notice(1, manifest_parcel(9));
    let accept = vec![record(31, NoticeReply { notice_eh: h(20), has_accepted: true })];
    let none: Vec<LocalRecord<ReceptionProof>> = vec![];
    assert_eq!(get_notice_state(h(20), &n, &accept, &none, &None, &vec![]).0, NoticeState::Accepted);
    let m = manifest(vec![h(40), h(41), h(42)]);
    let (s, missing) = get_notice_state(h(20), &n, &accept, &none, &Some(m), &vec![h(41)]);
    assert_eq!(s, NoticeState::PartiallyReceived);
    assert_eq!(missing.len(), 2);
    assert!(missing[0].same_as(&h(40)));
    assert!(missing[1].same_as(&h(42)));
}

#[test]
fn notice_of_a_distribution_with_its_state() {
    let notices = vec![record(20, notice(1, manifest_parcel(9))), record(21, notice(2, app_parcel(8)))];
    let replies = vec![record(31, NoticeReply { notice_eh: h(20), has_accepted: true })];
    let manifests = vec![record(9, manifest(vec![h(40), h(41)]))];
    let none: Vec<LocalRecord<ReceptionProof>> = vec![];
    let out = get_notice(h(1), &notices, &replies, &none, &manifests, &vec![h(40)]).unwrap();
    assert!(out.notice.distribution_ah.same_as(&h(1)));
    assert_eq!(out.state.0, NoticeState::PartiallyReceived);
    assert_eq!(out.state.1.len(), 1);
    assert!(out.state.1[0].same_as(&h(41)));
    let out = get_notice(h(2), &notices, &replies, &none, &manifests, &vec![]).unwrap();
    assert_eq!(out.state.0, NoticeState::Unreplied);
    assert!(get_notice(h(3), &notices, &replies, &none, &manifests, &vec![]).is_none());
}

#[test]
fn reply_decides_the_notice_state() {
    let n = notice(1, app_parcel(9));
    let none: Vec<LocalRecord<ReceptionProof>> = vec![];
    for accepted in [true, false] {
        let mut replies: Vec<LocalRecord<NoticeReply>> = vec![record(33, NoticeReply { notice_eh: h(21), has_accepted: true })];
        assert_eq!(get_notice_state(h(20), &n, &replies, &none, &None, &vec![]).0, NoticeState::Unreplied);
        let reply = respond_to_notice(&RespondToNoticeInput { notice_eh: h(20), has_accepted: accepted });
        assert!(reply.notice_eh.same_as(&h(20)));
        assert_eq!(reply.has_accepted, accepted);
        replies.push(record(34, reply));
        let state = get_notice_state(h(20), &n, &replies, &none, &None, &vec![]).0;
        assert_eq!(state == NoticeState::Refused, !accepted);
        assert_ne!(state, NoticeState::Unreplied);
    }
}

#[test]
fn acks_decide_the_delivery_state() {
    let input = GetDeliveryStateInput { distribution_ah: h(1), recipient: h(2) };
    let acks = vec![record(10, NoticeAck { distribution_ah: h(1), recipient: h(2), signing_recipient: h(2), recipient_summary_signature: sig(3) })];
    let none_r: Vec<LocalRecord<ReceptionAck>> = vec![];
    for accepted in [true, false] {
        let item = pending(ItemKind::NoticeReply, 1);
        let reply_ack = receive_reply(h(2), &item, NoticeReply { notice_eh: h(20), has_accepted: accepted });
        let replies = vec![record(11, reply_ack)];
        let state = get_delivery_state(&input, &none_r, &replies, &acks, &vec![]);
        assert_eq!(state, if accepted { DeliveryState::ParcelAccepted } else { DeliveryState::ParcelRefused });
    }
    let receipt = receive_reception(h(2), &pending(ItemKind::ReceptionProof, 1));
    let refuse = ReplyAck { distribution_ah: h(1), recipient: h(2), has_accepted: false, signing_recipient: h(2), recipient_signature: sig(4) };
    let state = get_delivery_state(&input, &vec![record(12, receipt)], &vec![record(13, refuse)], &acks, &vec![]);
    assert_eq!(state, DeliveryState::ParcelDelivered);
}

#[test]
fn a_delivered_delivery_stays_delivered() {
    let input = GetDeliveryStateInput { distribution_ah: h(1), recipient: h(2) };
    let receipt = ReceptionAck { distribution_ah: h(1), recipient: h(2), signing_recipient: h(2), recipient_signature: sig(5) };
    let mut receptions = vec![record(14, receipt)];
    assert_eq!(get_delivery_state(&input, &receptions, &vec![], &vec![], &vec![]), DeliveryState::ParcelDelivered);
    let other = ReceptionAck { distribution_ah: h(3), recipient: h(2), signing_recipient: h(2), recipient_signature: sig(5) };
    receptions.push(record(15, other));
    let refuse = ReplyAck { distribution_ah: h(1), recipient: h(2), has_accepted: false, signing_recipient: h(2), recipient_signature: sig(4) };
    let state = get_delivery_state(&input, &receptions, &vec![record(16, refuse)], &vec![], &vec![pending(ItemKind::AppEntryBytes, 1)]);
    assert_eq!(state, DeliveryState::ParcelDelivered);
}
