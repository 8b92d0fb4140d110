use zome_delivery::entries::{DeliveryNotice, Distribution, EncryptedData, NoticeReply, ParcelChunk, PendingItem};
use zome_delivery::errors::DeliveryError;
use zome_delivery::hash::{AnyHash, Signature};
use zome_delivery::protocol::{
    accept_parcel_answer, check_dm_destination, check_signature, dm_packet, dm_response, find_inbox_item, item_handling,
    ItemHandling,
    public_parcel_message, pull_step, receive_delivery_dm, receive_dm_parcel_request, receive_reception,
    receive_reply, request_missing_chunks, select_parcel_notice, send_item_step, DeliveryProtocol, DmAction,
    PullAction, PullState, RemoteCallOutcome, SendAction, SendState, SendSuccessKind,
};
use zome_delivery::types::{
    DeliverySummary, DistributionStrategy, EntryReference, EntryVisibility, ItemKind, ParcelDescription,
    ParcelReference,
};

fn h(n: u8) -> AnyHash {
    let mut bytes = [0u8; 39];
    bytes[0] = 0x84;
    bytes[1] = 0x21;
    bytes[2] = 0x24;
    bytes[3] = n;
    AnyHash { bytes }
}

fn sig(n: u8) -> Signature {
    Signature { bytes: [n; 64] }
}

fn app_parcel(n: u8) -> ParcelReference {
    ParcelReference::AppEntry(EntryReference {
        eh: h(n),
        zome_name: "secret".to_string(),
        entry_index: 0,
        visibility: EntryVisibility::Private,
    })
}

fn summary(strategy: DistributionStrategy) -> DeliverySummary {
    DeliverySummary {
        distribution_strategy: strategy,
        parcel_description: ParcelDescription { name: "p".to_string(), size: 1 },
        parcel_reference: app_parcel(9),
    }
}

fn notice(distribution: u8) -> DeliveryNotice {
    DeliveryNotice {
        distribution_ah: h(distribution),
        summary: summary(DistributionStrategy::NORMAL),
        sender: h(50),
        sender_summary_signature: sig(1),
    }
}

fn pending(kind: ItemKind, distribution: u8) -> PendingItem {
    PendingItem {
        kind,
        author: h(50),
        author_signature: sig(2),
        encrypted_data: EncryptedData { nonce: [0u8; 24], bytes: vec![1] },
        distribution_ah: h(distribution),
    }
}

fn failure_text(p: DeliveryProtocol) -> String {
    match p {
        DeliveryProtocol::Failure(s) => s,
        _ => panic!("a failure was expected"),
    }
}

#[test]
fn dm_dispatch() {
    assert!(matches!(receive_delivery_dm(DeliveryProtocol::ChunkRequest(h(1))), DmAction::AnswerChunkRequest(eh) if eh.same_as(&h(1))));
    assert!(matches!(receive_delivery_dm(DeliveryProtocol::ParcelRequest(h(2))), DmAction::AnswerParcelRequest(ah) if ah.same_as(&h(2))));
    assert!(matches!(receive_delivery_dm(DeliveryProtocol::Ping), DmAction::Pong));
    assert!(matches!(receive_delivery_dm(DeliveryProtocol::Pong), DmAction::Unexpected));
    assert!(matches!(receive_delivery_dm(DeliveryProtocol::Failure("x".to_string())), DmAction::Unexpected));
    assert!(matches!(receive_delivery_dm(DeliveryProtocol::Item(pending(ItemKind::NoticeAck, 1))), DmAction::ReceiveItem(_)));
    let news = (h(1), 5i64, app_parcel(2), h(3));
    assert!(matches!(receive_delivery_dm(DeliveryProtocol::PublicParcelPublished(news)), DmAction::SignalPublicParcel(_)));
    let news = (h(1), 5i64, app_parcel(2), h(3));
    assert!(matches!(receive_delivery_dm(DeliveryProtocol::PublicParcelRemoved(news)), DmAction::Unexpected));
}

#[test]
fn public_parcel_messages() {
    let news = (h(1), 5i64, app_parcel(2), h(3));
    assert!(matches!(public_parcel_message(news, true), DeliveryProtocol::PublicParcelRemoved(_)));
    let news = (h(1), 5i64, app_parcel(2), h(3));
    assert!(matches!(public_parcel_message(news, false), DeliveryProtocol::PublicParcelPublished(_)));
}

#[test]
fn no_dm_to_oneself() {
    assert_eq!(check_dm_destination(&h(1), &h(1)), Err(DeliveryError::CantSendToSelf));
    assert_eq!(check_dm_destination(&h(2), &h(1)), Ok(()));
    assert!(matches!(dm_packet(&h(1), &h(1), DeliveryProtocol::Ping), Err(DeliveryError::CantSendToSelf)));
    let packet = dm_packet(&h(2), &h(1), DeliveryProtocol::Ping).unwrap();
    assert!(packet.from.same_as(&h(1)));
    assert!(matches!(packet.msg, DeliveryProtocol::Ping));
}

#[test]
fn dm_responses() {
    assert!(matches!(dm_response(RemoteCallOutcome::Answered(DeliveryProtocol::Pong)), DeliveryProtocol::Pong));
    assert_eq!(failure_text(dm_response(RemoteCallOutcome::Unauthorized)), "Unauthorized");
    assert_eq!(failure_text(dm_response(RemoteCallOutcome::NetworkError("timeout".to_string()))), "NetworkError: timeout");
    assert_eq!(
        failure_text(dm_response(RemoteCallOutcome::CountersigningSession("busy".to_string()))),
        "CountersigningSession: busy"
    );
}

#[test]
fn signature_checks() {
    assert_eq!(check_signature(Some(true)), Ok(()));
    assert_eq!(check_signature(Some(false)), Err(DeliveryError::SignatureMismatch));
    assert_eq!(check_signature(None), Err(DeliveryError::VerifyingSignatureFailed));
}

#[test]
fn acks_of_replies_and_receptions() {
    let item = pending(ItemKind::NoticeReply, 7);
    let ack = receive_reply(h(3), &item, NoticeReply { notice_eh: h(4), has_accepted: true });
    assert!(ack.distribution_ah.same_as(&h(7)));
    assert!(ack.recipient.same_as(&h(3)));
    assert!(ack.signing_recipient.same_as(&h(3)));
    assert!(ack.recipient_signature.same_as(&sig(2)));
    assert!(ack.has_accepted);
    let ack = receive_reception(h(3), &pending(ItemKind::ReceptionProof, 8));
    assert!(ack.distribution_ah.same_as(&h(8)));
    assert!(ack.recipient.same_as(&h(3)));
}

#[test]
fn parcel_notice_selection() {
    assert!(matches!(select_parcel_notice(&vec![], &h(1)), Err(DeliveryError::NoticeNotFoundForParcel)));
    let notices = vec![notice(1), notice(2), notice(2)];
    let n = select_parcel_notice(&notices, &h(2)).unwrap();
    assert!(n.distribution_ah.same_as(&h(2)));
    assert!(matches!(select_parcel_notice(&notices, &h(3)), Err(DeliveryError::NoNoticeForDistribution)));
}

#[test]
fn parcel_requests_only_from_recipients() {
    let d = Distribution { recipients: vec![h(2), h(3)], delivery_summary: summary(DistributionStrategy::NORMAL), summary_signature: sig(1) };
    assert!(receive_dm_parcel_request(&h(3), &d).unwrap().same_as(&h(9)));
    match receive_dm_parcel_request(&h(4), &d) {
        Err(reply) => assert_eq!(failure_text(reply), "Request from invalid recipient"),
        Ok(_) => panic!("not a recipient"),
    }
}

#[test]
fn send_item_by_dm_then_dht() {
    let normal = DistributionStrategy::NORMAL;
    assert!(matches!(send_item_step(normal, SendState::Start), SendAction::ProbeOwners));
    assert!(matches!(send_item_step(normal, SendState::OwnersProbed(true)), SendAction::SendDm));
    assert!(matches!(send_item_step(normal, SendState::OwnersProbed(false)), SendAction::CommitPending));
    assert!(matches!(
        send_item_step(normal, SendState::DmAnswered(DeliveryProtocol::Success(sig(4)))),
        SendAction::Done(Ok(SendSuccessKind::OK_DIRECT(s))) if s.same_as(&sig(4))
    ));
    assert!(matches!(send_item_step(normal, SendState::DmAnswered(DeliveryProtocol::Pong)), SendAction::CommitPending));
    assert!(matches!(send_item_step(normal, SendState::PendingCommitted(true)), SendAction::Done(Ok(SendSuccessKind::OK_PENDING))));
    assert!(matches!(
        send_item_step(normal, SendState::PendingCommitted(false)),
        SendAction::Done(Err(DeliveryError::CommitPendingItemFailed))
    ));
}

#[test]
fn send_item_with_one_channel() {
    let dm = DistributionStrategy::DM_ONLY;
    assert!(matches!(send_item_step(dm, SendState::OwnersProbed(false)), SendAction::Done(Err(DeliveryError::FailedToSendItem))));
    assert!(matches!(
        send_item_step(dm, SendState::DmAnswered(DeliveryProtocol::Failure("x".to_string()))),
        SendAction::Done(Err(DeliveryError::FailedToSendItem))
    ));
    assert!(matches!(send_item_step(DistributionStrategy::DHT_ONLY, SendState::Start), SendAction::CommitPending));
}

#[test]
fn pull_inbox_then_dm() {
    let normal = DistributionStrategy::NORMAL;
    assert!(matches!(pull_step(normal, true, PullState::Start), PullAction::SearchInbox));
    assert!(matches!(pull_step(DistributionStrategy::DM_ONLY, true, PullState::Start), PullAction::AskSender));
    assert!(matches!(pull_step(normal, true, PullState::InboxSearched(Some(3))), PullAction::UseInboxItem(3)));
    assert!(matches!(pull_step(normal, true, PullState::InboxSearched(None)), PullAction::AskSender));
    assert!(matches!(pull_step(DistributionStrategy::DHT_ONLY, true, PullState::InboxSearched(None)), PullAction::NotFound));
    let chunk = ParcelChunk { data_hash: "x".to_string(), data: "y".to_string() };
    assert!(matches!(pull_step(normal, true, PullState::DmAnswered(DeliveryProtocol::ChunkResponse(chunk))), PullAction::UseAnswer(_)));
    let chunk = ParcelChunk { data_hash: "x".to_string(), data: "y".to_string() };
    assert!(matches!(pull_step(normal, false, PullState::DmAnswered(DeliveryProtocol::ChunkResponse(chunk))), PullAction::NotFound));
    assert!(matches!(pull_step(normal, false, PullState::DmAnswered(DeliveryProtocol::ParcelResponse(vec![1]))), PullAction::UseAnswer(_)));
}

#[test]
fn inbox_item_of_a_distribution() {
    let items = vec![pending(ItemKind::ParcelChunk, 1), pending(ItemKind::ParcelChunk, 2), pending(ItemKind::ParcelChunk, 2)];
    assert_eq!(find_inbox_item(&items, &h(2)), Some(1));
    assert_eq!(find_inbox_item(&items, &h(3)), None);
}

#[test]
fn parcel_answers_must_match_the_notice() {
    assert!(accept_parcel_answer(&h(9), &notice(1)));
    assert!(!accept_parcel_answer(&h(8), &notice(1)));
}

#[test]
fn chunk_requests_to_the_first_sender() {
    assert!(request_missing_chunks(&vec![], &vec![(notice(1), 0)]).is_none());
    assert!(request_missing_chunks(&vec![h(1)], &vec![]).is_none());
    let (sender, requests) = request_missing_chunks(&vec![h(1), h(2)], &vec![(notice(1), 0), (notice(2), 1)]).unwrap();
    assert!(sender.same_as(&h(50)));
    assert_eq!(requests.len(), 2);
    assert!(matches!(&requests[1], DeliveryProtocol::ChunkRequest(eh) if eh.same_as(&h(2))));
}

#[test]
fn items_are_taken_in_by_kind() {
    assert_eq!(item_handling(ItemKind::NoticeReply), ItemHandling::CommitReplyAck);
    assert_eq!(item_handling(ItemKind::ReceptionProof), ItemHandling::CommitReceptionAck);
    assert_eq!(item_handling(ItemKind::NoticeAck), ItemHandling::CommitNoticeAck);
    assert_eq!(item_handling(ItemKind::DeliveryNotice), ItemHandling::CommitNotice);
    assert_eq!(item_handling(ItemKind::AppEntryBytes), ItemHandling::CommitParcel);
    assert_eq!(item_handling(ItemKind::ParcelChunk), ItemHandling::CommitChunk);
}
