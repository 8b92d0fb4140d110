//! Direct messages between agents and the decisions taken on them.

use vstd::prelude::*;
use crate::hash::{contains_hash, hash_views, AnyHash, Signature};
use crate::types::{DistributionStrategy, ItemKind, ParcelReference};
use crate::entries::{DeliveryNotice, Distribution, NoticeReply, ParcelChunk, PendingItem, ReceptionAck, ReplyAck};
use crate::errors::DeliveryError;

verus! {

/// A public parcel announcement: the parcel reference's entry hash, the time
/// of the announcement, the parcel reference and its author.
pub type PublicParcelNews = (AnyHash, i64, ParcelReference, AnyHash);

/// Protocol for sending data between agents.
#[derive(Debug)]
pub enum DeliveryProtocol {
    Failure(String),
    Success(Signature),
    Item(PendingItem),
    ParcelRequest(AnyHash),
    /// The serialized bytes of a parcel entry.
    ParcelResponse(Vec<u8>),
    ChunkRequest(AnyHash),
    ChunkResponse(ParcelChunk),
    PublicParcelPublished(PublicParcelNews),
    PublicParcelRemoved(PublicParcelNews),
    Ping,
    Pong,
}

/// What to do with a received direct message.
#[derive(Debug)]
pub enum DmAction {
    /// Answer with the requested chunk, or a failure.
    AnswerChunkRequest(AnyHash),
    /// Answer with the parcel of the given distribution, or a failure.
    AnswerParcelRequest(AnyHash),
    /// Emit a signal announcing the public parcel, then answer Pong.
    SignalPublicParcel(PublicParcelNews),
    /// Process the item according to its kind, then answer Success with a signature.
    ReceiveItem(PendingItem),
    /// Answer Pong.
    Pong,
    /// Answer a failure for an unexpected message.
    Unexpected,
}

/// Decide how to answer a received direct message.
pub fn receive_delivery_dm(msg: DeliveryProtocol) -> (r: DmAction)
    ensures
        r == match msg {
            DeliveryProtocol::ChunkRequest(eh) => DmAction::AnswerChunkRequest(eh),
            DeliveryProtocol::ParcelRequest(ah) => DmAction::AnswerParcelRequest(ah),
            DeliveryProtocol::PublicParcelPublished(news) => DmAction::SignalPublicParcel(news),
            DeliveryProtocol::Item(item) => DmAction::ReceiveItem(item),
            DeliveryProtocol::Ping => DmAction::Pong,
            _ => DmAction::Unexpected,
        },
{
    match msg {
        DeliveryProtocol::ChunkRequest(chunk_eh) => DmAction::AnswerChunkRequest(chunk_eh),
        DeliveryProtocol::ParcelRequest(distribution_ah) => DmAction::AnswerParcelRequest(distribution_ah),
        DeliveryProtocol::PublicParcelPublished(news) => DmAction::SignalPublicParcel(news),
        DeliveryProtocol::Item(pending_item) => DmAction::ReceiveItem(pending_item),
        DeliveryProtocol::Ping => DmAction::Pong,
        _ => DmAction::Unexpected,
    }
}

/// How a received item is taken in: the entry committed for it, and what is
/// signed in answer.
#[derive(Clone, Copy, Debug, PartialEq, Eq, Structural)]
pub enum ItemHandling {
    /// Commit a ReplyAck for the recipient's reply; sign the item.
    CommitReplyAck,
    /// Commit a ReceptionAck for the recipient's proof; sign the item.
    CommitReceptionAck,
    /// Commit the recipient's NoticeAck; sign the item.
    CommitNoticeAck,
    /// Commit the sender's DeliveryNotice; sign its summary.
    CommitNotice,
    /// Commit the parcel under its notice; sign the item.
    CommitParcel,
    /// Commit the chunk; sign the item.
    CommitChunk,
}

/// How a received item of a given kind is taken in: what the recipient sends
/// is acknowledged on the sender's chain, what the sender sends is committed
/// on the recipient's chain.
pub fn item_handling(kind: ItemKind) -> (r: ItemHandling)
    ensures
        r == match kind {
            ItemKind::NoticeReply => ItemHandling::CommitReplyAck,
            ItemKind::ReceptionProof => ItemHandling::CommitReceptionAck,
            ItemKind::NoticeAck => ItemHandling::CommitNoticeAck,
            ItemKind::DeliveryNotice => ItemHandling::CommitNotice,
            ItemKind::AppEntryBytes => ItemHandling::CommitParcel,
            ItemKind::ParcelChunk => ItemHandling::CommitChunk,
        },
        (r == ItemHandling::CommitNotice) == (kind == ItemKind::DeliveryNotice),
{
    match kind {
        ItemKind::NoticeReply => ItemHandling::CommitReplyAck,
        ItemKind::ReceptionProof => ItemHandling::CommitReceptionAck,
        ItemKind::NoticeAck => ItemHandling::CommitNoticeAck,
        ItemKind::DeliveryNotice => ItemHandling::CommitNotice,
        ItemKind::AppEntryBytes => ItemHandling::CommitParcel,
        ItemKind::ParcelChunk => ItemHandling::CommitChunk,
    }
}

/// The message announcing that a public parcel was published or removed.
pub fn public_parcel_message(news: PublicParcelNews, removed: bool) -> (r: DeliveryProtocol)
    ensures
        r == if removed {
            DeliveryProtocol::PublicParcelRemoved(news)
        } else {
            DeliveryProtocol::PublicParcelPublished(news)
        },
{
    if removed {
        DeliveryProtocol::PublicParcelRemoved(news)
    } else {
        DeliveryProtocol::PublicParcelPublished(news)
    }
}

/// A direct message is never sent to oneself.
pub fn check_dm_destination(destination: &AnyHash, me: &AnyHash) -> (r: Result<(), DeliveryError>)
    ensures
        r is Ok <==> destination@ != me@,
        r matches Err(e) ==> e == DeliveryError::CantSendToSelf,
{
    if destination.same_as(me) {
        return Err(DeliveryError::CantSendToSelf);
    }
    Ok(())
}

/// A direct message between agents of the delivery zome.
#[derive(Debug)]
pub struct DirectMessage {
    pub from: AnyHash,
    pub msg: DeliveryProtocol,
}

/// The packet of a direct message to a destination, from oneself: refused
/// when the destination is oneself.
pub fn dm_packet(destination: &AnyHash, me: &AnyHash, msg: DeliveryProtocol) -> (r: Result<DirectMessage, DeliveryError>)
    ensures
        destination@ == me@ ==> r == Err::<DirectMessage, DeliveryError>(DeliveryError::CantSendToSelf),
        destination@ != me@ ==> r == Ok::<DirectMessage, DeliveryError>(DirectMessage { from: *me, msg }),
{
    match check_dm_destination(destination, me) {
        Err(e) => Err(e),
        Ok(()) => Ok(DirectMessage { from: *me, msg }),
    }
}

/// How a remote call to a peer came back.
#[derive(Debug)]
pub enum RemoteCallOutcome {
    /// The peer answered with a message.
    Answered(DeliveryProtocol),
    Unauthorized,
    /// The network failed, as described.
    NetworkError(String),
    /// The call met a countersigning session, as described.
    CountersigningSession(String),
}

/// The answer to a direct message: the peer's answer, or a failure naming
/// what went wrong.
pub fn dm_response(outcome: RemoteCallOutcome) -> (r: DeliveryProtocol)
    ensures
        match outcome {
            RemoteCallOutcome::Answered(answer) => r == answer,
            RemoteCallOutcome::Unauthorized => r matches DeliveryProtocol::Failure(s) && s@ == "Unauthorized"@,
            RemoteCallOutcome::NetworkError(e) => r matches DeliveryProtocol::Failure(s) && s@
                == "NetworkError: "@ + e@,
            RemoteCallOutcome::CountersigningSession(e) => r matches DeliveryProtocol::Failure(s) && s@
                == "CountersigningSession: "@ + e@,
        },
{
    match outcome {
        RemoteCallOutcome::Answered(answer) => answer,
        RemoteCallOutcome::Unauthorized => DeliveryProtocol::Failure("Unauthorized".to_owned()),
        RemoteCallOutcome::NetworkError(e) => DeliveryProtocol::Failure(
            "NetworkError: ".to_owned().concat(e.as_str()),
        ),
        RemoteCallOutcome::CountersigningSession(e) => DeliveryProtocol::Failure(
            "CountersigningSession: ".to_owned().concat(e.as_str()),
        ),
    }
}

/// Outcome of the verification of a PendingItem's signature: `None` when the
/// verification itself failed.
pub fn check_signature(verified: Option<bool>) -> (r: Result<(), DeliveryError>)
    ensures
        r == match verified {
            None => Err(DeliveryError::VerifyingSignatureFailed),
            Some(false) => Err(DeliveryError::SignatureMismatch),
            Some(true) => Ok(()),
        },
{
    match verified {
        None => Err(DeliveryError::VerifyingSignatureFailed),
        Some(false) => Err(DeliveryError::SignatureMismatch),
        Some(true) => Ok(()),
    }
}

/// The ReplyAck a sender commits for a NoticeReply received from a recipient.
pub fn receive_reply(from: AnyHash, pending_item: &PendingItem, reply: NoticeReply) -> (r: ReplyAck)
    ensures
        r.distribution_ah == pending_item.distribution_ah,
        r.recipient == from,
        r.signing_recipient == from,
        r.recipient_signature == pending_item.author_signature,
        r.has_accepted == reply.has_accepted,
{
    ReplyAck {
        distribution_ah: pending_item.distribution_ah,
        recipient: from,
        has_accepted: reply.has_accepted,
        signing_recipient: from,
        recipient_signature: pending_item.author_signature,
    }
}

/// The ReceptionAck a sender commits for a ReceptionProof received from a recipient.
pub fn receive_reception(from: AnyHash, pending_item: &PendingItem) -> (r: ReceptionAck)
    ensures
        r.distribution_ah == pending_item.distribution_ah,
        r.recipient == from,
        r.signing_recipient == from,
        r.recipient_signature == pending_item.author_signature,
{
    ReceptionAck {
        distribution_ah: pending_item.distribution_ah,
        recipient: from,
        signing_recipient: from,
        recipient_signature: pending_item.author_signature,
    }
}

/// The notice under which a received parcel is committed: the first of the
/// parcel's notices that belongs to the item's distribution.
pub fn select_parcel_notice(notices: &Vec<DeliveryNotice>, distribution_ah: &AnyHash) -> (r: Result<DeliveryNotice, DeliveryError>)
    ensures
        notices.len() == 0 ==> r == Err::<DeliveryNotice, DeliveryError>(DeliveryError::NoticeNotFoundForParcel),
        notices.len() > 0 ==> (r is Ok <==> exists|i: int|
            0 <= i < notices.len() && notices@[i].distribution_ah@ == distribution_ah@),
        notices.len() > 0 && r is Err ==> r == Err::<DeliveryNotice, DeliveryError>(DeliveryError::NoNoticeForDistribution),
        r matches Ok(n) ==> exists|i: int|
            0 <= i < notices.len() && n == notices@[i] && n.distribution_ah@ == distribution_ah@
                && forall|j: int| 0 <= j < i ==> notices@[j].distribution_ah@ != distribution_ah@,
{
    if notices.len() == 0 {
        return Err(DeliveryError::NoticeNotFoundForParcel);
    }
    let mut i: usize = 0;
    while i < notices.len()
        invariant
            0 <= i <= notices.len(),
            forall|j: int| 0 <= j < i ==> notices@[j].distribution_ah@ != distribution_ah@,
        decreases notices.len() - i,
    {
        if notices[i].distribution_ah.same_as(distribution_ah) {
            return Ok(notices[i].clone());
        }
        i = i + 1;
    }
    Err(DeliveryError::NoNoticeForDistribution)
}

/// The parcel a recipient asks for by direct message: only a recipient of the
/// distribution gets an answer.
pub fn receive_dm_parcel_request(from: &AnyHash, distribution: &Distribution) -> (r: Result<AnyHash, DeliveryProtocol>)
    ensures
        r is Ok <==> hash_views(distribution.recipients@).contains(from@),
        r matches Ok(eh) ==> eh == distribution.delivery_summary.parcel_reference.spec_entry_address(),
        r matches Err(reply) ==> reply matches DeliveryProtocol::Failure(s) && s@ == "Request from invalid recipient"@,
{
    if !contains_hash(&distribution.recipients, from) {
        return Err(DeliveryProtocol::Failure("Request from invalid recipient".to_string()));
    }
    Ok(distribution.delivery_summary.parcel_reference.entry_address())
}

/// How an item was sent.
#[allow(non_camel_case_types)]
#[derive(Clone, Copy, Debug)]
pub enum SendSuccessKind {
    OK_SELF,
    OK_DIRECT(Signature),
    OK_PENDING,
}

/// Where the sending of an item stands.
#[derive(Debug)]
pub enum SendState {
    /// Nothing tried yet.
    Start,
    /// The recipient's agents were probed; whether one was found.
    OwnersProbed(bool),
    /// A direct message was answered.
    DmAnswered(DeliveryProtocol),
    /// The pending item was committed through a call to self; whether the call succeeded.
    PendingCommitted(bool),
}

/// The next step of the sending of an item.
#[derive(Debug)]
pub enum SendAction {
    /// Look for the agents of the recipient.
    ProbeOwners,
    /// Send the item by direct message to the first agent found.
    SendDm,
    /// Commit the item as a PendingItem on the DHT, through a call to self.
    CommitPending,
    /// The sending is over.
    Done(Result<SendSuccessKind, DeliveryError>),
}

/// The next step of the sending of an item: by direct message first, where
/// the strategy allows it, then on the DHT, where the strategy allows it.
pub open spec fn spec_send_item_step(strategy: DistributionStrategy, state: SendState) -> SendAction {
    match state {
        SendState::Start => if strategy.spec_can_dm() {
            SendAction::ProbeOwners
        } else {
            SendAction::CommitPending
        },
        SendState::OwnersProbed(true) => SendAction::SendDm,
        SendState::DmAnswered(DeliveryProtocol::Success(signature)) => SendAction::Done(
            Ok(SendSuccessKind::OK_DIRECT(signature)),
        ),
        SendState::PendingCommitted(true) => SendAction::Done(Ok(SendSuccessKind::OK_PENDING)),
        SendState::PendingCommitted(false) => SendAction::Done(
            Err(DeliveryError::CommitPendingItemFailed),
        ),
        _ => if strategy.spec_can_dht() {
            SendAction::CommitPending
        } else {
            SendAction::Done(Err(DeliveryError::FailedToSendItem))
        },
    }
}

/// The next step of the sending of an item.
pub fn send_item_step(strategy: DistributionStrategy, state: SendState) -> (r: SendAction)
    ensures
        r == spec_send_item_step(strategy, state),
{
    match state {
        SendState::Start => {
            if strategy.can_dm() {
                SendAction::ProbeOwners
            } else if strategy.can_dht() {
                SendAction::CommitPending
            } else {
                SendAction::Done(Err(DeliveryError::FailedToSendItem))
            }
        },
        SendState::OwnersProbed(found) => {
            if found {
                SendAction::SendDm
            } else if strategy.can_dht() {
                SendAction::CommitPending
            } else {
                SendAction::Done(Err(DeliveryError::FailedToSendItem))
            }
        },
        SendState::DmAnswered(response) => {
            if let DeliveryProtocol::Success(signature) = response {
                SendAction::Done(Ok(SendSuccessKind::OK_DIRECT(signature)))
            } else if strategy.can_dht() {
                SendAction::CommitPending
            } else {
                SendAction::Done(Err(DeliveryError::FailedToSendItem))
            }
        },
        SendState::PendingCommitted(ok) => {
            if ok {
                SendAction::Done(Ok(SendSuccessKind::OK_PENDING))
            } else {
                SendAction::Done(Err(DeliveryError::CommitPendingItemFailed))
            }
        },
    }
}

/// Position of the first inbox item of a given distribution.
pub fn find_inbox_item(items: &Vec<PendingItem>, distribution_ah: &AnyHash) -> (r: Option<usize>)
    ensures
        r is None <==> forall|i: int| 0 <= i < items.len() ==> items@[i].distribution_ah@ != distribution_ah@,
        r matches Some(i) ==> i < items.len() && items@[i as int].distribution_ah@ == distribution_ah@
            && forall|j: int| 0 <= j < i ==> items@[j].distribution_ah@ != distribution_ah@,
{
    let mut i: usize = 0;
    while i < items.len()
        invariant
            0 <= i <= items.len(),
            forall|j: int| 0 <= j < i ==> items@[j].distribution_ah@ != distribution_ah@,
        decreases items.len() - i,
    {
        if items[i].distribution_ah.same_as(distribution_ah) {
            return Some(i);
        }
        i = i + 1;
    }
    None
}

/// A chunk to fetch, and the notice under which it is fetched.
#[derive(Clone, Copy, Debug)]
pub struct FetchChunkInput {
    pub chunk_eh: AnyHash,
    pub notice_eh: AnyHash,
}

/// Where the retrieval of a parcel or of a chunk stands.
#[derive(Debug)]
pub enum PullState {
    /// Nothing tried yet.
    Start,
    /// The inbox was searched; the position of the item found there, if any.
    InboxSearched(Option<usize>),
    /// A direct message was answered.
    DmAnswered(DeliveryProtocol),
}

/// The next step of the retrieval of a parcel or of a chunk.
#[derive(Debug)]
pub enum PullAction {
    /// Search the inbox for an item of the notice's distribution.
    SearchInbox,
    /// Unpack the inbox item at this position.
    UseInboxItem(usize),
    /// Ask the sender by direct message.
    AskSender,
    /// Use the answer of the sender.
    UseAnswer(DeliveryProtocol),
    /// Not found.
    NotFound,
}

/// Whether an answer holds what was asked: a chunk for a chunk request, the
/// parcel entry for a parcel request.
pub open spec fn answers(request_is_chunk: bool, answer: DeliveryProtocol) -> bool {
    if request_is_chunk {
        answer is ChunkResponse
    } else {
        answer is ParcelResponse
    }
}

/// The next step of the retrieval of a parcel or of a chunk: the inbox first,
/// where the strategy allows the DHT, then a direct message to the sender,
/// where it allows direct messages.
pub fn pull_step(strategy: DistributionStrategy, request_is_chunk: bool, state: PullState) -> (r: PullAction)
    ensures
        r == match state {
            PullState::Start => if strategy.spec_can_dht() {
                PullAction::SearchInbox
            } else if strategy.spec_can_dm() {
                PullAction::AskSender
            } else {
                PullAction::NotFound
            },
            PullState::InboxSearched(Some(i)) => PullAction::UseInboxItem(i),
            PullState::InboxSearched(None) => if strategy.spec_can_dm() {
                PullAction::AskSender
            } else {
                PullAction::NotFound
            },
            PullState::DmAnswered(answer) => if answers(request_is_chunk, answer) {
                PullAction::UseAnswer(answer)
            } else {
                PullAction::NotFound
            },
        },
{
    match state {
        PullState::Start => {
            if strategy.can_dht() {
                PullAction::SearchInbox
            } else if strategy.can_dm() {
                PullAction::AskSender
            } else {
                PullAction::NotFound
            }
        },
        PullState::InboxSearched(found) => {
            match found {
                Some(i) => PullAction::UseInboxItem(i),
                None => if strategy.can_dm() {
                    PullAction::AskSender
                } else {
                    PullAction::NotFound
                },
            }
        },
        PullState::DmAnswered(answer) => {
            let ok = match &answer {
                DeliveryProtocol::ChunkResponse(_) => request_is_chunk,
                DeliveryProtocol::ParcelResponse(_) => !request_is_chunk,
                _ => false,
            };
            if ok {
                PullAction::UseAnswer(answer)
            } else {
                PullAction::NotFound
            }
        },
    }
}

/// A parcel sent by direct message is kept only if it is the notice's parcel.
pub fn accept_parcel_answer(received_eh: &AnyHash, notice: &DeliveryNotice) -> (r: bool)
    ensures
        r == (received_eh@ == notice.summary.parcel_reference.spec_entry_address()@),
{
    received_eh.same_as(&notice.summary.parcel_reference.entry_address())
}

/// The requests for the missing chunks of a manifest, sent to the sender of
/// its first notice; nothing when no chunk is missing or no notice is found.
pub fn request_missing_chunks(missing: &Vec<AnyHash>, notices: &Vec<(DeliveryNotice, i64)>) -> (r: Option<(AnyHash, Vec<DeliveryProtocol>)>)
    ensures
        r is None <==> (missing.len() == 0 || notices.len() == 0),
        r matches Some((sender, requests)) ==> sender == notices@[0].0.sender && requests.len()
            == missing.len() && forall|i: int|
            0 <= i < missing.len() ==> #[trigger] requests@[i] == DeliveryProtocol::ChunkRequest(
                missing@[i],
            ),
{
    if missing.len() == 0 || notices.len() == 0 {
        return None;
    }
    let sender = notices[0].0.sender;
    let mut requests: Vec<DeliveryProtocol> = Vec::new();
    let mut i: usize = 0;
    while i < missing.len()
        invariant
            0 <= i <= missing.len(),
            requests.len() == i,
            forall|j: int| 0 <= j < i ==> #[trigger] requests@[j] == DeliveryProtocol::ChunkRequest(missing@[j]),
        decreases missing.len() - i,
    {
        requests.push(DeliveryProtocol::ChunkRequest(missing[i]));
        i = i + 1;
    }
    Some((sender, requests))
}

/// Sending an item never fails at its first step: the first step is always
/// to probe the recipient's agents or to commit the item on the DHT.
pub proof fn lemma_send_item_starts(strategy: DistributionStrategy)
    ensures
        spec_send_item_step(strategy, SendState::Start) is ProbeOwners
            || spec_send_item_step(strategy, SendState::Start) is CommitPending,
{
}

/// With a strategy that allows the DHT, a failed direct message is never the
/// end: the item is then committed on the DHT.
pub proof fn lemma_send_item_falls_back_to_dht(strategy: DistributionStrategy, state: SendState)
    requires
        strategy.spec_can_dht(),
    ensures
        spec_send_item_step(strategy, state) != SendAction::Done(Err(DeliveryError::FailedToSendItem)),
{
}

/// A successful direct message ends the sending: nothing is committed on the DHT.
pub proof fn lemma_send_item_direct_success(strategy: DistributionStrategy, signature: Signature)
    ensures
        spec_send_item_step(strategy, SendState::DmAnswered(DeliveryProtocol::Success(signature)))
            == SendAction::Done(Ok(SendSuccessKind::OK_DIRECT(signature))),
{
}

/// A strategy that allows direct messages tries one before the DHT.
pub proof fn lemma_send_item_dm_first(strategy: DistributionStrategy)
    requires
        strategy.spec_can_dm(),
    ensures
        spec_send_item_step(strategy, SendState::Start) == SendAction::ProbeOwners,
{
}

/// A direct message answered with anything but Success does not end the
/// sending where the strategy allows the DHT: the item is then committed on
/// the DHT; where it does not, the sending fails.
pub proof fn lemma_send_item_failed_dm(strategy: DistributionStrategy, answer: DeliveryProtocol)
    requires
        !(answer is Success),
    ensures
        spec_send_item_step(strategy, SendState::DmAnswered(answer)) == if strategy.spec_can_dht() {
            SendAction::CommitPending
        } else {
            SendAction::Done(Err(DeliveryError::FailedToSendItem))
        },
{
}

/// The sending reports an item as pending only once the pending item was
/// committed: no other state ends in OK_PENDING.
pub proof fn lemma_send_item_pending_only_when_committed(strategy: DistributionStrategy, state: SendState)
    ensures
        spec_send_item_step(strategy, state) == SendAction::Done(Ok(SendSuccessKind::OK_PENDING))
            <==> state == SendState::PendingCommitted(true),
{
}

} // verus!
