//! Delivery, distribution and notice states, computed from what the source chain holds.

use vstd::prelude::*;
use crate::hash::AnyHash;
use crate::types::{DeliveryState, DistributionState, ItemKind, NoticeState, ParcelReference};
use crate::entries::{DeliveryNotice, Distribution, NoticeAck, NoticeReply, ParcelManifest, PendingItem, ReceptionAck, ReceptionProof, ReplyAck};
use crate::chunks::{determine_missing_chunks, spec_missing_chunks};
use crate::seqs::{lemma_filter_take_all, lemma_filter_take_step, lemma_first_of_filter, lemma_map_push};
use crate::zome_api::RespondToNoticeInput;
use crate::queries::{
    entries_of, notice_ack_filter, query_NoticeAck, query_ReceptionAck, query_ReplyAck,
    reception_ack_filter, reply_ack_filter, LocalRecord, NoticeAckQueryField, first_of, notice_filter, notice_matches_exec, DeliveryNoticeQueryField,
    proof_filter, query_NoticeReply, query_ReceptionProof, reply_filter, ReceptionProofQueryField,
};

verus! {

/// How far a single delivery has progressed: the higher the further.
pub open spec fn delivery_level(s: DeliveryState) -> int {
    match s {
        DeliveryState::Unsent => 0,
        DeliveryState::PendingNotice => 1,
        DeliveryState::NoticeDelivered => 2,
        DeliveryState::ParcelAccepted => 3,
        DeliveryState::PendingParcel => 3,
        DeliveryState::ParcelRefused => 4,
        DeliveryState::ParcelDelivered => 4,
    }
}

/// How far a distribution has progressed.
pub open spec fn distribution_level(s: DistributionState) -> int {
    match s {
        DistributionState::Unsent => 0,
        DistributionState::AllNoticesSent => 1,
        DistributionState::AllNoticeReceived => 2,
        DistributionState::AllRepliesReceived => 3,
        DistributionState::AllAcceptedParcelsReceived => 4,
        DistributionState::Deleted => 5,
    }
}

/// The state of a distribution given the states of its deliveries, checked in
/// order from the least advanced delivery state.
pub open spec fn spec_distribution_state(states: Seq<DeliveryState>) -> DistributionState {
    if states.contains(DeliveryState::Unsent) {
        DistributionState::Unsent
    } else if states.contains(DeliveryState::PendingNotice) {
        DistributionState::AllNoticesSent
    } else if states.contains(DeliveryState::NoticeDelivered) {
        DistributionState::AllNoticeReceived
    } else if states.contains(DeliveryState::ParcelAccepted) || states.contains(
        DeliveryState::PendingParcel,
    ) {
        DistributionState::AllRepliesReceived
    } else {
        DistributionState::AllAcceptedParcelsReceived
    }
}

fn contains_state(states: &Vec<DeliveryState>, s: DeliveryState) -> (r: bool)
    ensures
        r == states@.contains(s),
{
    let mut i: usize = 0;
    while i < states.len()
        invariant
            0 <= i <= states.len(),
            forall|j: int| 0 <= j < i ==> states@[j] != s,
        decreases states.len() - i,
    {
        if states[i] == s {
            return true;
        }
        i = i + 1;
    }
    false
}

/// Determine the state of a distribution from the states of its deliveries.
pub fn determine_distribution_state(delivery_states: &Vec<DeliveryState>) -> (r: DistributionState)
    ensures
        r == spec_distribution_state(delivery_states@),
{
    if contains_state(delivery_states, DeliveryState::Unsent) {
        return DistributionState::Unsent;
    }
    if contains_state(delivery_states, DeliveryState::PendingNotice) {
        return DistributionState::AllNoticesSent;
    }
    if contains_state(delivery_states, DeliveryState::NoticeDelivered) {
        return DistributionState::AllNoticeReceived;
    }
    if contains_state(delivery_states, DeliveryState::ParcelAccepted) {
        return DistributionState::AllRepliesReceived;
    }
    if contains_state(delivery_states, DeliveryState::PendingParcel) {
        return DistributionState::AllRepliesReceived;
    }
    DistributionState::AllAcceptedParcelsReceived
}

/// A distribution is as far as its least advanced delivery: its level is the
/// smallest level of its deliveries (the highest one when it has none).
pub proof fn lemma_distribution_is_least_delivery(states: Seq<DeliveryState>)
    ensures
        forall|i: int|
            0 <= i < states.len() ==> distribution_level(spec_distribution_state(states))
                <= delivery_level(#[trigger] states[i]),
        states.len() == 0 ==> spec_distribution_state(states)
            == DistributionState::AllAcceptedParcelsReceived,
        states.len() > 0 ==> exists|i: int|
            0 <= i < states.len() && distribution_level(spec_distribution_state(states))
                == delivery_level(#[trigger] states[i]),
{
    let r = spec_distribution_state(states);
    assert forall|i: int| 0 <= i < states.len() implies distribution_level(r) <= delivery_level(
        #[trigger] states[i],
    ) by {
        assert(states.contains(states[i]));
    }
    if states.len() > 0 {
        if !states.contains(DeliveryState::Unsent) && !states.contains(DeliveryState::PendingNotice)
            && !states.contains(DeliveryState::NoticeDelivered) && !states.contains(
            DeliveryState::ParcelAccepted,
        ) && !states.contains(DeliveryState::PendingParcel) {
            assert(delivery_level(states[0]) == 4);
        }
    }
}

/// All accepted parcels are received exactly when every delivery is either
/// refused or delivered; the distribution is unsent exactly when some delivery is.
pub proof fn lemma_distribution_complete_iff(states: Seq<DeliveryState>)
    ensures
        spec_distribution_state(states) == DistributionState::AllAcceptedParcelsReceived
            <==> forall|i: int|
            0 <= i < states.len() ==> (#[trigger] states[i] == DeliveryState::ParcelRefused
                || states[i] == DeliveryState::ParcelDelivered),
        spec_distribution_state(states) == DistributionState::Unsent <==> states.contains(
            DeliveryState::Unsent,
        ),
        spec_distribution_state(states) != DistributionState::Deleted,
{
    lemma_distribution_is_least_delivery(states);
    if spec_distribution_state(states) == DistributionState::AllAcceptedParcelsReceived {
        assert forall|i: int| 0 <= i < states.len() implies (#[trigger] states[i]
            == DeliveryState::ParcelRefused || states[i] == DeliveryState::ParcelDelivered) by {
            assert(delivery_level(states[i]) >= 4);
        }
    } else {
        if forall|i: int|
            0 <= i < states.len() ==> (#[trigger] states[i] == DeliveryState::ParcelRefused
                || states[i] == DeliveryState::ParcelDelivered) {
            assert(states.len() > 0);
            let i = choose|i: int|
                0 <= i < states.len() && distribution_level(spec_distribution_state(states))
                    == delivery_level(#[trigger] states[i]);
            assert(delivery_level(states[i]) == 4);
        }
    }
}

/// The state of a distribution does not depend on the order of its recipients,
/// nor on how often a delivery state occurs: only on which states occur.
pub proof fn lemma_distribution_state_depends_on_set(a: Seq<DeliveryState>, b: Seq<DeliveryState>)
    requires
        a.to_set() == b.to_set(),
    ensures
        spec_distribution_state(a) == spec_distribution_state(b),
{
    assert forall|s: DeliveryState| a.contains(s) <==> b.contains(s) by {
        assert(a.to_set().contains(s) <==> a.contains(s));
        assert(b.to_set().contains(s) <==> b.contains(s));
    }
}

/// One more delivery can only hold a distribution back: the new level is the
/// smaller of the former level and the new delivery's level.
pub proof fn lemma_distribution_state_push(states: Seq<DeliveryState>, s: DeliveryState)
    requires
        states.len() > 0,
    ensures
        distribution_level(spec_distribution_state(states.push(s))) == if delivery_level(s)
            < distribution_level(spec_distribution_state(states)) {
            delivery_level(s)
        } else {
            distribution_level(spec_distribution_state(states))
        },
{
    let t = states.push(s);
    lemma_distribution_is_least_delivery(states);
    lemma_distribution_is_least_delivery(t);
    assert(t[states.len() as int] == s);
    assert forall|i: int| 0 <= i < states.len() implies t[i] == states[i] by {}
    let i = choose|i: int|
        0 <= i < t.len() && distribution_level(spec_distribution_state(t)) == delivery_level(
            #[trigger] t[i],
        );
    let k = choose|k: int|
        0 <= k < states.len() && distribution_level(spec_distribution_state(states))
            == delivery_level(#[trigger] states[k]);
    assert(t[k] == states[k]);
}

/// The distribution and recipient of a delivery.
#[derive(Clone, Copy, Debug)]
pub struct GetDeliveryStateInput {
    pub distribution_ah: AnyHash,
    pub recipient: AnyHash,
}

/// Whether a list of pending items holds one of the given kind.
pub open spec fn has_kind(items: Seq<PendingItem>, kind: ItemKind) -> bool {
    exists|i: int| 0 <= i < items.len() && items[i].kind == kind
}

/// Whether one of the given NoticeAcks comes from the recipient.
pub open spec fn acked_by(acks: Seq<NoticeAck>, recipient: AnyHash) -> bool {
    exists|i: int| 0 <= i < acks.len() && acks[i].recipient@ == recipient@
}

/// The state of the delivery of a distribution to a recipient, given the
/// ReceptionAcks, ReplyAcks and NoticeAcks of the local source chain and the
/// pending items linked from the distribution for that recipient.
pub open spec fn spec_delivery_state(
    input: GetDeliveryStateInput,
    receptions: Seq<LocalRecord<ReceptionAck>>,
    replies: Seq<LocalRecord<ReplyAck>>,
    notice_acks: Seq<LocalRecord<NoticeAck>>,
    pendings: Seq<PendingItem>,
) -> DeliveryState {
    let d = Some(input.distribution_ah);
    let r = Some(input.recipient);
    let receipts = entries_of(receptions).filter(reception_ack_filter(d, r));
    let reply_acks = entries_of(replies).filter(reply_ack_filter(d, r));
    let received = entries_of(notice_acks).filter(
        notice_ack_filter(NoticeAckQueryField::Distribution(input.distribution_ah)),
    );
    if receipts.len() > 0 {
        DeliveryState::ParcelDelivered
    } else if reply_acks.len() > 0 {
        if !reply_acks[0].has_accepted {
            DeliveryState::ParcelRefused
        } else if has_kind(pendings, ItemKind::AppEntryBytes) {
            DeliveryState::PendingParcel
        } else {
            DeliveryState::ParcelAccepted
        }
    } else if !acked_by(received, input.recipient) {
        if has_kind(pendings, ItemKind::DeliveryNotice) {
            DeliveryState::PendingNotice
        } else {
            DeliveryState::Unsent
        }
    } else {
        DeliveryState::NoticeDelivered
    }
}

/// The first pending item of a given kind.
pub fn find_PendingItem(pendings: &Vec<PendingItem>, kind: ItemKind) -> (r: Option<PendingItem>)
    ensures
        r is Some <==> has_kind(pendings@, kind),
        r matches Some(p) ==> exists|i: int|
            0 <= i < pendings.len() && pendings@[i].kind == kind && p.same_item(&pendings@[i])
                && forall|j: int| 0 <= j < i ==> pendings@[j].kind != kind,
{
    let mut i: usize = 0;
    while i < pendings.len()
        invariant
            0 <= i <= pendings.len(),
            forall|j: int| 0 <= j < i ==> pendings@[j].kind != kind,
        decreases pendings.len() - i,
    {
        if pendings[i].kind == kind {
            return Some(pendings[i].clone());
        }
        i = i + 1;
    }
    None
}

fn any_acked_by(acks: &Vec<NoticeAck>, recipient: &AnyHash) -> (r: bool)
    ensures
        r == acked_by(acks@, *recipient),
{
    let mut i: usize = 0;
    while i < acks.len()
        invariant
            0 <= i <= acks.len(),
            forall|j: int| 0 <= j < i ==> acks@[j].recipient@ != recipient@,
        decreases acks.len() - i,
    {
        if acks[i].recipient.same_as(recipient) {
            return true;
        }
        i = i + 1;
    }
    false
}

/// The state of the delivery of a distribution to one recipient.
pub fn get_delivery_state(
    input: &GetDeliveryStateInput,
    receptions: &Vec<LocalRecord<ReceptionAck>>,
    replies: &Vec<LocalRecord<ReplyAck>>,
    notice_acks: &Vec<LocalRecord<NoticeAck>>,
    pendings: &Vec<PendingItem>,
) -> (r: DeliveryState)
    ensures
        r == spec_delivery_state(*input, receptions@, replies@, notice_acks@, pendings@),
{
    // Look for a ReceptionAck
    let receipts = query_ReceptionAck(receptions, Some(input.distribution_ah), Some(input.recipient));
    if receipts.len() > 0 {
        return DeliveryState::ParcelDelivered;
    }
    // Look for a ReplyAck
    let reply_acks = query_ReplyAck(replies, Some(input.distribution_ah), Some(input.recipient));
    if reply_acks.len() > 0 {
        if !reply_acks[0].has_accepted {
            return DeliveryState::ParcelRefused;
        }
        let maybe_pending = find_PendingItem(pendings, ItemKind::AppEntryBytes);
        if maybe_pending.is_some() {
            return DeliveryState::PendingParcel;
        }
        return DeliveryState::ParcelAccepted;
    }
    // Look for a NoticeAck from the recipient
    let received = query_NoticeAck(notice_acks, NoticeAckQueryField::Distribution(input.distribution_ah));
    if !any_acked_by(&received, &input.recipient) {
        let maybe_pending = find_PendingItem(pendings, ItemKind::DeliveryNotice);
        if maybe_pending.is_some() {
            return DeliveryState::PendingNotice;
        }
        return DeliveryState::Unsent;
    }
    DeliveryState::NoticeDelivered
}

/// The state of a distribution and of each of its deliveries, in the order of its recipients.
#[derive(Debug)]
pub struct FullDistributionState {
    pub distribution_state: DistributionState,
    pub delivery_states: Vec<DeliveryState>,
}

/// The state of a distribution: the state of the delivery to each of its
/// recipients, given for each recipient the pending items linked from the
/// distribution for it, and the state they add up to.
pub fn get_distribution_state(
    distribution_ah: AnyHash,
    distribution: &Distribution,
    receptions: &Vec<LocalRecord<ReceptionAck>>,
    replies: &Vec<LocalRecord<ReplyAck>>,
    notice_acks: &Vec<LocalRecord<NoticeAck>>,
    pendings: &Vec<Vec<PendingItem>>,
) -> (r: FullDistributionState)
    requires
        pendings.len() == distribution.recipients.len(),
    ensures
        r.delivery_states.len() == distribution.recipients.len(),
        forall|i: int|
            0 <= i < distribution.recipients.len() ==> #[trigger] r.delivery_states@[i] == spec_delivery_state(
                GetDeliveryStateInput { distribution_ah, recipient: distribution.recipients@[i] },
                receptions@,
                replies@,
                notice_acks@,
                pendings@[i]@,
            ),
        r.distribution_state == spec_distribution_state(r.delivery_states@),
{
    let mut delivery_states: Vec<DeliveryState> = Vec::new();
    let mut i: usize = 0;
    while i < distribution.recipients.len()
        invariant
            0 <= i <= distribution.recipients.len(),
            pendings.len() == distribution.recipients.len(),
            delivery_states.len() == i,
            forall|j: int|
                0 <= j < i ==> #[trigger] delivery_states@[j] == spec_delivery_state(
                    GetDeliveryStateInput { distribution_ah, recipient: distribution.recipients@[j] },
                    receptions@,
                    replies@,
                    notice_acks@,
                    pendings@[j]@,
                ),
        decreases distribution.recipients.len() - i,
    {
        let input = GetDeliveryStateInput { distribution_ah, recipient: distribution.recipients[i] };
        let state = get_delivery_state(&input, receptions, replies, notice_acks, &pendings[i]);
        delivery_states.push(state);
        i = i + 1;
    }
    let distribution_state = determine_distribution_state(&delivery_states);
    FullDistributionState { distribution_state, delivery_states }
}

/// The state of a notice on the recipient's side, and the chunks still
/// missing when it is partially received, given the replies and reception
/// proofs of the local chain and, for a manifest, the manifest if it is local.
pub open spec fn spec_notice_state(
    notice_eh: AnyHash,
    notice: DeliveryNotice,
    replies: Seq<LocalRecord<NoticeReply>>,
    proofs: Seq<LocalRecord<ReceptionProof>>,
    local_manifest: Option<ParcelManifest>,
    local_chunks: Seq<AnyHash>,
) -> (NoticeState, Seq<AnyHash>) {
    match first_of(entries_of(replies).filter(reply_filter(notice_eh))) {
        None => (NoticeState::Unreplied, Seq::empty()),
        Some(reply) => if !reply.has_accepted {
            (NoticeState::Refused, Seq::empty())
        } else if first_of(proofs.filter(proof_filter(ReceptionProofQueryField::Notice(notice_eh)))) is Some {
            (NoticeState::Received, Seq::empty())
        } else if notice.summary.parcel_reference.spec_is_manifest() {
            match local_manifest {
                None => (NoticeState::Accepted, Seq::empty()),
                Some(m) => (NoticeState::PartiallyReceived, spec_missing_chunks(m.chunks@, local_chunks)),
            }
        } else {
            (NoticeState::Accepted, Seq::empty())
        },
    }
}

/// The state of a notice on the recipient's side.
pub fn get_notice_state(
    notice_eh: AnyHash,
    notice: &DeliveryNotice,
    replies: &Vec<LocalRecord<NoticeReply>>,
    proofs: &Vec<LocalRecord<ReceptionProof>>,
    local_manifest: &Option<ParcelManifest>,
    local_chunks: &Vec<AnyHash>,
) -> (r: (NoticeState, Vec<AnyHash>))
    ensures
        (r.0, r.1@) == spec_notice_state(notice_eh, *notice, replies@, proofs@, *local_manifest, local_chunks@),
{
    let maybe_reply = query_NoticeReply(replies, notice_eh);
    let reply = match maybe_reply {
        None => { return (NoticeState::Unreplied, Vec::new()); },
        Some(reply) => reply,
    };
    if !reply.has_accepted {
        return (NoticeState::Refused, Vec::new());
    }
    let maybe_proof = query_ReceptionProof(proofs, ReceptionProofQueryField::Notice(notice_eh));
    if maybe_proof.is_some() {
        return (NoticeState::Received, Vec::new());
    }
    if let ParcelReference::Manifest(_) = &notice.summary.parcel_reference {
        return match local_manifest {
            None => (NoticeState::Accepted, Vec::new()),
            Some(m) => (NoticeState::PartiallyReceived, determine_missing_chunks(m, local_chunks)),
        };
    }
    (NoticeState::Accepted, Vec::new())
}

/// A notice and its state on the recipient's side.
#[derive(Debug)]
pub struct GetNoticeOutput {
    pub notice: DeliveryNotice,
    pub state: (NoticeState, Vec<AnyHash>),
}

pub open spec fn manifest_record_filter(eh: AnyHash) -> spec_fn(LocalRecord<ParcelManifest>) -> bool {
    |r: LocalRecord<ParcelManifest>| r.eh@ == eh@
}

/// The manifest with a given entry hash, among local ones.
pub open spec fn local_manifest_of(manifests: Seq<LocalRecord<ParcelManifest>>, eh: AnyHash) -> Option<ParcelManifest> {
    match first_of(manifests.filter(manifest_record_filter(eh))) {
        Some(r) => Some(r.entry),
        None => None,
    }
}

/// The first notice of a distribution, with its state.
pub open spec fn spec_get_notice(
    distribution_ah: AnyHash,
    notices: Seq<LocalRecord<DeliveryNotice>>,
    replies: Seq<LocalRecord<NoticeReply>>,
    proofs: Seq<LocalRecord<ReceptionProof>>,
    manifests: Seq<LocalRecord<ParcelManifest>>,
    local_chunks: Seq<AnyHash>,
) -> Option<(DeliveryNotice, (NoticeState, Seq<AnyHash>))> {
    match first_of(notices.filter(notice_filter(DeliveryNoticeQueryField::Distribution(distribution_ah)))) {
        None => None,
        Some(r) => Some((r.entry, spec_notice_state(
            r.eh,
            r.entry,
            replies,
            proofs,
            local_manifest_of(manifests, r.entry.summary.parcel_reference.spec_entry_address()),
            local_chunks,
        ))),
    }
}

/// The manifest with a given entry hash, if it is local.
fn find_local_manifest(manifests: &Vec<LocalRecord<ParcelManifest>>, eh: &AnyHash) -> (r: Option<ParcelManifest>)
    ensures
        match (r, local_manifest_of(manifests@, *eh)) {
            (None, None) => true,
            (Some(a), Some(b)) => a.description == b.description && a.data_hash == b.data_hash && a.chunks@ == b.chunks@,
            _ => false,
        },
{
    let ghost pred = manifest_record_filter(*eh);
    let mut i: usize = 0;
    while i < manifests.len()
        invariant
            0 <= i <= manifests.len(),
            pred == manifest_record_filter(*eh),
            manifests@.take(i as int).filter(pred).len() == 0,
        decreases manifests.len() - i,
    {
        proof {
            lemma_filter_take_step(manifests@, pred, i as int);
        }
        if manifests[i].eh.same_as(eh) {
            proof {
                lemma_first_of_filter(manifests@, pred, i as int);
            }
            return Some(manifests[i].entry.clone());
        }
        i = i + 1;
    }
    proof {
        lemma_filter_take_all(manifests@, pred);
    }
    None
}

/// The notice received for a distribution, if any, with its state: the first
/// such notice of the chain, and for a manifest parcel the chunks still missing.
pub fn get_notice(
    distribution_ah: AnyHash,
    notices: &Vec<LocalRecord<DeliveryNotice>>,
    replies: &Vec<LocalRecord<NoticeReply>>,
    proofs: &Vec<LocalRecord<ReceptionProof>>,
    manifests: &Vec<LocalRecord<ParcelManifest>>,
    local_chunks: &Vec<AnyHash>,
) -> (r: Option<GetNoticeOutput>)
    ensures
        match (r, spec_get_notice(distribution_ah, notices@, replies@, proofs@, manifests@, local_chunks@)) {
            (None, None) => true,
            (Some(o), Some((notice, (state, missing)))) => o.notice == notice && o.state.0 == state && o.state.1@ == missing,
            _ => false,
        },
{
    let field = DeliveryNoticeQueryField::Distribution(distribution_ah);
    let ghost pred = notice_filter(field);
    let mut i: usize = 0;
    while i < notices.len()
        invariant
            0 <= i <= notices.len(),
            field == DeliveryNoticeQueryField::Distribution(distribution_ah),
            pred == notice_filter(field),
            notices@.take(i as int).filter(pred).len() == 0,
        decreases notices.len() - i,
    {
        proof {
            lemma_filter_take_step(notices@, pred, i as int);
        }
        if notice_matches_exec(&field, &notices[i].entry) {
            proof {
                lemma_first_of_filter(notices@, pred, i as int);
            }
            let record = &notices[i];
            let parcel_eh = record.entry.summary.parcel_reference.entry_address();
            let local_manifest = find_local_manifest(manifests, &parcel_eh);
            let state = get_notice_state(record.eh, &record.entry, replies, proofs, &local_manifest, local_chunks);
            return Some(GetNoticeOutput { notice: record.entry.clone(), state });
        }
        i = i + 1;
    }
    proof {
        lemma_filter_take_all(notices@, pred);
    }
    None
}

/// The reply to a notice: whether its parcel is accepted.
pub fn respond_to_notice(input: &RespondToNoticeInput) -> (r: NoticeReply)
    ensures
        r.notice_eh == input.notice_eh,
        r.has_accepted == input.has_accepted,
{
    NoticeReply { notice_eh: input.notice_eh, has_accepted: input.has_accepted }
}

/// A recipient's reply decides the notice's state: before the first reply to
/// a notice it is Unreplied; once the reply is on the chain it is Refused
/// exactly when the reply refuses, and never Unreplied again.
pub proof fn lemma_reply_decides_notice_state(
    notice_eh: AnyHash,
    notice: DeliveryNotice,
    replies: Seq<LocalRecord<NoticeReply>>,
    reply: LocalRecord<NoticeReply>,
    proofs: Seq<LocalRecord<ReceptionProof>>,
    local_manifest: Option<ParcelManifest>,
    local_chunks: Seq<AnyHash>,
)
    requires
        entries_of(replies).filter(reply_filter(notice_eh)).len() == 0,
        reply.entry.notice_eh@ == notice_eh@,
    ensures
        spec_notice_state(notice_eh, notice, replies, proofs, local_manifest, local_chunks).0 == NoticeState::Unreplied,
        (spec_notice_state(notice_eh, notice, replies.push(reply), proofs, local_manifest, local_chunks).0
            == NoticeState::Refused) == !reply.entry.has_accepted,
        spec_notice_state(notice_eh, notice, replies.push(reply), proofs, local_manifest, local_chunks).0
            != NoticeState::Unreplied,
{
    let pred = reply_filter(notice_eh);
    lemma_map_push(replies, reply, |r: LocalRecord<NoticeReply>| r.entry);
    entries_of(replies).lemma_filter_push(reply.entry, pred);
    assert(entries_of(replies.push(reply)).filter(pred) =~= seq![reply.entry]);
}

/// A ReceptionAck from the recipient for the distribution, once on the chain,
/// makes the delivery ParcelDelivered, whatever else the chain holds.
pub proof fn lemma_reception_ack_delivers(
    input: GetDeliveryStateInput,
    receptions: Seq<LocalRecord<ReceptionAck>>,
    ack: LocalRecord<ReceptionAck>,
    replies: Seq<LocalRecord<ReplyAck>>,
    notice_acks: Seq<LocalRecord<NoticeAck>>,
    pendings: Seq<PendingItem>,
)
    requires
        ack.entry.distribution_ah@ == input.distribution_ah@,
        ack.entry.recipient@ == input.recipient@,
    ensures
        spec_delivery_state(input, receptions.push(ack), replies, notice_acks, pendings) == DeliveryState::ParcelDelivered,
{
    let pred = reception_ack_filter(Some(input.distribution_ah), Some(input.recipient));
    lemma_map_push(receptions, ack, |r: LocalRecord<ReceptionAck>| r.entry);
    entries_of(receptions).lemma_filter_push(ack.entry, pred);
}

/// The recipient's reply, once acknowledged on the sender's chain, decides the
/// delivery: before any ReceptionAck, a refusal makes it ParcelRefused and an
/// acceptance ParcelAccepted or PendingParcel, as the first ReplyAck says.
pub proof fn lemma_reply_ack_decides_delivery(
    input: GetDeliveryStateInput,
    receptions: Seq<LocalRecord<ReceptionAck>>,
    replies: Seq<LocalRecord<ReplyAck>>,
    reply: LocalRecord<ReplyAck>,
    notice_acks: Seq<LocalRecord<NoticeAck>>,
    pendings: Seq<PendingItem>,
)
    requires
        entries_of(receptions).filter(reception_ack_filter(Some(input.distribution_ah), Some(input.recipient))).len() == 0,
        entries_of(replies).filter(reply_ack_filter(Some(input.distribution_ah), Some(input.recipient))).len() == 0,
        reply.entry.distribution_ah@ == input.distribution_ah@,
        reply.entry.recipient@ == input.recipient@,
    ensures
        ({
            let after = spec_delivery_state(input, receptions, replies.push(reply), notice_acks, pendings);
            &&& !reply.entry.has_accepted ==> after == DeliveryState::ParcelRefused
            &&& reply.entry.has_accepted ==> (after == DeliveryState::ParcelAccepted || after == DeliveryState::PendingParcel)
        }),
{
    let pred = reply_ack_filter(Some(input.distribution_ah), Some(input.recipient));
    lemma_map_push(replies, reply, |r: LocalRecord<ReplyAck>| r.entry);
    entries_of(replies).lemma_filter_push(reply.entry, pred);
    assert(entries_of(replies.push(reply)).filter(pred) =~= seq![reply.entry]);
}

/// A delivered delivery stays delivered: once a matching ReceptionAck is on
/// the chain, whatever is committed afterwards (more ReceptionAcks, ReplyAcks,
/// NoticeAcks, pending items), the delivery is ParcelDelivered.
pub proof fn lemma_delivery_stays_delivered(
    input: GetDeliveryStateInput,
    receptions: Seq<LocalRecord<ReceptionAck>>,
    more: Seq<LocalRecord<ReceptionAck>>,
    replies: Seq<LocalRecord<ReplyAck>>,
    notice_acks: Seq<LocalRecord<NoticeAck>>,
    pendings: Seq<PendingItem>,
)
    requires
        spec_delivery_state(input, receptions, replies, notice_acks, pendings) == DeliveryState::ParcelDelivered,
    ensures
        forall|later_replies: Seq<LocalRecord<ReplyAck>>, later_acks: Seq<LocalRecord<NoticeAck>>, later_pendings: Seq<PendingItem>|
            spec_delivery_state(input, receptions + more, later_replies, later_acks, later_pendings)
                == DeliveryState::ParcelDelivered,
{
    let pred = reception_ack_filter(Some(input.distribution_ah), Some(input.recipient));
    assert(entries_of(receptions + more) =~= entries_of(receptions) + entries_of(more));
    Seq::filter_distributes_over_add(entries_of(receptions), entries_of(more), pred);
    assert(entries_of(receptions).filter(pred).len() > 0);
}

/// Whether an acknowledgement is for the given distribution and recipient.
pub open spec fn acks_delivery(d: AnyHash, r: AnyHash, ack_d: AnyHash, ack_r: AnyHash) -> bool {
    ack_d@ == d@ && ack_r@ == r@
}

/// Before any reply: without a ReceptionAck or a ReplyAck of the delivery, a
/// NoticeAck counts only for its own distribution and recipient. The delivery
/// is NoticeDelivered exactly when such a NoticeAck is on the chain; otherwise
/// it is PendingNotice when a notice is pending, Unsent when none is.
pub proof fn lemma_notice_ack_of_own_delivery(
    input: GetDeliveryStateInput,
    receptions: Seq<LocalRecord<ReceptionAck>>,
    replies: Seq<LocalRecord<ReplyAck>>,
    notice_acks: Seq<LocalRecord<NoticeAck>>,
    pendings: Seq<PendingItem>,
)
    requires
        forall|i: int| 0 <= i < receptions.len() ==> !acks_delivery(
            input.distribution_ah, input.recipient, #[trigger] receptions[i].entry.distribution_ah, receptions[i].entry.recipient),
        forall|i: int| 0 <= i < replies.len() ==> !acks_delivery(
            input.distribution_ah, input.recipient, #[trigger] replies[i].entry.distribution_ah, replies[i].entry.recipient),
    ensures
        ({
            let state = spec_delivery_state(input, receptions, replies, notice_acks, pendings);
            let acked = exists|i: int| 0 <= i < notice_acks.len() && acks_delivery(
                input.distribution_ah, input.recipient, #[trigger] notice_acks[i].entry.distribution_ah, notice_acks[i].entry.recipient);
            let pending = exists|i: int| 0 <= i < pendings.len() && #[trigger] pendings[i].kind == ItemKind::DeliveryNotice;
            &&& (state == DeliveryState::NoticeDelivered) == acked
            &&& !acked ==> state == (if pending { DeliveryState::PendingNotice } else { DeliveryState::Unsent })
        }),
{
    let d = Some(input.distribution_ah);
    let r = Some(input.recipient);
    let rp = reception_ack_filter(d, r);
    let yp = reply_ack_filter(d, r);
    let np = notice_ack_filter(NoticeAckQueryField::Distribution(input.distribution_ah));
    crate::seqs::lemma_filter_empty_iff(entries_of(receptions), rp);
    crate::seqs::lemma_filter_empty_iff(entries_of(replies), yp);
    assert forall|i: int| 0 <= i < entries_of(receptions).len() implies !rp(#[trigger] entries_of(receptions)[i]) by {
        assert(entries_of(receptions)[i] == receptions[i].entry);
    }
    assert forall|i: int| 0 <= i < entries_of(replies).len() implies !yp(#[trigger] entries_of(replies)[i]) by {
        assert(entries_of(replies)[i] == replies[i].entry);
    }
    let acks = entries_of(notice_acks);
    let q = |a: NoticeAck| a.recipient@ == input.recipient@;
    crate::seqs::lemma_filter_exists(acks, np, q);
    let received = acks.filter(np);
    assert(acked_by(received, input.recipient) == (exists|j: int| 0 <= j < received.len() && q(#[trigger] received[j])));
    if exists|i: int| 0 <= i < acks.len() && np(acks[i]) && q(#[trigger] acks[i]) {
        let i = choose|i: int| 0 <= i < acks.len() && np(acks[i]) && q(#[trigger] acks[i]);
        assert(acks[i] == notice_acks[i].entry);
        assert(acks_delivery(input.distribution_ah, input.recipient, notice_acks[i].entry.distribution_ah, notice_acks[i].entry.recipient));
    }
    if exists|i: int| 0 <= i < notice_acks.len() && acks_delivery(
        input.distribution_ah, input.recipient, #[trigger] notice_acks[i].entry.distribution_ah, notice_acks[i].entry.recipient) {
        let i = choose|i: int| 0 <= i < notice_acks.len() && acks_delivery(
            input.distribution_ah, input.recipient, #[trigger] notice_acks[i].entry.distribution_ah, notice_acks[i].entry.recipient);
        assert(acks[i] == notice_acks[i].entry);
        assert(np(acks[i]) && q(acks[i]));
    }
    if exists|i: int| 0 <= i < pendings.len() && #[trigger] pendings[i].kind == ItemKind::DeliveryNotice {
        assert(has_kind(pendings, ItemKind::DeliveryNotice));
    }
}

/// A NoticeAck of another distribution never changes a delivery's state.
pub proof fn lemma_other_notice_ack_changes_nothing(
    input: GetDeliveryStateInput,
    receptions: Seq<LocalRecord<ReceptionAck>>,
    replies: Seq<LocalRecord<ReplyAck>>,
    notice_acks: Seq<LocalRecord<NoticeAck>>,
    other: LocalRecord<NoticeAck>,
    pendings: Seq<PendingItem>,
)
    requires
        other.entry.distribution_ah@ != input.distribution_ah@,
    ensures
        spec_delivery_state(input, receptions, replies, notice_acks.push(other), pendings)
            == spec_delivery_state(input, receptions, replies, notice_acks, pendings),
{
    let np = notice_ack_filter(NoticeAckQueryField::Distribution(input.distribution_ah));
    lemma_map_push(notice_acks, other, |r: LocalRecord<NoticeAck>| r.entry);
    entries_of(notice_acks).lemma_filter_push(other.entry, np);
    assert(entries_of(notice_acks.push(other)).filter(np) =~= entries_of(notice_acks).filter(np));
}

/// The first reply to a notice on the chain is the one the notice's state goes by.
proof fn lemma_first_reply(notice_eh: AnyHash, replies: Seq<LocalRecord<NoticeReply>>, first_reply: int)
    requires
        0 <= first_reply < replies.len(),
        replies[first_reply].entry.notice_eh@ == notice_eh@,
        forall|j: int| 0 <= j < first_reply ==> (#[trigger] replies[j]).entry.notice_eh@ != notice_eh@,
    ensures
        first_of(entries_of(replies).filter(reply_filter(notice_eh))) == Some(replies[first_reply].entry),
{
    let s = entries_of(replies);
    let pred = reply_filter(notice_eh);
    let prefix = s.take(first_reply);
    crate::seqs::lemma_filter_empty_iff(prefix, pred);
    assert forall|j: int| 0 <= j < prefix.len() implies !pred(#[trigger] prefix[j]) by {
        assert(prefix[j] == replies[j].entry);
    }
    assert(s[first_reply] == replies[first_reply].entry);
    lemma_first_of_filter(s, pred, first_reply);
}

/// Without any reply to it on the chain, a notice is Unreplied.
pub proof fn lemma_unreplied_notice(
    notice_eh: AnyHash,
    notice: DeliveryNotice,
    replies: Seq<LocalRecord<NoticeReply>>,
    proofs: Seq<LocalRecord<ReceptionProof>>,
    local_manifest: Option<ParcelManifest>,
    local_chunks: Seq<AnyHash>,
)
    requires
        forall|j: int| 0 <= j < replies.len() ==> (#[trigger] replies[j]).entry.notice_eh@ != notice_eh@,
    ensures
        spec_notice_state(notice_eh, notice, replies, proofs, local_manifest, local_chunks)
            == (NoticeState::Unreplied, Seq::<AnyHash>::empty()),
{
    let s = entries_of(replies);
    let pred = reply_filter(notice_eh);
    crate::seqs::lemma_filter_empty_iff(s, pred);
    assert forall|j: int| 0 <= j < s.len() implies !pred(#[trigger] s[j]) by {
        assert(s[j] == replies[j].entry);
    }
}

/// A notice whose first reply on the chain refuses it is Refused, whatever
/// comes after.
pub proof fn lemma_refused_notice(
    notice_eh: AnyHash,
    notice: DeliveryNotice,
    replies: Seq<LocalRecord<NoticeReply>>,
    first_reply: int,
    proofs: Seq<LocalRecord<ReceptionProof>>,
    local_manifest: Option<ParcelManifest>,
    local_chunks: Seq<AnyHash>,
)
    requires
        0 <= first_reply < replies.len(),
        replies[first_reply].entry.notice_eh@ == notice_eh@,
        !replies[first_reply].entry.has_accepted,
        forall|j: int| 0 <= j < first_reply ==> (#[trigger] replies[j]).entry.notice_eh@ != notice_eh@,
    ensures
        spec_notice_state(notice_eh, notice, replies, proofs, local_manifest, local_chunks)
            == (NoticeState::Refused, Seq::<AnyHash>::empty()),
{
    lemma_first_reply(notice_eh, replies, first_reply);
}

/// An accepted notice whose ReceptionProof is on the chain is Received, with
/// no chunk missing, whatever the kind of its parcel, the local manifest and
/// the local chunks: the first reply to the notice accepts it, and some
/// ReceptionProof names the notice.
pub proof fn lemma_reception_proof_makes_received(
    notice_eh: AnyHash,
    notice: DeliveryNotice,
    replies: Seq<LocalRecord<NoticeReply>>,
    first_reply: int,
    proofs: Seq<LocalRecord<ReceptionProof>>,
    proof_at: int,
    local_manifest: Option<ParcelManifest>,
    local_chunks: Seq<AnyHash>,
)
    requires
        0 <= first_reply < replies.len(),
        replies[first_reply].entry.notice_eh@ == notice_eh@,
        replies[first_reply].entry.has_accepted,
        forall|j: int| 0 <= j < first_reply ==> (#[trigger] replies[j]).entry.notice_eh@ != notice_eh@,
        0 <= proof_at < proofs.len(),
        proofs[proof_at].entry.notice_eh@ == notice_eh@,
    ensures
        spec_notice_state(notice_eh, notice, replies, proofs, local_manifest, local_chunks)
            == (NoticeState::Received, Seq::<AnyHash>::empty()),
{
    lemma_first_reply(notice_eh, replies, first_reply);
    let pf = proof_filter(ReceptionProofQueryField::Notice(notice_eh));
    assert(pf(proofs[proof_at]));
    proofs.lemma_filter_contains(pf, proof_at);
}

/// An accepted notice without ReceptionProof: its parcel is still to come. A
/// notice of an entry parcel, or of a manifest not yet on the chain, is
/// Accepted; a notice of a manifest on the chain is PartiallyReceived, with
/// the manifest's chunks that are not among the local chunks, in order.
pub proof fn lemma_accepted_notice_without_proof(
    notice_eh: AnyHash,
    notice: DeliveryNotice,
    replies: Seq<LocalRecord<NoticeReply>>,
    first_reply: int,
    proofs: Seq<LocalRecord<ReceptionProof>>,
    local_manifest: Option<ParcelManifest>,
    local_chunks: Seq<AnyHash>,
)
    requires
        0 <= first_reply < replies.len(),
        replies[first_reply].entry.notice_eh@ == notice_eh@,
        replies[first_reply].entry.has_accepted,
        forall|j: int| 0 <= j < first_reply ==> (#[trigger] replies[j]).entry.notice_eh@ != notice_eh@,
        forall|j: int| 0 <= j < proofs.len() ==> (#[trigger] proofs[j]).entry.notice_eh@ != notice_eh@,
    ensures
        ({
            let state = spec_notice_state(notice_eh, notice, replies, proofs, local_manifest, local_chunks);
            &&& notice.summary.parcel_reference is AppEntry ==> state == (NoticeState::Accepted, Seq::<AnyHash>::empty())
            &&& (notice.summary.parcel_reference is Manifest && local_manifest is None)
                ==> state == (NoticeState::Accepted, Seq::<AnyHash>::empty())
            &&& local_manifest matches Some(m) ==> (notice.summary.parcel_reference is Manifest
                ==> state == (NoticeState::PartiallyReceived, spec_missing_chunks(m.chunks@, local_chunks)))
        }),
{
    lemma_first_reply(notice_eh, replies, first_reply);
    let pf = proof_filter(ReceptionProofQueryField::Notice(notice_eh));
    crate::seqs::lemma_filter_empty_iff(proofs, pf);
    assert forall|j: int| 0 <= j < proofs.len() implies !pf(#[trigger] proofs[j]) by {}
}

} // verus!
