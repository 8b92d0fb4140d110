//! Links of the delivery zome: inbox and pendings links, and public parcel links.

use vstd::prelude::*;
use crate::hash::AnyHash;
use crate::types::ItemKind;
use crate::entries::PendingItem;
use crate::errors::DeliveryError;
use crate::seqs::{lemma_filter_take_all, lemma_filter_take_step};

verus! {

/// Type prefix of an agent key.
pub open spec fn agent_prefix() -> Seq<u8> {
    seq![0x84u8, 0x20u8, 0x24u8]
}

/// Type prefix of an entry hash.
pub open spec fn entry_prefix() -> Seq<u8> {
    seq![0x84u8, 0x21u8, 0x24u8]
}

/// Whether a hash is an agent key.
pub open spec fn is_agent_key(h: AnyHash) -> bool {
    h@.subrange(0, 3) == agent_prefix()
}

/// The inbox of an agent: its key's digest and location under the entry hash prefix.
pub open spec fn spec_inbox_address(agent: AnyHash) -> Seq<u8> {
    entry_prefix() + agent@.subrange(3, 39)
}

/// `EntryHash::from(AgentPubKey)` of holo_hash: the agent key's digest and
/// location bytes, under the entry hash prefix. holo_hash's `from_raw_39`
/// panics on a key without the agent prefix, which `requires` excludes.
#[verifier::external_body]
fn agent_key_as_entry_hash(agent: &AnyHash) -> (eh: AnyHash)
    requires
        is_agent_key(*agent),
    ensures
        eh@ == entry_prefix() + agent@.subrange(3, 39),
{
    let key = hdk::prelude::AgentPubKey::from_raw_39(agent.bytes.to_vec());
    let entry_hash = hdk::prelude::EntryHash::from(key);
    AnyHash { bytes: entry_hash.get_raw_39().try_into().unwrap() }
}

/// The bytes of a hash, as the tag of a link.
fn hash_tag(h: &AnyHash) -> (tag: Vec<u8>)
    ensures
        tag@ == h@,
{
    let mut tag: Vec<u8> = Vec::new();
    let mut i: usize = 0;
    while i < 39
        invariant
            0 <= i <= 39,
            h@.len() == 39,
            tag@ == h@.take(i as int),
        decreases 39 - i,
    {
        let ghost old_i = i as int;
        tag.push(h.bytes[i]);
        i = i + 1;
        proof {
            assert(tag@ =~= h@.take(i as int));
        }
    }
    assert(h@.take(39) =~= h@);
    tag
}

/// A PendingItem to commit for a recipient.
#[derive(Debug)]
pub struct CommitPendingItemInput {
    pub item: PendingItem,
    pub recipient: AnyHash,
}

/// A link to create towards a committed PendingItem: its base and its tag.
#[derive(Debug)]
pub struct LinkToItem {
    pub base: AnyHash,
    pub tag: Vec<u8>,
}

/// The links that lead to a PendingItem: from its distribution, tagged with
/// the recipient, for items sent by the sender; and from the recipient's
/// inbox, tagged with this agent.
pub fn commit_pending_item(input: &CommitPendingItemInput, me: &AnyHash) -> (r: (Option<LinkToItem>, LinkToItem))
    requires
        is_agent_key(input.recipient),
    ensures
        r.0 is Some <==> input.item.kind.spec_sent_by_sender(),
        r.0 matches Some(l) ==> l.base == input.item.distribution_ah && l.tag@ == input.recipient@,
        r.1.base@ == spec_inbox_address(input.recipient),
        r.1.tag@ == me@,
{
    let pendings = if input.item.kind.can_link_to_distribution() {
        Some(LinkToItem { base: input.item.distribution_ah, tag: hash_tag(&input.recipient) })
    } else {
        None
    };
    let inbox = LinkToItem { base: agent_key_as_entry_hash(&input.recipient), tag: hash_tag(me) };
    (pendings, inbox)
}

/// The inbox of an agent: the entry hash of its key.
pub fn inbox_address(me: &AnyHash) -> (r: AnyHash)
    requires
        is_agent_key(*me),
    ensures
        r@ == spec_inbox_address(*me),
{
    agent_key_as_entry_hash(me)
}

/// Agents never share an inbox: an item committed for one recipient is never
/// found in the inbox of another.
pub proof fn lemma_inboxes_distinct(a: AnyHash, b: AnyHash)
    requires
        is_agent_key(a),
        is_agent_key(b),
        a@ != b@,
    ensures
        spec_inbox_address(a) != spec_inbox_address(b),
{
    if spec_inbox_address(a) == spec_inbox_address(b) {
        assert(a@.subrange(3, 39) =~= spec_inbox_address(a).subrange(3, 39));
        assert(b@.subrange(3, 39) =~= spec_inbox_address(b).subrange(3, 39));
        assert(a@ =~= a@.subrange(0, 3) + a@.subrange(3, 39));
        assert(b@ =~= b@.subrange(0, 3) + b@.subrange(3, 39));
    }
}

pub open spec fn kind_filter<L>(maybe_kind: Option<ItemKind>) -> spec_fn((PendingItem, L)) -> bool {
    |pair: (PendingItem, L)| match maybe_kind {
        Some(k) => pair.0.kind == k,
        None => true,
    }
}

/// The inbox items, with their links, of a given kind (all of them without a kind).
pub fn probe_all_inbox_items<L>(pending_pairs: Vec<(PendingItem, L)>, maybe_kind: Option<ItemKind>) -> (r: Vec<(PendingItem, L)>)
    ensures
        r@ == pending_pairs@.filter(kind_filter(maybe_kind)),
{
    let ghost all = pending_pairs@;
    let ghost pred = kind_filter::<L>(maybe_kind);
    assert(all.len() == pending_pairs.len());
    let mut rest = pending_pairs;
    let mut r: Vec<(PendingItem, L)> = Vec::new();
    let mut k: usize = 0;
    while rest.len() > 0
        invariant
            0 <= k <= all.len(),
            pred == kind_filter::<L>(maybe_kind),
            rest@ == all.skip(k as int),
            rest.len() == all.len() - k,
            all.len() <= usize::MAX,
            r@ == all.take(k as int).filter(pred),
        decreases rest.len(),
    {
        let pair = rest.remove(0);
        proof {
            assert(all.skip(k as int)[0] == all[k as int]);
            lemma_filter_take_step(all, pred, k as int);
            assert(rest@ =~= all.skip(k + 1));
        }
        let keep = match maybe_kind {
            Some(kind) => pair.0.kind == kind,
            None => true,
        };
        if keep {
            r.push(pair);
        }
        k = k + 1;
    }
    proof {
        assert(all.skip(k as int).len() == 0);
        lemma_filter_take_all(all, pred);
    }
    r
}

/// The first live link (not deleted) from the public parcels anchor to the
/// given public parcel, as its position among the links given by their target
/// and whether they were deleted.
pub fn unlink_public_parcel(links: &Vec<(AnyHash, bool)>, pp_eh: &AnyHash) -> (r: Result<usize, DeliveryError>)
    ensures
        r is Err <==> forall|i: int| 0 <= i < links.len() ==> (links@[i].1 || links@[i].0@ != pp_eh@),
        r matches Err(e) ==> e == DeliveryError::PublicParcelLinkNotFound,
        r matches Ok(i) ==> i < links.len() && !links@[i as int].1 && links@[i as int].0@ == pp_eh@
            && forall|j: int| 0 <= j < i ==> (links@[j].1 || links@[j].0@ != pp_eh@),
{
    let mut i: usize = 0;
    while i < links.len()
        invariant
            0 <= i <= links.len(),
            forall|j: int| 0 <= j < i ==> (links@[j].1 || links@[j].0@ != pp_eh@),
        decreases links.len() - i,
    {
        if !links[i].1 && links[i].0.same_as(pp_eh) {
            return Ok(i);
        }
        i = i + 1;
    }
    Err(DeliveryError::PublicParcelLinkNotFound)
}

} // verus!
