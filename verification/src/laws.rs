//! The laws of the purchase protocol, proved over the transition model.

use vstd::prelude::*;
use crate::io::{ActorId, AttributeId, Data, Price, PurchaseStep, TamagotchiId};
use crate::model::{buy_step, create_step, owned_of, pending_of, resolve_step, StoreModel};
use crate::remote::{confirms, TransferResult};

verus! {

/// Single-flight: the pending-purchase ledger associates at most one
/// (transaction identifier, attribute identifier) pair with any buyer. The
/// ledger is a finite map keyed by the buyer, so this holds at every
/// observable instant, whatever transitions were taken.
pub proof fn lemma_single_flight(
    m: StoreModel,
    buyer: TamagotchiId,
    p1: (u64, AttributeId),
    p2: (u64, AttributeId),
)
    requires
        pending_of(m, buyer) == Some(p1),
        pending_of(m, buyer) == Some(p2),
    ensures
        p1 == p2,
{
}

/// Idempotent resume: a buyer with no pending attempt who requests a known
/// attribute twice, the second time while the first transfer is still
/// unresolved, is told to issue the same transfer both times — same
/// transaction identifier, same amount — and the second request does not
/// change the store at all, so at most one transfer is ever outstanding.
pub proof fn lemma_idempotent_resume(m: StoreModel, buyer: TamagotchiId, attribute_id: AttributeId)
    requires
        pending_of(m, buyer) is None,
        m.attributes.contains_key(attribute_id),
    ensures
        ({
            let first = buy_step(m, buyer, attribute_id);
            let second = buy_step(first.0, buyer, attribute_id);
            &&& first.1 == (PurchaseStep::Transfer {
                transaction_id: m.transaction_id,
                amount: m.attributes[attribute_id].1,
            })
            &&& second.1 == first.1
            &&& second.0 == first.0
        }),
{
}

/// Steering correctness: a buyer whose pending attempt is for `prev` and who
/// requests a different attribute is answered with exactly
/// `CompletePrevTx { prev }`, and the store — the pending ledger included —
/// is left unchanged.
pub proof fn lemma_steering(
    m: StoreModel,
    buyer: TamagotchiId,
    tx: u64,
    prev: AttributeId,
    requested: AttributeId,
)
    requires
        pending_of(m, buyer) == Some((tx, prev)),
        requested != prev,
    ensures
        buy_step(m, buyer, requested).0 == m,
        buy_step(m, buyer, requested).1 == (PurchaseStep::CompletePrevTx { attribute_id: prev }),
{
}

/// Ownership on confirmation only: resolving a pending attempt grows a
/// buyer's owned set exactly when the transfer confirmed, and then only by
/// the pending attribute for the resolving buyer; any other outcome leaves
/// the whole registry untouched. Initiating a purchase never touches it.
pub proof fn lemma_ownership_on_confirmation(
    m: StoreModel,
    buyer: TamagotchiId,
    outcome: TransferResult,
)
    requires
        m.transactions.contains_key(buyer),
    ensures
        !confirms(outcome) ==> resolve_step(m, buyer, outcome).0.owners == m.owners,
        confirms(outcome) ==> owned_of(resolve_step(m, buyer, outcome).0, buyer) == owned_of(
            m,
            buyer,
        ).insert(m.transactions[buyer].1),
        forall|b: TamagotchiId, a: AttributeId|
            owned_of(#[trigger] resolve_step(m, buyer, outcome).0, b).contains(a) ==> owned_of(
                m,
                b,
            ).contains(a) || (confirms(outcome) && b == buyer && a == m.transactions[buyer].1),
{
    let post = resolve_step(m, buyer, outcome).0;
    assert forall|b: TamagotchiId, a: AttributeId|
        owned_of(post, b).contains(a) implies owned_of(m, b).contains(a) || (confirms(outcome)
        && b == buyer && a == m.transactions[buyer].1) by {
        if confirms(outcome) && b == buyer {
            assert(owned_of(post, b) == owned_of(m, b).insert(m.transactions[buyer].1));
        }
    }
}

/// A purchase request never touches the ownership registry: ownership can
/// change only at resolution.
pub proof fn lemma_buy_preserves_ownership(
    m: StoreModel,
    buyer: TamagotchiId,
    attribute_id: AttributeId,
)
    ensures
        buy_step(m, buyer, attribute_id).0.owners == m.owners,
{
}

/// Catalog creation touches neither the pending ledger nor the ownership
/// registry nor the transaction counter.
pub proof fn lemma_create_touches_only_catalog(
    m: StoreModel,
    caller: ActorId,
    attribute_id: AttributeId,
    metadata: Data,
    price: Price,
)
    ensures
        create_step(m, caller, attribute_id, metadata, price).0.owners == m.owners,
        create_step(m, caller, attribute_id, metadata, price).0.transactions == m.transactions,
        create_step(m, caller, attribute_id, metadata, price).0.transaction_id
            == m.transaction_id,
{
}

/// The ledger always clears: after a pending attempt resolves — confirmed or
/// not — the buyer's entry is gone from the pending ledger, so nothing there
/// references that attempt's transaction identifier any more, and every other
/// buyer's entry is untouched.
pub proof fn lemma_ledger_clears(m: StoreModel, buyer: TamagotchiId, outcome: TransferResult)
    requires
        m.transactions.contains_key(buyer),
    ensures
        resolve_step(m, buyer, outcome).0.transactions == m.transactions.remove(buyer),
        pending_of(resolve_step(m, buyer, outcome).0, buyer) is None,
        forall|b: TamagotchiId|
            b != buyer ==> pending_of(resolve_step(m, buyer, outcome).0, b) == pending_of(m, b),
{
}

} // verus!
