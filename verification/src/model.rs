//! The mathematical model of the store and the transition each operation
//! makes on it.
//!
//! Every executable operation of [`crate::store::AttributeStore`] promises in
//! its contract that the store's view and the returned reply are exactly what
//! the corresponding transition function here says. The laws of the protocol
//! are proved over these transitions in [`crate::laws`].

use vstd::prelude::*;
use crate::io::{ActorId, AttributeId, Data, Price, PurchaseStep, StoreError, StoreEvent, TamagotchiId};
use crate::remote::{confirms, TransferResult};

verus! {

/// The store as a mathematical value: every map of the executable store,
/// abstracted to its contents.
#[verifier::ext_equal]
pub struct StoreModel {
    /// The only identity allowed to mutate the catalog.
    pub admin: ActorId,
    /// Address of the remote token ledger.
    pub ft_contract_id: ActorId,
    /// The catalog: attribute identifier to (metadata, price).
    pub attributes: Map<AttributeId, (Data, Price)>,
    /// The ownership registry: buyer to the set of owned attributes.
    pub owners: Map<TamagotchiId, Set<AttributeId>>,
    /// The next transaction identifier to hand out.
    pub transaction_id: u64,
    /// The pending-purchase ledger: buyer to the in-flight
    /// (transaction identifier, attribute identifier) pair.
    pub transactions: Map<TamagotchiId, (u64, AttributeId)>,
}

/// The store right after construction: empty catalog, empty registry, empty
/// pending ledger, transaction counter at zero.
pub open spec fn initial_model(admin: ActorId, ft_contract_id: ActorId) -> StoreModel {
    StoreModel {
        admin,
        ft_contract_id,
        attributes: Map::empty(),
        owners: Map::empty(),
        transaction_id: 0,
        transactions: Map::empty(),
    }
}

/// The set of attributes a buyer owns; empty for a buyer the registry has
/// never recorded.
pub open spec fn owned_of(m: StoreModel, buyer: TamagotchiId) -> Set<AttributeId> {
    if m.owners.contains_key(buyer) {
        m.owners[buyer]
    } else {
        Set::empty()
    }
}

/// The buyer's in-flight purchase attempt, if any.
pub open spec fn pending_of(m: StoreModel, buyer: TamagotchiId) -> Option<(u64, AttributeId)> {
    if m.transactions.contains_key(buyer) {
        Some(m.transactions[buyer])
    } else {
        None
    }
}

/// The transaction counter is monotonically increasing and wraps on overflow.
pub open spec fn wrapping_inc(t: u64) -> u64 {
    if t == u64::MAX {
        0
    } else {
        (t + 1) as u64
    }
}

/// Catalog creation: only the administrator may insert, a duplicate
/// identifier is refused, and a successful insert changes nothing else.
pub open spec fn create_step(
    m: StoreModel,
    caller: ActorId,
    attribute_id: AttributeId,
    metadata: Data,
    price: Price,
) -> (StoreModel, Result<StoreEvent, StoreError>) {
    if caller != m.admin {
        (m, Err(StoreError::Unauthorized))
    } else if m.attributes.contains_key(attribute_id) {
        (m, Err(StoreError::DuplicateItem))
    } else {
        (
            StoreModel { attributes: m.attributes.insert(attribute_id, (metadata, price)), ..m },
            Ok(StoreEvent::AttributeCreated { attribute_id }),
        )
    }
}

/// A purchase request, run up to its only suspension point.
///
/// - A buyer with a pending attempt for a different attribute is steered back
///   to it and the store is left untouched.
/// - A buyer with a pending attempt for the same attribute resumes it: the
///   recorded transaction identifier is reused and the ledger is not written.
/// - A buyer with no pending attempt gets the next transaction identifier
///   (the counter advances, wrapping on overflow) and a pending entry.
/// - On either path to the transfer, an attribute missing from the catalog
///   ends the attempt: the pending entry is cleared so the buyer is not
///   stranded, and no transfer is issued.
pub open spec fn buy_step(
    m: StoreModel,
    buyer: TamagotchiId,
    attribute_id: AttributeId,
) -> (StoreModel, PurchaseStep) {
    if m.transactions.contains_key(buyer) {
        let tx = m.transactions[buyer].0;
        let prev = m.transactions[buyer].1;
        if prev != attribute_id {
            (m, PurchaseStep::CompletePrevTx { attribute_id: prev })
        } else if m.attributes.contains_key(attribute_id) {
            (
                m,
                PurchaseStep::Transfer { transaction_id: tx, amount: m.attributes[attribute_id].1 },
            )
        } else {
            (StoreModel { transactions: m.transactions.remove(buyer), ..m }, PurchaseStep::UnknownItem)
        }
    } else {
        let tx = m.transaction_id;
        if m.attributes.contains_key(attribute_id) {
            (
                StoreModel {
                    transaction_id: wrapping_inc(tx),
                    transactions: m.transactions.insert(buyer, (tx, attribute_id)),
                    ..m
                },
                PurchaseStep::Transfer {
                    transaction_id: tx,
                    amount: m.attributes[attribute_id].1,
                },
            )
        } else {
            (StoreModel { transaction_id: wrapping_inc(tx), ..m }, PurchaseStep::UnknownItem)
        }
    }
}

/// Resolution of the buyer's pending attempt, whatever the transfer's
/// outcome: the pending entry is removed unconditionally, and exactly on a
/// confirmed transfer the attribute is added to the buyer's owned set.
pub open spec fn resolve_step(
    m: StoreModel,
    buyer: TamagotchiId,
    outcome: TransferResult,
) -> (StoreModel, StoreEvent)
    recommends
        m.transactions.contains_key(buyer),
{
    let attribute_id = m.transactions[buyer].1;
    let cleared = StoreModel { transactions: m.transactions.remove(buyer), ..m };
    if confirms(outcome) {
        (
            StoreModel {
                owners: m.owners.insert(buyer, owned_of(m, buyer).insert(attribute_id)),
                ..cleared
            },
            StoreEvent::AttributeSold { success: true },
        )
    } else {
        (cleared, StoreEvent::AttributeSold { success: false })
    }
}

} // verus!
