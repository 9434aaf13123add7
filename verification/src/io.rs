//! The store's external interface: identifiers, requests, replies and errors.

use vstd::prelude::*;

verus! {

/// Identity of an actor (a buyer, the administrator, or the remote token
/// ledger), modelled as a plain integer.
pub type ActorId = u64;

/// Identifier of a catalog attribute.
pub type AttributeId = u32;

/// A price, in the smallest token unit.
pub type Price = u128;

/// Identity of a buyer.
pub type TamagotchiId = ActorId;

/// Immutable metadata of a catalog attribute.
#[derive(Clone)]
pub struct Data {
    /// The attribute title, for example: "Weapon".
    pub title: String,
    /// Description of the attribute.
    pub description: String,
    /// URL to associated media (an attribute picture).
    pub media: String,
}

/// Configuration handed to the store when it is constructed.
pub struct InitFT {
    /// Address of the remote fungible-token ledger.
    pub ft_contract_id: ActorId,
}

/// A request addressed to the store.
pub enum StoreAction {
    CreateAttribute { attribute_id: AttributeId, metadata: Data, price: Price },
    BuyAttribute { attribute_id: AttributeId },
}

/// A reply the store sends back to its caller.
#[derive(Clone, Copy, Debug, PartialEq, Eq, Structural)]
pub enum StoreEvent {
    AttributeCreated { attribute_id: AttributeId },
    AttributeSold { success: bool },
    CompletePrevTx { attribute_id: AttributeId },
}

/// A synchronous rejection: the request is refused with no state change.
#[derive(Clone, Copy, Debug, PartialEq, Eq, Structural)]
pub enum StoreError {
    /// The caller of a catalog mutation is not the administrator.
    Unauthorized,
    /// An attribute with the requested identifier already exists.
    DuplicateItem,
    /// The store was handed a zero address for the remote token ledger.
    ZeroLedgerAddress,
}

/// What a `buy_attribute` call asks its caller to do next.
///
/// `Transfer` is the only suspending step of a purchase: the caller performs
/// the transfer against the remote ledger and, once it resolves, hands the
/// outcome back through `resolve_purchase`. The other two variants are
/// terminal for the call.
#[derive(Clone, Copy, Debug, PartialEq, Eq, Structural)]
pub enum PurchaseStep {
    /// The buyer has an unresolved purchase for a different attribute: that
    /// one must be completed first. The pending ledger is untouched.
    CompletePrevTx { attribute_id: AttributeId },
    /// The requested attribute is not in the catalog. The attempt is over and
    /// the buyer's pending entry has been cleared.
    UnknownItem,
    /// Transfer `amount` from the buyer to the store's own account, tagged
    /// with `transaction_id`, and report the outcome to `resolve_purchase`.
    Transfer { transaction_id: u64, amount: Price },
}

} // verus!
