//! The attribute store: catalog, pending-purchase ledger, ownership registry
//! and the purchase coordinator that drives them.

use vstd::prelude::*;
use std::collections::BTreeMap;
use std::collections::BTreeSet;
use crate::io::{
    ActorId, AttributeId, Data, InitFT, Price, PurchaseStep, StoreError, StoreEvent, TamagotchiId,
};
use crate::model::{
    buy_step, create_step, initial_model, owned_of, resolve_step, StoreModel,
};
use crate::remote::TransferResult;

verus! {

/// The whole state of the store.
///
/// The pending-purchase ledger `transactions` is keyed by the buyer, so a
/// buyer can never have two attempts in flight: the single-flight guarantee
/// is structural.
pub struct AttributeStore {
    /// The only identity allowed to mutate the catalog.
    pub admin: ActorId,
    /// Address of the remote token ledger, fixed at construction.
    pub ft_contract_id: ActorId,
    /// The catalog: attribute identifier to (metadata, price). Entries are
    /// never mutated or removed once created.
    pub attributes: BTreeMap<AttributeId, (Data, Price)>,
    /// The ownership registry: buyer to the set of owned attributes.
    /// Append-only, written only on a confirmed transfer.
    pub owners: BTreeMap<TamagotchiId, BTreeSet<AttributeId>>,
    /// The next transaction identifier to hand out; wraps on overflow.
    pub transaction_id: u64,
    /// The pending-purchase ledger: at most one in-flight
    /// (transaction identifier, attribute identifier) pair per buyer.
    pub transactions: BTreeMap<TamagotchiId, (u64, AttributeId)>,
}

impl View for AttributeStore {
    type V = StoreModel;

    open spec fn view(&self) -> StoreModel {
        StoreModel {
            admin: self.admin,
            ft_contract_id: self.ft_contract_id,
            attributes: self.attributes@,
            owners: Map::new(
                |buyer: TamagotchiId| self.owners@.contains_key(buyer),
                |buyer: TamagotchiId| self.owners@[buyer]@,
            ),
            transaction_id: self.transaction_id,
            transactions: self.transactions@,
        }
    }
}

impl AttributeStore {
    /// Constructs a store owned by `admin` that pays through the remote
    /// ledger named in `config`. A zero ledger address is refused.
    pub fn new(admin: ActorId, config: InitFT) -> (result: Result<AttributeStore, StoreError>)
        ensures
            result is Ok <==> config.ft_contract_id != 0,
            result matches Ok(store) ==> store@ == initial_model(admin, config.ft_contract_id),
            result matches Err(e) ==> e == StoreError::ZeroLedgerAddress,
    {
        if config.ft_contract_id == 0 {
            return Err(StoreError::ZeroLedgerAddress);
        }
        let store = AttributeStore {
            admin,
            ft_contract_id: config.ft_contract_id,
            attributes: BTreeMap::new(),
            owners: BTreeMap::new(),
            transaction_id: 0,
            transactions: BTreeMap::new(),
        };
        proof {
            assert(store@ =~~= initial_model(admin, config.ft_contract_id));
        }
        Ok(store)
    }

    /// Inserts a new attribute into the catalog.
    ///
    /// Only the administrator may insert, and an identifier already present
    /// is refused; either rejection leaves the store unchanged.
    pub fn create_attribute(
        &mut self,
        caller: ActorId,
        attribute_id: AttributeId,
        metadata: Data,
        price: Price,
    ) -> (result: Result<StoreEvent, StoreError>)
        ensures
            final(self)@ == create_step(old(self)@, caller, attribute_id, metadata, price).0,
            result == create_step(old(self)@, caller, attribute_id, metadata, price).1,
    {
        if caller != self.admin {
            return Err(StoreError::Unauthorized);
        }
        if self.attributes.contains_key(&attribute_id) {
            return Err(StoreError::DuplicateItem);
        }
        self.attributes.insert(attribute_id, (metadata, price));
        proof {
            assert(self@ =~~= create_step(old(self)@, caller, attribute_id, metadata, price).0);
        }
        Ok(StoreEvent::AttributeCreated { attribute_id })
    }

    /// Runs a purchase request for `buyer` up to the only suspension point
    /// and says what to do next.
    ///
    /// A buyer with a pending attempt for a different attribute is steered
    /// back to it; one with a pending attempt for the same attribute resumes
    /// it under the same transaction identifier. Otherwise a fresh attempt is
    /// recorded in the pending ledger before any transfer is issued. An
    /// attribute missing from the catalog ends the attempt with the pending
    /// entry cleared.
    ///
    /// When `PurchaseStep::Transfer` is returned, the caller performs that
    /// transfer against the remote ledger and reports the outcome through
    /// [`Self::resolve_purchase`].
    pub fn buy_attribute(&mut self, buyer: TamagotchiId, attribute_id: AttributeId) -> (step:
        PurchaseStep)
        ensures
            final(self)@ == buy_step(old(self)@, buyer, attribute_id).0,
            step == buy_step(old(self)@, buyer, attribute_id).1,
    {
        let pending: Option<(u64, AttributeId)> = match self.transactions.get(&buyer) {
            Some(p) => Some(*p),
            None => None,
        };
        let transaction_id: u64;
        match pending {
            Some(p) => {
                if p.1 != attribute_id {
                    return PurchaseStep::CompletePrevTx { attribute_id: p.1 };
                }
                transaction_id = p.0;
            },
            None => {
                transaction_id = self.transaction_id;
                self.transaction_id = if self.transaction_id == u64::MAX {
                    0
                } else {
                    self.transaction_id + 1
                };
                self.transactions.insert(buyer, (transaction_id, attribute_id));
            },
        }
        let price: Price = match self.attributes.get(&attribute_id) {
            Some(entry) => entry.1,
            None => {
                self.transactions.remove(&buyer);
                proof {
                    assert(self@ =~~= buy_step(old(self)@, buyer, attribute_id).0);
                }
                return PurchaseStep::UnknownItem;
            },
        };
        proof {
            assert(self@ =~~= buy_step(old(self)@, buyer, attribute_id).0);
        }
        PurchaseStep::Transfer { transaction_id, amount: price }
    }

    /// Applies the outcome of the transfer issued for `buyer`'s pending
    /// attempt.
    ///
    /// The pending entry is removed whatever the outcome, so the buyer is
    /// never locked out by a failed transfer; exactly on a confirmed
    /// transfer the attribute is added to the buyer's owned set.
    pub fn resolve_purchase(&mut self, buyer: TamagotchiId, outcome: TransferResult) -> (event:
        StoreEvent)
        requires
            old(self)@.transactions.contains_key(buyer),
        ensures
            final(self)@ == resolve_step(old(self)@, buyer, outcome).0,
            event == resolve_step(old(self)@, buyer, outcome).1,
    {
        let attribute_id: AttributeId = match self.transactions.remove(&buyer) {
            Some(p) => p.1,
            None => {
                proof {
                    assert(false);
                }
                0
            },
        };
        let success = match outcome {
            TransferResult::Confirmed => true,
            _ => false,
        };
        if success {
            let mut owned: BTreeSet<AttributeId> = match self.owners.remove(&buyer) {
                Some(s) => s,
                None => BTreeSet::new(),
            };
            owned.insert(attribute_id);
            self.owners.insert(buyer, owned);
        }
        proof {
            assert(self@ =~~= resolve_step(old(self)@, buyer, outcome).0);
        }
        StoreEvent::AttributeSold { success }
    }

    /// The administrator's identity.
    pub fn admin(&self) -> (a: ActorId)
        ensures
            a == self@.admin,
    {
        self.admin
    }

    /// The address of the remote token ledger.
    pub fn ft_contract_id(&self) -> (a: ActorId)
        ensures
            a == self@.ft_contract_id,
    {
        self.ft_contract_id
    }

    /// The transaction identifier the next fresh purchase attempt will get.
    pub fn transaction_id(&self) -> (t: u64)
        ensures
            t == self@.transaction_id,
    {
        self.transaction_id
    }

    /// The buyer's in-flight purchase attempt, if any.
    pub fn pending_of(&self, buyer: TamagotchiId) -> (pending: Option<(u64, AttributeId)>)
        ensures
            pending == crate::model::pending_of(self@, buyer),
    {
        match self.transactions.get(&buyer) {
            Some(p) => Some(*p),
            None => None,
        }
    }

    /// Whether `buyer` owns `attribute_id`.
    pub fn owns(&self, buyer: TamagotchiId, attribute_id: AttributeId) -> (owned: bool)
        ensures
            owned == owned_of(self@, buyer).contains(attribute_id),
    {
        match self.owners.get(&buyer) {
            Some(set) => set.contains(&attribute_id),
            None => false,
        }
    }

    /// The metadata and price of a catalog attribute, if present.
    pub fn attribute(&self, attribute_id: AttributeId) -> (entry: Option<&(Data, Price)>)
        ensures
            match entry {
                Some(e) => self@.attributes.contains_key(attribute_id)
                    && *e == self@.attributes[attribute_id],
                None => !self@.attributes.contains_key(attribute_id),
            },
    {
        self.attributes.get(&attribute_id)
    }
}

} // verus!
