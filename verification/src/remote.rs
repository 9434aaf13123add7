//! The remote ledger boundary: the transfer request the store issues and the
//! outcomes a transfer can resolve to.
//!
//! The ledger itself is an external collaborator reached through asynchronous
//! messages; only the transfer subset of its interface is in scope. The store
//! treats anything but an explicit confirmation as "not paid".

use vstd::prelude::*;
use crate::io::{ActorId, Price};

verus! {

/// The payload of a request to the remote token ledger.
#[derive(Clone, Copy, Debug, PartialEq, Eq, Structural)]
pub enum LogicAction {
    Transfer { sender: ActorId, recipient: ActorId, amount: Price },
}

/// A request to the remote token ledger, tagged with the transaction
/// identifier that correlates it with its reply.
#[derive(Clone, Copy, Debug, PartialEq, Eq, Structural)]
pub enum FTokenAction {
    Message { transaction_id: u64, payload: LogicAction },
}

/// How a transfer against the remote ledger resolved.
#[derive(Clone, Copy, Debug, PartialEq, Eq, Structural)]
pub enum TransferResult {
    /// The ledger confirmed the transfer: payment happened.
    Confirmed,
    /// The ledger answered with anything but a confirmation.
    Rejected,
    /// No correlated response arrived, or it could not be understood.
    Unresolved,
}

/// Only an explicit confirmation counts as payment; `Rejected` and
/// `Unresolved` are both treated as failure.
pub open spec fn confirms(outcome: TransferResult) -> bool {
    outcome is Confirmed
}

/// Builds the request that transfers `amount` from `sender` to `recipient`,
/// tagged with `transaction_id`.
pub fn transfer_request(
    transaction_id: u64,
    sender: ActorId,
    recipient: ActorId,
    amount: Price,
) -> (request: FTokenAction)
    ensures
        request == (FTokenAction::Message {
            transaction_id,
            payload: LogicAction::Transfer { sender, recipient, amount },
        }),
{
    FTokenAction::Message {
        transaction_id,
        payload: LogicAction::Transfer { sender, recipient, amount },
    }
}

} // verus!
