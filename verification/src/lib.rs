//! A catalog-and-purchase coordinator.
//!
//! An administrator publishes priced attributes (named items with metadata)
//! and buyers purchase them by paying through a separate token ledger that is
//! reached only through asynchronous messages. The store keeps, per buyer, at
//! most one purchase attempt in flight: an interrupted attempt is resumed
//! idempotently, a different request is steered back to the unresolved one,
//! and ownership is granted if and only if the remote ledger confirms payment.
//!
//! The suspending remote call itself is performed by the surrounding runtime;
//! this crate holds the verified decision logic. A purchase is driven in two
//! verified steps: [`store::AttributeStore::buy_attribute`] runs the request
//! up to the suspension point and says which transfer to issue, and
//! [`store::AttributeStore::resolve_purchase`] applies the outcome of that
//! transfer once it resolves.

pub mod io;
pub mod laws;
pub mod model;
pub mod remote;
pub mod store;
