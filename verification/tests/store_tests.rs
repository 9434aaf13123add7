use attribute_store::io::{Data, InitFT, PurchaseStep, StoreError, StoreEvent};
use attribute_store::remote::{transfer_request, FTokenAction, LogicAction, TransferResult};
use attribute_store::store::AttributeStore;

const ADMIN: u64 = 1;
const LEDGER: u64 = 2;
const STORE_ACCOUNT: u64 = 3;
const BUYER: u64 = 10;

fn mk_data(title: &str) -> Data {
    Data {
        title: title.to_string(),
        description: "a priced catalog entry".to_string(),
        media: "ipfs://attribute-picture".to_string(),
    }
}

fn mk_store() -> AttributeStore {
    AttributeStore::new(ADMIN, InitFT { ft_contract_id: LEDGER }).unwrap()
}

#[test]
fn init_rejects_zero_ledger_address() {
    let r = AttributeStore::new(ADMIN, InitFT { ft_contract_id: 0 });
    assert!(matches!(r, Err(StoreError::ZeroLedgerAddress)));
}

#[test]
fn init_records_admin_and_ledger() {
    let store = mk_store();
    assert_eq!(store.admin(), ADMIN);
    assert_eq!(store.ft_contract_id(), LEDGER);
    assert_eq!(store.transaction_id(), 0);
    assert_eq!(store.pending_of(BUYER), None);
    assert!(!store.owns(BUYER, 1));
}

#[test]
fn create_attribute_rejects_non_admin() {
    let mut store = mk_store();
    let r = store.create_attribute(BUYER, 1, mk_data("Weapon"), 100);
    assert_eq!(r, Err(StoreError::Unauthorized));
    assert!(store.attribute(1).is_none());
}

#[test]
fn create_attribute_rejects_duplicate_id() {
    let mut store = mk_store();
    let first = store.create_attribute(ADMIN, 1, mk_data("Weapon"), 100);
    assert_eq!(first, Ok(StoreEvent::AttributeCreated { attribute_id: 1 }));
    let second = store.create_attribute(ADMIN, 1, mk_data("Armor"), 250);
    assert_eq!(second, Err(StoreError::DuplicateItem));
    let (data, price) = store.attribute(1).unwrap();
    assert_eq!(data.title, "Weapon");
    assert_eq!(*price, 100);
}

#[test]
fn scenario_a_confirmed_purchase_grants_ownership() {
    let mut store = mk_store();
    store.create_attribute(ADMIN, 1, mk_data("Weapon"), 100).unwrap();
    let step = store.buy_attribute(BUYER, 1);
    assert_eq!(step, PurchaseStep::Transfer { transaction_id: 0, amount: 100 });
    assert_eq!(store.pending_of(BUYER), Some((0, 1)));
    let ev = store.resolve_purchase(BUYER, TransferResult::Confirmed);
    assert_eq!(ev, StoreEvent::AttributeSold { success: true });
    assert!(store.owns(BUYER, 1));
    assert_eq!(store.pending_of(BUYER), None);
}

#[test]
fn scenario_b_rejected_purchase_clears_and_allows_retry() {
    let mut store = mk_store();
    store.create_attribute(ADMIN, 1, mk_data("Weapon"), 100).unwrap();
    let step = store.buy_attribute(BUYER, 1);
    assert_eq!(step, PurchaseStep::Transfer { transaction_id: 0, amount: 100 });
    let ev = store.resolve_purchase(BUYER, TransferResult::Rejected);
    assert_eq!(ev, StoreEvent::AttributeSold { success: false });
    assert!(!store.owns(BUYER, 1));
    assert_eq!(store.pending_of(BUYER), None);
    let retry = store.buy_attribute(BUYER, 1);
    assert_eq!(retry, PurchaseStep::Transfer { transaction_id: 1, amount: 100 });
}

#[test]
fn unresolved_transfer_counts_as_failure() {
    let mut store = mk_store();
    store.create_attribute(ADMIN, 1, mk_data("Weapon"), 100).unwrap();
    store.buy_attribute(BUYER, 1);
    let ev = store.resolve_purchase(BUYER, TransferResult::Unresolved);
    assert_eq!(ev, StoreEvent::AttributeSold { success: false });
    assert!(!store.owns(BUYER, 1));
    assert_eq!(store.pending_of(BUYER), None);
}

#[test]
fn scenario_c_different_request_is_steered_to_pending_one() {
    let mut store = mk_store();
    store.create_attribute(ADMIN, 1, mk_data("Weapon"), 100).unwrap();
    store.create_attribute(ADMIN, 2, mk_data("Armor"), 50).unwrap();
    let step = store.buy_attribute(BUYER, 1);
    assert_eq!(step, PurchaseStep::Transfer { transaction_id: 0, amount: 100 });
    let steered = store.buy_attribute(BUYER, 2);
    assert_eq!(steered, PurchaseStep::CompletePrevTx { attribute_id: 1 });
    assert_eq!(store.pending_of(BUYER), Some((0, 1)));
    assert_eq!(store.transaction_id(), 1);
}

#[test]
fn resuming_the_same_purchase_reuses_the_transaction_id() {
    let mut store = mk_store();
    store.create_attribute(ADMIN, 1, mk_data("Weapon"), 100).unwrap();
    let first = store.buy_attribute(BUYER, 1);
    let second = store.buy_attribute(BUYER, 1);
    assert_eq!(first, PurchaseStep::Transfer { transaction_id: 0, amount: 100 });
    assert_eq!(second, first);
    assert_eq!(store.pending_of(BUYER), Some((0, 1)));
    assert_eq!(store.transaction_id(), 1);
}

#[test]
fn scenario_d_independent_buyers_purchase_concurrently() {
    let b1: u64 = 10;
    let b2: u64 = 11;
    let mut store = mk_store();
    store.create_attribute(ADMIN, 1, mk_data("Weapon"), 100).unwrap();
    let s1 = store.buy_attribute(b1, 1);
    let s2 = store.buy_attribute(b2, 1);
    assert_eq!(s1, PurchaseStep::Transfer { transaction_id: 0, amount: 100 });
    assert_eq!(s2, PurchaseStep::Transfer { transaction_id: 1, amount: 100 });
    let ev1 = store.resolve_purchase(b1, TransferResult::Confirmed);
    assert_eq!(ev1, StoreEvent::AttributeSold { success: true });
    assert_eq!(store.pending_of(b2), Some((1, 1)));
    let ev2 = store.resolve_purchase(b2, TransferResult::Rejected);
    assert_eq!(ev2, StoreEvent::AttributeSold { success: false });
    assert!(store.owns(b1, 1));
    assert!(!store.owns(b2, 1));
    assert_eq!(store.pending_of(b1), None);
    assert_eq!(store.pending_of(b2), None);
}

#[test]
fn buying_an_unknown_attribute_fails_without_stranding_the_buyer() {
    let mut store = mk_store();
    let step = store.buy_attribute(BUYER, 7);
    assert_eq!(step, PurchaseStep::UnknownItem);
    assert_eq!(store.pending_of(BUYER), None);
    assert_eq!(store.transaction_id(), 1);
}

#[test]
fn resuming_an_attempt_for_an_unknown_attribute_clears_the_entry() {
    let mut store = mk_store();
    store.transactions.insert(BUYER, (5, 99));
    let step = store.buy_attribute(BUYER, 99);
    assert_eq!(step, PurchaseStep::UnknownItem);
    assert_eq!(store.pending_of(BUYER), None);
}

#[test]
fn transaction_counter_wraps_on_overflow() {
    let mut store = mk_store();
    store.create_attribute(ADMIN, 1, mk_data("Weapon"), 100).unwrap();
    store.transaction_id = u64::MAX;
    let step = store.buy_attribute(BUYER, 1);
    assert_eq!(step, PurchaseStep::Transfer { transaction_id: u64::MAX, amount: 100 });
    assert_eq!(store.transaction_id(), 0);
}

#[test]
fn transfer_request_carries_the_full_transfer() {
    let request = transfer_request(7, BUYER, STORE_ACCOUNT, 100);
    let FTokenAction::Message { transaction_id, payload } = request;
    assert_eq!(transaction_id, 7);
    let LogicAction::Transfer { sender, recipient, amount } = payload;
    assert_eq!(sender, BUYER);
    assert_eq!(recipient, STORE_ACCOUNT);
    assert_eq!(amount, 100);
}

#[test]
fn a_second_item_is_a_fresh_purchase_after_resolution() {
    let mut store = mk_store();
    store.create_attribute(ADMIN, 1, mk_data("Weapon"), 100).unwrap();
    store.create_attribute(ADMIN, 2, mk_data("Armor"), 50).unwrap();
    store.buy_attribute(BUYER, 1);
    store.resolve_purchase(BUYER, TransferResult::Confirmed);
    let step = store.buy_attribute(BUYER, 2);
    assert_eq!(step, PurchaseStep::Transfer { transaction_id: 1, amount: 50 });
    let ev = store.resolve_purchase(BUYER, TransferResult::Confirmed);
    assert_eq!(ev, StoreEvent::AttributeSold { success: true });
    assert!(store.owns(BUYER, 1));
    assert!(store.owns(BUYER, 2));
}
