use idb_transaction::{Cleanup, Intent, OnTransactionDrop, Transaction};

const TEAR_DOWN_ONLY: Cleanup = Cleanup { free_listeners: true, request: None };
const NOTHING: Cleanup = Cleanup { free_listeners: false, request: None };

#[test]
fn default_policy_is_to_abort() {
    assert_eq!(OnTransactionDrop::default(), OnTransactionDrop::Abort);
}

#[test]
fn drop_of_a_new_handle_aborts_once() {
    let mut tx = Transaction::new(9u32);
    let cleanup = tx.drop();
    assert_eq!(cleanup, Cleanup { free_listeners: true, request: Some(Intent::Abort) });
    assert_ne!(cleanup.request, Some(Intent::Commit));
}

#[test]
fn drop_with_the_policy_to_commit_sends_nothing() {
    let mut tx = Transaction::new(9u32);
    tx.on_drop(OnTransactionDrop::Commit);
    assert_eq!(tx.drop(), TEAR_DOWN_ONLY);
}

#[test]
fn policy_that_was_set_last_counts() {
    let mut tx = Transaction::new(9u32);
    tx.on_drop(OnTransactionDrop::Commit);
    tx.on_drop(OnTransactionDrop::Abort);
    assert_eq!(tx.drop().request, Some(Intent::Abort));

    let mut tx = Transaction::new(9u32);
    tx.on_drop(OnTransactionDrop::Abort);
    tx.on_drop(OnTransactionDrop::Commit);
    assert_eq!(tx.drop().request, None);
}

#[test]
fn drop_after_commit_sends_nothing_whatever_the_policy() {
    for policy in [OnTransactionDrop::Abort, OnTransactionDrop::Commit] {
        let mut tx = Transaction::new(9u32);
        tx.on_drop(policy);
        assert!(tx.commit().is_some());
        assert_eq!(tx.drop(), TEAR_DOWN_ONLY);

        let mut tx = Transaction::new(9u32);
        assert!(tx.commit().is_some());
        tx.on_drop(policy);
        assert_eq!(tx.drop(), TEAR_DOWN_ONLY);
    }
}

#[test]
fn drop_after_abort_sends_nothing_whatever_the_policy() {
    for policy in [OnTransactionDrop::Abort, OnTransactionDrop::Commit] {
        let mut tx = Transaction::new(9u32);
        tx.on_drop(policy);
        assert!(tx.abort().is_some());
        assert_eq!(tx.drop(), TEAR_DOWN_ONLY);

        let mut tx = Transaction::new(9u32);
        assert!(tx.abort().is_some());
        tx.on_drop(policy);
        assert_eq!(tx.drop(), TEAR_DOWN_ONLY);
    }
}

#[test]
fn second_drop_leaves_nothing_to_do() {
    let mut tx = Transaction::new(9u32);
    assert_eq!(tx.drop(), Cleanup { free_listeners: true, request: Some(Intent::Abort) });
    assert_eq!(tx.drop(), NOTHING);
    tx.on_drop(OnTransactionDrop::Abort);
    assert_eq!(tx.drop(), NOTHING);
}

#[test]
fn dropped_handle_asks_the_store_nothing_more() {
    let mut tx = Transaction::new(9u32);
    tx.on_drop(OnTransactionDrop::Commit);
    assert_eq!(tx.drop(), TEAR_DOWN_ONLY);
    assert_eq!(tx.commit(), None);
    assert_eq!(tx.abort(), None);
}

#[test]
fn abandoned_wait_rolls_nothing_back() {
    let mut tx = Transaction::new(9u32);
    let waiting = tx.commit().unwrap().requested(Ok(())).unwrap();
    std::mem::drop(waiting);
    assert_eq!(tx.drop(), TEAR_DOWN_ONLY);
}

#[test]
fn rejected_request_is_not_followed_by_an_abort() {
    let mut tx = Transaction::new(9u32);
    let rejection = idb_transaction::NativeError {
        name: String::from("InvalidStateError"),
        message: String::new(),
    };
    assert!(tx.commit().unwrap().requested(Err(rejection)).is_err());
    assert_eq!(tx.drop(), TEAR_DOWN_ONLY);
}
