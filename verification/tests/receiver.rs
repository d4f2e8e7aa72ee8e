use idb_transaction::{
    Error, IntentMismatchError, NativeError, NotificationReceiver, TerminalNotification,
};

fn quota_error() -> TerminalNotification {
    TerminalNotification::Errored(Error::Store(NativeError {
        name: String::from("QuotaExceededError"),
        message: String::from("The disk is full."),
    }))
}

#[test]
fn new_subscription_has_nothing_to_hand_out() {
    let mut receiver = NotificationReceiver::subscribe();
    assert_eq!(receiver.try_recv(), None);
    assert_eq!(receiver.try_recv(), None);
    assert!(receiver.notify(TerminalNotification::Committed));
    assert_eq!(receiver.try_recv(), Some(TerminalNotification::Committed));
}

#[test]
fn notification_is_handed_out_once() {
    let mut receiver = NotificationReceiver::subscribe();
    assert!(receiver.notify(TerminalNotification::Aborted));
    assert_eq!(receiver.try_recv(), Some(TerminalNotification::Aborted));
    assert_eq!(receiver.try_recv(), None);
}

#[test]
fn first_notification_wins() {
    let mut receiver = NotificationReceiver::subscribe();
    assert!(receiver.notify(quota_error()));
    assert!(!receiver.notify(TerminalNotification::Aborted));
    assert_eq!(receiver.try_recv(), Some(quota_error()));
    assert!(!receiver.notify(TerminalNotification::Committed));
    assert_eq!(receiver.try_recv(), None);
}

#[test]
fn teardown_before_anything_arrived_closes_the_subscription() {
    let mut receiver = NotificationReceiver::subscribe();
    receiver.teardown();
    assert!(!receiver.notify(TerminalNotification::Committed));
    assert_eq!(receiver.try_recv(), None);
}

#[test]
fn teardown_drops_what_was_not_received() {
    let mut receiver = NotificationReceiver::subscribe();
    assert!(receiver.notify(TerminalNotification::Committed));
    receiver.teardown();
    assert_eq!(receiver.try_recv(), None);
}

#[test]
fn teardown_can_be_repeated() {
    let mut receiver = NotificationReceiver::subscribe();
    receiver.teardown();
    receiver.teardown();
    assert_eq!(receiver.try_recv(), None);

    let mut receiver = NotificationReceiver::subscribe();
    assert!(receiver.notify(TerminalNotification::Aborted));
    assert_eq!(receiver.try_recv(), Some(TerminalNotification::Aborted));
    receiver.teardown();
    receiver.teardown();
    assert!(!receiver.notify(TerminalNotification::Aborted));
    assert_eq!(receiver.try_recv(), None);
}

#[derive(Clone, Debug)]
enum Op {
    Notify(TerminalNotification),
    Recv,
    Teardown,
}

fn received(ops: &[Op]) -> Vec<TerminalNotification> {
    let mut receiver = NotificationReceiver::subscribe();
    let mut all = Vec::new();
    for op in ops {
        match op {
            Op::Notify(notification) => {
                let _ = receiver.notify(notification.clone());
            }
            Op::Recv => all.extend(receiver.try_recv()),
            Op::Teardown => receiver.teardown(),
        }
    }
    all
}

#[test]
fn no_order_of_events_delivers_twice() {
    let ops = [
        Op::Notify(TerminalNotification::Committed),
        Op::Notify(TerminalNotification::Aborted),
        Op::Notify(TerminalNotification::Errored(Error::IntentMismatch(
            IntentMismatchError::TransactionAborted,
        ))),
        Op::Recv,
        Op::Teardown,
    ];
    let mut sequences: Vec<Vec<Op>> = vec![Vec::new()];
    for _ in 0..5 {
        let mut longer = Vec::new();
        for sequence in &sequences {
            for op in &ops {
                let mut next = sequence.clone();
                next.push(op.clone());
                longer.push(next);
            }
        }
        for sequence in &longer {
            let all = received(sequence);
            assert!(all.len() <= 1, "{:?} delivered {:?}", sequence, all);
            let first = sequence.iter().find_map(|op| match op {
                Op::Notify(notification) => Some(notification),
                _ => None,
            });
            assert!(all.first() == None || all.first() == first, "{:?}", sequence);
        }
        sequences = longer;
    }
}
