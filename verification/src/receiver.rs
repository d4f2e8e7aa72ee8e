//! The one-shot signal that carries the store's notification from the events
//! of the store to the one who awaits the end of the transaction.
//!
//! The store may raise several events about one transaction, at any time, and
//! the subscription may be torn down at any time. Whatever the order, the one
//! who awaits receives at most one notification, the first that arrived while
//! the subscription was in place, and none after the subscription was torn
//! down.

use vstd::prelude::*;
use crate::notification::TerminalNotification;

verus! {

/// Where the signal stands.
pub enum Signal {
    /// Subscribed; the store has not ended the transaction yet.
    Waiting,
    /// The notification has arrived and has not been received.
    Arrived(TerminalNotification),
    /// Nothing will be received any more: the notification was received, or
    /// the subscription was torn down.
    Closed,
}

impl Signal {
    /// The signal after the store raised an event that means `notification`.
    /// Only the first one is kept, and only while the subscription is in
    /// place.
    pub open spec fn notified(self, notification: TerminalNotification) -> Signal {
        match self {
            Signal::Waiting => Signal::Arrived(notification),
            _ => self,
        }
    }

    /// What the one who awaits receives now, if anything.
    pub open spec fn ready(self) -> Option<TerminalNotification> {
        match self {
            Signal::Arrived(notification) => Some(notification),
            _ => None,
        }
    }

    /// The signal after the one who awaits asked for the notification.
    pub open spec fn received(self) -> Signal {
        match self {
            Signal::Arrived(_) => Signal::Closed,
            _ => self,
        }
    }
}

/// The receiving end of the subscription to the store's events about one
/// transaction.
#[derive(Debug)]
pub struct NotificationReceiver {
    arrived: Option<TerminalNotification>,
    open: bool,
}

impl View for NotificationReceiver {
    type V = Signal;

    closed spec fn view(&self) -> Signal {
        match self.arrived {
            Some(notification) => Signal::Arrived(notification),
            None => if self.open {
                Signal::Waiting
            } else {
                Signal::Closed
            },
        }
    }
}

impl NotificationReceiver {
    /// The receiver of a new subscription.
    pub fn subscribe() -> (receiver: Self)
        ensures
            receiver@ == Signal::Waiting,
    {
        NotificationReceiver { arrived: None, open: true }
    }

    /// Takes in what an event of the store means. The result says whether the
    /// notification was kept: it is, if it is the first and the subscription
    /// is in place.
    pub fn notify(&mut self, notification: TerminalNotification) -> (kept: bool)
        ensures
            final(self)@ == old(self)@.notified(notification),
            kept == (old(self)@ is Waiting),
    {
        if self.open && self.arrived.is_none() {
            self.arrived = Some(notification);
            self.open = false;
            true
        } else {
            false
        }
    }

    /// Hands out the notification if it has arrived and was not handed out
    /// before. On `None` the one who awaits has to go on waiting; after a
    /// teardown that wait does not end.
    pub fn try_recv(&mut self) -> (notification: Option<TerminalNotification>)
        ensures
            notification == old(self)@.ready(),
            final(self)@ == old(self)@.received(),
    {
        let notification = self.arrived.take();
        if notification.is_some() {
            self.open = false;
        }
        notification
    }

    /// Tears the subscription down. A notification that has arrived and was
    /// not received is dropped. Tearing down again changes nothing.
    pub fn teardown(&mut self)
        ensures
            final(self)@ == Signal::Closed,
    {
        self.arrived = None;
        self.open = false;
    }
}

/// One thing that happens to a subscription.
pub enum SignalOp {
    /// The store raises an event.
    Notify(TerminalNotification),
    /// The one who awaits asks for the notification.
    Recv,
    /// The subscription is torn down.
    Teardown,
}

impl Signal {
    /// The signal after `op`.
    pub open spec fn after(self, op: SignalOp) -> Signal {
        match op {
            SignalOp::Notify(notification) => self.notified(notification),
            SignalOp::Recv => self.received(),
            SignalOp::Teardown => Signal::Closed,
        }
    }

    /// What `op` hands to the one who awaits, if anything.
    pub open spec fn hands_out(self, op: SignalOp) -> Option<TerminalNotification> {
        match op {
            SignalOp::Recv => self.ready(),
            _ => None,
        }
    }
}

/// Everything that the one who awaits receives while `ops` happen one after
/// another, starting from `signal`.
pub open spec fn deliveries(signal: Signal, ops: Seq<SignalOp>) -> Seq<TerminalNotification>
    decreases ops.len(),
{
    if ops.len() == 0 {
        Seq::empty()
    } else {
        let rest = deliveries(signal.after(ops[0]), ops.drop_first());
        match signal.hands_out(ops[0]) {
            Some(notification) => seq![notification] + rest,
            None => rest,
        }
    }
}

/// After the notification was received or the subscription was torn down,
/// nothing is received any more, whatever the store still raises.
pub proof fn closed_delivers_nothing(ops: Seq<SignalOp>)
    ensures
        deliveries(Signal::Closed, ops) == Seq::<TerminalNotification>::empty(),
    decreases ops.len(),
{
    if ops.len() > 0 {
        closed_delivers_nothing(ops.drop_first());
    }
}

/// Once a notification has arrived, it is the only one that can be received:
/// what is received from then on is nothing or that notification alone.
pub proof fn arrived_is_the_only_delivery(notification: TerminalNotification, ops: Seq<SignalOp>)
    ensures
        deliveries(Signal::Arrived(notification), ops) == Seq::<TerminalNotification>::empty()
            || deliveries(Signal::Arrived(notification), ops) == seq![notification],
    decreases ops.len(),
{
    if ops.len() > 0 {
        match ops[0] {
            SignalOp::Notify(_) => arrived_is_the_only_delivery(notification, ops.drop_first()),
            SignalOp::Recv => {
                closed_delivers_nothing(ops.drop_first());
                assert(seq![notification] + Seq::<TerminalNotification>::empty()
                    =~= seq![notification]);
            },
            SignalOp::Teardown => closed_delivers_nothing(ops.drop_first()),
        }
    }
}

/// Whatever happens to a subscription and in whatever order, at most one
/// notification is ever received.
pub proof fn at_most_one_delivery(signal: Signal, ops: Seq<SignalOp>)
    ensures
        deliveries(signal, ops).len() <= 1,
    decreases ops.len(),
{
    match signal {
        Signal::Closed => closed_delivers_nothing(ops),
        Signal::Arrived(notification) => arrived_is_the_only_delivery(notification, ops),
        Signal::Waiting => {
            if ops.len() > 0 {
                at_most_one_delivery(signal.after(ops[0]), ops.drop_first());
            }
        },
    }
}

/// A notification that arrives at a new subscription is received by the next
/// one who asks, unless the subscription is torn down in between.
pub proof fn first_notification_is_received(notification: TerminalNotification)
    ensures
        deliveries(Signal::Waiting, seq![SignalOp::Notify(notification), SignalOp::Recv])
            == seq![notification],
        deliveries(
            Signal::Waiting,
            seq![SignalOp::Notify(notification), SignalOp::Teardown, SignalOp::Recv],
        ) == Seq::<TerminalNotification>::empty(),
{
    let ops = seq![SignalOp::Notify(notification), SignalOp::Recv];
    assert(ops.drop_first() =~= seq![SignalOp::Recv]);
    assert(ops.drop_first().drop_first() =~= Seq::<SignalOp>::empty());
    closed_delivers_nothing(Seq::<SignalOp>::empty());
    assert(deliveries(Signal::Arrived(notification), seq![SignalOp::Recv]) =~= seq![notification]);
    assert(deliveries(Signal::Waiting, ops) =~= seq![notification]);

    let torn = seq![SignalOp::Notify(notification), SignalOp::Teardown, SignalOp::Recv];
    assert(torn.drop_first() =~= seq![SignalOp::Teardown, SignalOp::Recv]);
    assert(torn.drop_first().drop_first() =~= seq![SignalOp::Recv]);
    closed_delivers_nothing(seq![SignalOp::Recv]);
    assert(deliveries(Signal::Arrived(notification), torn.drop_first())
        =~= Seq::<TerminalNotification>::empty());
}

/// Asking before anything has arrived gives nothing and changes nothing: the
/// one who asks has to wait.
pub proof fn waiting_hands_out_nothing()
    ensures
        Signal::Waiting.ready() is None,
        Signal::Waiting.received() == Signal::Waiting,
{
}

} // verus!
