//! What holds over the whole life of a handle, whatever is done with it and in
//! whatever order.

use vstd::prelude::*;
use crate::error::{Error, IntentMismatchError, NativeError};
use crate::finalization::answered;
use crate::notification::{outcome, Intent, TerminalNotification};
use crate::state::State;
use crate::transaction::OnTransactionDrop;

verus! {

/// One thing that can be done with a handle.
pub enum Op {
    /// Set the policy for letting go.
    OnDrop(OnTransactionDrop),
    /// Ask for a commit.
    Commit,
    /// Ask for an abort.
    Abort,
    /// Let go of the handle.
    Drop,
}

impl State {
    /// The state after `op`.
    pub open spec fn after(self, op: Op) -> State {
        match op {
            Op::OnDrop(on_drop) => self.with_policy(on_drop),
            Op::Commit => self.finalized(),
            Op::Abort => self.finalized(),
            Op::Drop => self.dropped(),
        }
    }

    /// The request that `op` sends to the store, if any.
    pub open spec fn sends(self, op: Op) -> Option<Intent> {
        match op {
            Op::OnDrop(_) => None,
            Op::Commit => self.issues(Intent::Commit),
            Op::Abort => self.issues(Intent::Abort),
            Op::Drop => self.cleanup().request,
        }
    }

    /// Whether `op` tears the subscription down.
    pub open spec fn frees(self, op: Op) -> bool {
        match op {
            Op::Drop => self.cleanup().free_listeners,
            _ => false,
        }
    }
}

/// The state in which `ops`, done one after another and starting in `state`,
/// leave the handle.
pub open spec fn end(state: State, ops: Seq<Op>) -> State
    decreases ops.len(),
{
    if ops.len() == 0 {
        state
    } else {
        end(state.after(ops[0]), ops.drop_first())
    }
}

/// The requests that go to the store while `ops` are done one after another,
/// starting in `state`, in the order in which they go.
pub open spec fn requests(state: State, ops: Seq<Op>) -> Seq<Intent>
    decreases ops.len(),
{
    if ops.len() == 0 {
        Seq::empty()
    } else {
        let rest = requests(state.after(ops[0]), ops.drop_first());
        match state.sends(ops[0]) {
            Some(request) => seq![request] + rest,
            None => rest,
        }
    }
}

/// How often the subscription is torn down while `ops` are done one after
/// another, starting in `state`.
pub open spec fn teardowns(state: State, ops: Seq<Op>) -> nat
    decreases ops.len(),
{
    if ops.len() == 0 {
        0
    } else {
        let rest = teardowns(state.after(ops[0]), ops.drop_first());
        if state.frees(ops[0]) {
            1 + rest
        } else {
            rest
        }
    }
}

/// Committing a handle that is not finalized sends the commit to the store.
/// When the store has accepted it, the caller is told: success if the
/// transaction committed; the store's error, as it is, if the transaction
/// failed; and that the transaction was aborted, if it was.
pub proof fn commit_is_told_by_notification(state: State, notification: TerminalNotification)
    requires
        !state.done,
    ensures
        state.issues(Intent::Commit) == Some(Intent::Commit),
        answered(Intent::Commit, Ok(())) == Ok::<Intent, Error>(Intent::Commit),
        outcome(Intent::Commit, notification) == (match notification {
            TerminalNotification::Committed => Ok::<(), Error>(()),
            TerminalNotification::Errored(error) => Err(error),
            TerminalNotification::Aborted => Err(
                Error::IntentMismatch(IntentMismatchError::TransactionAborted),
            ),
        }),
{
}

/// Aborting a handle that is not finalized sends the abort to the store. When
/// the store has accepted it, the caller is told: success if the transaction
/// aborted; the store's error, as it is, if the transaction failed; and that
/// the transaction was committed, if it was.
pub proof fn abort_is_told_by_notification(state: State, notification: TerminalNotification)
    requires
        !state.done,
    ensures
        state.issues(Intent::Abort) == Some(Intent::Abort),
        answered(Intent::Abort, Ok(())) == Ok::<Intent, Error>(Intent::Abort),
        outcome(Intent::Abort, notification) == (match notification {
            TerminalNotification::Aborted => Ok::<(), Error>(()),
            TerminalNotification::Errored(error) => Err(error),
            TerminalNotification::Committed => Err(
                Error::IntentMismatch(IntentMismatchError::TransactionCommitted),
            ),
        }),
{
}

/// A request that the store rejects at once ends the finalization with that
/// rejection: no notification is awaited.
pub proof fn rejection_is_the_outcome(intent: Intent, rejection: NativeError)
    ensures
        answered(intent, Err(rejection)) == Err::<Intent, Error>(Error::NativeInvocation(rejection)),
{
}

/// Letting go of a handle that is not finalized and whose policy is to abort
/// sends one abort to the store, and no commit.
pub proof fn drop_with_abort_policy_aborts_once(state: State)
    requires
        !state.done,
        state.on_drop == OnTransactionDrop::Abort,
    ensures
        requests(state, seq![Op::Drop]) == seq![Intent::Abort],
{
    assert(seq![Op::Drop].drop_first() =~= Seq::<Op>::empty());
    assert(requests(state.dropped(), Seq::<Op>::empty()) =~= Seq::<Intent>::empty());
    assert(requests(state, seq![Op::Drop]) =~= seq![Intent::Abort]);
}

/// Letting go of a handle that is not finalized and whose policy is to commit
/// sends nothing to the store.
pub proof fn drop_with_commit_policy_sends_nothing(state: State)
    requires
        !state.done,
        state.on_drop == OnTransactionDrop::Commit,
    ensures
        requests(state, seq![Op::Drop]) == Seq::<Intent>::empty(),
{
    assert(seq![Op::Drop].drop_first() =~= Seq::<Op>::empty());
    assert(requests(state.dropped(), Seq::<Op>::empty()) =~= Seq::<Intent>::empty());
}

/// A handle that is finalized stays so, whatever is done with it.
pub proof fn finalized_for_good(state: State, ops: Seq<Op>)
    requires
        state.done,
    ensures
        end(state, ops).done,
    decreases ops.len(),
{
    if ops.len() > 0 {
        finalized_for_good(state.after(ops[0]), ops.drop_first());
    }
}

/// Once a handle is finalized, nothing that is done with it sends anything to
/// the store: not letting go of it, whatever policy is set before or after,
/// and not asking for an ending again.
pub proof fn finalized_sends_nothing(state: State, ops: Seq<Op>)
    requires
        state.done,
    ensures
        requests(state, ops) == Seq::<Intent>::empty(),
    decreases ops.len(),
{
    if ops.len() > 0 {
        finalized_sends_nothing(state.after(ops[0]), ops.drop_first());
    }
}

/// Over the whole life of a handle at most one request goes to the store: of
/// a commit, an abort and letting go, only the first can send one.
pub proof fn at_most_one_request(state: State, ops: Seq<Op>)
    ensures
        requests(state, ops).len() <= 1,
    decreases ops.len(),
{
    if ops.len() > 0 {
        if state.sends(ops[0]) is Some {
            finalized_sends_nothing(state.after(ops[0]), ops.drop_first());
        } else {
            at_most_one_request(state.after(ops[0]), ops.drop_first());
        }
    }
}

/// Whatever is done with a handle, its subscription is torn down at most
/// once, and not at all if it was torn down before.
pub proof fn at_most_one_teardown(state: State, ops: Seq<Op>)
    ensures
        teardowns(state, ops) <= 1,
        !state.listening ==> teardowns(state, ops) == 0,
    decreases ops.len(),
{
    if ops.len() > 0 {
        at_most_one_teardown(state.after(ops[0]), ops.drop_first());
    }
}

/// A life that ends with letting go of the handle tears the subscription down
/// once if it was in place at the start, whatever was done in between.
pub proof fn teardown_once(state: State, ops: Seq<Op>)
    ensures
        teardowns(state, ops.push(Op::Drop)) == (if state.listening { 1nat } else { 0nat }),
    decreases ops.len(),
{
    let life = ops.push(Op::Drop);
    if ops.len() == 0 {
        assert(life.drop_first() =~= Seq::<Op>::empty());
        assert(teardowns(state.dropped(), Seq::<Op>::empty()) == 0);
    } else {
        assert(life[0] == ops[0]);
        assert(life.drop_first() =~= ops.drop_first().push(Op::Drop));
        teardown_once(state.after(ops[0]), ops.drop_first());
    }
}

/// In the life of a new handle, ended by a commit, by an abort or by nothing
/// but letting go, the subscription is torn down exactly once.
pub proof fn new_handle_tears_down_once(ops: Seq<Op>)
    ensures
        teardowns(State::fresh(), ops.push(Op::Drop)) == 1,
{
    teardown_once(State::fresh(), ops);
}

} // verus!
