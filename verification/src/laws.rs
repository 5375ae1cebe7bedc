use vstd::prelude::*;

use crate::session::{op_step, op_succeeds, SessionOp, SessionState};

verus! {

/// The state after a sequence of attempted transitions, applied in order.
pub open spec fn run_ops(s: SessionState, ops: Seq<SessionOp>) -> SessionState
    decreases ops.len(),
{
    if ops.len() == 0 {
        s
    } else {
        run_ops(op_step(s, ops[0]), ops.drop_first())
    }
}

/// The last attempt of the sequence that succeeded from the state it met,
/// if any attempt did.
pub open spec fn last_successful_op(s: SessionState, ops: Seq<SessionOp>) -> Option<SessionOp>
    decreases ops.len(),
{
    if ops.len() == 0 {
        None
    } else {
        let later = last_successful_op(op_step(s, ops[0]), ops.drop_first());
        if later is Some {
            later
        } else if op_succeeds(s, ops[0]) {
            Some(ops[0])
        } else {
            None
        }
    }
}

/// A failed attempt never moves the state: the machine reflects only
/// successful transitions.
pub proof fn lemma_failed_op_keeps_state(s: SessionState, op: SessionOp)
    requires
        !op_succeeds(s, op),
    ensures
        op_step(s, op) == s,
{
}

/// After any sequence of start/stop attempts, the session is streaming
/// exactly when the last successful transition was a start — or when no
/// attempt succeeded and the session was streaming to begin with.
pub proof fn lemma_state_reflects_last_success(s: SessionState, ops: Seq<SessionOp>)
    ensures
        run_ops(s, ops) is Streaming <==> (match last_successful_op(s, ops) {
            Some(op) => op is Start,
            None => s is Streaming,
        }),
    decreases ops.len(),
{
    if ops.len() > 0 {
        lemma_state_reflects_last_success(op_step(s, ops[0]), ops.drop_first());
    }
}

/// Two start attempts admitted one after the other against an idle session:
/// in no case do both succeed, and when the launcher can spawn, the first
/// succeeds and the second is always rejected.
pub proof fn lemma_second_start_rejected(first: SessionOp, second: SessionOp)
    requires
        first is Start,
        second is Start,
    ensures
        !(op_succeeds(SessionState::Idle, first) && op_succeeds(
            op_step(SessionState::Idle, first),
            second,
        )),
        first == (SessionOp::Start { launch_ok: true }) ==> op_succeeds(SessionState::Idle, first)
            && !op_succeeds(op_step(SessionState::Idle, first), second),
{
}

/// A start attempted while streaming never succeeds and never moves the
/// state, whatever its launch outcome.
pub proof fn lemma_start_while_streaming(op: SessionOp)
    requires
        op is Start,
    ensures
        !op_succeeds(SessionState::Streaming, op),
        op_step(SessionState::Streaming, op) == SessionState::Streaming,
{
}

/// A stop attempted while idle never succeeds and never moves the state,
/// whatever its termination outcome.
pub proof fn lemma_stop_while_idle(op: SessionOp)
    requires
        op is Stop,
    ensures
        !op_succeeds(SessionState::Idle, op),
        op_step(SessionState::Idle, op) == SessionState::Idle,
{
}

} // verus!
