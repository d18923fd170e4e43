//! The mailbox dispatch model and the calling-convention decisions.
//!
//! A mailbox is an ordered, single-consumer queue of envelopes for one
//! actor; its runner applies them strictly in send order, one at a time,
//! with exclusive access to the actor's state. `dispatch_state` and
//! `dispatch_responses` are the model of that loop: the state after a queue
//! of messages has been applied, and the response each message produced.
//! The lemmas below are the ordering and no-lost-update guarantees that
//! sequential dispatch buys.
//!
//! The executable functions are the decisions the runtime takes around its
//! suspension points: what the dispatch loop does with one receive outcome,
//! and how `tell`/`ask` report an enqueue or reply outcome to the caller.
//! The embedding layer performs the waiting and hands the outcomes here.

use vstd::prelude::*;

use crate::errors::ActorError;

verus! {

/// State an actor is left in after a queue of messages has been applied in
/// order, one handler call at a time, starting from `s0`. The handler maps
/// (state, message) to (next state, response).
pub open spec fn dispatch_state<S, M, R>(h: spec_fn(S, M) -> (S, R), s0: S, msgs: Seq<M>) -> S
    decreases msgs.len(),
{
    if msgs.len() == 0 {
        s0
    } else {
        h(dispatch_state(h, s0, msgs.drop_last()), msgs.last()).0
    }
}

/// Responses the queue produced, in the order the messages were applied.
pub open spec fn dispatch_responses<S, M, R>(h: spec_fn(S, M) -> (S, R), s0: S, msgs: Seq<M>) -> Seq<
    R,
>
    decreases msgs.len(),
{
    if msgs.len() == 0 {
        Seq::empty()
    } else {
        dispatch_responses(h, s0, msgs.drop_last()).push(
            h(dispatch_state(h, s0, msgs.drop_last()), msgs.last()).1,
        )
    }
}

/// Every message is answered: one response per message, none dropped and
/// none duplicated.
pub proof fn lemma_dispatch_answers_each_message<S, M, R>(
    h: spec_fn(S, M) -> (S, R),
    s0: S,
    msgs: Seq<M>,
)
    ensures
        dispatch_responses(h, s0, msgs).len() == msgs.len(),
    decreases msgs.len(),
{
    if msgs.len() > 0 {
        lemma_dispatch_answers_each_message(h, s0, msgs.drop_last());
    }
}

/// FIFO dispatch: the i-th response is the handler's answer to the i-th
/// message, computed in the state left behind by the first i messages —
/// no reordering and no concurrent application.
pub proof fn lemma_dispatch_in_send_order<S, M, R>(
    h: spec_fn(S, M) -> (S, R),
    s0: S,
    msgs: Seq<M>,
    i: int,
)
    requires
        0 <= i < msgs.len(),
    ensures
        dispatch_responses(h, s0, msgs)[i] == h(
            dispatch_state(h, s0, msgs.take(i)),
            msgs[i],
        ).1,
    decreases msgs.len(),
{
    lemma_dispatch_answers_each_message(h, s0, msgs.drop_last());
    if i == msgs.len() - 1 {
        assert(msgs.take(i) =~= msgs.drop_last());
    } else {
        lemma_dispatch_in_send_order(h, s0, msgs.drop_last(), i);
        assert(msgs.drop_last().take(i) =~= msgs.take(i));
        assert(msgs.drop_last()[i] == msgs[i]);
    }
}

/// The handler of a counting actor: each message increments the counter
/// and is answered with the new value.
pub open spec fn counter_handler<M>() -> spec_fn(nat, M) -> (nat, nat) {
    |c: nat, _m: M| ((c + 1) as nat, (c + 1) as nat)
}

/// No lost updates: a serialized dispatch of n incrementing envelopes —
/// whatever concurrent interleaving enqueued them — advances the counter
/// by exactly n, with no duplicate and no skipped application.
pub proof fn lemma_counter_no_lost_update<M>(c0: nat, msgs: Seq<M>)
    ensures
        dispatch_state(counter_handler::<M>(), c0, msgs) == c0 + msgs.len(),
    decreases msgs.len(),
{
    if msgs.len() > 0 {
        lemma_counter_no_lost_update(c0, msgs.drop_last());
    }
}

/// Sequential asks of a counting actor starting at zero are answered
/// 1, 2, …, n in exactly that order: the i-th reply is i + 1.
pub proof fn lemma_counter_responses_in_order<M>(c0: nat, msgs: Seq<M>, i: int)
    requires
        0 <= i < msgs.len(),
    ensures
        dispatch_responses(counter_handler::<M>(), c0, msgs).len() == msgs.len(),
        dispatch_responses(counter_handler::<M>(), c0, msgs)[i] == c0 + i + 1,
{
    lemma_dispatch_answers_each_message(counter_handler::<M>(), c0, msgs);
    lemma_dispatch_in_send_order(counter_handler::<M>(), c0, msgs, i);
    lemma_counter_no_lost_update(c0, msgs.take(i));
    assert(msgs.take(i).len() == i);
}

/// What the dispatch loop does after one wait at its only suspension
/// point.
#[derive(Debug, PartialEq)]
pub enum LoopAction<T> {
    /// An envelope arrived: apply it to the owned actor state, then wait
    /// again.
    Apply(T),
    /// No envelope can ever arrive again: leave the loop and release the
    /// actor state.
    Exit,
}

/// The dispatch loop's decision for one receive outcome: a delivered
/// envelope is applied, a closed mailbox ends the loop. Nothing else ever
/// stops the loop, and a delivered envelope is never skipped.
pub fn runner_step<T>(received: Option<T>) -> (a: LoopAction<T>)
    ensures
        match received {
            Some(envelope) => a == LoopAction::Apply(envelope),
            None => a == LoopAction::<T>::Exit,
        },
{
    match received {
        Some(envelope) => LoopAction::Apply(envelope),
        None => LoopAction::Exit,
    }
}

/// How `tell` reports a fire-and-forget send: success as soon as the
/// envelope was enqueued, `SendFailure` exactly when the mailbox was
/// closed so the enqueue was refused.
pub fn tell_outcome(enqueued: bool) -> (r: Result<(), ActorError>)
    ensures
        enqueued ==> r == Ok::<(), ActorError>(()),
        !enqueued ==> r == Err::<(), ActorError>(ActorError::SendFailure),
{
    if enqueued {
        Ok(())
    } else {
        Err(ActorError::SendFailure)
    }
}

/// How `ask` reports a request/response exchange: `SendFailure` exactly
/// when the mailbox was closed before the envelope could be enqueued;
/// otherwise the reply is returned when one arrived, and `AskFailure`
/// exactly when the response channel was dropped without a reply (the
/// actor ended mid-flight, so the message's effect is unknown).
pub fn ask_outcome<R>(enqueued: bool, reply: Option<R>) -> (r: Result<R, ActorError>)
    ensures
        !enqueued ==> r == Err::<R, ActorError>(ActorError::SendFailure),
        enqueued ==> match reply {
            Some(response) => r == Ok::<R, ActorError>(response),
            None => r == Err::<R, ActorError>(ActorError::AskFailure),
        },
{
    if !enqueued {
        Err(ActorError::SendFailure)
    } else {
        match reply {
            Some(response) => Ok(response),
            None => Err(ActorError::AskFailure),
        }
    }
}

} // verus!
