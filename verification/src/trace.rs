//! Runs of an engine over a sequence of replies, and what a run conserves.
//!
//! An engine is a function from a state and a reply to the next state.  The
//! three engines of the relay share the definitions and the law of this module.
use vstd::prelude::*;

verus! {

/// The state after the replies of `replies`, one after the other.
pub open spec fn run<S, R>(step: spec_fn(S, R) -> S, state: S, replies: Seq<R>) -> S
    decreases replies.len(),
{
    if replies.len() == 0 {
        state
    } else {
        step(run(step, state, replies.drop_last()), replies.last())
    }
}

/// What `part` picks out of each step of a run, joined in the order of the
/// steps.
pub open spec fn along<S, R>(
    step: spec_fn(S, R) -> S,
    part: spec_fn(S, R) -> Seq<u8>,
    state: S,
    replies: Seq<R>,
) -> Seq<u8>
    decreases replies.len(),
{
    if replies.len() == 0 {
        Seq::empty()
    } else {
        along(step, part, state, replies.drop_last()) + part(
            run(step, state, replies.drop_last()),
            replies.last(),
        )
    }
}

/// Whether every step keeps the bytes that pass through the engine: what
/// leaves with the step, followed by what is held after it, is what was held
/// before it, followed by what enters with it.
pub open spec fn conserving<S, R>(
    step: spec_fn(S, R) -> S,
    held: spec_fn(S) -> Seq<u8>,
    leaving: spec_fn(S, R) -> Seq<u8>,
    entering: spec_fn(S, R) -> Seq<u8>,
) -> bool {
    forall|state: S, reply: R|
        leaving(state, reply) + held(#[trigger] step(state, reply)) == held(state) + entering(
            state,
            reply,
        )
}

/// If every step keeps the bytes, so does every run: all that left, followed
/// by what is held at the end, is what was held at the start, followed by all
/// that entered.  Nothing is lost, invented, repeated or reordered.
pub proof fn run_conserves<S, R>(
    step: spec_fn(S, R) -> S,
    held: spec_fn(S) -> Seq<u8>,
    leaving: spec_fn(S, R) -> Seq<u8>,
    entering: spec_fn(S, R) -> Seq<u8>,
    state: S,
    replies: Seq<R>,
)
    requires
        conserving(step, held, leaving, entering),
    ensures
        along(step, leaving, state, replies) + held(run(step, state, replies)) == held(state)
            + along(step, entering, state, replies),
    decreases replies.len(),
{
    if replies.len() == 0 {
        assert(along(step, leaving, state, replies) + held(state) =~= held(state) + along(
            step,
            entering,
            state,
            replies,
        ));
    } else {
        let before = replies.drop_last();
        let last = replies.last();
        let middle = run(step, state, before);
        run_conserves(step, held, leaving, entering, state, before);
        assert(leaving(middle, last) + held(step(middle, last)) == held(middle) + entering(
            middle,
            last,
        ));
        assert(along(step, leaving, state, replies) + held(run(step, state, replies)) =~= along(
            step,
            leaving,
            state,
            before,
        ) + (leaving(middle, last) + held(step(middle, last))));
        assert(along(step, leaving, state, before) + (held(middle) + entering(middle, last)) =~= (
        along(step, leaving, state, before) + held(middle)) + entering(middle, last));
        assert(held(state) + along(step, entering, state, replies) =~= (held(state) + along(
            step,
            entering,
            state,
            before,
        )) + entering(middle, last));
    }
}

/// A state that no reply changes is the state at the end of every run from it,
/// and nothing is picked out along such a run by a part that is empty there.
pub proof fn run_of_fixed_state<S, R>(
    step: spec_fn(S, R) -> S,
    part: spec_fn(S, R) -> Seq<u8>,
    state: S,
    replies: Seq<R>,
)
    requires
        forall|reply: R| #[trigger] step(state, reply) == state,
        forall|reply: R| #[trigger] part(state, reply) == Seq::<u8>::empty(),
    ensures
        run(step, state, replies) == state,
        along(step, part, state, replies) == Seq::<u8>::empty(),
    decreases replies.len(),
{
    if replies.len() > 0 {
        run_of_fixed_state(step, part, state, replies.drop_last());
        assert(step(state, replies.last()) == state);
        assert(part(state, replies.last()) == Seq::<u8>::empty());
    }
}

} // verus!
