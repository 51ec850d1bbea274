//! What holds of every call, whatever its driver reports.

use crate::machine::{actions_left, next_state, run, EventView, StateView};
use crate::outcome::{signal_of, Failure, Outcome, SIGNAL_FAILURE, SIGNAL_SUCCESS};
use vstd::prelude::*;

verus! {

/// Whether `event` reports that both strings were decoded.
pub open spec fn both_decoded(event: EventView) -> bool {
    event matches EventView::Decoded { latex: Some(_), destination: Some(_) }
}

/// Whether `event` reports a document from the engine.
pub open spec fn has_document(event: EventView) -> bool {
    event matches EventView::Compiled(Some(_))
}

/// A call that is over stays over, with the outcome it had: no later report
/// changes what the host is told.
pub proof fn lemma_done_is_final(outcome: Outcome, events: Seq<EventView>)
    ensures
        run(StateView::Done(outcome), events) == StateView::Done(outcome),
    decreases events.len(),
{
    if events.len() > 0 {
        lemma_done_is_final(outcome, events.drop_last());
    }
}

/// Each report takes at least one action off what is left, until none is.
pub proof fn lemma_actions_left_shrinks(state: StateView, events: Seq<EventView>)
    ensures
        run(state, events) is Done || actions_left(run(state, events)) + events.len()
            <= actions_left(state),
    decreases events.len(),
{
    if events.len() > 0 {
        lemma_actions_left_shrinks(state, events.drop_last());
    }
}

/// Every call comes to an end: from any state, as many reports as there are
/// actions left lead to `Done`, and a call asks for three actions at most.
pub proof fn lemma_run_ends(state: StateView, events: Seq<EventView>)
    requires
        events.len() >= actions_left(state),
    ensures
        run(state, events) is Done,
        actions_left(state) <= 3,
{
    lemma_actions_left_shrinks(state, events);
}

/// The host is told of success exactly when every step succeeded: both
/// strings were decoded, the engine then answered with a document, and the
/// file was then written to the end.
pub proof fn lemma_success_needs_every_step(events: Seq<EventView>)
    ensures
        run(StateView::Decoding, events) == StateView::Done(Outcome::Succeeded) <==> {
            &&& events.len() >= 3
            &&& both_decoded(events[0])
            &&& has_document(events[1])
            &&& events[2] == EventView::Written(true)
        },
{
    if events.len() >= 3 {
        lemma_run_from_three(StateView::Decoding, events);
        let third = next_state(
            next_state(next_state(StateView::Decoding, events[0]), events[1]),
            events[2],
        );
        assert(third is Done);
        lemma_done_is_final(third->Done_0, events.skip(3));
    } else {
        lemma_short_run(events);
    }
}

/// The engine is asked at one point only: right after both strings were
/// decoded. It is asked for the decoded source as it came.
pub proof fn lemma_engine_gets_decoded_source(events: Seq<EventView>)
    ensures
        run(StateView::Decoding, events) is Compiling <==> events.len() == 1 && both_decoded(
            events[0],
        ),
        run(StateView::Decoding, events) is Compiling ==> run(StateView::Decoding, events) == (
        StateView::Compiling {
            latex: events[0]->latex->Some_0,
            destination: events[0]->destination->Some_0,
        }),
{
    if events.len() >= 3 {
        lemma_run_ends(StateView::Decoding, events);
    } else {
        lemma_short_run(events);
    }
}

/// A write is asked for at one point only: right after the engine has
/// answered with a document. It is asked for the decoded destination, and with
/// the engine's bytes as they came.
pub proof fn lemma_write_is_engine_output(events: Seq<EventView>)
    ensures
        run(StateView::Decoding, events) is Writing <==> {
            &&& events.len() == 2
            &&& both_decoded(events[0])
            &&& has_document(events[1])
        },
        run(StateView::Decoding, events) is Writing ==> run(StateView::Decoding, events) == (
        StateView::Writing {
            destination: events[0]->destination->Some_0,
            bytes: events[1]->Compiled_0->Some_0,
        }),
{
    if events.len() >= 3 {
        lemma_run_ends(StateView::Decoding, events);
    } else {
        lemma_short_run(events);
    }
}

/// Where a string cannot be decoded, the call fails with `Failure::Decoding`,
/// and at no point of it is the engine asked or a write asked for.
pub proof fn lemma_undecoded_call_fails(events: Seq<EventView>, k: int)
    requires
        events.len() >= 1,
        events[0] is Decoded,
        !both_decoded(events[0]),
        0 <= k <= events.len(),
    ensures
        run(StateView::Decoding, events) == StateView::Done(Outcome::Failed(Failure::Decoding)),
        !(run(StateView::Decoding, events.take(k)) is Compiling),
        !(run(StateView::Decoding, events.take(k)) is Writing),
{
    lemma_engine_gets_decoded_source(events.take(k));
    lemma_write_is_engine_output(events.take(k));
    lemma_run_from_first(StateView::Decoding, events);
    lemma_done_is_final(Outcome::Failed(Failure::Decoding), events.skip(1));
}

/// Where the engine rejects the source, the call fails with
/// `Failure::Compilation`, and at no point of it is a write asked for: the
/// destination is left as it was.
pub proof fn lemma_rejected_source_is_never_written(events: Seq<EventView>, k: int)
    requires
        events.len() >= 2,
        both_decoded(events[0]),
        events[1] == EventView::Compiled(None),
        0 <= k <= events.len(),
    ensures
        run(StateView::Decoding, events) == StateView::Done(
            Outcome::Failed(Failure::Compilation),
        ),
        !(run(StateView::Decoding, events.take(k)) is Writing),
{
    lemma_write_is_engine_output(events.take(k));
    lemma_run_from_two(StateView::Decoding, events);
    lemma_done_is_final(Outcome::Failed(Failure::Compilation), events.skip(2));
}

/// Where the file cannot be created or written to the end, the call fails
/// with `Failure::Io`.
pub proof fn lemma_failed_write_fails_the_call(events: Seq<EventView>)
    requires
        events.len() >= 3,
        both_decoded(events[0]),
        has_document(events[1]),
        events[2] == EventView::Written(false),
    ensures
        run(StateView::Decoding, events) == StateView::Done(Outcome::Failed(Failure::Io)),
{
    lemma_run_from_three(StateView::Decoding, events);
    lemma_done_is_final(Outcome::Failed(Failure::Io), events.skip(3));
}

/// A fault in an action ends the call with `Failure::Internal`, whatever the
/// action was.
pub proof fn lemma_fault_fails_the_call(state: StateView, events: Seq<EventView>)
    requires
        !(state is Done),
        events.len() >= 1,
        events[0] == EventView::Fault,
    ensures
        run(state, events) == StateView::Done(Outcome::Failed(Failure::Internal)),
{
    lemma_run_from_first(state, events);
    lemma_done_is_final(Outcome::Failed(Failure::Internal), events.skip(1));
}

/// Two calls behave alike as long as they are told the same. If decoding and
/// the engine answer both alike, both ask for the same write or for none; if
/// the write then ends alike too, both end in the same state, so the host gets
/// the same byte.
pub proof fn lemma_repeated_call_repeats(first: Seq<EventView>, second: Seq<EventView>)
    requires
        first.len() >= 3,
        second.len() >= 3,
        first[0] == second[0],
        first[1] == second[1],
    ensures
        run(StateView::Decoding, first.take(2)) == run(StateView::Decoding, second.take(2)),
        first[2] == second[2] ==> run(StateView::Decoding, first) == run(
            StateView::Decoding,
            second,
        ),
{
    lemma_short_run(first.take(2));
    lemma_short_run(second.take(2));
    lemma_run_from_three(StateView::Decoding, first);
    lemma_run_from_three(StateView::Decoding, second);
    let after_first = next_state(
        next_state(next_state(StateView::Decoding, first[0]), first[1]),
        first[2],
    );
    let after_second = next_state(
        next_state(next_state(StateView::Decoding, second[0]), second[1]),
        second[2],
    );
    assert(after_first is Done);
    assert(after_second is Done);
    lemma_done_is_final(after_first->Done_0, first.skip(3));
    lemma_done_is_final(after_second->Done_0, second.skip(3));
}

/// The byte for the host is one of two, and it is the one for success exactly
/// when the call succeeded.
pub proof fn lemma_signal_is_one_of_two(outcome: Outcome)
    ensures
        signal_of(outcome) == SIGNAL_SUCCESS || signal_of(outcome) == SIGNAL_FAILURE,
        SIGNAL_SUCCESS != SIGNAL_FAILURE,
        signal_of(outcome) == SIGNAL_SUCCESS <==> outcome == Outcome::Succeeded,
{
}

/// A run goes through its first report and then through the rest.
proof fn lemma_run_from_first(state: StateView, events: Seq<EventView>)
    requires
        events.len() >= 1,
    ensures
        run(state, events) == run(next_state(state, events[0]), events.skip(1)),
    decreases events.len(),
{
    if events.len() == 1 {
        assert(events.drop_last().len() == 0);
        assert(events.skip(1).len() == 0);
        reveal_with_fuel(run, 2);
    } else {
        lemma_run_from_first(state, events.drop_last());
        assert(events.drop_last().skip(1) =~= events.skip(1).drop_last());
        assert(events.drop_last()[0] == events[0]);
        assert(events.skip(1).last() == events.last());
    }
}

/// A run goes through its first two reports and then through the rest.
proof fn lemma_run_from_two(state: StateView, events: Seq<EventView>)
    requires
        events.len() >= 2,
    ensures
        run(state, events) == run(
            next_state(next_state(state, events[0]), events[1]),
            events.skip(2),
        ),
{
    lemma_run_from_first(state, events);
    lemma_run_from_first(next_state(state, events[0]), events.skip(1));
    assert(events.skip(1).skip(1) =~= events.skip(2));
    assert(events.skip(1)[0] == events[1]);
}

/// A run goes through its first three reports and then through the rest.
proof fn lemma_run_from_three(state: StateView, events: Seq<EventView>)
    requires
        events.len() >= 3,
    ensures
        run(state, events) == run(
            next_state(next_state(next_state(state, events[0]), events[1]), events[2]),
            events.skip(3),
        ),
{
    lemma_run_from_two(state, events);
    lemma_run_from_first(next_state(next_state(state, events[0]), events[1]), events.skip(2));
    assert(events.skip(2).skip(1) =~= events.skip(3));
    assert(events.skip(2)[0] == events[2]);
}

/// A run of fewer than three reports, step by step.
proof fn lemma_short_run(events: Seq<EventView>)
    requires
        events.len() < 3,
    ensures
        events.len() == 0 ==> run(StateView::Decoding, events) == StateView::Decoding,
        events.len() == 1 ==> run(StateView::Decoding, events) == next_state(
            StateView::Decoding,
            events[0],
        ),
        events.len() == 2 ==> run(StateView::Decoding, events) == next_state(
            next_state(StateView::Decoding, events[0]),
            events[1],
        ),
{
    if events.len() == 1 {
        lemma_run_from_first(StateView::Decoding, events);
        assert(events.skip(1).len() == 0);
    } else if events.len() == 2 {
        lemma_run_from_two(StateView::Decoding, events);
        assert(events.skip(2).len() == 0);
    }
}

} // verus!
