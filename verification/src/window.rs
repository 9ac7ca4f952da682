//! The window handlers: minimizing and closing the window that is registered
//! under a label.
//!
//! A handler holds no window. Each call starts at the lookup, so a window that
//! went away since the last call is never acted on.

use vstd::prelude::*;
use crate::invocation::{
    lemma_run_in_two_parts, lemma_run_one_more, lemma_settled_is_final, settlement, EventView,
    Invocation, InvocationView, WindowOp,
};
use crate::outcome::{CommandErrorView, ReplyView};

verus! {

/// The label of the application's one window.
pub const MAIN_WINDOW_LABEL: &'static str = "main";

/// A window command that has just been called: it stands at the lookup of
/// its window.
pub open spec fn window_call(op: WindowOp, label: Seq<char>) -> InvocationView {
    InvocationView::Resolving { op, label }
}

/// What the host reports for a call whose window is registered and whose
/// operation the system answered with `outcome`.
pub open spec fn window_present(outcome: Result<(), Seq<char>>) -> Seq<EventView> {
    seq![EventView::Resolved { found: true }, EventView::Performed { outcome }]
}

/// What the host reports for a call whose window is not registered.
pub open spec fn window_absent() -> Seq<EventView> {
    seq![EventView::Resolved { found: false }]
}

/// Starts minimizing the window that is registered under `label`.
pub fn minimize(label: &str) -> (call: Invocation)
    ensures
        call@ == window_call(WindowOp::Minimize, label@),
{
    Invocation::Resolving { op: WindowOp::Minimize, label: label.to_string() }
}

/// Starts closing the window that is registered under `label`. What closing
/// sets off in the host afterwards is not waited for.
pub fn close(label: &str) -> (call: Invocation)
    ensures
        call@ == window_call(WindowOp::Close, label@),
{
    Invocation::Resolving { op: WindowOp::Close, label: label.to_string() }
}

/// The command that minimizes the main window.
pub fn minimize_window() -> (call: Invocation)
    ensures
        call@ == window_call(WindowOp::Minimize, MAIN_WINDOW_LABEL@),
{
    minimize(MAIN_WINDOW_LABEL)
}

/// The command that closes the main window.
pub fn close_window() -> (call: Invocation)
    ensures
        call@ == window_call(WindowOp::Close, MAIN_WINDOW_LABEL@),
{
    close(MAIN_WINDOW_LABEL)
}

/// A window command whose window is registered settles with what the system
/// made of the operation, and stays settled whatever the host reports later.
pub proof fn lemma_present_window_settles(
    op: WindowOp,
    label: Seq<char>,
    outcome: Result<(), Seq<char>>,
    later: Seq<EventView>,
)
    ensures
        window_call(op, label).run(window_present(outcome) + later) == (InvocationView::Settled {
            result: settlement(outcome),
        }),
{
    let call = window_call(op, label);
    let events = window_present(outcome);
    let settled = InvocationView::Settled { result: settlement(outcome) };
    assert(call.run(events) == settled) by {
        let found = call.step(events.first());
        let rest = events.drop_first();
        assert(found.step(rest.first()) == settled);
        assert(found.run(rest) == settled.run(rest.drop_first()));
        lemma_settled_is_final(settled, rest.drop_first());
    }
    lemma_run_in_two_parts(call, events, later);
    lemma_settled_is_final(settled, later);
}

/// A window command on a registered window whose operation the system
/// carried out returns success without a value.
pub proof fn lemma_present_window_succeeds(op: WindowOp, label: Seq<char>, later: Seq<EventView>)
    ensures
        window_call(op, label).run(window_present(Ok(())) + later) == (InvocationView::Settled {
            result: Ok(ReplyView::Unit),
        }),
{
    lemma_present_window_settles(op, label, Ok(()), later);
}

/// A window command whose window is not registered returns the not-found
/// error and has no effect: it settles at the lookup, so the operation is
/// never asked for, whatever the host reports later.
pub proof fn lemma_absent_window_is_not_found(op: WindowOp, label: Seq<char>, later: Seq<EventView>)
    ensures
        window_call(op, label).run(window_absent() + later) == (InvocationView::Settled {
            result: Err(CommandErrorView::WindowNotFound),
        }),
{
    let call = window_call(op, label);
    let settled = InvocationView::Settled { result: Err(CommandErrorView::WindowNotFound) };
    assert(call.run(window_absent()) == settled) by {
        assert(call.step(window_absent().first()) == settled);
        lemma_settled_is_final(settled, window_absent().drop_first());
    }
    lemma_run_in_two_parts(call, window_absent(), later);
    lemma_settled_is_final(settled, later);
}

/// A window command whose operation the system refused returns the failure
/// with the system's description unchanged, and does not try again: it has
/// settled, so the operation is not asked for a second time, whatever the
/// host reports later.
pub proof fn lemma_failed_operation_is_reported(
    op: WindowOp,
    label: Seq<char>,
    detail: Seq<char>,
    later: Seq<EventView>,
)
    ensures
        window_call(op, label).run(window_present(Err(detail)) + later) == (
        InvocationView::Settled { result: Err(CommandErrorView::OperationFailed(detail)) }),
{
    lemma_present_window_settles(op, label, Err(detail), later);
}

/// Nothing is carried over from one call to the next. Of two calls for the
/// same window, one right after the other and the window registered
/// throughout, each settles with what the system made of its own operation:
/// success both times where the system carried out both, and a failure of
/// the second as that failure, whatever the first one gave.
pub proof fn lemma_repeated_calls_settle_on_their_own(
    op: WindowOp,
    label: Seq<char>,
    first: Result<(), Seq<char>>,
    second: Result<(), Seq<char>>,
)
    ensures
        window_call(op, label).run(window_present(first)) == (InvocationView::Settled {
            result: settlement(first),
        }),
        window_call(op, label).run(window_present(second)) == (InvocationView::Settled {
            result: settlement(second),
        }),
        first is Ok && second is Ok ==> {
            &&& window_call(op, label).run(window_present(first)) == (InvocationView::Settled {
                result: Ok(ReplyView::Unit),
            })
            &&& window_call(op, label).run(window_present(second)) == (InvocationView::Settled {
                result: Ok(ReplyView::Unit),
            })
        },
        second matches Err(detail) ==> window_call(op, label).run(window_present(second)) == (
        InvocationView::Settled { result: Err(CommandErrorView::OperationFailed(detail)) }),
{
    lemma_present_window_settles(op, label, first, Seq::empty());
    lemma_present_window_settles(op, label, second, Seq::empty());
}

/// Whether the host's answers `events` account for a call of `op` under
/// `label` standing at `state`.
///
/// The call has kept its operation and its label. It asks for the operation
/// only where a lookup found the window. It has succeeded only where the
/// system reported success, it has failed only with a description that the
/// system gave, it reports a missing window only where a lookup found none,
/// and it never replies with a text.
pub open spec fn accounts_for(
    events: Seq<EventView>,
    op: WindowOp,
    label: Seq<char>,
    state: InvocationView,
) -> bool {
    match state {
        InvocationView::Resolving { op: asked, label: under } => asked == op && under == label,
        InvocationView::Performing { op: asked, label: under } => {
            &&& asked == op
            &&& under == label
            &&& events.contains(EventView::Resolved { found: true })
        },
        InvocationView::Settled { result } => match result {
            Ok(reply) => {
                &&& reply == ReplyView::Unit
                &&& events.contains(EventView::Resolved { found: true })
                &&& events.contains(EventView::Performed { outcome: Ok(()) })
            },
            Err(CommandErrorView::WindowNotFound) => events.contains(
                EventView::Resolved { found: false },
            ),
            Err(CommandErrorView::OperationFailed(detail)) => {
                &&& events.contains(EventView::Resolved { found: true })
                &&& events.contains(EventView::Performed { outcome: Err(detail) })
            },
        },
    }
}

/// Wherever a window call stands, the host's answers to this very call
/// account for it: nothing is kept from an earlier call, and nothing is made
/// up.
pub proof fn lemma_window_call_follows_its_answers(
    op: WindowOp,
    label: Seq<char>,
    events: Seq<EventView>,
)
    ensures
        accounts_for(events, op, label, window_call(op, label).run(events)),
    decreases events.len(),
{
    let call = window_call(op, label);
    if events.len() > 0 {
        let earlier = events.drop_last();
        let last = events.last();
        let before = call.run(earlier);
        lemma_window_call_follows_its_answers(op, label, earlier);
        assert(call.run(events) == before.step(last)) by {
            assert(events =~= earlier.push(last));
            lemma_run_one_more(call, earlier, last);
        }
        // What the earlier answers account for, all the answers account for.
        assert forall|event: EventView| earlier.contains(event) implies events.contains(event) by {
            let at = choose|at: int| 0 <= at < earlier.len() && earlier[at] == event;
            assert(events[at] == event);
        }
        // The last answer accounts for the step that it causes.
        assert(events.contains(last)) by {
            assert(events[events.len() - 1] == last);
        }
        if let (
            InvocationView::Performing { .. },
            EventView::Performed { outcome: Ok(done) },
        ) = (before, last) {
            assert(last == EventView::Performed { outcome: Ok(()) });
        }
    }
}

} // verus!
