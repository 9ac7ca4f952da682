//! The course of one dispatched command, from dispatch to its one result.
//!
//! A window command needs two things from the host's windowing subsystem, in
//! turn: the window that is registered under a label, and then the operation
//! on that window. The library decides, the host acts. An [`Invocation`] is
//! where a command stands and so what the host has to do next; the host does
//! it, reports an [`Event`], and [`Invocation::step`] decides how to go on.

use vstd::prelude::*;
use crate::outcome::{result_view, CommandError, CommandErrorView, Reply, ReplyView};

verus! {

/// What a window command asks of its window.
#[derive(Debug, Clone, Copy, PartialEq, Eq, Structural)]
pub enum WindowOp {
    Minimize,
    Close,
}

/// What the host reports back.
#[derive(Debug, PartialEq, Eq)]
pub enum Event {
    /// The answer to a lookup: whether a window is registered under the label
    /// right now.
    Resolved { found: bool },
    /// The answer to an operation: success, or the system's description of
    /// its failure.
    Performed { outcome: Result<(), String> },
}

/// An [`Event`] as contracts see it.
pub enum EventView {
    Resolved { found: bool },
    Performed { outcome: Result<(), Seq<char>> },
}

impl View for Event {
    type V = EventView;

    open spec fn view(&self) -> EventView {
        match self {
            Event::Resolved { found } => EventView::Resolved { found: *found },
            Event::Performed { outcome } => EventView::Performed {
                outcome: match outcome {
                    Ok(_) => Ok(()),
                    Err(detail) => Err(detail@),
                },
            },
        }
    }
}

/// Where a dispatched command stands, which is also what the host has to do
/// for it next.
#[derive(Debug, PartialEq, Eq)]
pub enum Invocation {
    /// The host has to look up the window that is registered under `label`.
    Resolving { op: WindowOp, label: String },
    /// The window was found; the host has to issue `op` on it.
    Performing { op: WindowOp, label: String },
    /// The command is done. `result` goes back to the caller, and nothing is
    /// left for the host to do.
    Settled { result: Result<Reply, CommandError> },
}

/// An [`Invocation`] as contracts see it.
pub enum InvocationView {
    Resolving { op: WindowOp, label: Seq<char> },
    Performing { op: WindowOp, label: Seq<char> },
    Settled { result: Result<ReplyView, CommandErrorView> },
}

impl View for Invocation {
    type V = InvocationView;

    open spec fn view(&self) -> InvocationView {
        match self {
            Invocation::Resolving { op, label } => InvocationView::Resolving {
                op: *op,
                label: label@,
            },
            Invocation::Performing { op, label } => InvocationView::Performing {
                op: *op,
                label: label@,
            },
            Invocation::Settled { result } => InvocationView::Settled {
                result: result_view(*result),
            },
        }
    }
}

/// The result of a window operation that the system answered with `outcome`:
/// success without a value, or the system's description as it came.
pub open spec fn settlement(outcome: Result<(), Seq<char>>) -> Result<ReplyView, CommandErrorView> {
    match outcome {
        Ok(_) => Ok(ReplyView::Unit),
        Err(detail) => Err(CommandErrorView::OperationFailed(detail)),
    }
}

impl InvocationView {
    /// Whether the command is done.
    pub open spec fn is_settled(self) -> bool {
        self is Settled
    }

    /// How the invocation goes on when the host reports `event`.
    ///
    /// A lookup that found no window settles the command as not found, and no
    /// operation is ever asked for. A lookup that found the window asks for
    /// the operation. The operation's outcome settles the command, whichever
    /// it is. An event that does not answer what the invocation is waiting
    /// for changes nothing; a settled invocation waits for nothing.
    pub open spec fn step(self, event: EventView) -> InvocationView {
        match (self, event) {
            (InvocationView::Resolving { op, label }, EventView::Resolved { found }) => {
                if found {
                    InvocationView::Performing { op, label }
                } else {
                    InvocationView::Settled { result: Err(CommandErrorView::WindowNotFound) }
                }
            },
            (InvocationView::Performing { .. }, EventView::Performed { outcome }) => {
                InvocationView::Settled { result: settlement(outcome) }
            },
            _ => self,
        }
    }

    /// Where the invocation stands after the host has reported `events`, one
    /// after the other.
    pub open spec fn run(self, events: Seq<EventView>) -> InvocationView
        decreases events.len(),
    {
        if events.len() == 0 {
            self
        } else {
            self.step(events.first()).run(events.drop_first())
        }
    }
}

impl Invocation {
    /// Whether the command is done, so that its result can go back to the
    /// caller.
    pub fn is_settled(&self) -> (settled: bool)
        ensures
            settled == self@.is_settled(),
    {
        match self {
            Invocation::Settled { .. } => true,
            _ => false,
        }
    }

    /// Takes what the host reports and decides how the invocation goes on.
    pub fn step(self, event: Event) -> (next: Invocation)
        ensures
            next@ == self@.step(event@),
    {
        match self {
            Invocation::Resolving { op, label } => match event {
                Event::Resolved { found } => {
                    if found {
                        Invocation::Performing { op, label }
                    } else {
                        Invocation::Settled { result: Err(CommandError::WindowNotFound) }
                    }
                },
                Event::Performed { .. } => Invocation::Resolving { op, label },
            },
            Invocation::Performing { op, label } => match event {
                Event::Performed { outcome } => match outcome {
                    Ok(_) => Invocation::Settled { result: Ok(Reply::Unit) },
                    Err(detail) => Invocation::Settled {
                        result: Err(CommandError::OperationFailed(detail)),
                    },
                },
                Event::Resolved { .. } => Invocation::Performing { op, label },
            },
            Invocation::Settled { result } => Invocation::Settled { result },
        }
    }

    /// The result of a settled command; `None` while the host still has
    /// something to do for it.
    pub fn into_result(self) -> (result: Option<Result<Reply, CommandError>>)
        ensures
            match self@ {
                InvocationView::Settled { result: settled } => result is Some && result_view(
                    result->0,
                ) == settled,
                _ => result is None,
            },
    {
        match self {
            Invocation::Settled { result } => Some(result),
            _ => None,
        }
    }
}

/// One request yields one response: once an invocation has settled, nothing
/// that the host reports afterwards changes its result or asks the host for
/// anything again.
pub proof fn lemma_settled_is_final(invocation: InvocationView, events: Seq<EventView>)
    requires
        invocation.is_settled(),
    ensures
        invocation.run(events) == invocation,
    decreases events.len(),
{
    if events.len() > 0 {
        lemma_settled_is_final(invocation, events.drop_first());
    }
}

/// Reporting one more event is one more step.
pub proof fn lemma_run_one_more(
    invocation: InvocationView,
    events: Seq<EventView>,
    event: EventView,
)
    ensures
        invocation.run(events.push(event)) == invocation.run(events).step(event),
    decreases events.len(),
{
    let longer = events.push(event);
    if events.len() == 0 {
        assert(invocation.step(event).run(longer.drop_first()) == invocation.step(event));
    } else {
        assert(longer.drop_first() =~= events.drop_first().push(event));
        lemma_run_one_more(invocation.step(events.first()), events.drop_first(), event);
    }
}

/// Reporting `earlier` and then `later` leads where reporting them in one go
/// leads.
pub proof fn lemma_run_in_two_parts(
    invocation: InvocationView,
    earlier: Seq<EventView>,
    later: Seq<EventView>,
)
    ensures
        invocation.run(earlier + later) == invocation.run(earlier).run(later),
    decreases earlier.len(),
{
    if earlier.len() == 0 {
        assert(earlier + later =~= later);
    } else {
        assert((earlier + later).drop_first() =~= earlier.drop_first() + later);
        lemma_run_in_two_parts(invocation.step(earlier.first()), earlier.drop_first(), later);
    }
}

} // verus!
