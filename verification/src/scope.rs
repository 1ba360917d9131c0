//! The ambient binding of a request context.
//!
//! Each worker has one slot. A unit of work that is bound to a context puts
//! the context into the slot whenever it is resumed, and on suspending puts
//! back what it found there. Code that runs inside the unit finds its context
//! by looking into the slot, without having been handed it.

use vstd::prelude::*;

verus! {

/// The slot in which the context of the running unit of work stands.
pub struct ContextSlot<C> {
    current: Option<C>,
}

impl<C> View for ContextSlot<C> {
    type V = Option<C>;

    closed spec fn view(&self) -> Option<C> {
        self.current
    }
}

/// What stands in the slot once `context` has been bound.
pub open spec fn slot_entered<C>(context: C) -> Option<C> {
    Some(context)
}

/// What stands in the slot once a scope has been left whose unit found
/// `outer` there when it entered.
pub open spec fn slot_left<C>(outer: Option<C>) -> Option<C> {
    outer
}

impl<C> ContextSlot<C> {
    /// A slot in which no context stands.
    pub fn new() -> (slot: Self)
        ensures
            slot@ is None,
    {
        ContextSlot { current: None }
    }

    /// The context that is bound at this point, if any.
    pub fn current(&self) -> (context: Option<&C>)
        ensures
            match context {
                Some(bound) => self@ == Some(*bound),
                None => self@ is None,
            },
    {
        self.current.as_ref()
    }

    /// Binds `context` and hands out what was bound before, which the caller
    /// keeps until it leaves the scope.
    pub fn enter(&mut self, context: C) -> (outer: Option<C>)
        ensures
            final(self)@ == slot_entered(context),
            outer == old(self)@,
    {
        let outer = self.current.take();
        self.current = Some(context);
        outer
    }

    /// Puts `outer` back, which [`ContextSlot::enter`] handed out, and gives
    /// back the context that was bound inside the scope.
    pub fn leave(&mut self, outer: Option<C>) -> (inner: Option<C>)
        ensures
            final(self)@ == slot_left(outer),
            inner == old(self)@,
    {
        let inner = self.current.take();
        self.current = outer;
        inner
    }
}

/// What happens at a worker's slot: a unit of work is resumed under its
/// context, or the unit that was resumed last is suspended or done.
pub enum ScopeEvent<C> {
    Enter(C),
    Leave,
}

/// A worker's slot in the course of a run, with what the units in progress
/// hold.
pub struct ScopeTrace<C> {
    /// What stands in the slot.
    pub slot: Option<C>,
    /// What each unit in progress found in the slot and keeps to put back,
    /// the innermost last.
    pub kept: Seq<Option<C>>,
    /// The contexts of the units in progress, the innermost last.
    pub open: Seq<C>,
}

/// The context of the innermost unit in progress.
pub open spec fn innermost<C>(open: Seq<C>) -> Option<C> {
    if open.len() == 0 {
        None
    } else {
        Some(open.last())
    }
}

/// The slot of a worker on which nothing runs.
pub open spec fn idle<C>() -> ScopeTrace<C> {
    ScopeTrace { slot: None, kept: Seq::empty(), open: Seq::empty() }
}

/// One event at the slot. Entering leaves in the slot what
/// [`ContextSlot::enter`] leaves there, and the unit keeps what that call
/// hands out. Leaving leaves in the slot what [`ContextSlot::leave`] leaves
/// there when it is given the value that the unit kept. A `Leave` with no
/// unit in progress changes nothing.
pub open spec fn trace_step<C>(state: ScopeTrace<C>, event: ScopeEvent<C>) -> ScopeTrace<C> {
    match event {
        ScopeEvent::Enter(context) => ScopeTrace {
            slot: slot_entered(context),
            kept: state.kept.push(state.slot),
            open: state.open.push(context),
        },
        ScopeEvent::Leave => if state.kept.len() == 0 || state.open.len() == 0 {
            state
        } else {
            ScopeTrace {
                slot: slot_left(state.kept.last()),
                kept: state.kept.drop_last(),
                open: state.open.drop_last(),
            }
        },
    }
}

/// The slot after a run of events on an idle worker.
pub open spec fn trace_run<C>(events: Seq<ScopeEvent<C>>) -> ScopeTrace<C>
    decreases events.len(),
{
    if events.len() == 0 {
        idle()
    } else {
        trace_step(trace_run(events.drop_last()), events.last())
    }
}

/// Each unit in progress keeps the context of the unit around it, and the
/// slot holds the context of the innermost.
pub open spec fn trace_consistent<C>(state: ScopeTrace<C>) -> bool {
    &&& state.kept.len() == state.open.len()
    &&& state.slot == innermost(state.open)
    &&& forall|depth: int|
        0 <= depth < state.kept.len() ==> #[trigger] state.kept[depth] == innermost(
            state.open.take(depth),
        )
}

/// One event keeps the slot consistent.
pub proof fn lemma_step_consistent<C>(state: ScopeTrace<C>, event: ScopeEvent<C>)
    requires
        trace_consistent(state),
    ensures
        trace_consistent(trace_step(state, event)),
{
    let next = trace_step(state, event);
    match event {
        ScopeEvent::Enter(context) => {
            assert forall|depth: int| 0 <= depth < next.kept.len() implies #[trigger] next.kept[depth]
                == innermost(next.open.take(depth)) by {
                if depth < state.kept.len() {
                    assert(next.open.take(depth) =~= state.open.take(depth));
                } else {
                    assert(next.open.take(depth) =~= state.open);
                }
            }
        },
        ScopeEvent::Leave => {
            if state.kept.len() > 0 {
                let last = state.kept.len() - 1;
                assert(state.open.take(last) =~= state.open.drop_last());
                assert forall|depth: int| 0 <= depth < next.kept.len() implies #[trigger] next.kept[depth]
                    == innermost(next.open.take(depth)) by {
                    assert(next.open.take(depth) =~= state.open.take(depth));
                }
            }
        },
    }
}

/// Whatever units are resumed and suspended on a worker, in whatever order
/// and however deeply nested, a lookup finds the context of the innermost
/// unit in progress: never the context of a request whose unit is not
/// running, and the outer context again as soon as the inner unit is left.
pub proof fn lemma_lookup_finds_innermost<C>(events: Seq<ScopeEvent<C>>)
    ensures
        trace_consistent(trace_run(events)),
        trace_run(events).slot == innermost(trace_run(events).open),
    decreases events.len(),
{
    if events.len() > 0 {
        lemma_lookup_finds_innermost(events.drop_last());
        lemma_step_consistent(trace_run(events.drop_last()), events.last());
    }
}

/// A unit that is resumed and then left, with any complete units run inside
/// it, leaves the slot as it found it.
pub proof fn lemma_scope_restores<C>(state: ScopeTrace<C>, context: C)
    requires
        trace_consistent(state),
    ensures
        trace_step(trace_step(state, ScopeEvent::Enter(context)), ScopeEvent::Leave) == state,
{
    let entered = trace_step(state, ScopeEvent::Enter(context));
    let left = trace_step(entered, ScopeEvent::Leave);
    assert(left.kept =~= state.kept);
    assert(left.open =~= state.open);
}

} // verus!
