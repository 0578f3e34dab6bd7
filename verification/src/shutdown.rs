//! Coordinated shutdown: a one-shot, idempotent cancellation signal raced
//! against an external shutdown trigger.
//!
//! The coordinator is the decision core of a shutdown task: the runtime layer
//! waits on the external trigger and on manual cancellation, and reports
//! whichever event won the race as a [`ShutdownEvent`]. The coordinator turns
//! that event into its next state. Cancellation is single-fire: once the
//! coordinator is cancelled it never reverts, and the graceful flag records
//! whether the external-trigger path won.

use vstd::prelude::*;

verus! {

/// An event a shutdown coordinator reacts to.
pub enum ShutdownEvent {
    /// The external shutdown trigger (for example, a process signal) resolved.
    ExternalTrigger,
    /// Some holder of the coordinator's token cancelled it directly.
    ManualCancel,
}

/// The mathematical state of a shutdown coordinator: whether cancellation has
/// fired, and whether it was fired by the external trigger (a graceful
/// shutdown).
pub struct ShutdownState {
    /// Whether cancellation has fired.
    pub cancelled: bool,
    /// Whether the external trigger fired before any manual cancellation.
    pub graceful: bool,
}

/// The state after `s` reacts to `e`.
///
/// Both events cancel. The external trigger also marks the shutdown graceful,
/// but only when it wins the race: once cancellation has fired, the trigger's
/// listener has exited and the event changes nothing.
pub open spec fn step(s: ShutdownState, e: ShutdownEvent) -> ShutdownState {
    match e {
        ShutdownEvent::ExternalTrigger => {
            if s.cancelled {
                s
            } else {
                ShutdownState { cancelled: true, graceful: true }
            }
        },
        ShutdownEvent::ManualCancel => {
            ShutdownState { cancelled: true, graceful: s.graceful }
        },
    }
}

/// The state after `s` reacts to every event of `es`, in order.
pub open spec fn run(s: ShutdownState, es: Seq<ShutdownEvent>) -> ShutdownState
    decreases es.len(),
{
    if es.len() == 0 {
        s
    } else {
        run(step(s, es[0]), es.subrange(1, es.len() as int))
    }
}

impl ShutdownState {
    /// A state is well formed when the graceful flag is set only after
    /// cancellation fired: graceful implies cancelled.
    pub open spec fn wf(&self) -> bool {
        self.graceful ==> self.cancelled
    }
}

/// The decision core of a coordinated shutdown.
///
/// It holds the cancellation and graceful flags; the runtime layer around it
/// delivers the event that won the race between the external trigger and
/// manual cancellation.
pub struct ShutdownCoordinator {
    cancelled: bool,
    graceful: bool,
}

impl ShutdownCoordinator {
    /// The coordinator's state, as a [`ShutdownState`].
    pub closed spec fn view(&self) -> ShutdownState {
        ShutdownState { cancelled: self.cancelled, graceful: self.graceful }
    }

    /// A fresh coordinator: not cancelled, not graceful.
    pub fn new() -> (s: Self)
        ensures
            !s.view().cancelled,
            !s.view().graceful,
    {
        ShutdownCoordinator { cancelled: false, graceful: false }
    }

    /// Reacts to one event, as [`step`] says.
    pub fn apply(&mut self, e: ShutdownEvent)
        ensures
            final(self).view() == step(old(self).view(), e),
    {
        match e {
            ShutdownEvent::ExternalTrigger => self.on_external_trigger(),
            ShutdownEvent::ManualCancel => self.cancel(),
        }
    }

    /// Cancels the coordinator directly, bypassing the external trigger.
    ///
    /// Idempotent, and never sets the graceful flag: after the call the
    /// coordinator is cancelled and the graceful flag is what it was.
    pub fn cancel(&mut self)
        ensures
            final(self).view() == step(old(self).view(), ShutdownEvent::ManualCancel),
            final(self).view().cancelled,
            final(self).view().graceful == old(self).view().graceful,
    {
        self.cancelled = true;
    }

    /// Reacts to the external shutdown trigger resolving.
    ///
    /// If cancellation has not fired yet, this marks the shutdown graceful
    /// and cancels; if it has, the listener is gone and nothing changes.
    pub fn on_external_trigger(&mut self)
        ensures
            final(self).view() == step(old(self).view(), ShutdownEvent::ExternalTrigger),
            final(self).view().cancelled,
            !old(self).view().cancelled ==> final(self).view().graceful,
            old(self).view().cancelled ==> final(self).view() == old(self).view(),
    {
        if !self.cancelled {
            self.graceful = true;
            self.cancelled = true;
        }
    }

    /// Whether cancellation has fired.
    pub fn is_cancelled(&self) -> (r: bool)
        ensures
            r == self.view().cancelled,
    {
        self.cancelled
    }

    /// Whether the shutdown was graceful: the external trigger fired before
    /// any manual cancellation.
    pub fn is_graceful(&self) -> (r: bool)
        ensures
            r == self.view().graceful,
    {
        self.graceful
    }
}

/// Every step preserves well-formedness of the state.
pub proof fn lemma_step_preserves_wf(s: ShutdownState, e: ShutdownEvent)
    requires
        s.wf(),
    ensures
        step(s, e).wf(),
{
}

/// Once cancellation fires it is permanent, and further cancellation is a
/// no-op: every later event leaves a cancelled coordinator cancelled, and
/// changes nothing at all.
pub proof fn lemma_cancel_sticky(s: ShutdownState, e: ShutdownEvent)
    requires
        s.cancelled,
    ensures
        step(s, e).cancelled,
        step(s, e) == s,
{
}

/// Cancellation, once fired, survives any sequence of later events: every
/// waiter that looks at the coordinator afterwards observes it cancelled.
pub proof fn lemma_cancelled_forever(s: ShutdownState, es: Seq<ShutdownEvent>)
    requires
        s.cancelled,
    ensures
        run(s, es).cancelled,
        run(s, es) == s,
    decreases es.len(),
{
    if es.len() > 0 {
        lemma_cancel_sticky(s, es[0]);
        lemma_cancelled_forever(s, es.subrange(1, es.len() as int));
    }
}

/// If the external trigger fires before any manual cancellation, the
/// shutdown is graceful: from a not-yet-cancelled state the trigger leaves
/// the coordinator cancelled and the graceful flag true, and any later
/// events keep it so.
pub proof fn lemma_trigger_first_is_graceful(s: ShutdownState, es: Seq<ShutdownEvent>)
    requires
        !s.cancelled,
    ensures
        run(step(s, ShutdownEvent::ExternalTrigger), es).cancelled,
        run(step(s, ShutdownEvent::ExternalTrigger), es).graceful,
{
    lemma_cancelled_forever(step(s, ShutdownEvent::ExternalTrigger), es);
}

/// If the external trigger never fires, the graceful flag stays false: a
/// coordinator whose graceful flag is unset keeps it unset through any
/// sequence of manual cancellations.
pub proof fn lemma_manual_only_not_graceful(s: ShutdownState, es: Seq<ShutdownEvent>)
    requires
        !s.graceful,
        forall|i: int| 0 <= i < es.len() ==> es[i] is ManualCancel,
    ensures
        !run(s, es).graceful,
    decreases es.len(),
{
    if es.len() > 0 {
        assert(es[0] is ManualCancel);
        lemma_manual_only_not_graceful(step(s, es[0]), es.subrange(1, es.len() as int));
    }
}

} // verus!
