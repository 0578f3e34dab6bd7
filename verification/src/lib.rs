//! Shared bootstrapping utilities for a fleet of backend services: a
//! readiness registry that aggregates per-service startup flags, a
//! coordinated-shutdown state machine, the health/version probe bodies,
//! and the settings bundle for a local cloud-service emulator.

use vstd::prelude::*;

pub mod api;
pub mod cloud;
pub mod shutdown;
pub mod version;

verus! {

/// Tracks the startup state of every asynchronous service a process starts.
///
/// Each service registers one readiness flag with [`StartedServices::new_service`]
/// and later flips it with [`StartedServices::mark_ready`]. The health probe
/// asks [`StartedServices::all_started`] whether every registered service is up.
///
/// Flags are append-only: a registered flag is never removed, and it moves
/// from `false` to `true` at most once.
pub struct StartedServices {
    external_service: Vec<bool>,
}

/// True iff every flag in `flags` is set; vacuously true of an empty sequence.
pub open spec fn all_ready_spec(flags: Seq<bool>) -> bool {
    forall|i: int| 0 <= i < flags.len() ==> flags[i]
}

impl StartedServices {
    /// The registered flags, in registration order.
    pub closed spec fn flags(&self) -> Seq<bool> {
        self.external_service@
    }

    /// Initializes all services as not started: no flag is registered yet.
    pub fn new() -> (s: Self)
        ensures
            s.flags() =~= Seq::<bool>::empty(),
    {
        StartedServices { external_service: Vec::new() }
    }

    /// Adds a new service to the bookkeeping struct and returns its handle.
    ///
    /// The new flag starts out `false`; the handle indexes it for
    /// [`StartedServices::mark_ready`]. Existing flags are untouched.
    pub fn new_service(&mut self) -> (handle: usize)
        ensures
            final(self).flags() =~= old(self).flags().push(false),
            handle == old(self).flags().len(),
    {
        let handle = self.external_service.len();
        self.external_service.push(false);
        handle
    }

    /// Marks the service behind `handle` as started.
    ///
    /// Idempotent: marking an already-started service changes nothing.
    pub fn mark_ready(&mut self, handle: usize)
        requires
            handle < old(self).flags().len(),
        ensures
            final(self).flags() =~= old(self).flags().update(handle as int, true),
    {
        self.external_service.set(handle, true);
    }

    /// The number of registered services.
    pub fn service_count(&self) -> (n: usize)
        ensures
            n == self.flags().len(),
    {
        self.external_service.len()
    }

    /// Returns `true` iff all registered services did start.
    ///
    /// Vacuously `true` when no service is registered.
    pub fn all_started(&self) -> (r: bool)
        ensures
            r == all_ready_spec(self.flags()),
    {
        let n = self.external_service.len();
        let mut i: usize = 0;
        while i < n
            invariant
                i <= n,
                n == self.flags().len(),
                forall|j: int| 0 <= j < i ==> self.flags()[j],
            decreases n - i,
        {
            if !self.external_service[i] {
                return false;
            }
            i = i + 1;
        }
        true
    }
}

/// Marking a service ready twice has the same observable effect as marking
/// it once: the flag sequence after two updates equals the one after one.
pub proof fn lemma_mark_ready_idempotent(flags: Seq<bool>, handle: int)
    requires
        0 <= handle < flags.len(),
    ensures
        flags.update(handle, true).update(handle, true) =~= flags.update(handle, true),
{
}

} // verus!
