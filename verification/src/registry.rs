//! Write-once storage for the two process-wide singletons: the runtime-VM
//! handle and the toolkit-supplied activity getter.
//!
//! Each slot accepts exactly one successful store; every later attempt fails,
//! hands the rejected value back to the caller, and leaves the stored value
//! untouched. Double registration is thereby a recoverable condition, never
//! an overwrite and never a panic.

use vstd::prelude::*;
use crate::handles::{VmHandle, RawHandles};
use crate::backend::{ActivityGetter, BackendAdapter};

verus! {

/// One write-once transition: storing `v` into `slot` succeeds exactly when
/// the slot is empty; otherwise the slot keeps its old value and `v` comes
/// back as the error.
pub open spec fn store_once<T>(slot: Option<T>, v: T) -> (Option<T>, Result<(), T>) {
    match slot {
        None => (Some(v), Ok(())),
        Some(w) => (Some(w), Err(v)),
    }
}

/// The effect of a whole sequence of store attempts on a slot, first to last.
pub open spec fn store_all<T>(slot: Option<T>, attempts: Seq<T>) -> Option<T>
    decreases attempts.len(),
{
    if attempts.len() == 0 {
        slot
    } else {
        store_all(store_once(slot, attempts[0]).0, attempts.subrange(1, attempts.len() as int))
    }
}

/// Law: a single write-once slot, starting empty, accepts the first value and
/// rejects the second: the first store succeeds, the second fails with its
/// value handed back, and the slot still holds the first value.
pub proof fn lemma_write_once<T>(v1: T, v2: T)
    ensures
        ({
            let (s1, r1) = store_once(None::<T>, v1);
            let (s2, r2) = store_once(s1, v2);
            s1 == Some(v1) && r1 == Ok::<(), T>(()) && s2 == Some(v1) && r2 == Err::<(), T>(v2)
        }),
{
}

/// Law: once a slot is populated, every later store attempt fails and the
/// slot keeps its value, whatever the attempts are and however many there
/// are. Together with `lemma_write_once` this pins the whole lifetime of a
/// singleton: one successful registration, then only observable rejections.
pub proof fn lemma_populated_persists<T>(v: T, attempts: Seq<T>)
    ensures
        store_all(Some(v), attempts) == Some(v),
        forall|w: T| store_once(Some(v), w).1 == Err::<(), T>(w),
    decreases attempts.len(),
{
    if attempts.len() > 0 {
        lemma_populated_persists(v, attempts.subrange(1, attempts.len() as int));
    }
}

/// Process-wide state behind the resolver: the runtime-VM handle and the
/// activity getter, each write-once. Modeled as an explicit value so that
/// the embedding layer owns placement (a true process global, or a fresh
/// instance per test run) while this layer owns the transition rules.
pub struct Registry<G> {
    vm: Option<VmHandle>,
    getter: Option<G>,
}

impl<G> Registry<G> {
    /// The VM slot's current content.
    pub closed spec fn spec_vm(&self) -> Option<VmHandle> {
        self.vm
    }

    /// The getter slot's current content.
    pub closed spec fn spec_getter(&self) -> Option<G> {
        self.getter
    }

    /// A fresh registry with both slots empty.
    pub fn new() -> (r: Self)
        ensures
            r.spec_vm() is None,
            r.spec_getter() is None,
    {
        Registry { vm: None, getter: None }
    }

    /// Sets the runtime-VM handle, exactly once per registry. A second call
    /// fails, returns the rejected value, and changes nothing.
    pub fn set_vm(&mut self, vm: VmHandle) -> (r: Result<(), VmHandle>)
        ensures
            (final(self).spec_vm(), r) == store_once(old(self).spec_vm(), vm),
            final(self).spec_getter() == old(self).spec_getter(),
    {
        if self.vm.is_some() {
            Err(vm)
        } else {
            self.vm = Some(vm);
            Ok(())
        }
    }

    /// Registers the activity getter, exactly once per registry, under the
    /// same non-overwrite policy as the VM slot. The getter's own behavior
    /// is trusted to the registrant: nothing is assumed of what it returns.
    pub fn set_activity_getter(&mut self, g: G) -> (r: Result<(), G>)
        ensures
            (final(self).spec_getter(), r) == store_once(old(self).spec_getter(), g),
            final(self).spec_vm() == old(self).spec_vm(),
    {
        if self.getter.is_some() {
            Err(g)
        } else {
            self.getter = Some(g);
            Ok(())
        }
    }

    /// Reads the VM slot: the registered handle, or nothing if `set_vm`
    /// never succeeded.
    pub fn read_vm(&self) -> (r: Option<VmHandle>)
        ensures
            r == self.spec_vm(),
    {
        self.vm
    }

    /// Whether a getter has been registered.
    pub fn has_getter(&self) -> (r: bool)
        ensures
            r == (self.spec_getter() is Some),
    {
        self.getter.is_some()
    }
}

impl<G: ActivityGetter> Registry<G> {
    /// The generic backend's adapter step: invoke the registered getter for
    /// the current raw handles. Yields nothing exactly when no getter was
    /// ever registered; what a registered getter returns is its own affair.
    pub fn current_raw(&self) -> (r: Option<RawHandles>)
        ensures
            r is Some <==> self.spec_getter() is Some,
    {
        match &self.getter {
            None => None,
            Some(g) => Some(g.current()),
        }
    }
}

/// The generic backend strategy is the registry itself: its raw handles are
/// whatever the registered getter currently reports.
impl<G: ActivityGetter> BackendAdapter for Registry<G> {
    fn raw_handles(&self) -> Option<RawHandles> {
        self.current_raw()
    }
}

} // verus!
