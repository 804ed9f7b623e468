//! The per-call resolution algorithm: from one backend adapter output and
//! the registered VM to the (environment, activity) pair handed to the
//! caller's function, or to an absent result.
//!
//! The decision itself is the pure function [`spec_plan`]; derivation of an
//! environment handle from the VM is an outside operation whose outcome is
//! not predictable here, so the exact end-to-end statement, [`spec_outcome`],
//! takes that outcome as an argument. Every detectable failure collapses to
//! an absent result; nothing on this path panics.

use vstd::prelude::*;
use crate::backend::{BackendAdapter, EnvDeriver};
use crate::handles::{ActivityHandle, EnvHandle, RawHandles, VmHandle};

verus! {

/// What one resolution must do next, decided from the adapter output and the
/// VM slot alone.
#[derive(Clone, Copy, Debug, PartialEq, Eq)]
pub enum Resolution {
    /// No source can produce the pair: the result is absent and the caller's
    /// function is never invoked.
    Absent,
    /// Both handles are at hand: invoke the caller's function with exactly
    /// these.
    Ready(EnvHandle, ActivityHandle),
    /// The adapter supplied no environment handle: one must be derived from
    /// this registered VM before the activity handle can be used.
    Derive(VmHandle, ActivityHandle),
}

/// The resolution decision: adapter absent means absent; an adapter-supplied
/// environment is used as is; otherwise the registered VM, if any, is the
/// derivation source; otherwise the resolution is absent.
pub open spec fn spec_plan(raw: Option<RawHandles>, vm: Option<VmHandle>) -> Resolution {
    match raw {
        None => Resolution::Absent,
        Some(rh) => match rh.env {
            Some(e) => Resolution::Ready(e, rh.activity),
            None => match vm {
                None => Resolution::Absent,
                Some(v) => Resolution::Derive(v, rh.activity),
            },
        },
    }
}

/// The exact end-to-end outcome of one resolution, given the outcome
/// `derived` of the environment derivation (consulted only when the plan
/// calls for a derivation): the pair handed to the caller's function, or
/// nothing.
pub open spec fn spec_outcome(
    raw: Option<RawHandles>,
    vm: Option<VmHandle>,
    derived: Option<EnvHandle>,
) -> Option<(EnvHandle, ActivityHandle)> {
    match spec_plan(raw, vm) {
        Resolution::Absent => None,
        Resolution::Ready(e, a) => Some((e, a)),
        Resolution::Derive(_v, a) => match derived {
            None => None,
            Some(d) => Some((d, a)),
        },
    }
}

/// Computes the resolution decision.
pub fn plan_resolution(raw: Option<RawHandles>, vm: Option<VmHandle>) -> (p: Resolution)
    ensures
        p == spec_plan(raw, vm),
{
    match raw {
        None => Resolution::Absent,
        Some(rh) => match rh.env {
            Some(e) => Resolution::Ready(e, rh.activity),
            None => match vm {
                None => Resolution::Absent,
                Some(v) => Resolution::Derive(v, rh.activity),
            },
        },
    }
}

/// Completes a resolution whose environment had to be derived from the VM:
/// `derived` is the derivation's outcome. On success the caller's function
/// runs once with the derived environment and the activity handle; a failed
/// derivation yields an absent result and the function never runs.
pub fn resolve_after_derive<F, R>(derived: Option<EnvHandle>, activity: ActivityHandle, f: F) -> (r: Option<R>)
    where
        F: Fn(EnvHandle, ActivityHandle) -> R,
    requires
        forall|e: EnvHandle, a: ActivityHandle| #[trigger] call_requires(f, (e, a)),
    ensures
        derived is None ==> r is None,
        derived matches Some(d) ==> r matches Some(x) && call_ensures(f, (d, activity), x),
{
    match derived {
        None => None,
        Some(d) => Some(f(d, activity)),
    }
}

/// Resolves from an explicit adapter output, VM slot and derivation
/// outcome: the fully determined form of one resolution, exact on every
/// input. `derived` is consulted exactly when the plan calls for a
/// derivation; the caller's function runs once with the resolved pair, or
/// never when the outcome is absent.
pub fn resolve_with_derived<F, R>(
    raw: Option<RawHandles>,
    vm: Option<VmHandle>,
    derived: Option<EnvHandle>,
    f: F,
) -> (r: Option<R>)
    where
        F: Fn(EnvHandle, ActivityHandle) -> R,
    requires
        forall|e: EnvHandle, a: ActivityHandle| #[trigger] call_requires(f, (e, a)),
    ensures
        spec_outcome(raw, vm, derived) is None ==> r is None,
        spec_outcome(raw, vm, derived) matches Some(p) ==> (r matches Some(x) && call_ensures(f, (p.0, p.1), x)),
{
    match plan_resolution(raw, vm) {
        Resolution::Absent => None,
        Resolution::Ready(e, a) => Some(f(e, a)),
        Resolution::Derive(_v, a) => resolve_after_derive(derived, a, f),
    }
}

/// Resolves from an explicit adapter output `raw` and VM slot `vm`, asking
/// `deriver` for the environment exactly when the plan calls for it, and
/// invokes `f` once with the resolved pair. Verified for every value of
/// `raw` and `vm`; what the deriver returns is its own affair, and the
/// contract holds for every outcome of it.
pub fn resolve_raw<D, F, R>(raw: Option<RawHandles>, vm: Option<VmHandle>, deriver: &D, f: F) -> (r: Option<R>)
    where
        D: EnvDeriver,
        F: Fn(EnvHandle, ActivityHandle) -> R,
    requires
        forall|e: EnvHandle, a: ActivityHandle| #[trigger] call_requires(f, (e, a)),
    ensures
        spec_plan(raw, vm) is Absent ==> r is None,
        spec_plan(raw, vm) matches Resolution::Ready(e, a) ==> (r matches Some(x) && call_ensures(f, (e, a), x)),
        spec_plan(raw, vm) matches Resolution::Derive(v, a) ==> (r matches Some(x) ==> exists|d: EnvHandle| call_ensures(f, (d, a), x)),
{
    match plan_resolution(raw, vm) {
        Resolution::Absent => None,
        Resolution::Ready(e, a) => Some(f(e, a)),
        Resolution::Derive(v, a) => {
            let derived = deriver.derive_env(v);
            resolve_after_derive(derived, a, f)
        },
    }
}

/// Resolves through an explicit backend strategy: the adapter supplies the
/// raw handles, `vm` backs the environment fallback. The adapter's output is
/// not predictable here, so the contract states what holds for every
/// outcome: any present result came from one invocation of `f`.
pub fn with_activity_inner<A, D, F, R>(adapter: &A, vm: Option<VmHandle>, deriver: &D, f: F) -> (r: Option<R>)
    where
        A: BackendAdapter,
        D: EnvDeriver,
        F: Fn(EnvHandle, ActivityHandle) -> R,
    requires
        forall|e: EnvHandle, a: ActivityHandle| #[trigger] call_requires(f, (e, a)),
    ensures
        r matches Some(x) ==> exists|e: EnvHandle, a: ActivityHandle| call_ensures(f, (e, a), x),
{
    let raw = adapter.raw_handles();
    resolve_raw(raw, vm, deriver, f)
}

/// Law: with no adapter output the resolution is absent, whatever the VM
/// slot holds and whatever any derivation would have returned.
pub proof fn lemma_no_source_absent(vm: Option<VmHandle>, derived: Option<EnvHandle>)
    ensures
        spec_outcome(None, vm, derived) is None,
{
}

/// Law: an adapter-supplied environment handle is passed through unchanged,
/// whatever the VM slot holds: the caller's function receives exactly the
/// environment and activity handles the adapter produced.
pub proof fn lemma_env_passthrough(
    rh: RawHandles,
    e: EnvHandle,
    vm: Option<VmHandle>,
    derived: Option<EnvHandle>,
)
    requires
        rh.env == Some(e),
    ensures
        spec_outcome(Some(rh), vm, derived) == Some((e, rh.activity)),
{
}

/// Law: when the adapter supplies no environment handle and no VM is
/// registered, the resolution is absent, whatever any derivation would have
/// returned.
pub proof fn lemma_missing_vm_absent(rh: RawHandles, derived: Option<EnvHandle>)
    requires
        rh.env is None,
    ensures
        spec_outcome(Some(rh), None, derived) is None,
{
}

/// Law: when the adapter supplies no environment handle and a VM is
/// registered, the environment is derived from exactly that VM; a successful
/// derivation resolves to the derived environment with the adapter's
/// activity handle, and a failed one resolves to absent.
pub proof fn lemma_vm_fallback(rh: RawHandles, v: VmHandle, d: EnvHandle)
    requires
        rh.env is None,
    ensures
        spec_plan(Some(rh), Some(v)) == Resolution::Derive(v, rh.activity),
        spec_outcome(Some(rh), Some(v), Some(d)) == Some((d, rh.activity)),
        spec_outcome(Some(rh), Some(v), None) is None,
{
}

} // verus!
