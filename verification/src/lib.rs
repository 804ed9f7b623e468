//! A cross-toolkit accessor for the current platform activity object and the
//! current native-runtime environment handle on Android-style platforms.
//!
//! Whichever UI toolkit owns those objects, it (or the application) feeds
//! them to this crate through two write-once registrations — a process-wide
//! runtime-VM handle and a "current activity" getter — and downstream code
//! reads them through one call, [`with_activity`], which resolves a scoped
//! (environment, activity) pair fresh on every invocation and hands it to a
//! caller-supplied function for the duration of that call only.
//!
//! The crate never dereferences the addresses it routes: it is the
//! resolution protocol — who registered what, which source wins, when the
//! environment must be derived from the VM, and when the result is absent.

use vstd::prelude::*;

pub mod backend;
pub mod handles;
pub mod makepad;
pub mod registry;
pub mod resolve;

use crate::backend::{ActivityGetter, EnvDeriver};
use crate::handles::{ActivityHandle, EnvHandle};
use crate::registry::Registry;
use crate::resolve::resolve_raw;

verus! {

/// Resolves the current environment and activity handles through the generic
/// backend — the registry's getter supplies the raw handles, the registered
/// VM backs the environment fallback — and invokes `f` once with the pair.
///
/// Returns nothing, without ever invoking `f`, when no getter is registered,
/// when the getter supplies no environment and no VM is registered, or when
/// the derivation from the VM fails.
pub fn with_activity<G, D, F, R>(registry: &Registry<G>, deriver: &D, f: F) -> (r: Option<R>)
    where
        G: ActivityGetter,
        D: EnvDeriver,
        F: Fn(EnvHandle, ActivityHandle) -> R,
    requires
        forall|e: EnvHandle, a: ActivityHandle| #[trigger] call_requires(f, (e, a)),
    ensures
        registry.spec_getter() is None ==> r is None,
        r is Some ==> registry.spec_getter() is Some,
        r matches Some(x) ==> exists|e: EnvHandle, a: ActivityHandle| call_ensures(f, (e, a), x),
{
    let raw = registry.current_raw();
    resolve_raw(raw, registry.read_vm(), deriver, f)
}

} // verus!
