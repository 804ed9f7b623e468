//! The backend strategy for the Makepad toolkit, which publishes its current
//! activity and VM pointers through its own process-wide state instead of
//! this crate's registry.
//!
//! This backend follows the derive-at-once pattern: it reads the toolkit's
//! two accessors and derives the environment from the toolkit's own VM
//! immediately, so whenever it yields an output at all, that output already
//! carries an environment handle and the registry's VM fallback is never
//! consulted behind it.

use vstd::prelude::*;
use crate::backend::{BackendAdapter, EnvDeriver};
use crate::handles::{ActivityHandle, RawHandles, VmHandle};

verus! {

/// Relies on makepad_android_state::get_java_vm: reads the toolkit's VM
/// pointer, null until the toolkit's startup layer has stored one. The
/// value is ambient process state, so nothing is assumed of it.
#[verifier::external_body]
fn makepad_vm_addr() -> usize {
    makepad_android_state::get_java_vm() as usize
}

/// Relies on makepad_android_state::get_activity: reads the toolkit's
/// current activity pointer, null until the toolkit has stored one. The
/// value is ambient process state, so nothing is assumed of it.
#[verifier::external_body]
fn makepad_activity_addr() -> usize {
    makepad_android_state::get_activity() as usize
}

/// The Makepad backend strategy. The environment derivation is injected,
/// as everywhere in this crate: the toolkit supplies only raw addresses.
pub struct MakepadBackend<D> {
    deriver: D,
}

impl<D: EnvDeriver> MakepadBackend<D> {
    /// A Makepad backend that derives environment handles through `deriver`.
    pub fn new(deriver: D) -> Self {
        MakepadBackend { deriver }
    }

    /// The adapter step: read the toolkit's VM address, derive an
    /// environment from it, and pair the result with the toolkit's current
    /// activity address. Yields nothing when the derivation fails (for
    /// instance because the toolkit has not stored a VM yet); any output it
    /// does yield carries an environment handle, so a resolver behind this
    /// backend never falls back to a registered VM.
    pub fn current_raw(&self) -> (r: Option<RawHandles>)
        ensures
            r matches Some(rh) ==> rh.env is Some,
    {
        let vm = VmHandle { addr: makepad_vm_addr() };
        match self.deriver.derive_env(vm) {
            None => None,
            Some(env) => Some(RawHandles {
                env: Some(env),
                activity: ActivityHandle { addr: makepad_activity_addr() },
            }),
        }
    }
}

impl<D: EnvDeriver> BackendAdapter for MakepadBackend<D> {
    fn raw_handles(&self) -> Option<RawHandles> {
        self.current_raw()
    }
}

} // verus!
