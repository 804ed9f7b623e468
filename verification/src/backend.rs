//! The injection points through which toolkits and the embedding layer feed
//! platform state into the resolver.
//!
//! None of these traits carries a contract: their implementors sit outside
//! this library (a UI toolkit, the managed runtime's attach machinery), and
//! nothing can be assumed of what they return. Every resolver contract in
//! this crate therefore states what holds for *every* possible outcome of
//! these calls; the exact-outcome statements live in the functions that take
//! the outcome as an argument.

use vstd::prelude::*;
use crate::handles::{VmHandle, EnvHandle, RawHandles};

verus! {

/// The value registered by a UI toolkit or application: invoked on every
/// resolution to obtain the current raw handles. Registration trusts the
/// implementor completely — it must supply addresses that are live for the
/// duration of the call.
pub trait ActivityGetter {
    /// Produce the current (optional environment, activity) pair.
    fn current(&self) -> RawHandles;
}

/// The narrow interface to the managed runtime: deriving a thread-scoped
/// environment handle from the process VM. The derivation may fail, for
/// instance when the calling thread cannot attach to the runtime.
pub trait EnvDeriver {
    /// Attempt to derive an environment handle from the given VM handle.
    fn derive_env(&self, vm: VmHandle) -> Option<EnvHandle>;
}

/// The compiled-in backend strategy: one implementation per supported UI
/// toolkit, chosen once at application wiring time. Produces the canonical
/// raw-handle pair for the current call, or nothing when the toolkit state
/// it reads is unavailable.
pub trait BackendAdapter {
    /// Produce the raw handles for the current call, if any source can.
    fn raw_handles(&self) -> Option<RawHandles>;
}

} // verus!
