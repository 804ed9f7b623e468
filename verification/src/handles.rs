//! The handle types that flow through the resolution protocol.
//!
//! Each handle is an opaque token carrying the address of a platform object
//! that some toolkit or embedder supplied. This layer never dereferences an
//! address: it only decides which addresses reach the caller's function, and
//! under which conditions. Turning an address back into a live platform
//! object is the embedding layer's unchecked responsibility.

use vstd::prelude::*;

verus! {

/// The process's single runtime-VM instance, by address.
///
/// At most one is registered per process; the registrant guarantees that the
/// address stays valid for the rest of the process lifetime.
#[derive(Clone, Copy, Debug, PartialEq, Eq, Structural)]
pub struct VmHandle {
    pub addr: usize,
}

/// A thread-scoped accessor into the managed runtime, by address.
///
/// Valid only for the duration of the one resolver call that produced it.
#[derive(Clone, Copy, Debug, PartialEq, Eq, Structural)]
pub struct EnvHandle {
    pub addr: usize,
}

/// The current foreground activity object, by address.
///
/// A null address is a legitimate value here: the platform's own semantics
/// may use a null object, so this layer imposes no check on it.
#[derive(Clone, Copy, Debug, PartialEq, Eq, Structural)]
pub struct ActivityHandle {
    pub addr: usize,
}

/// The canonical raw output of one backend adapter invocation: an optional
/// environment handle and the current activity handle.
#[derive(Clone, Copy, Debug, PartialEq, Eq)]
pub struct RawHandles {
    pub env: Option<EnvHandle>,
    pub activity: ActivityHandle,
}

} // verus!
