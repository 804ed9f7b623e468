//! Tests for the per-call resolution protocol.

use std::cell::Cell;

use android_env::handles::{ActivityHandle, EnvHandle, RawHandles, VmHandle};
use android_env::backend::{ActivityGetter, BackendAdapter, EnvDeriver};
use android_env::registry::Registry;
use android_env::resolve::{
    plan_resolution, resolve_after_derive, resolve_with_derived, with_activity_inner, Resolution,
};
use android_env::with_activity;

/// A getter that always reports the same raw handles.
struct ConstGetter(RawHandles);

impl ActivityGetter for ConstGetter {
    fn current(&self) -> RawHandles {
        self.0
    }
}

/// A deriver that always yields the same outcome and records which VM it was
/// asked about.
struct ConstDeriver<'a> {
    outcome: Option<EnvHandle>,
    asked: &'a Cell<Option<usize>>,
}

impl<'a> EnvDeriver for ConstDeriver<'a> {
    fn derive_env(&self, vm: VmHandle) -> Option<EnvHandle> {
        self.asked.set(Some(vm.addr));
        self.outcome
    }
}

/// A backend strategy that reports a fixed adapter output.
struct FixedBackend(Option<RawHandles>);

impl BackendAdapter for FixedBackend {
    fn raw_handles(&self) -> Option<RawHandles> {
        self.0
    }
}

fn raw(env_addr: Option<usize>, activity_addr: usize) -> RawHandles {
    RawHandles {
        env: env_addr.map(|addr| EnvHandle { addr }),
        activity: ActivityHandle { addr: activity_addr },
    }
}

#[test]
fn nothing_registered_yields_absent_and_never_invokes() {
    let reg: Registry<ConstGetter> = Registry::new();
    let asked = Cell::new(None);
    let deriver = ConstDeriver { outcome: Some(EnvHandle { addr: 99 }), asked: &asked };
    let calls = Cell::new(0u32);
    let r = with_activity(&reg, &deriver, |_e, _a| {
        calls.set(calls.get() + 1);
        42
    });
    assert_eq!(r, None);
    assert_eq!(calls.get(), 0);
    assert_eq!(asked.get(), None);
}

#[test]
fn getter_supplied_env_is_passed_through_unchanged() {
    let mut reg: Registry<ConstGetter> = Registry::new();
    assert!(reg.set_activity_getter(ConstGetter(raw(Some(7), 5))).is_ok());
    let asked = Cell::new(None);
    // The deriver would fail, but it must never even be consulted.
    let deriver = ConstDeriver { outcome: None, asked: &asked };
    let r = with_activity(&reg, &deriver, |e, a| (e.addr, a.addr));
    assert_eq!(r, Some((7, 5)));
    assert_eq!(asked.get(), None);
}

#[test]
fn no_env_and_no_vm_yields_absent() {
    let mut reg: Registry<ConstGetter> = Registry::new();
    assert!(reg.set_activity_getter(ConstGetter(raw(None, 5))).is_ok());
    let asked = Cell::new(None);
    let deriver = ConstDeriver { outcome: Some(EnvHandle { addr: 99 }), asked: &asked };
    let calls = Cell::new(0u32);
    let r = with_activity(&reg, &deriver, |_e, _a| {
        calls.set(calls.get() + 1);
        42
    });
    assert_eq!(r, None);
    assert_eq!(calls.get(), 0);
    assert_eq!(asked.get(), None);
}

#[test]
fn env_is_derived_from_the_registered_vm() {
    let mut reg: Registry<ConstGetter> = Registry::new();
    assert!(reg.set_activity_getter(ConstGetter(raw(None, 5))).is_ok());
    assert_eq!(reg.set_vm(VmHandle { addr: 3 }), Ok(()));
    let asked = Cell::new(None);
    let deriver = ConstDeriver { outcome: Some(EnvHandle { addr: 99 }), asked: &asked };
    let r = with_activity(&reg, &deriver, |e, a| (e.addr, a.addr));
    assert_eq!(r, Some((99, 5)));
    // The derivation was asked about exactly the registered VM.
    assert_eq!(asked.get(), Some(3));
}

#[test]
fn failed_derivation_yields_absent() {
    let mut reg: Registry<ConstGetter> = Registry::new();
    assert!(reg.set_activity_getter(ConstGetter(raw(None, 5))).is_ok());
    assert_eq!(reg.set_vm(VmHandle { addr: 3 }), Ok(()));
    let asked = Cell::new(None);
    let deriver = ConstDeriver { outcome: None, asked: &asked };
    let calls = Cell::new(0u32);
    let r = with_activity(&reg, &deriver, |_e, _a| {
        calls.set(calls.get() + 1);
        42
    });
    assert_eq!(r, None);
    assert_eq!(calls.get(), 0);
    assert_eq!(asked.get(), Some(3));
}

#[test]
fn successful_resolution_invokes_exactly_once() {
    let mut reg: Registry<ConstGetter> = Registry::new();
    assert!(reg.set_activity_getter(ConstGetter(raw(Some(7), 5))).is_ok());
    let asked = Cell::new(None);
    let deriver = ConstDeriver { outcome: None, asked: &asked };
    let calls = Cell::new(0u32);
    let r = with_activity(&reg, &deriver, |_e, _a| {
        calls.set(calls.get() + 1);
        42
    });
    assert_eq!(r, Some(42));
    assert_eq!(calls.get(), 1);
}

#[test]
fn null_activity_address_is_still_wrapped() {
    let mut reg: Registry<ConstGetter> = Registry::new();
    assert!(reg.set_activity_getter(ConstGetter(raw(Some(7), 0))).is_ok());
    let asked = Cell::new(None);
    let deriver = ConstDeriver { outcome: None, asked: &asked };
    let r = with_activity(&reg, &deriver, |e, a| (e.addr, a.addr));
    assert_eq!(r, Some((7, 0)));
}

#[test]
fn plan_is_absent_without_adapter_output() {
    assert_eq!(plan_resolution(None, None), Resolution::Absent);
    assert_eq!(plan_resolution(None, Some(VmHandle { addr: 3 })), Resolution::Absent);
}

#[test]
fn plan_is_ready_with_adapter_env() {
    let p = plan_resolution(Some(raw(Some(7), 5)), Some(VmHandle { addr: 3 }));
    assert_eq!(p, Resolution::Ready(EnvHandle { addr: 7 }, ActivityHandle { addr: 5 }));
}

#[test]
fn plan_falls_back_to_registered_vm() {
    let p = plan_resolution(Some(raw(None, 5)), Some(VmHandle { addr: 3 }));
    assert_eq!(p, Resolution::Derive(VmHandle { addr: 3 }, ActivityHandle { addr: 5 }));
    assert_eq!(plan_resolution(Some(raw(None, 5)), None), Resolution::Absent);
}

#[test]
fn resolve_after_derive_uses_the_derived_env() {
    let r = resolve_after_derive(Some(EnvHandle { addr: 99 }), ActivityHandle { addr: 5 }, |e, a| {
        (e.addr, a.addr)
    });
    assert_eq!(r, Some((99, 5)));
    let none: Option<(usize, usize)> =
        resolve_after_derive(None, ActivityHandle { addr: 5 }, |e, a| (e.addr, a.addr));
    assert_eq!(none, None);
}

#[test]
fn fully_determined_resolution_is_exact() {
    let pair = |e: EnvHandle, a: ActivityHandle| (e.addr, a.addr);
    let vm = Some(VmHandle { addr: 3 });
    let derived = Some(EnvHandle { addr: 99 });
    // No adapter output: absent, whatever else is at hand.
    assert_eq!(resolve_with_derived(None, vm, derived, pair), None);
    // Adapter-supplied environment: passed through unchanged.
    assert_eq!(resolve_with_derived(Some(raw(Some(7), 5)), vm, derived, pair), Some((7, 5)));
    // No environment, no VM: absent even though a derivation would succeed.
    assert_eq!(resolve_with_derived(Some(raw(None, 5)), None, derived, pair), None);
    // No environment, VM registered: the derived environment completes it.
    assert_eq!(resolve_with_derived(Some(raw(None, 5)), vm, derived, pair), Some((99, 5)));
    // Same, but the derivation failed: absent.
    assert_eq!(resolve_with_derived(Some(raw(None, 5)), vm, None, pair), None);
}

#[test]
fn explicit_backend_strategy_resolves_like_the_generic_one() {
    let asked = Cell::new(None);
    let deriver = ConstDeriver { outcome: Some(EnvHandle { addr: 99 }), asked: &asked };

    // An absent adapter output resolves to absent.
    let absent: Option<usize> =
        with_activity_inner(&FixedBackend(None), Some(VmHandle { addr: 3 }), &deriver, |e, _a| e.addr);
    assert_eq!(absent, None);

    // An adapter-supplied environment wins over the VM fallback.
    let direct = with_activity_inner(
        &FixedBackend(Some(raw(Some(7), 5))),
        Some(VmHandle { addr: 3 }),
        &deriver,
        |e, a| (e.addr, a.addr),
    );
    assert_eq!(direct, Some((7, 5)));
    assert_eq!(asked.get(), None);

    // Without an adapter-supplied environment the VM fallback derives one.
    let derived = with_activity_inner(
        &FixedBackend(Some(raw(None, 5))),
        Some(VmHandle { addr: 3 }),
        &deriver,
        |e, a| (e.addr, a.addr),
    );
    assert_eq!(derived, Some((99, 5)));
    assert_eq!(asked.get(), Some(3));
}

#[test]
fn registry_acts_as_the_generic_backend_strategy() {
    let mut reg: Registry<ConstGetter> = Registry::new();
    assert!(reg.set_activity_getter(ConstGetter(raw(Some(7), 5))).is_ok());
    assert_eq!(reg.raw_handles(), Some(raw(Some(7), 5)));
    let empty: Registry<ConstGetter> = Registry::new();
    assert_eq!(empty.raw_handles(), None);
}
