//! The metrics registry and the `up` gauge are external collaborators: this
//! module declares their types and wraps the handful of calls the library
//! makes into them. Nothing about the exposition byte format is modelled;
//! the registry is shared state behind a reader-writer lock.

use vstd::prelude::*;

use prometheus_client::metrics::gauge::Gauge;
use prometheus_client::registry::Registry;
use std::sync::Arc;
use std::sync::RwLock;
use std::sync::RwLockReadGuard;
use std::sync::RwLockWriteGuard;
use std::sync::atomic::AtomicI64;

verus! {

#[verifier::external_type_specification]
#[verifier::external_body]
pub struct ExRegistry(Registry);

#[verifier::external_type_specification]
#[verifier::external_body]
#[verifier::reject_recursive_types(N)]
#[verifier::reject_recursive_types(A)]
pub struct ExGauge<N, A>(Gauge<N, A>);

#[verifier::external_type_specification]
#[verifier::external_body]
#[verifier::reject_recursive_types(T)]
pub struct ExRwLock<T: ?Sized>(RwLock<T>);

#[verifier::external_type_specification]
#[verifier::external_body]
#[verifier::reject_recursive_types(T)]
pub struct ExRwLockReadGuard<'a, T: ?Sized>(RwLockReadGuard<'a, T>);

#[verifier::external_type_specification]
#[verifier::external_body]
#[verifier::reject_recursive_types(T)]
pub struct ExRwLockWriteGuard<'a, T: ?Sized + 'a>(RwLockWriteGuard<'a, T>);

/// Relies on `Gauge::default`: a fresh gauge backed by its own atomic cell,
/// initially holding 0.
#[verifier::external_body]
pub(crate) fn new_gauge() -> Gauge<i64, AtomicI64> {
    Gauge::default()
}

/// Relies on `Gauge::set`: stores `v` in the gauge's shared atomic cell.
/// The previous value is discarded.
#[verifier::external_body]
pub(crate) fn gauge_set(gauge: &Gauge<i64, AtomicI64>, v: i64) {
    gauge.set(v);
}

/// Relies on `Gauge::get`: returns whatever value the gauge's shared atomic
/// cell holds at the moment of the call; other handles may change it at any
/// time, so nothing can be promised of the result.
#[verifier::external_body]
pub(crate) fn gauge_get(gauge: &Gauge<i64, AtomicI64>) -> i64 {
    gauge.get()
}

/// Relies on `Gauge::clone`: the clone shares the same underlying atomic
/// cell, so a `set` through one handle is seen by `get` through the other.
#[verifier::external_body]
pub(crate) fn gauge_clone(gauge: &Gauge<i64, AtomicI64>) -> Gauge<i64, AtomicI64> {
    gauge.clone()
}

/// Relies on `Registry::default`: a fresh registry with no metrics and no
/// prefix, here placed behind a reader-writer lock so that registration and
/// rendering can come from different tasks.
#[verifier::external_body]
pub(crate) fn new_shared_registry() -> Arc<RwLock<Registry>> {
    Arc::new(RwLock::new(Registry::default()))
}

/// Relies on `std::sync::RwLock::write`: blocks until the calling task holds
/// the registry exclusively. Panics only if another thread panicked while
/// holding the lock (poisoning).
#[verifier::external_body]
pub(crate) fn registry_write(lock: &Arc<RwLock<Registry>>) -> RwLockWriteGuard<'_, Registry> {
    lock.write().unwrap()
}

/// Relies on `std::sync::RwLock::read`: shared access for rendering. Panics
/// only if another thread panicked while holding the lock (poisoning).
#[verifier::external_body]
pub(crate) fn registry_read(lock: &Arc<RwLock<Registry>>) -> RwLockReadGuard<'_, Registry> {
    lock.read().unwrap()
}

/// Relies on `Registry::register`: records the metric under the given name
/// with the given help text, to appear in every later rendering.
#[verifier::external_body]
pub(crate) fn registry_register_gauge(
    registry: &mut RwLockWriteGuard<'_, Registry>,
    name: &str,
    help: &str,
    gauge: Gauge<i64, AtomicI64>,
) {
    registry.register(name, help, gauge);
}

/// Relies on `prometheus_client::encoding::text::encode`: renders every
/// registered metric in the OpenMetrics text format. `None` exactly when the
/// encoder reported a formatting error, in which case the buffer is dropped.
#[verifier::external_body]
pub(crate) fn encode_registry(registry: &RwLockReadGuard<'_, Registry>) -> Option<String> {
    let mut buffer = String::new();
    match prometheus_client::encoding::text::encode(&mut buffer, registry) {
        Ok(()) => Some(buffer),
        Err(_) => None,
    }
}

/// Relies on `alloc::sync::Arc::clone`: the clone points at the same
/// allocation as the original.
#[verifier::external_body]
pub(crate) fn clone_arc<T>(arc: &Arc<T>) -> (r: Arc<T>)
    ensures
        r == *arc,
{
    arc.clone()
}

} // verus!
