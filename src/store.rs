//! Access to the process-wide named-value store (the `gom` registry), and
//! the runtime's shared state kept in it: loop durations, the stall
//! threshold and the thread-name table. What a read returns depends on what
//! any thread stored before, so reads promise nothing of their value; the
//! functions that decide on a value take it as an argument.
use vstd::prelude::*;
use crate::timing::Clock;
use crate::names::{label, ThreadNames};
use crate::timing::{rate_milli_hz, rate_milli_hz_spec, threshold_or_default};
use crate::loops::{control_next, render_next, ControlLoop, ControlStep, RenderLoop, RenderStep};

verus! {

/// Key of the window resource.
pub const WINDOW: &'static str = ".GLFW.WINDOW";

/// Key of the last control-loop duration (µs).
pub const EVENT_DURATION: &'static str = ".GLFW.WINDOW.EVENT_DURATION";

/// Key of the last render-loop duration (µs).
pub const RENDER_DURATION: &'static str = ".GLFW.WINDOW.RENDER_DURATION";

/// Key of the stall threshold (µs).
pub const STALL_THRESHOLD: &'static str = ".GLFW.WINDOW.STALL_THRESHOLD";

/// Key of the thread-name table.
pub const THREAD_NAMES: &'static str = ".APP.THREAD_NAMES";

// The registry panics when it is called from inside a closure that it is
// running; the closures handed to it here make no calls into it.

/// Relies on `gom::Registry::<T>::exists`: whether a value of type `T` is
/// registered under `key`.
#[verifier::external_body]
fn registry_exists<T: 'static + Send + Sync>(key: &str) -> bool {
    gom::Registry::<T>::exists(key)
}

/// Relies on `gom::Registry::<T>::register`: stores `value` under `key`,
/// replacing an earlier value of the same type; `Err` only when a lock of
/// the registry is poisoned.
#[verifier::external_body]
fn registry_register<T: 'static + Send + Sync>(key: &str, value: T) -> Result<(), ()> {
    gom::Registry::<T>::register(key, value)
}

/// Relies on `gom::Registry::<u64>::with`: a copy of the `u64` under `key`,
/// or `None` when there is none.
#[verifier::external_body]
fn registry_read_u64(key: &str) -> Option<u64> {
    gom::Registry::<u64>::with(key, |v: &u64| *v)
}

/// Relies on `gom::Registry::<ThreadNames>::with`: looks `id` up in the
/// table under `key` (outer `None`: no table there).
#[verifier::external_body]
fn registry_lookup_name(key: &str, id: u64) -> Option<Option<String>> {
    gom::Registry::<ThreadNames>::with(key, |t: &ThreadNames| t.get(id))
}

/// Relies on `gom::Registry::<ThreadNames>::apply`: names thread `id` in the
/// table under `key` (`None`: no table there).
#[verifier::external_body]
fn registry_set_name(key: &str, id: u64, name: String) -> Option<()> {
    gom::Registry::<ThreadNames>::apply(key, move |t: &mut ThreadNames| t.set(id, name))
}

/// Why a write to the store did not happen.
#[derive(Debug, Clone, Copy, PartialEq, Eq, Structural)]
pub enum StoreError {
    /// A value of the same type is already registered under the key.
    AlreadyExists,
    /// The store could not be written (a lock was poisoned).
    Unavailable,
}

/// The error for the outcome of a raw registry write.
pub open spec fn write_outcome(raw: Result<(), ()>) -> Result<(), StoreError> {
    match raw {
        Ok(()) => Ok(()),
        Err(()) => Err(StoreError::Unavailable),
    }
}

fn from_raw(raw: Result<(), ()>) -> (r: Result<(), StoreError>)
    ensures
        r == write_outcome(raw),
{
    match raw {
        Ok(()) => Ok(()),
        Err(()) => Err(StoreError::Unavailable),
    }
}

/// Whether a value of type `T` is registered under `key`. Values of
/// different types under one key are separate slots.
pub fn is_registered<T: 'static + Send + Sync>(key: &str) -> bool {
    registry_exists::<T>(key)
}

/// Registers `value` under `key` given whether a value of type `T` is
/// already there: an occupied key is refused without writing, so a
/// registered value is never replaced; a free key is written, and only a
/// store that cannot be written makes it fail.
pub fn register_unless_occupied<T: 'static + Send + Sync>(occupied: bool, key: &str, value: T) -> (r:
    Result<(), StoreError>)
    ensures
        occupied ==> r == Err::<(), StoreError>(StoreError::AlreadyExists),
        !occupied ==> r != Err::<(), StoreError>(StoreError::AlreadyExists),
{
    if occupied {
        return Err(StoreError::AlreadyExists);
    }
    from_raw(registry_register::<T>(key, value))
}

/// Registers `value` under `key` unless a value of type `T` is already
/// there: a registered value is never replaced by this call.
pub fn register<T: 'static + Send + Sync>(key: &str, value: T) -> Result<(), StoreError> {
    let occupied = registry_exists::<T>(key);
    register_unless_occupied(occupied, key, value)
}

/// Stores `value` under `key`, replacing the previous value: durations and
/// the threshold are overwritten on every update.
pub fn publish(key: &str, value: u64) -> (r: Result<(), StoreError>)
    ensures
        r is Err ==> r == Err::<(), StoreError>(StoreError::Unavailable),
{
    from_raw(registry_register::<u64>(key, value))
}

/// The value stored under `key`, if a `u64` is stored there.
pub fn fetch(key: &str) -> Option<u64> {
    registry_read_u64(key)
}

/// Sets the stall threshold (µs); it applies from the next render pass.
pub fn set_stall_threshold(threshold: u64) -> (r: Result<(), StoreError>)
    ensures
        r is Err ==> r == Err::<(), StoreError>(StoreError::Unavailable),
{
    publish(STALL_THRESHOLD, threshold)
}

/// The stall threshold in force: the one stored, or the default.
pub fn stall_threshold() -> u64 {
    threshold_or_default(fetch(STALL_THRESHOLD))
}

/// The last control-loop duration (µs), if one was published.
pub fn event_micros() -> Option<u64> {
    fetch(EVENT_DURATION)
}

/// The last render-loop duration (µs), if one was published.
pub fn render_micros() -> Option<u64> {
    fetch(RENDER_DURATION)
}

/// The control-loop rate in thousandths of a hertz; 0 before the first pass.
pub fn event_rate_milli_hz() -> (r: u64)
    ensures
        exists|published: Option<u64>| r as int == rate_milli_hz_spec(published),
{
    rate_milli_hz(event_micros())
}

/// The render-loop rate in thousandths of a hertz; 0 before the first frame.
pub fn render_rate_milli_hz() -> (r: u64)
    ensures
        exists|published: Option<u64>| r as int == rate_milli_hz_spec(published),
{
    rate_milli_hz(render_micros())
}

/// Creates the thread-name table if there is none yet.
fn ensure_names() {
    if !registry_exists::<ThreadNames>(THREAD_NAMES) {
        let _ = registry_register::<ThreadNames>(THREAD_NAMES, ThreadNames::new());
    }
}

/// Names thread `id`; false when the table could not be reached.
pub fn set_thread_name(id: u64, name: &str) -> bool {
    ensure_names();
    registry_set_name(THREAD_NAMES, id, name.to_string()).is_some()
}

/// The name given to thread `id`, if any.
pub fn thread_name(id: u64) -> Option<String> {
    ensure_names();
    match registry_lookup_name(THREAD_NAMES, id) {
        Some(found) => found,
        None => None,
    }
}

/// The label of thread `id`: its name, or `Thread-` and its number.
pub fn thread_label(id: u64) -> String {
    label(thread_name(id), id)
}

/// One pass of the render loop at time `now`: reads the stall threshold,
/// decides the pass, and publishes the elapsed time of a frame.
pub fn render_pass(state: &mut RenderLoop, close_requested: bool, now: i64) -> (r: RenderStep)
    ensures
        exists|threshold: Option<u64>|
            (*final(state), r) == render_next(*old(state), close_requested, now, threshold),
{
    let threshold = fetch(STALL_THRESHOLD);
    let step = state.tick(close_requested, now, threshold);
    if let RenderStep::Frame { elapsed, .. } = step {
        let _ = publish(RENDER_DURATION, elapsed);
    }
    step
}

/// One pass of the control loop at time `now`: decides the pass and
/// publishes the elapsed time of an iteration.
pub fn control_pass(state: &mut ControlLoop, exit_signalled: bool, now: i64) -> (r: ControlStep)
    ensures
        (*final(state), r) == control_next(*old(state), exit_signalled, now),
{
    let step = state.tick(exit_signalled, now);
    if let ControlStep::Iterate { elapsed } = step {
        let _ = publish(EVENT_DURATION, elapsed);
    }
    step
}

/// One pass of the render loop at the current reading of `clock`.
pub fn render_pass_now(state: &mut RenderLoop, clock: &Clock, close_requested: bool) -> (r: RenderStep)
    ensures
        exists|now: i64, threshold: Option<u64>|
            now >= 0 && (*final(state), r) == render_next(*old(state), close_requested, now, threshold),
{
    let now = clock.now_micros();
    render_pass(state, close_requested, now)
}

/// One pass of the control loop at the current reading of `clock`.
pub fn control_pass_now(state: &mut ControlLoop, clock: &Clock, exit_signalled: bool) -> (r: ControlStep)
    ensures
        exists|now: i64|
            now >= 0 && (*final(state), r) == control_next(*old(state), exit_signalled, now),
{
    let now = clock.now_micros();
    control_pass(state, exit_signalled, now)
}

} // verus!
