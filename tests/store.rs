use rustcraft::loops::{ControlLoop, ControlStep, RenderLoop, RenderStep};
use rustcraft::store::{
    control_pass, event_micros, event_rate_milli_hz, fetch, is_registered, publish, register,
    register_unless_occupied, render_micros, render_pass, render_rate_milli_hz, set_stall_threshold, set_thread_name,
    stall_threshold, thread_label, thread_name, StoreError,
};

#[test]
fn publish_then_fetch() {
    assert_eq!(fetch(".test.publish"), None);
    assert_eq!(publish(".test.publish", 7), Ok(()));
    assert_eq!(fetch(".test.publish"), Some(7));
    assert_eq!(publish(".test.publish", 9), Ok(()));
    assert_eq!(fetch(".test.publish"), Some(9));
}

#[test]
fn register_refuses_second_value() {
    assert_eq!(register::<u64>(".test.once", 1), Ok(()));
    assert_eq!(register::<u64>(".test.once", 2), Err(StoreError::AlreadyExists));
    assert_eq!(fetch(".test.once"), Some(1));
}

#[test]
fn register_decides_on_occupancy() {
    assert_eq!(register_unless_occupied::<u64>(true, ".test.decided", 5), Err(StoreError::AlreadyExists));
    assert_eq!(fetch(".test.decided"), None);
    assert_eq!(register_unless_occupied::<u64>(false, ".test.decided", 6), Ok(()));
    assert_eq!(fetch(".test.decided"), Some(6));
}

#[test]
fn wrong_type_reads_nothing() {
    assert_eq!(register::<String>(".test.typed", String::from("text")), Ok(()));
    assert!(is_registered::<String>(".test.typed"));
    assert!(!is_registered::<u64>(".test.typed"));
    assert_eq!(fetch(".test.typed"), None);
}

#[test]
fn distinct_keys_are_separate() {
    assert_eq!(publish(".test.key_a", 1), Ok(()));
    assert_eq!(publish(".test.key_b", 2), Ok(()));
    assert_eq!(publish(".test.key_a", 3), Ok(()));
    assert_eq!(fetch(".test.key_a"), Some(3));
    assert_eq!(fetch(".test.key_b"), Some(2));
}

#[test]
fn rates_and_threshold_through_render_passes() {
    // The render duration and the threshold are process-wide: one test
    // covers both, from their defaults on.
    assert_eq!(render_micros(), None);
    assert_eq!(render_rate_milli_hz(), 0);
    assert_eq!(stall_threshold(), 16_670);
    let mut r = RenderLoop::new(0);
    let step = render_pass(&mut r, false, 20_000);
    assert_eq!(step, RenderStep::Frame { elapsed: 20_000, threshold: 16_670, stall: true });
    assert_eq!(render_micros(), Some(20_000));
    assert_eq!(render_rate_milli_hz(), 50_000);
    assert_eq!(render_pass(&mut r, true, 40_000), RenderStep::Exit);
    assert_eq!(render_micros(), Some(20_000));
    assert_eq!(set_stall_threshold(30_000), Ok(()));
    assert_eq!(stall_threshold(), 30_000);
    let step = render_pass(&mut r, false, 45_000);
    assert_eq!(step, RenderStep::Frame { elapsed: 25_000, threshold: 30_000, stall: false });
    assert_eq!(render_micros(), Some(25_000));
    assert_eq!(render_rate_milli_hz(), 40_000);
}

#[test]
fn control_pass_publishes() {
    assert_eq!(event_rate_milli_hz(), 0);
    let mut c = ControlLoop::new(1_000);
    assert_eq!(control_pass(&mut c, false, 5_000), ControlStep::Iterate { elapsed: 4_000 });
    assert_eq!(event_micros(), Some(4_000));
    assert_eq!(event_rate_milli_hz(), 250_000);
    assert_eq!(control_pass(&mut c, true, 9_000), ControlStep::Stop);
}

#[test]
fn thread_names_in_store() {
    assert_eq!(thread_name(77), None);
    assert_eq!(thread_label(77), "Thread-77");
    assert!(set_thread_name(77, "render"));
    assert_eq!(thread_name(77), Some(String::from("render")));
    assert_eq!(thread_label(77), "render");
    assert!(set_thread_name(77, "control"));
    assert_eq!(thread_label(77), "control");
}
