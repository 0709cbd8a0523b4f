use controller_tray::session::{
    required_devices, Directive, Session, SessionState, DEGRADED_BACKOFF_MS,
    DISCOVER_BACKOFF_MS, IDLE_BACKOFF_MS, INIT_FAILURE_BACKOFF_MS,
};
use controller_tray::settings::{DualStickPriority, InputType, Settings};

fn enabled_settings(input_type: InputType) -> Settings {
    Settings {
        enabled: true,
        invert_y: false,
        invert_x: false,
        swap_axes: false,
        sensitivity_milli: 1000,
        deadzone_bp: 0,
        input_type,
        dual_stick_priority: DualStickPriority::Stick1First,
    }
}

#[test]
fn fresh_session_is_idle_and_empty() {
    let s = Session::new();
    assert_eq!(s.state, SessionState::Idle);
    assert_eq!(s.source, None);
    assert!(s.handles.is_empty());
    assert_eq!(s.released_total, 0);
    assert_eq!(s.last_tick_us, None);
}

#[test]
fn disabled_settings_idle_the_session() {
    let mut sess = Session::new();
    let off = Settings { enabled: false, ..enabled_settings(InputType::XInput) };
    match sess.plan(&off) {
        Directive::ReleaseAll { handles, backoff_ms } => {
            assert!(handles.is_empty());
            assert_eq!(backoff_ms, IDLE_BACKOFF_MS);
        }
        other => panic!("expected ReleaseAll, got {:?}", other),
    }
    assert_eq!(sess.state, SessionState::Idle);
}

#[test]
fn discovery_and_activation() {
    let mut sess = Session::new();
    let s = enabled_settings(InputType::XInput);
    // first observation of the source counts as a change
    match sess.plan(&s) {
        Directive::ReleaseAll { handles, backoff_ms } => {
            assert!(handles.is_empty());
            assert_eq!(backoff_ms, 0);
        }
        other => panic!("expected ReleaseAll, got {:?}", other),
    }
    assert_eq!(sess.state, SessionState::Reconfiguring);
    // next tick starts discovery
    match sess.plan(&s) {
        Directive::Acquire { count } => assert_eq!(count, 1),
        other => panic!("expected Acquire, got {:?}", other),
    }
    assert_eq!(sess.state, SessionState::Discovering);
    // a device answers: sampling starts at once
    match sess.acquired(vec![7]) {
        Directive::Sample => {}
        other => panic!("expected Sample, got {:?}", other),
    }
    assert_eq!(sess.state, SessionState::Active);
    assert_eq!(sess.handles, vec![7]);
}

#[test]
fn empty_discovery_backs_off() {
    let mut sess = Session::new();
    let s = enabled_settings(InputType::DirectInputSingle);
    let _ = sess.plan(&s);
    let _ = sess.plan(&s);
    match sess.acquired(vec![]) {
        Directive::Sleep { backoff_ms } => assert_eq!(backoff_ms, DISCOVER_BACKOFF_MS),
        other => panic!("expected Sleep, got {:?}", other),
    }
    assert_eq!(sess.state, SessionState::Discovering);
}

#[test]
fn source_change_releases_every_handle_before_any_acquisition() {
    let mut sess = Session::new();
    let dual = enabled_settings(InputType::DirectInputDual);
    let _ = sess.plan(&dual);
    match sess.plan(&dual) {
        Directive::Acquire { count } => assert_eq!(count, 2),
        other => panic!("expected Acquire, got {:?}", other),
    }
    let _ = sess.acquired(vec![11, 12]);
    assert_eq!(sess.state, SessionState::Active);
    assert_eq!(sess.handles, vec![11, 12]);
    let released_before = sess.released_total;

    // the input source changes mid-run
    let single = enabled_settings(InputType::XInput);
    match sess.plan(&single) {
        Directive::ReleaseAll { handles, .. } => assert_eq!(handles, vec![11, 12]),
        other => panic!("expected ReleaseAll, got {:?}", other),
    }
    assert_eq!(sess.state, SessionState::Reconfiguring);
    assert!(sess.handles.is_empty());
    assert_eq!(sess.released_total, released_before + 2);

    // only after the teardown does a new acquisition attempt follow
    match sess.plan(&single) {
        Directive::Acquire { count } => assert_eq!(count, 1),
        other => panic!("expected Acquire, got {:?}", other),
    }
}

#[test]
fn first_active_tick_integrates_zero_elapsed_time() {
    let mut sess = Session::new();
    let s = enabled_settings(InputType::XInput);
    let _ = sess.plan(&s);
    let _ = sess.plan(&s);
    let _ = sess.acquired(vec![0]);
    // full deflection, but the timing reference was just reset
    assert_eq!(sess.sample_ok(&s, (32767, 0), None, 5_000_000), None);
    // one second later the same deflection moves the pointer
    assert_eq!(sess.sample_ok(&s, (1000, 0), None, 6_000_000), Some((1000, 0)));
    assert_eq!(sess.last_tick_us, Some(6_000_000));
}

#[test]
fn failed_read_degrades_without_teardown() {
    let mut sess = Session::new();
    let s = enabled_settings(InputType::DirectInputSingle);
    let _ = sess.plan(&s);
    let _ = sess.plan(&s);
    let _ = sess.acquired(vec![3]);
    match sess.sample_failed() {
        Directive::Sleep { backoff_ms } => assert_eq!(backoff_ms, DEGRADED_BACKOFF_MS),
        other => panic!("expected Sleep, got {:?}", other),
    }
    assert_eq!(sess.state, SessionState::Degraded);
    assert_eq!(sess.handles, vec![3]);
    // the backoff must not be integrated into the next delta
    assert_eq!(sess.last_tick_us, None);
}

#[test]
fn lost_device_is_released_and_rediscovered() {
    let mut sess = Session::new();
    let s = enabled_settings(InputType::XInput);
    let _ = sess.plan(&s);
    let _ = sess.plan(&s);
    let _ = sess.acquired(vec![2]);
    match sess.device_lost() {
        Directive::ReleaseAll { handles, backoff_ms } => {
            assert_eq!(handles, vec![2]);
            assert_eq!(backoff_ms, DEGRADED_BACKOFF_MS);
        }
        other => panic!("expected ReleaseAll, got {:?}", other),
    }
    assert_eq!(sess.state, SessionState::Discovering);
    assert!(sess.handles.is_empty());
    assert_eq!(sess.released_total, 1);
}

#[test]
fn init_failure_retries_after_long_backoff() {
    let mut sess = Session::new();
    let s = enabled_settings(InputType::DirectInputSingle);
    let _ = sess.plan(&s);
    let _ = sess.plan(&s);
    match sess.init_failed() {
        Directive::Sleep { backoff_ms } => assert_eq!(backoff_ms, INIT_FAILURE_BACKOFF_MS),
        other => panic!("expected Sleep, got {:?}", other),
    }
    assert_eq!(sess.state, SessionState::Discovering);
}

#[test]
fn required_device_counts() {
    assert_eq!(required_devices(InputType::XInput), 1);
    assert_eq!(required_devices(InputType::DirectInputSingle), 1);
    assert_eq!(required_devices(InputType::DirectInputDual), 2);
}

#[test]
fn disabling_mid_run_releases_and_resets_timing() {
    let mut sess = Session::new();
    let s = enabled_settings(InputType::XInput);
    let _ = sess.plan(&s);
    let _ = sess.plan(&s);
    let _ = sess.acquired(vec![9]);
    let _ = sess.sample_ok(&s, (0, 0), None, 1_000_000);
    assert_eq!(sess.last_tick_us, Some(1_000_000));
    let off = Settings { enabled: false, ..s };
    match sess.plan(&off) {
        Directive::ReleaseAll { handles, backoff_ms } => {
            assert_eq!(handles, vec![9]);
            assert_eq!(backoff_ms, IDLE_BACKOFF_MS);
        }
        other => panic!("expected ReleaseAll, got {:?}", other),
    }
    assert_eq!(sess.state, SessionState::Idle);
    assert_eq!(sess.last_tick_us, None);
    assert_eq!(sess.released_total, 1);
}
