use controller_tray::shaper::shape;

#[test]
fn dead_inputs_map_to_zero() {
    // deadzone 7.5%: threshold is 2457.525 raw units
    assert_eq!(shape(0, 750), 0);
    assert_eq!(shape(1000, 750), 0);
    assert_eq!(shape(-1000, 750), 0);
    assert_eq!(shape(2457, 750), 0);
    assert_eq!(shape(-2457, 750), 0);
}

#[test]
fn full_deflection_saturates_exactly() {
    assert_eq!(shape(32767, 750), 32767);
    assert_eq!(shape(-32767, 750), -32767);
    assert_eq!(shape(32767, 0), 32767);
    assert_eq!(shape(32767, 4999), 32767);
    assert_eq!(shape(-32767, 9999), -32767);
}

#[test]
fn shape_is_odd() {
    for v in [0, 1, 1000, 2458, 10000, 32767, 32768] {
        assert_eq!(shape(-v, 750), -shape(v, 750));
        assert_eq!(shape(-v, 0), -shape(v, 0));
        assert_eq!(shape(-v, 5000), -shape(v, 5000));
    }
}

#[test]
fn zero_deadzone_is_identity() {
    assert_eq!(shape(12345, 0), 12345);
    assert_eq!(shape(-12345, 0), -12345);
    assert_eq!(shape(1, 0), 1);
}

#[test]
fn shaped_value_is_rescaled_over_the_remaining_band() {
    // deadzone 7.5%: (10000 * 10000 - 750 * 32767) / (10000 - 750) == 8154
    assert_eq!(shape(10000, 750), 8154);
    assert_eq!(shape(-10000, 750), -8154);
    // just past the threshold the output restarts near zero, no jump
    assert_eq!(shape(2458, 750), 0);
    assert_eq!(shape(2467, 750), 10);
}

#[test]
fn output_grows_monotonically_past_threshold() {
    let mut prev = 0;
    for v in [2458, 3000, 5000, 10000, 20000, 30000, 32767] {
        let s = shape(v, 750);
        assert!(s >= prev);
        prev = s;
    }
}
