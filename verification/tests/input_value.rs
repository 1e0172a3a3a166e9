use backyard_rain::signal::InputValue;

#[test]
fn test_input_value_basics() {
    assert_eq!(InputValue::MIN, -2048);
    assert_eq!(InputValue::MAX, 2047);
}

#[test]
fn test_input_value_to_clamped() {
    // clamp to 12 bit values when inputs are above range
    assert_eq!(InputValue::from_u16(8000, false).to_clamped(), InputValue::MAX);
    assert_eq!(InputValue::from_u16(5000, false).to_clamped(), InputValue::MAX);
    assert_eq!(InputValue::from_u16(4096, false).to_clamped(), InputValue::MAX);
}

#[test]
fn test_input_value_from() {
    assert_eq!(InputValue::from_u16(0, false).to_clamped(), InputValue::MIN);
    assert_eq!(InputValue::from_u16(2048, false).to_clamped(), 0);
    assert_eq!(InputValue::from_u16(4095, false).to_clamped(), InputValue::MAX);
}

#[test]
fn test_input_value_to_output() {
    // output values are half of input (11 bit from 12 bit)
    assert_eq!(InputValue::from_u16(0, false).to_output(), 0);
    assert_eq!(InputValue::from_u16(2_u16, false).to_output(), 1_u16);
    assert_eq!(InputValue::from_u16(1024_u16, false).to_output(), 512_u16);
    assert_eq!(InputValue::from_u16(2048_u16, false).to_output(), 1024_u16);

    // clamp to 11 bit values in to_output() when inputs are above range
    assert_eq!(InputValue::from_u16(8000, false).to_output(), 2047_u16);
    assert_eq!(InputValue::from_u16(5000, false).to_output(), 2047_u16);
    assert_eq!(InputValue::from_u16(4096, false).to_output(), 2047_u16);

    let below_range = InputValue::from_u16(0, false).sub(InputValue::new(5000, false));
    assert_eq!(below_range.to_output(), 0_u16);
}

#[test]
fn test_input_value_math() {
    assert_eq!(InputValue::new(123, false).mul_int(1), InputValue::new(123, false));
    assert_eq!(InputValue::new(123, false).mul_int(2), InputValue::new(246, false));
    assert_eq!(InputValue::new(123, false).mul_int(-1), InputValue::new(-123, false));

    let expected = InputValue::new(123, false).mul_int(0);
    assert_eq!(expected, InputValue::new(0, false));

    // division
    assert_eq!(InputValue::new(123, false).div_int(1), InputValue::new(123, false));
    assert_eq!(InputValue::new(240, false).div_int(2), InputValue::new(120, false));
    assert_eq!(InputValue::new(123, false).div_int(-1), InputValue::new(-123, false));
}

#[test]
fn test_raw_range_is_clamped_and_monotonic() {
    // every full-range raw reading lands inside the 12-bit domain, exactly,
    // and the conversion never decreases as the reading grows
    let mut previous = InputValue::from_u16(0, false).to_clamped();
    assert_eq!(previous, -2048);
    for raw in 0..=4095u16 {
        let clamped = InputValue::from_u16(raw, false).to_clamped();
        assert!((-2048..=2047).contains(&clamped));
        assert_eq!(clamped, raw as i32 - 2048);
        assert!(clamped >= previous);
        previous = clamped;
    }
}

#[test]
fn test_output_is_halved_recentred_clamp() {
    // to_output is (to_clamped + 2048) / 2 across the raw range
    for raw in (0..=4095u16).step_by(7) {
        let v = InputValue::from_u16(raw, false);
        assert_eq!(v.to_output() as i32, (v.to_clamped() + 2048) / 2);
        assert_eq!(v.to_output_inverted(), 2047 - v.to_output());
    }
}

#[test]
fn test_update_overwrites_accumulator() {
    let mut v = InputValue::from_u16(4095, false);
    v.update(2048);
    assert_eq!(v.to_clamped(), 0);
    v.update(0);
    assert_eq!(v.to_clamped(), -2048);

    // an inverted source negates the recentred reading
    let mut inv = InputValue::from_u16(0, true);
    inv.update(4095);
    assert_eq!(inv.to_clamped(), -2047);
    inv.update(0);
    assert_eq!(inv.to_clamped(), 2047);
    inv.update(2048);
    assert_eq!(inv.to_clamped(), 0);
}

#[test]
fn test_add_sub_and_abs() {
    let a = InputValue::new(1500, false);
    let b = InputValue::new(700, false);
    assert_eq!(a.add(b), InputValue::new(2200, false));
    assert_eq!(a.sub(b), InputValue::new(800, false));
    assert_eq!(InputValue::new(-900, false).abs(), InputValue::new(900, false));
    assert_eq!(InputValue::new(900, false).abs(), InputValue::new(900, false));
}
