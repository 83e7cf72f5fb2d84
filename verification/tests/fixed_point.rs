use worldgen::fixed::{clamp, fade, lerp, minus, plus, ramp, smoothstep, times, ONE};

#[test]
fn one_is_two_to_the_sixteenth() {
    assert_eq!(ONE, 1 << 16);
}

#[test]
fn clamp_limits_to_the_interval() {
    assert_eq!(clamp(5, 0, 10), 5);
    assert_eq!(clamp(-5, 0, 10), 0);
    assert_eq!(clamp(15, 0, 10), 10);
    assert_eq!(clamp(0, 0, 10), 0);
    assert_eq!(clamp(10, 0, 10), 10);
}

#[test]
fn clamp_on_an_empty_interval_gives_the_lower_end_or_the_value() {
    // lo = 10 > hi = 0: below lo the lower end wins, above it the upper end.
    assert_eq!(clamp(5, 10, 0), 10);
    assert_eq!(clamp(20, 10, 0), 0);
}

#[test]
fn plus_and_minus_saturate() {
    assert_eq!(plus(1, 2), 3);
    assert_eq!(plus(i64::MAX, 1), i64::MAX);
    assert_eq!(plus(i64::MIN, -1), i64::MIN);
    assert_eq!(plus(i64::MAX, i64::MIN), -1);
    assert_eq!(minus(1, 2), -1);
    assert_eq!(minus(i64::MIN, 1), i64::MIN);
    assert_eq!(minus(i64::MAX, -1), i64::MAX);
    assert_eq!(minus(0, i64::MIN), i64::MAX);
}

#[test]
fn times_is_the_fixed_point_product() {
    // 1.5 * 1.5 = 2.25
    assert_eq!(times(98304, 98304), 147456);
    assert_eq!(times(-98304, 98304), -147456);
    assert_eq!(times(ONE, 12345), 12345);
    assert_eq!(times(12345, ONE), 12345);
    assert_eq!(times(0, i64::MAX), 0);
}

#[test]
fn times_rounds_towards_negative_infinity() {
    assert_eq!(times(3, 32768), 1);
    assert_eq!(times(-3, 32768), -2);
    assert_eq!(times(1, 1), 0);
    assert_eq!(times(-1, 1), -1);
}

#[test]
fn times_saturates() {
    assert_eq!(times(i64::MAX, 2 * ONE), i64::MAX);
    assert_eq!(times(i64::MIN, 2 * ONE), i64::MIN);
    assert_eq!(times(i64::MIN, i64::MIN), i64::MAX);
    assert_eq!(times(i64::MIN, i64::MAX), i64::MIN);
}

#[test]
fn lerp_runs_from_the_first_value_to_the_second() {
    assert_eq!(lerp(0, 100, 0), 0);
    assert_eq!(lerp(0, 100, ONE), 100);
    assert_eq!(lerp(0, 100, 32768), 50);
    assert_eq!(lerp(100, 0, 16384), 75);
    assert_eq!(lerp(10, -10, 49152), -5);
    assert_eq!(lerp(0, 3, 21845), 0);
}

#[test]
fn lerp_limits_the_fraction() {
    assert_eq!(lerp(-7, 7, -5), -7);
    assert_eq!(lerp(-7, 7, ONE + 5), 7);
    assert_eq!(lerp(-7, 7, i64::MIN), -7);
    assert_eq!(lerp(-7, 7, i64::MAX), 7);
}

#[test]
fn lerp_spans_the_whole_range() {
    assert_eq!(lerp(i64::MIN, i64::MAX, 32768), -1);
    assert_eq!(lerp(i64::MAX, i64::MIN, ONE), i64::MIN);
    assert_eq!(lerp(i64::MIN, i64::MAX, ONE), i64::MAX);
    assert_eq!(lerp(i64::MIN, i64::MAX, 0), i64::MIN);
}

#[test]
fn lerp_stays_between_its_ends() {
    let mut t = 0;
    while t <= ONE {
        let v = lerp(-300, 500, t);
        assert!(-300 <= v && v <= 500);
        let w = lerp(500, -300, t);
        assert!(-300 <= w && w <= 500);
        t += 257;
    }
}

#[test]
fn ramp_is_the_position_between_the_edges() {
    assert_eq!(ramp(0, 100, 50), 32768);
    assert_eq!(ramp(0, 100, 0), 0);
    assert_eq!(ramp(0, 100, -1), 0);
    assert_eq!(ramp(0, 100, 100), ONE);
    assert_eq!(ramp(0, 100, 1000), ONE);
    assert_eq!(ramp(-ONE, ONE, 0), 32768);
    assert_eq!(ramp(0, 3, 1), 21845);
    assert_eq!(ramp(i64::MIN, i64::MAX, 0), 32768);
}

#[test]
fn ramp_with_edges_out_of_order_is_a_step() {
    assert_eq!(ramp(100, 0, 50), 0);
    assert_eq!(ramp(100, 0, 100), 0);
    assert_eq!(ramp(100, 0, 101), ONE);
    assert_eq!(ramp(5, 5, 5), 0);
    assert_eq!(ramp(5, 5, 6), ONE);
}

#[test]
fn fade_is_the_cubic_ease_curve() {
    assert_eq!(fade(0), 0);
    assert_eq!(fade(1), 0);
    assert_eq!(fade(256), 2);
    assert_eq!(fade(16384), 10240);
    assert_eq!(fade(32768), 32768);
    assert_eq!(fade(49152), 55296);
    assert_eq!(fade(65535), 65535);
    assert_eq!(fade(ONE), ONE);
}

#[test]
fn fade_limits_its_argument() {
    assert_eq!(fade(-5), 0);
    assert_eq!(fade(70000), ONE);
    assert_eq!(fade(i64::MIN), 0);
    assert_eq!(fade(i64::MAX), ONE);
}

#[test]
fn fade_never_decreases() {
    let mut prev = fade(0);
    let mut t = 1;
    while t <= ONE {
        let v = fade(t);
        assert!(prev <= v);
        prev = v;
        t += 1;
    }
}

#[test]
fn smoothstep_eases_between_the_edges() {
    assert_eq!(smoothstep(0, 100, 50), 32768);
    assert_eq!(smoothstep(0, 100, 25), 10240);
    assert_eq!(smoothstep(-24576, 24576, 0), 32768);
    assert_eq!(smoothstep(0, ONE, 10000), 4111);
    assert_eq!(smoothstep(0, 100, -3), 0);
    assert_eq!(smoothstep(0, 100, 0), 0);
    assert_eq!(smoothstep(0, 100, 100), ONE);
    assert_eq!(smoothstep(0, 100, 103), ONE);
}

#[test]
fn smoothstep_never_decreases() {
    let mut prev = 0;
    let mut x = -50;
    while x <= 1050 {
        let v = smoothstep(0, 1000, x);
        assert!(prev <= v);
        assert!(0 <= v && v <= ONE);
        prev = v;
        x += 1;
    }
}
