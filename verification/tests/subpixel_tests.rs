use kittygame::subpixel::{clamp, div_toward_zero, ease, from_px, scale_percent, to_px};

#[test]
fn pixels_round_toward_zero() {
    assert_eq!(to_px(0), 0);
    assert_eq!(to_px(999), 0);
    assert_eq!(to_px(1000), 1);
    assert_eq!(to_px(1999), 1);
    assert_eq!(to_px(-999), 0);
    assert_eq!(to_px(-1000), -1);
    assert_eq!(to_px(-1999), -1);
}

#[test]
fn pixels_stay_in_the_range_of_i32() {
    assert_eq!(to_px(i64::MAX), i32::MAX);
    assert_eq!(to_px(i64::MIN), i32::MIN);
    assert_eq!(to_px(2147483647999), i32::MAX);
    assert_eq!(to_px(2147483648000), i32::MAX);
    assert_eq!(to_px(-2147483648000), i32::MIN);
    assert_eq!(to_px(-2147483648999), i32::MIN);
    assert_eq!(to_px(-2147483649000), i32::MIN);
    assert_eq!(to_px(-2147483647000), -2147483647);
}

#[test]
fn from_px_is_undone_by_to_px() {
    assert_eq!(from_px(-3), -3000);
    assert_eq!(from_px(0), 0);
    assert_eq!(from_px(i32::MAX), 2147483647000);
    assert_eq!(to_px(from_px(i32::MIN)), i32::MIN);
    assert_eq!(to_px(from_px(1234)), 1234);
}

#[test]
fn clamp_bounds_on_both_sides() {
    assert_eq!(clamp(5, 0, 3), 3);
    assert_eq!(clamp(-5, 0, 3), 0);
    assert_eq!(clamp(2, 0, 3), 2);
    assert_eq!(clamp(0, 0, 0), 0);
    assert_eq!(clamp(i64::MAX, -1, 1), 1);
}

#[test]
fn division_rounds_toward_zero() {
    assert_eq!(div_toward_zero(7, 2), 3);
    assert_eq!(div_toward_zero(-7, 2), -3);
    assert_eq!(div_toward_zero(-8, 2), -4);
    assert_eq!(div_toward_zero(0, 5), 0);
    assert_eq!(div_toward_zero(-1, 5), 0);
}

#[test]
fn scaling_takes_hundredths() {
    assert_eq!(scale_percent(1000, 15), 150);
    assert_eq!(scale_percent(-250, 80), -200);
    assert_eq!(scale_percent(7, 15), 1);
    assert_eq!(scale_percent(-7, 15), -1);
    assert_eq!(scale_percent(5, 0), 0);
    assert_eq!(scale_percent(5, 100), 5);
}

#[test]
fn easing_moves_a_part_of_the_way() {
    assert_eq!(ease(0, 1000, 15), 150);
    assert_eq!(ease(1000, 0, 15), 850);
    assert_eq!(ease(-7, 0, 15), -6);
    assert_eq!(ease(3, 3, 15), 3);
    assert_eq!(ease(0, 6, 15), 0);
}

#[test]
fn easing_reaches_the_neighbourhood_of_its_target() {
    let mut v: i64 = 0;
    for _ in 0..200 {
        let next = ease(v, 100000, 15);
        assert!(next >= v && next <= 100000);
        v = next;
    }
    assert!(100000 - v < 7);
}
