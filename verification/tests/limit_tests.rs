use image_resize::{clamp_and_round, limit, Config};

#[test]
fn rounds_to_nearest_multiple() {
    assert_eq!(clamp_and_round(634, 100, 4100, 10), 630);
    assert_eq!(clamp_and_round(636, 100, 4100, 10), 640);
    assert_eq!(clamp_and_round(1234, 0, 10000, 100), 1200);
    assert_eq!(clamp_and_round(1250, 0, 10000, 100), 1300);
}

#[test]
fn ties_round_up() {
    assert_eq!(clamp_and_round(635, 100, 4100, 10), 640);
    assert_eq!(clamp_and_round(5, 0, 100, 10), 10);
    assert_eq!(clamp_and_round(3, 0, 100, 6), 6);
    assert_eq!(clamp_and_round(2, 0, 100, 6), 0);
}

#[test]
fn multiples_pass_unchanged() {
    assert_eq!(clamp_and_round(630, 100, 4100, 10), 630);
    assert_eq!(clamp_and_round(410, 100, 4100, 10), 410);
    assert_eq!(clamp_and_round(0, 0, 50, 1), 0);
    assert_eq!(clamp_and_round(37, 0, 50, 1), 37);
}

#[test]
fn pins_to_the_bounds_after_rounding() {
    assert_eq!(clamp_and_round(5000, 100, 4100, 10), 4100);
    assert_eq!(clamp_and_round(3, 100, 4100, 10), 100);
    assert_eq!(clamp_and_round(60, 0, 50, 1), 50);
    assert_eq!(clamp_and_round(255, 0, 50, 1), 50);
}

#[test]
fn pinned_value_need_not_be_a_multiple() {
    assert_eq!(clamp_and_round(50, 105, 4100, 10), 105);
    assert_eq!(clamp_and_round(9999, 100, 4095, 10), 4095);
}

#[test]
fn unit_of_zero_rounds_everything_to_zero() {
    assert_eq!(clamp_and_round(7, 1, 9, 0), 1);
    assert_eq!(clamp_and_round(700, 0, 9, 0), 0);
    assert_eq!(clamp_and_round(0, 0, 9, 0), 0);
}

#[test]
fn largest_values_do_not_overflow() {
    assert_eq!(clamp_and_round(u32::MAX, 0, u32::MAX, 10), u32::MAX);
    assert_eq!(clamp_and_round(u32::MAX, 0, u32::MAX, u32::MAX), u32::MAX);
    assert_eq!(clamp_and_round(u32::MAX, 0, u32::MAX, 1), u32::MAX);
    assert_eq!(clamp_and_round(u32::MAX - 1, 0, u32::MAX, u32::MAX), u32::MAX);
    assert_eq!(clamp_and_round(u32::MAX / 2, 0, u32::MAX, u32::MAX), 0);
    assert_eq!(clamp_and_round(u32::MAX / 2 + 1, 0, u32::MAX, u32::MAX), u32::MAX);
}

#[test]
fn result_lies_within_the_bounds() {
    let units = [0u32, 1, 3, 10, 64, 1000];
    let bounds = [(0u32, 0u32), (0, 50), (100, 4100), (105, 4095), (7, 7)];
    for unit in units {
        for (low, high) in bounds {
            for value in (0u32..6000).step_by(7) {
                let r = clamp_and_round(value, low, high, unit);
                assert!(low <= r && r <= high);
            }
        }
    }
}

#[test]
fn second_pass_changes_nothing_with_aligned_bounds() {
    for value in 0u32..5000 {
        let once = clamp_and_round(value, 100, 4100, 10);
        assert_eq!(clamp_and_round(once, 100, 4100, 10), once);
    }
}

#[test]
fn second_pass_moves_a_value_pinned_to_an_unaligned_bound() {
    let once = clamp_and_round(50, 105, 4100, 10);
    assert_eq!(once, 105);
    assert_eq!(clamp_and_round(once, 105, 4100, 10), 110);
}

#[test]
fn limit_takes_the_configured_unit_when_none_is_named() {
    let config = Config::default();
    assert_eq!(limit(634, 100, 4100, None, &config), 630);
    assert_eq!(limit(634, 100, 4100, Some(100), &config), 600);
    assert_eq!(limit(5, 0, 50, Some(1), &config), 5);
    assert_eq!(limit(5, 0, 50, None, &config), 10);
}

#[test]
fn inverted_bounds_test_the_lower_bound_first() {
    assert_eq!(clamp_and_round(5, 10, 3, 1), 10);
    assert_eq!(clamp_and_round(20, 10, 3, 1), 3);
}
