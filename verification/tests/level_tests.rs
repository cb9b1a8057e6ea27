use dust_orbit::level::{calculate_level_from_xp, js_calculate_level_from_xp};

fn level_by_float(xp: u32) -> u32 {
    let raw_level = (xp as f64).sqrt() / 10.0;
    raw_level as u32 + 1
}

#[test]
fn level_known_values() {
    assert_eq!(calculate_level_from_xp(0), 1);
    assert_eq!(calculate_level_from_xp(99), 1);
    assert_eq!(calculate_level_from_xp(100), 2);
    assert_eq!(calculate_level_from_xp(399), 2);
    assert_eq!(calculate_level_from_xp(400), 3);
    assert_eq!(calculate_level_from_xp(4500), 7);
    assert_eq!(calculate_level_from_xp(u32::MAX), 6554);
}

#[test]
fn level_agrees_with_square_root_formula_at_boundaries() {
    for l in 1u64..=6554 {
        for delta in [-1i64, 0, 1] {
            let xp = 100 * l * l;
            let xp = xp as i64 + delta;
            if xp >= 0 && xp <= u32::MAX as i64 {
                let xp = xp as u32;
                assert_eq!(calculate_level_from_xp(xp), level_by_float(xp), "xp {}", xp);
            }
        }
    }
}

#[test]
fn level_agrees_with_square_root_formula_on_a_sweep() {
    let mut xp: u64 = 0;
    while xp <= u32::MAX as u64 {
        let x = xp as u32;
        assert_eq!(calculate_level_from_xp(x), level_by_float(x));
        xp += 65_537;
    }
    for x in 0u32..20_000 {
        assert_eq!(calculate_level_from_xp(x), level_by_float(x));
    }
}

#[test]
fn level_never_drops_with_more_xp() {
    let mut previous = 0;
    for x in (0u32..2_000_000).step_by(37) {
        let level = calculate_level_from_xp(x);
        assert!(level >= previous);
        previous = level;
    }
}

#[test]
fn js_export_gives_the_same_level() {
    for x in [0u32, 1, 4500, 123_456, u32::MAX] {
        assert_eq!(js_calculate_level_from_xp(x), calculate_level_from_xp(x));
    }
}
