use ozpv::geometry::{
    displaced_position, displacement, offset_component, quadrant_signs, Point,
};

#[test]
fn pointer_right_of_anchor_moves_full_amplitude() {
    // Pointer level with the anchor and to its right: the whole amplitude
    // goes into the horizontal component.
    let anchor = Point { x: 260, y: 218 };
    let pointer = Point { x: 310, y: 218 };
    let o = displacement(anchor, pointer);
    assert_eq!(o, (35, 0));
    let d = displaced_position(anchor, pointer);
    assert_eq!(d, Point { x: 295, y: 218 });
    // This sample lands exactly on the amplitude circle.
    assert_eq!(o.0 * o.0 + o.1 * o.1, 35 * 35);
}

#[test]
fn pointer_above_left_moves_up_and_left() {
    // Delta (-86, -118): squared length 21320, so the scaled magnitudes
    // 35*86/sqrt(21320) and 35*118/sqrt(21320) floor to 20 and 28.
    let anchor = Point { x: 386, y: 218 };
    let pointer = Point { x: 300, y: 100 };
    let o = displacement(anchor, pointer);
    assert_eq!(o, (-20, -28));
    let d = displaced_position(anchor, pointer);
    assert_eq!(d, Point { x: 366, y: 190 });
}

#[test]
fn pointer_on_anchor_leaves_sprite_at_rest() {
    let anchor = Point { x: 100, y: 100 };
    let o = displacement(anchor, anchor);
    assert_eq!(o, (0, 0));
    assert_eq!(displaced_position(anchor, anchor), anchor);
}

#[test]
fn quadrant_case_table() {
    // Both non-negative (zero counts as positive).
    assert_eq!(quadrant_signs(5, 0), (true, true));
    assert_eq!(quadrant_signs(0, 7), (true, true));
    assert_eq!(quadrant_signs(3, 4), (true, true));
    assert_eq!(quadrant_signs(0, 0), (true, true));
    // Both negative.
    assert_eq!(quadrant_signs(-3, -2), (false, false));
    // Positive x, negative y.
    assert_eq!(quadrant_signs(4, -2), (true, false));
    // Everything else.
    assert_eq!(quadrant_signs(-4, 2), (false, true));
    assert_eq!(quadrant_signs(-3, 0), (false, true));
    assert_eq!(quadrant_signs(0, -5), (false, true));
}

#[test]
fn offset_stays_on_amplitude_circle_within_rounding() {
    let anchor = Point { x: 260, y: 218 };
    let mut x: i64 = -1000;
    while x <= 1000 {
        let mut y: i64 = -1000;
        while y <= 1000 {
            let pointer = Point { x, y };
            let o = displacement(anchor, pointer);
            assert!(o.0 * o.0 + o.1 * o.1 <= 35 * 35);
            if !(x == anchor.x && y == anchor.y) {
                // Within a pixel of rounding per component the sprite also
                // reaches the circle; in particular it always moves.
                let slack = (o.0.abs() + 1).pow(2) + (o.1.abs() + 1).pow(2);
                assert!(slack > 35 * 35);
                assert!(o != (0, 0));
            }
            y += 97;
        }
        x += 103;
    }
}

#[test]
fn displacement_depends_only_on_direction() {
    let anchor = Point { x: 0, y: 0 };
    // Delta (3, 4) scales the amplitude exactly: offsets (21, 28).
    let base = displacement(anchor, Point { x: 3, y: 4 });
    assert_eq!(base, (21, 28));
    assert_eq!(base.0 * base.0 + base.1 * base.1, 35 * 35);
    for k in [2_i64, 10, 1000, 250_000_000] {
        let scaled = displacement(anchor, Point { x: 3 * k, y: 4 * k });
        assert_eq!(scaled, base);
    }
    // A diagonal at any distance gives the same displaced position.
    let diag = displacement(anchor, Point { x: 1, y: 1 });
    assert_eq!(diag, (24, 24));
    for k in [5_i64, 77, 1_000_000_000] {
        assert_eq!(displacement(anchor, Point { x: k, y: k }), diag);
    }
}

#[test]
fn offset_magnitude_exact_values() {
    // The magnitude is the exact floor of 35*a/sqrt(s).
    assert_eq!(offset_component(50, 2500), 35);
    assert_eq!(offset_component(0, 2500), 0);
    assert_eq!(offset_component(86, 21320), 20);
    assert_eq!(offset_component(118, 21320), 28);
    assert_eq!(offset_component(1, 2), 24);
    assert_eq!(offset_component(3, 25), 21);
    assert_eq!(offset_component(4, 25), 28);
}

#[test]
fn offset_magnitude_characterization() {
    let samples: [(i64, i64); 7] = [
        (0, 1),
        (1, 1),
        (1, 2),
        (86, 21320),
        (999, 1_000_000),
        (2_000_000_000, 8_000_000_000_000_000_000),
        (1_414_213_562, 8_000_000_000_000_000_000),
    ];
    for &(a, s) in samples.iter() {
        let q = offset_component(a, s);
        let (q, a, s) = (q as i128, a as i128, s as i128);
        assert!(q >= 0);
        assert!(q * q * s <= 35 * 35 * a * a);
        assert!((q + 1) * (q + 1) * s > 35 * 35 * a * a);
    }
}

#[test]
fn extreme_coordinates_stay_bounded() {
    let anchor = Point { x: -1_000_000_000, y: -1_000_000_000 };
    let pointer = Point { x: 1_000_000_000, y: 1_000_000_000 };
    let o = displacement(anchor, pointer);
    assert!(o.0 * o.0 + o.1 * o.1 <= 35 * 35);
    assert_eq!(quadrant_signs(1, 1), (true, true));
    assert_eq!(o, (24, 24));
}
