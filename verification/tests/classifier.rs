use rot8::classifier::{
    classify, find_first_within, is_within, orientations, Orientation, DEFAULT_THRESHOLD, UNIT,
};
use rot8::gravity::{
    classify_reading, integer_sqrt, magnitude, normalize, parse_reading, AxisMap, Factor, Reading,
};
use rot8::orientation::AbsoluteOrientation;
use rot8::transform::Transform;

fn entry(kind: AbsoluteOrientation) -> Orientation {
    Orientation::of(kind)
}

#[test]
fn table_is_in_scan_order() {
    let table = orientations();
    let kinds: Vec<AbsoluteOrientation> = table.iter().map(|o| o.kind).collect();
    assert_eq!(
        kinds,
        vec![
            AbsoluteOrientation::Normal,
            AbsoluteOrientation::Flipped,
            AbsoluteOrientation::RightUp,
            AbsoluteOrientation::LeftUp
        ]
    );
    assert_eq!(table[0].vector, (0, -UNIT));
    assert_eq!(table[1].vector, (0, UNIT));
    assert_eq!(table[2].vector, (-UNIT, 0));
    assert_eq!(table[3].vector, (UNIT, 0));
}

#[test]
fn table_encodings() {
    let normal = entry(AbsoluteOrientation::Normal);
    assert_eq!(normal.wayland_state, Transform::Normal);
    assert_eq!(normal.x_state, "normal");
    assert_eq!(normal.matrix, [1, 0, 0, 0, 1, 0, 0, 0, 1]);
    let flipped = entry(AbsoluteOrientation::Flipped);
    assert_eq!(flipped.wayland_state, Transform::_180);
    assert_eq!(flipped.x_state, "inverted");
    assert_eq!(flipped.matrix, [-1, 0, 1, 0, -1, 1, 0, 0, 1]);
    let right = entry(AbsoluteOrientation::RightUp);
    assert_eq!(right.wayland_state, Transform::_270);
    assert_eq!(right.x_state, "right");
    assert_eq!(right.matrix, [0, 1, 0, -1, 0, 1, 0, 0, 1]);
    let left = entry(AbsoluteOrientation::LeftUp);
    assert_eq!(left.wayland_state, Transform::_90);
    assert_eq!(left.x_state, "left");
    assert_eq!(left.matrix, [0, -1, 1, 1, 0, 0, 0, 0, 1]);
}

#[test]
fn upright_reading_is_normal() {
    // Raw (0, -1_000_000), fixed factor 1e6: the vector (0, -1).
    let reading = Reading { x: 0, y: -1_000_000, z: 0 };
    let start = entry(AbsoluteOrientation::Flipped);
    let factor = Factor::whole(1_000_000);
    let o = classify_reading(&AxisMap::identity(), reading, factor, DEFAULT_THRESHOLD, start);
    assert_eq!(o.kind, AbsoluteOrientation::Normal);
    assert_eq!(normalize(-1_000_000, factor), Some(-UNIT));
    assert_eq!(normalize(0, factor), Some(0));
}

#[test]
fn reading_to_the_left_is_right_up() {
    // Raw (-1_000_000, 0): the vector (-1, 0).
    let reading = Reading { x: -1_000_000, y: 0, z: 0 };
    let start = entry(AbsoluteOrientation::Normal);
    let factor = Factor::whole(1_000_000);
    let o = classify_reading(&AxisMap::identity(), reading, factor, DEFAULT_THRESHOLD, start);
    assert_eq!(o.kind, AbsoluteOrientation::RightUp);
    assert_eq!(o.matrix, [0, 1, 0, -1, 0, 1, 0, 0, 1]);
}

#[test]
fn unique_match_wins_whatever_came_before() {
    for previous in orientations() {
        assert_eq!(
            classify(0, UNIT, DEFAULT_THRESHOLD, previous).kind,
            AbsoluteOrientation::Flipped
        );
        assert_eq!(
            classify(UNIT - 100_000, 50_000, DEFAULT_THRESHOLD, previous).kind,
            AbsoluteOrientation::LeftUp
        );
    }
}

#[test]
fn no_match_keeps_previous() {
    for previous in orientations() {
        // The origin is at distance 1 from every entry.
        assert_eq!(classify(0, 0, DEFAULT_THRESHOLD, previous).kind, previous.kind);
        // Far away.
        assert_eq!(
            classify(i64::MAX, i64::MIN, DEFAULT_THRESHOLD, previous).kind,
            previous.kind
        );
    }
}

#[test]
fn threshold_is_strict_and_squared() {
    let previous = entry(AbsoluteOrientation::LeftUp);
    // Exactly at distance 0.5 from (0, -1): not within.
    assert_eq!(
        classify(0, -UNIT / 2, DEFAULT_THRESHOLD, previous).kind,
        AbsoluteOrientation::LeftUp
    );
    // One step closer: within.
    assert_eq!(
        classify(0, -UNIT / 2 - 1, DEFAULT_THRESHOLD, previous).kind,
        AbsoluteOrientation::Normal
    );
    // 3-4-5 triangle: distance exactly 500_000 from (0, -UNIT).
    assert!(!is_within(300_000, -UNIT + 400_000, 500_000, (0, -UNIT)));
    assert!(is_within(300_000, -UNIT + 400_000, 500_001, (0, -UNIT)));
    // A negative threshold counts by its magnitude.
    assert!(is_within(300_000, -UNIT + 400_000, -500_001, (0, -UNIT)));
    // A zero threshold admits nothing, not even the vector itself.
    assert!(!is_within(0, -UNIT, 0, (0, -UNIT)));
}

#[test]
fn earlier_entry_wins_a_tie() {
    let previous = entry(AbsoluteOrientation::LeftUp);
    // The origin is equidistant from all four. With a threshold above 1 the
    // first entry of the table wins.
    assert_eq!(
        classify(0, 0, UNIT + 1, previous).kind,
        AbsoluteOrientation::Normal
    );
    // On the x axis, Normal and Flipped are equally far: Normal comes first,
    // even though Left is closer than both.
    let x = 300_000;
    assert!(is_within(x, 0, 1_100_000, (0, -UNIT)));
    assert!(is_within(x, 0, 1_100_000, (0, UNIT)));
    assert!(is_within(x, 0, 1_100_000, (UNIT, 0)));
    assert_eq!(
        classify(x, 0, 1_100_000, previous).kind,
        AbsoluteOrientation::Normal
    );
    // Closer to Left than to Flipped, both within: Flipped, the earlier, wins.
    let x = UNIT - 100_000;
    let y = 300_000;
    assert!(is_within(x, y, 1_200_000, (UNIT, 0)));
    assert!(is_within(x, y, 1_200_000, (0, UNIT)));
    assert!(!is_within(x, y, 1_200_000, (0, -UNIT)));
    assert_eq!(
        classify(x, y, 1_200_000, previous).kind,
        AbsoluteOrientation::Flipped
    );
}

#[test]
fn default_threshold_leaves_no_ties() {
    // With the default threshold no point is near two orientations.
    let table = orientations();
    let mut x = -1_500_000;
    while x <= 1_500_000 {
        let mut y = -1_500_000;
        while y <= 1_500_000 {
            let near = table
                .iter()
                .filter(|o| is_within(x, y, DEFAULT_THRESHOLD, o.vector))
                .count();
            assert!(near <= 1);
            y += 62_500;
        }
        x += 62_500;
    }
}

#[test]
fn classification_is_idempotent() {
    let points = [(0, -UNIT), (0, 0), (UNIT, 10), (-UNIT, -10), (123, 456_789), (0, UNIT)];
    for previous in orientations() {
        for (x, y) in points {
            let once = classify(x, y, DEFAULT_THRESHOLD, previous);
            let twice = classify(x, y, DEFAULT_THRESHOLD, once);
            assert_eq!(once.kind, twice.kind);
        }
    }
}

#[test]
fn first_within_reports_index() {
    let table = orientations();
    assert_eq!(find_first_within(&table, 0, -UNIT, DEFAULT_THRESHOLD), Some(0));
    assert_eq!(find_first_within(&table, 0, UNIT, DEFAULT_THRESHOLD), Some(1));
    assert_eq!(find_first_within(&table, -UNIT, 0, DEFAULT_THRESHOLD), Some(2));
    assert_eq!(find_first_within(&table, UNIT, 0, DEFAULT_THRESHOLD), Some(3));
    assert_eq!(find_first_within(&table, 0, 0, DEFAULT_THRESHOLD), None);
    assert_eq!(find_first_within(&Vec::new(), 0, 0, DEFAULT_THRESHOLD), None);
}

#[test]
fn axis_inversion_and_choice() {
    let reading = Reading { x: 1, y: 2, z: 3 };
    let mut map = AxisMap::identity();
    assert_eq!(map.project(reading), (1, 2));
    map.flip_x = true;
    assert_eq!(map.project(reading), (-1, 2));
    map.flip_y = true;
    map.flip_z = true;
    map.x_source = 'z';
    map.y_source = 'x';
    assert_eq!(map.project(reading), (-3, -1));
    map.x_source = 'y';
    map.y_source = 'z';
    assert_eq!(map.project(reading), (-2, -3));
    // Anything else falls back to the axis of the same name.
    map.x_source = 'q';
    map.y_source = 'q';
    assert_eq!(map.project(reading), (-1, -2));
    let extreme = Reading { x: i32::MIN, y: i32::MIN, z: 0 };
    assert_eq!(map.project(extreme), (2_147_483_648, 2_147_483_648));
}

#[test]
fn normalization_rounds_towards_zero() {
    assert_eq!(normalize(1, Factor::whole(3)), Some(333_333));
    assert_eq!(normalize(-1, Factor::whole(3)), Some(-333_333));
    assert_eq!(normalize(1, Factor::whole(-3)), Some(-333_333));
    assert_eq!(normalize(-1, Factor::whole(-3)), Some(333_333));
    assert_eq!(normalize(2, Factor::whole(3)), Some(666_666));
    assert_eq!(normalize(i64::MAX, Factor::whole(1_000_000)), Some(i64::MAX));
    assert_eq!(normalize(i64::MIN, Factor::whole(1_000_000)), Some(i64::MIN));
}

#[test]
fn normalization_by_a_fraction() {
    // A factor of 0.4 is 2/5.
    let two_fifths = Factor { numerator: 2, denominator: 5 };
    assert_eq!(normalize(1, two_fifths), Some(2_500_000));
    assert_eq!(normalize(-3, two_fifths), Some(-7_500_000));
    // 9.81 is 981/100.
    let g = Factor { numerator: 981, denominator: 100 };
    assert_eq!(normalize(981, g), Some(100 * UNIT));
    assert_eq!(normalize(1, g), Some(101_936));
    // The same factor, written in millionths.
    let g_micro = Factor { numerator: 9_810_000, denominator: 1_000_000 };
    assert_eq!(normalize(1, g_micro), Some(101_936));
    assert_eq!(Factor::whole(7), Factor { numerator: 7, denominator: 1 });
    let reading = Reading { x: 0, y: 4, z: 0 };
    let previous = entry(AbsoluteOrientation::Normal);
    let tenth = Factor { numerator: 4, denominator: 1 };
    let o = classify_reading(&AxisMap::identity(), reading, tenth, DEFAULT_THRESHOLD, previous);
    assert_eq!(o.kind, AbsoluteOrientation::Flipped);
    let small = Factor { numerator: 4, denominator: 10 };
    let reading = Reading { x: 0, y: 0, z: 0 };
    let o = classify_reading(&AxisMap::identity(), reading, small, DEFAULT_THRESHOLD, previous);
    assert_eq!(o.kind, AbsoluteOrientation::Normal);
    let reading = Reading { x: 4, y: 0, z: 0 };
    let o = classify_reading(
        &AxisMap::identity(),
        reading,
        Factor { numerator: 40, denominator: 10 },
        DEFAULT_THRESHOLD,
        previous,
    );
    assert_eq!(o.kind, AbsoluteOrientation::LeftUp);
}

#[test]
fn unusable_factor_has_no_result() {
    assert_eq!(normalize(5, Factor::whole(0)), None);
    assert_eq!(normalize(0, Factor::whole(0)), None);
    assert_eq!(normalize(5, Factor { numerator: 3, denominator: 0 }), None);
    assert_eq!(normalize(5, Factor { numerator: 0, denominator: 0 }), None);
    // Out of range of the fixed-point type.
    assert_eq!(normalize(i64::MAX, Factor::whole(1)), None);
    assert_eq!(normalize(i64::MIN, Factor::whole(-1)), None);
    assert_eq!(normalize(i64::MAX, Factor { numerator: 1, denominator: u32::MAX }), None);
    assert_eq!(
        normalize(i64::MAX, Factor { numerator: 4_294_967_295_000_000, denominator: u32::MAX }),
        Some(i64::MAX)
    );
}

#[test]
fn zero_factor_keeps_previous() {
    let previous = entry(AbsoluteOrientation::RightUp);
    let reading = Reading { x: 0, y: -5, z: 0 };
    let zero = Factor::whole(0);
    let o = classify_reading(&AxisMap::identity(), reading, zero, DEFAULT_THRESHOLD, previous);
    assert_eq!(o.kind, AbsoluteOrientation::RightUp);
    let no_parts = Factor { numerator: 5, denominator: 0 };
    let o = classify_reading(&AxisMap::identity(), reading, no_parts, DEFAULT_THRESHOLD, previous);
    assert_eq!(o.kind, AbsoluteOrientation::RightUp);
}

#[test]
fn square_roots_round_down() {
    assert_eq!(integer_sqrt(0), 0);
    assert_eq!(integer_sqrt(1), 1);
    assert_eq!(integer_sqrt(3), 1);
    assert_eq!(integer_sqrt(4), 2);
    assert_eq!(integer_sqrt(99), 9);
    assert_eq!(integer_sqrt(100), 10);
    assert_eq!(integer_sqrt(u64::MAX), 4_294_967_295);
    assert_eq!(magnitude(Reading { x: 3, y: 4, z: 12 }), 13);
    assert_eq!(magnitude(Reading { x: 0, y: 0, z: 0 }), 0);
    assert_eq!(
        magnitude(Reading { x: i32::MIN, y: i32::MIN, z: i32::MIN }),
        3_719_550_786
    );
}

#[test]
fn sensor_text() {
    assert_eq!(parse_reading("-1000000\n"), -1_000_000);
    assert_eq!(parse_reading("512"), 512);
    assert_eq!(parse_reading("+7\n\n"), 7);
    assert_eq!(parse_reading(""), 0);
    assert_eq!(parse_reading("\n"), 0);
    assert_eq!(parse_reading("abc\n"), 0);
    assert_eq!(parse_reading("12 \n"), 0);
    assert_eq!(parse_reading("-"), 0);
    assert_eq!(parse_reading("2147483647"), i32::MAX);
    assert_eq!(parse_reading("-2147483648"), i32::MIN);
    assert_eq!(parse_reading("2147483648"), 0);
    assert_eq!(parse_reading("99999999999999999999999"), 0);
}
