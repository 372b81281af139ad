use road_intersection::arc::{
    angle_step, arc_sine, arc_versine, canonical_deg, turn_radius, turned, MAX_RADIUS,
    QUARTER_TURN,
};
use road_intersection::config::Config;
use road_intersection::location::{Destination, Location};

#[test]
fn sine_of_known_angles() {
    let values: Vec<i64> = [0, 1_000, 2_546, 30_000, 45_000, 60_000, 89_999, 90_000]
        .iter()
        .map(|a| arc_sine(45_000, *a))
        .collect();
    assert_eq!(values, vec![0, 799, 2_030, 22_500, 31_764, 38_918, 44_999, 45_000]);
    assert_eq!(arc_sine(95_000, 1_206), 2_033);
    assert_eq!(arc_sine(95_000, 30_000), 47_500);
    assert_eq!(arc_sine(MAX_RADIUS, QUARTER_TURN), 35_000_000);
    assert_eq!(arc_sine(MAX_RADIUS, 45_000), 24_705_882);
    assert_eq!(arc_sine(0, 45_000), 0);
}

#[test]
fn versine_of_known_angles() {
    let values: Vec<i64> = [0, 1_000, 2_546, 30_000, 45_000, 60_000, 89_999, 90_000]
        .iter()
        .map(|a| arc_versine(45_000, *a))
        .collect();
    assert_eq!(values, vec![0, 7, 46, 6_082, 13_236, 22_500, 45_000, 45_000]);
}

#[test]
fn sine_is_close_to_the_true_sine() {
    let radius: i64 = 1_000_000;
    let mut angle = 0;
    while angle <= QUARTER_TURN {
        let exact = ((angle as f64) / 1000.0).to_radians().sin();
        let got = arc_sine(radius, angle) as f64 / radius as f64;
        assert!((got - exact).abs() < 0.002, "angle {}", angle);
        let exact = 1.0 - ((angle as f64) / 1000.0).to_radians().cos();
        let got = arc_versine(radius, angle) as f64 / radius as f64;
        assert!((got - exact).abs() < 0.002, "angle {}", angle);
        angle += 250;
    }
}

#[test]
fn sine_stays_within_the_radius_and_grows_with_the_angle() {
    let mut last = 0;
    let mut angle = 0;
    while angle <= QUARTER_TURN {
        let s = arc_sine(95_000, angle);
        assert!(0 <= s && s <= 95_000);
        assert!(s >= last);
        last = s;
        angle += 100;
    }
}

#[test]
fn radius_and_angle_step_of_each_turn() {
    let cfg = Config::standard();
    assert_eq!(turn_radius(&cfg, Destination::Left), 45_000);
    assert_eq!(turn_radius(&cfg, Destination::Right), 95_000);
    assert_eq!(angle_step(&cfg, Destination::Left), 2_546);
    assert_eq!(angle_step(&cfg, Destination::Right), 1_206);
    // speed over radius, in degrees
    let exact = (2.0f64 / 45.0).to_degrees() * 1000.0;
    assert!((angle_step(&cfg, Destination::Left) as f64 - exact).abs() < 1.0);
    // the fastest vehicle that a geometry admits still needs two ticks
    let fast = Config::new(800, 600, 40, 10, 45, 20, 5).unwrap();
    assert_eq!(angle_step(&fast, Destination::Left), 57_295);
    assert!(angle_step(&fast, Destination::Left) < QUARTER_TURN);
}

#[test]
fn canonical_headings() {
    assert_eq!(canonical_deg(Location::East), 0);
    assert_eq!(canonical_deg(Location::South), 90_000);
    assert_eq!(canonical_deg(Location::West), 180_000);
    assert_eq!(canonical_deg(Location::North), 270_000);
}

#[test]
fn direction_after_each_turn() {
    assert_eq!(turned(Location::East, Destination::Left), Location::North);
    assert_eq!(turned(Location::North, Destination::Left), Location::West);
    assert_eq!(turned(Location::West, Destination::Left), Location::South);
    assert_eq!(turned(Location::South, Destination::Left), Location::East);
    assert_eq!(turned(Location::East, Destination::Right), Location::South);
    assert_eq!(turned(Location::South, Destination::Right), Location::West);
    assert_eq!(turned(Location::West, Destination::Right), Location::North);
    assert_eq!(turned(Location::North, Destination::Right), Location::East);
    for d in [Location::East, Location::West, Location::North, Location::South] {
        assert_eq!(turned(d, Destination::Ahead), d);
    }
}
