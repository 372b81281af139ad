use road_intersection::config::Config;
use road_intersection::location::Location;

#[test]
fn standard_geometry() {
    let cfg = Config::standard();
    assert_eq!(cfg.screen_width(), 800);
    assert_eq!(cfg.screen_height(), 600);
    assert_eq!(cfg.car_size(), 40);
    assert_eq!(cfg.margin(), 10);
    assert_eq!(cfg.car_speed(), 2);
    assert_eq!(cfg.separation_distance(), 20);
    assert_eq!(cfg.max_cars_in_queue(), 5);
    assert_eq!(cfg.step(), 2_000);
    assert_eq!(cfg.spacing(), 60_000);
}

#[test]
fn stop_lines_lanes_and_entries() {
    let cfg = Config::standard();
    assert_eq!(cfg.stop_line(Location::East), 330_000);
    assert_eq!(cfg.stop_line(Location::West), 470_000);
    assert_eq!(cfg.stop_line(Location::South), 230_000);
    assert_eq!(cfg.stop_line(Location::North), 370_000);
    assert_eq!(cfg.lane(Location::East), 275_000);
    assert_eq!(cfg.lane(Location::West), 325_000);
    assert_eq!(cfg.lane(Location::South), 425_000);
    assert_eq!(cfg.lane(Location::North), 375_000);
    assert_eq!(cfg.entry(Location::East), 0);
    assert_eq!(cfg.entry(Location::South), 0);
    assert_eq!(cfg.entry(Location::West), 800_000);
    assert_eq!(cfg.entry(Location::North), 600_000);
}

#[test]
fn axes_and_offsets() {
    assert!(Config::horizontal(Location::East));
    assert!(Config::horizontal(Location::West));
    assert!(!Config::horizontal(Location::North));
    assert!(!Config::horizontal(Location::South));
    assert!(Config::ascending(Location::East));
    assert!(Config::ascending(Location::South));
    assert!(!Config::ascending(Location::West));
    assert!(!Config::ascending(Location::North));
    assert_eq!(Config::offset(Location::East, 10, 3), 13);
    assert_eq!(Config::offset(Location::South, 10, 3), 13);
    assert_eq!(Config::offset(Location::West, 10, 3), 7);
    assert_eq!(Config::offset(Location::North, 10, 3), 7);
}

#[test]
fn valid_geometries_are_accepted() {
    assert!(Config::new(800, 600, 40, 10, 2, 20, 5).is_some());
    // the smallest screen that holds the stop lines
    assert!(Config::new(140, 140, 40, 10, 1, 0, 1).is_some());
    // speed equal to the radius of a left turn
    assert!(Config::new(800, 600, 40, 10, 45, 20, 5).is_some());
    assert!(Config::new(1_000_000, 1_000_000, 10_000, 10_000, 15_000, 10_000, 1_000_000).is_some());
    let cfg = Config::new(1024, 768, 30, 6, 3, 12, 4).unwrap();
    assert_eq!(cfg.screen_width(), 1024);
    assert_eq!(cfg.screen_height(), 768);
    assert_eq!(cfg.car_size(), 30);
    assert_eq!(cfg.margin(), 6);
    assert_eq!(cfg.car_speed(), 3);
    assert_eq!(cfg.separation_distance(), 12);
    assert_eq!(cfg.max_cars_in_queue(), 4);
}

#[test]
fn invalid_geometries_are_rejected() {
    // no vehicle size
    assert!(Config::new(800, 600, 0, 10, 2, 20, 5).is_none());
    assert!(Config::new(800, 600, -40, 10, 2, 20, 5).is_none());
    assert!(Config::new(800, 600, 10_001, 10, 2, 20, 5).is_none());
    // negative margin
    assert!(Config::new(800, 600, 40, -1, 2, 20, 5).is_none());
    // no speed
    assert!(Config::new(800, 600, 40, 10, 0, 20, 5).is_none());
    // a speed beyond the radius of a left turn
    assert!(Config::new(800, 600, 40, 10, 46, 20, 5).is_none());
    assert!(Config::new(800, 600, 40, 10, i64::MAX, 20, 5).is_none());
    // negative separation
    assert!(Config::new(800, 600, 40, 10, 2, -1, 5).is_none());
    // no queue threshold
    assert!(Config::new(800, 600, 40, 10, 2, 20, 0).is_none());
    // the stop lines fall off the screen
    assert!(Config::new(139, 600, 40, 10, 2, 20, 5).is_none());
    assert!(Config::new(800, 139, 40, 10, 2, 20, 5).is_none());
    assert!(Config::new(1_000_001, 600, 40, 10, 2, 20, 5).is_none());
    assert!(Config::new(i64::MIN, i64::MIN, i64::MIN, i64::MIN, i64::MIN, i64::MIN, i64::MIN)
        .is_none());
}
