use road_intersection::car::Car;
use road_intersection::config::Config;
use road_intersection::geometry::PointF;
use road_intersection::location::{Destination, Location};
use road_intersection::model::Model;

fn check_fresh(
    location: Location,
    destination: Destination,
    position: (i64, i64),
    direction: Location,
    deg: i64,
    color: (u8, u8, u8),
    url: &str,
) {
    let cfg = Config::standard();
    let car = Car::new(location, destination, &cfg);
    assert_eq!(car.position, PointF::new(position.0, position.1));
    assert_eq!(car.direction, direction);
    assert_eq!(car.destination, destination);
    assert_eq!(car.deg, deg);
    assert_eq!(car.size.width, 40);
    assert_eq!(car.size.length, 40);
    assert_eq!(car.color.color, color);
    assert_eq!(car.color.url, url);
}

const WHITE: (u8, u8, u8) = (255, 255, 255);
const ORANGE: (u8, u8, u8) = (255, 165, 0);
const BLUE: (u8, u8, u8) = (0, 0, 255);

#[test]
fn west_entry_ahead() {
    check_fresh(Location::West, Destination::Ahead, (0, 275_000), Location::East, 0, WHITE,
        "assets/images/car_white.png");
}

#[test]
fn west_entry_left() {
    check_fresh(Location::West, Destination::Left, (0, 275_000), Location::East, 0, BLUE,
        "assets/images/car_blue.png");
}

#[test]
fn west_entry_right() {
    check_fresh(Location::West, Destination::Right, (0, 275_000), Location::East, 0, ORANGE,
        "assets/images/car_orange.png");
}

#[test]
fn north_entry_ahead() {
    check_fresh(Location::North, Destination::Ahead, (425_000, 0), Location::South, 90_000,
        WHITE, "assets/images/car_white.png");
}

#[test]
fn north_entry_left() {
    check_fresh(Location::North, Destination::Left, (425_000, 0), Location::South, 90_000, BLUE,
        "assets/images/car_blue.png");
}

#[test]
fn north_entry_right() {
    check_fresh(Location::North, Destination::Right, (425_000, 0), Location::South, 90_000,
        ORANGE, "assets/images/car_orange.png");
}

#[test]
fn east_entry_ahead() {
    check_fresh(Location::East, Destination::Ahead, (800_000, 325_000), Location::West, 180_000,
        WHITE, "assets/images/car_white.png");
}

#[test]
fn east_entry_left() {
    check_fresh(Location::East, Destination::Left, (800_000, 325_000), Location::West, 180_000,
        BLUE, "assets/images/car_blue.png");
}

#[test]
fn east_entry_right() {
    check_fresh(Location::East, Destination::Right, (800_000, 325_000), Location::West, 180_000,
        ORANGE, "assets/images/car_orange.png");
}

#[test]
fn south_entry_ahead() {
    check_fresh(Location::South, Destination::Ahead, (375_000, 600_000), Location::North,
        270_000, WHITE, "assets/images/car_white.png");
}

#[test]
fn south_entry_left() {
    check_fresh(Location::South, Destination::Left, (375_000, 600_000), Location::North, 270_000,
        BLUE, "assets/images/car_blue.png");
}

#[test]
fn south_entry_right() {
    check_fresh(Location::South, Destination::Right, (375_000, 600_000), Location::North,
        270_000, ORANGE, "assets/images/car_orange.png");
}

#[test]
fn initial_position_of_each_entry() {
    let cfg = Config::standard();
    assert_eq!(Car::calculate_initial_position(&Location::West, &cfg), PointF::new(0, 275_000));
    assert_eq!(Car::calculate_initial_position(&Location::North, &cfg), PointF::new(425_000, 0));
    assert_eq!(
        Car::calculate_initial_position(&Location::East, &cfg),
        PointF::new(800_000, 325_000)
    );
    assert_eq!(
        Car::calculate_initial_position(&Location::South, &cfg),
        PointF::new(375_000, 600_000)
    );
}

#[test]
fn spawn_is_dropped_when_entry_is_occupied() {
    let mut model = Model::new(Config::standard());
    model.spawn_car(Location::West, Destination::Ahead);
    assert_eq!(model.cars().len(), 1);
    model.spawn_car(Location::West, Destination::Left);
    assert_eq!(model.cars().len(), 1);
    assert_eq!(model.cars()[0].destination, Destination::Ahead);
    model.spawn_car(Location::East, Destination::Left);
    assert_eq!(model.cars().len(), 2);
}

#[test]
fn spawn_is_accepted_just_beyond_one_spacing() {
    let mut model = Model::new(Config::standard());
    model.spawn_car(Location::West, Destination::Ahead);
    // 60 pixels of spacing at 2 pixels per tick: after 30 ticks the entry is
    // still within one spacing, after 31 it is free.
    for _ in 0..30 {
        model.drive_cars();
    }
    assert_eq!(model.cars()[0].position, PointF::new(60_000, 275_000));
    model.spawn_car(Location::West, Destination::Ahead);
    assert_eq!(model.cars().len(), 1);
    model.drive_cars();
    model.spawn_car(Location::West, Destination::Ahead);
    assert_eq!(model.cars().len(), 2);
    assert_eq!(model.cars()[1].position, PointF::new(0, 275_000));
}

#[test]
fn overlap_is_checked_both_ways_on_both_axes() {
    let cfg = Config::standard();
    let mut cars = Vec::new();
    let mut car = Car::new(Location::West, Destination::Ahead, &cfg);
    car.position = PointF::new(100_000, 275_000);
    cars.push(car);
    assert!(Model::is_overlap(&cars, &PointF::new(160_000, 275_000), &cfg));
    assert!(Model::is_overlap(&cars, &PointF::new(40_000, 275_000), &cfg));
    assert!(!Model::is_overlap(&cars, &PointF::new(160_001, 275_000), &cfg));
    assert!(!Model::is_overlap(&cars, &PointF::new(39_999, 275_000), &cfg));
    assert!(Model::is_overlap(&cars, &PointF::new(100_000, 335_000), &cfg));
    assert!(Model::is_overlap(&cars, &PointF::new(100_000, 215_000), &cfg));
    assert!(!Model::is_overlap(&cars, &PointF::new(100_000, 335_001), &cfg));
    assert!(!Model::is_overlap(&cars, &PointF::new(100_001, 275_001), &cfg));
    assert!(!Model::is_overlap(&Vec::new(), &PointF::new(100_000, 275_000), &cfg));
    // positions at the ends of the number range
    assert!(!Model::is_overlap(&cars, &PointF::new(i64::MAX, 275_000), &cfg));
    assert!(!Model::is_overlap(&cars, &PointF::new(i64::MIN, 275_000), &cfg));
    assert!(!Model::is_overlap(&cars, &PointF::new(100_000, i64::MIN), &cfg));
}
