use road_intersection::car::Car;
use road_intersection::config::Config;
use road_intersection::controller::Controller;
use road_intersection::geometry::PointF;
use road_intersection::location::{Destination, Location};
use road_intersection::model::Model;

const ALL: [Location; 4] = [Location::West, Location::East, Location::North, Location::South];

fn greens(model: &Model) -> Vec<Location> {
    ALL.iter()
        .copied()
        .filter(|l| model.traffic_light_switch().traffic_lights().status(*l))
        .collect()
}

#[test]
fn vehicle_waits_at_red_then_crosses_and_leaves() {
    let mut model = Model::new(Config::standard());
    model.spawn_car(Location::West, Destination::Ahead);
    // 330 pixels to the stop line at 2 pixels per tick
    for _ in 0..164 {
        model.drive_cars();
    }
    assert_eq!(model.cars()[0].position, PointF::new(328_000, 275_000));
    model.drive_cars();
    assert_eq!(model.cars()[0].position, PointF::new(330_000, 275_000));
    for _ in 0..200 {
        model.drive_cars();
        assert_eq!(model.cars()[0].position, PointF::new(330_000, 275_000));
    }
    model.request(Location::West);
    model.update_lights();
    assert_eq!(greens(&model), vec![Location::West]);
    model.drive_cars();
    assert_eq!(model.cars()[0].position, PointF::new(332_000, 275_000));
    // 470 pixels to the right edge: 235 ticks in all, and one more to pass it
    for _ in 0..234 {
        model.drive_cars();
    }
    assert_eq!(model.cars().len(), 1);
    assert_eq!(model.cars()[0].position, PointF::new(800_000, 275_000));
    model.drive_cars();
    assert!(model.cars().is_empty());
}

fn ticks_until_gone(location: Location) -> (usize, PointF) {
    let mut model = Model::new(Config::standard());
    model.request(location);
    model.update_lights();
    model.spawn_car(location, Destination::Ahead);
    let mut ticks = 0;
    let mut last = model.cars()[0].position;
    while !model.cars().is_empty() {
        last = model.cars()[0].position;
        model.drive_cars();
        ticks += 1;
        assert!(ticks < 10_000);
    }
    (ticks, last)
}

#[test]
fn vehicles_are_removed_past_the_edge_they_head_for() {
    assert_eq!(ticks_until_gone(Location::West), (401, PointF::new(800_000, 275_000)));
    assert_eq!(ticks_until_gone(Location::East), (421, PointF::new(-40_000, 325_000)));
    assert_eq!(ticks_until_gone(Location::North), (301, PointF::new(425_000, 600_000)));
    assert_eq!(ticks_until_gone(Location::South), (321, PointF::new(375_000, -40_000)));
}

#[test]
fn off_screen_is_judged_by_direction() {
    let cfg = Config::standard();
    let mut car = Car::new(Location::West, Destination::Ahead, &cfg);
    car.position = PointF::new(800_000, 275_000);
    assert!(!Model::is_off_screen(&car, &cfg));
    car.position = PointF::new(800_001, 275_000);
    assert!(Model::is_off_screen(&car, &cfg));
    let mut car = Car::new(Location::East, Destination::Ahead, &cfg);
    car.position = PointF::new(800_001, 325_000);
    assert!(!Model::is_off_screen(&car, &cfg));
    car.position = PointF::new(-40_000, 325_000);
    assert!(!Model::is_off_screen(&car, &cfg));
    car.position = PointF::new(-40_001, 325_000);
    assert!(Model::is_off_screen(&car, &cfg));
    let mut car = Car::new(Location::North, Destination::Ahead, &cfg);
    car.position = PointF::new(425_000, 600_001);
    assert!(Model::is_off_screen(&car, &cfg));
    let mut car = Car::new(Location::South, Destination::Ahead, &cfg);
    car.position = PointF::new(375_000, -40_001);
    assert!(Model::is_off_screen(&car, &cfg));
}

#[test]
fn queue_forces_all_red_and_is_granted_once_the_crossing_is_empty() {
    let mut controller = Controller::new(Model::new(Config::standard()));
    controller.spawn(Location::North, Destination::Ahead);
    controller.spawn(Location::West, Destination::Ahead);
    for tick in 1..=124 {
        controller.tick();
        if tick == 31 || tick == 62 || tick == 93 || tick == 124 {
            controller.spawn(Location::West, Destination::Ahead);
        }
        if tick >= 95 {
            // the vehicle from the North announced itself and was granted
            assert_eq!(greens(controller.model()), vec![Location::North]);
        } else {
            assert!(greens(controller.model()).is_empty());
        }
    }
    assert_eq!(controller.model().cars().len(), 6);
    assert!(!Model::is_crossing_clear(controller.model().cars(), controller.model().config()));
    // five vehicles queue on the West approach: every signal goes red at once
    controller.tick();
    assert!(greens(controller.model()).is_empty());
    assert_eq!(
        controller.model().traffic_light_switch().pending_request(),
        Some(Location::West)
    );
    // nothing is granted while the vehicle from the North is in the crossing
    for _ in 126..185 {
        controller.tick();
        assert!(!Model::is_crossing_clear(controller.model().cars(), controller.model().config()));
        assert!(greens(controller.model()).is_empty());
        assert_eq!(
            controller.model().traffic_light_switch().pending_request(),
            Some(Location::West)
        );
    }
    // the first tick that leaves the crossing empty grants the West approach
    controller.tick();
    assert_eq!(greens(controller.model()), vec![Location::West]);
    assert_eq!(controller.model().traffic_light_switch().pending_request(), None);
    let xs: Vec<i64> = controller
        .model()
        .cars()
        .iter()
        .filter(|c| c.direction == Location::East)
        .map(|c| c.position.x)
        .collect();
    assert_eq!(xs, vec![330_000, 270_000, 210_000, 150_000, 90_000]);
    // the queue sets off, one vehicle per tick
    controller.tick();
    assert_eq!(greens(controller.model()), vec![Location::West]);
    assert_eq!(controller.model().cars()[1].position, PointF::new(332_000, 275_000));
    assert_eq!(controller.model().cars()[2].position, PointF::new(270_000, 275_000));
}

#[test]
fn no_two_vehicles_are_too_close_after_any_accepted_spawn() {
    let mut model = Model::new(Config::standard());
    let mut accepted = 0;
    for tick in 0..400 {
        let before = model.cars().len();
        model.spawn_car(ALL[tick % 4], Destination::Ahead);
        if model.cars().len() > before {
            accepted += 1;
            let cars = model.cars();
            let new = cars[cars.len() - 1].position;
            for other in &cars[..cars.len() - 1] {
                let same_row = other.position.y == new.y && (other.position.x - new.x).abs() <= 60_000;
                let same_column =
                    other.position.x == new.x && (other.position.y - new.y).abs() <= 60_000;
                assert!(!same_row && !same_column);
            }
        }
        model.drive_cars();
    }
    assert!(accepted >= 4);
}

#[test]
fn markings_and_geometry_do_not_change_over_ticks() {
    let cfg = Config::standard();
    let mut controller = Controller::new(Model::new(cfg));
    controller.spawn(Location::South, Destination::Left);
    for _ in 0..50 {
        controller.tick();
    }
    assert_eq!(controller.model().road_marking().len(), 24);
    assert_eq!(controller.model().config().screen_width(), 800);
    assert_eq!(controller.model().cars()[0].position, PointF::new(375_000, 500_000));
}

#[test]
fn vehicle_inside_its_turn_goes_on_when_the_signal_turns_red() {
    let mut model = Model::new(Config::standard());
    model.request(Location::West);
    model.update_lights();
    model.spawn_car(Location::West, Destination::Left);
    for _ in 0..170 {
        model.drive_cars();
    }
    assert_eq!(model.cars()[0].position, PointF::new(339_988, 273_880));
    assert_eq!(model.cars()[0].deg, -12_730);
    assert_eq!(model.cars()[0].direction, Location::East);
    model.urgent_request(Location::North);
    assert!(greens(&model).is_empty());
    let mut swept = model.cars()[0].swept();
    for _ in 170..200 {
        model.drive_cars();
        assert!(model.cars()[0].swept() > swept);
        swept = model.cars()[0].swept();
    }
    model.drive_cars();
    let car = &model.cars()[0];
    assert_eq!(car.position, PointF::new(374_994, 230_711));
    assert_eq!(car.direction, Location::North);
    assert_eq!(car.destination, Destination::Ahead);
    assert_eq!(car.deg, 270_000);
    // it leaves by the upper edge
    let mut ticks = 201;
    let mut last = car.position;
    while !model.cars().is_empty() {
        last = model.cars()[0].position;
        model.drive_cars();
        ticks += 1;
        assert!(ticks < 1000);
    }
    assert_eq!(ticks, 337);
    assert_eq!(last, PointF::new(374_994, -39_289));
}
