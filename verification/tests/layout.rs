use road_intersection::config::Config;
use road_intersection::geometry::{Point, PointF};
use road_intersection::layout::{
    car_angle, corner_field, light_position, sign_angle, sign_position, to_pixels,
};
use road_intersection::location::Location;

#[test]
fn positions_fall_on_pixels_rounded_towards_zero() {
    assert_eq!(to_pixels(&PointF::new(332_030, 274_954)), Point::new(332, 274));
    assert_eq!(to_pixels(&PointF::new(-40_000, 999)), Point::new(-40, 0));
    assert_eq!(to_pixels(&PointF::new(-1, -1_999)), Point::new(0, -1));
    assert_eq!(to_pixels(&PointF::new(0, 800_000)), Point::new(0, 800));
}

#[test]
fn images_are_turned_by_direction() {
    assert_eq!(car_angle(Location::North), 0);
    assert_eq!(car_angle(Location::East), 90);
    assert_eq!(car_angle(Location::South), 180);
    assert_eq!(car_angle(Location::West), 270);
    assert_eq!(sign_angle(Location::North), 0);
    assert_eq!(sign_angle(Location::East), 90);
    assert_eq!(sign_angle(Location::South), 180);
    assert_eq!(sign_angle(Location::West), 270);
}

#[test]
fn signals_stand_at_the_corners_of_the_crossing() {
    let cfg = Config::standard();
    assert_eq!(sign_position(&cfg, Location::East, 30, 50), Point::new(460, 360));
    assert_eq!(sign_position(&cfg, Location::West, 30, 50), Point::new(310, 190));
    assert_eq!(sign_position(&cfg, Location::North, 30, 50), Point::new(460, 190));
    assert_eq!(sign_position(&cfg, Location::South, 30, 50), Point::new(310, 360));
    assert_eq!(light_position(&cfg, Location::East), Point::new(455, 355));
    assert_eq!(light_position(&cfg, Location::West), Point::new(325, 225));
    assert_eq!(light_position(&cfg, Location::North), Point::new(455, 225));
    assert_eq!(light_position(&cfg, Location::South), Point::new(325, 355));
    let field = corner_field(&cfg);
    assert_eq!((field.width, field.length), (350, 250));
}
