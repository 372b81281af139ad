//! Where things are drawn: pixel positions of vehicles and signals, and the
//! angles their images are turned by.

use vstd::prelude::*;
use crate::car::POSITION_LIMIT;
use crate::config::Config;
use crate::geometry::{Dimen, Point, PointF};
use crate::lights::{TRAFFIC_LIGHTS_HEIGHT, TRAFFIC_LIGHTS_WIDTH};
use crate::location::Location;

verus! {

/// Largest image width or height that a position is computed for, in pixels.
pub const MAX_IMAGE: i32 = 1_000_000;

/// A coordinate in whole pixels, rounded towards zero.
pub open spec fn spec_pixel(units: int) -> int {
    if units >= 0 {
        units / 1000
    } else {
        -((-units) / 1000)
    }
}

/// The angle, in degrees, by which the image of a vehicle heading towards
/// `direction` is turned: the image points North.
pub open spec fn spec_car_angle(direction: Location) -> int {
    match direction {
        Location::North => 0,
        Location::East => 90,
        Location::South => 180,
        Location::West => 270,
    }
}

/// The angle, in degrees, by which the image of the signal of the approach
/// `location` is turned.
pub open spec fn spec_sign_angle(location: Location) -> int {
    match location {
        Location::North => 0,
        Location::East => 90,
        Location::South => 180,
        Location::West => 270,
    }
}

/// The corner at which the image of a signal is drawn: outside the corner
/// of the crossing box that lies to the right of the approaching driver,
/// two margins away, for an image of the given size.
pub open spec fn spec_sign_position(cfg: Config, location: Location, width: int, height: int)
    -> (int, int) {
    let near_x = cfg.width() / 2 - cfg.size() - 2 * cfg.gutter() - width;
    let far_x = cfg.width() / 2 + cfg.size() + 2 * cfg.gutter();
    let near_y = cfg.height() / 2 - cfg.size() - 2 * cfg.gutter() - height;
    let far_y = cfg.height() / 2 + cfg.size() + 2 * cfg.gutter();
    match location {
        Location::East => (far_x, far_y),
        Location::West => (near_x, near_y),
        Location::North => (far_x, near_y),
        Location::South => (near_x, far_y),
    }
}

/// The corner at which a signal is drawn as a plain rectangle.
pub open spec fn spec_light_position(cfg: Config, location: Location) -> (int, int) {
    let near_x = (cfg.width() - 2 * cfg.size() - cfg.gutter()) / 2 - cfg.gutter()
        - TRAFFIC_LIGHTS_WIDTH;
    let far_x = (cfg.width() + cfg.gutter()) / 2 + cfg.size() + cfg.gutter();
    let near_y = (cfg.height() - 2 * cfg.size() - cfg.gutter()) / 2 - cfg.gutter()
        - TRAFFIC_LIGHTS_HEIGHT;
    let far_y = (cfg.height() + cfg.gutter()) / 2 + cfg.size() + cfg.gutter();
    match location {
        Location::East => (far_x, far_y),
        Location::West => (near_x, near_y),
        Location::North => (far_x, near_y),
        Location::South => (near_x, far_y),
    }
}

fn pixel(units: i64) -> (r: i32)
    requires
        -POSITION_LIMIT <= units <= POSITION_LIMIT,
    ensures
        r == spec_pixel(units as int),
{
    if units >= 0 {
        (units / 1000) as i32
    } else {
        (-((-units) / 1000)) as i32
    }
}

/// The pixel that a fixed-point position falls on.
pub fn to_pixels(position: &PointF) -> (r: Point)
    requires
        -POSITION_LIMIT <= position.x <= POSITION_LIMIT,
        -POSITION_LIMIT <= position.y <= POSITION_LIMIT,
    ensures
        r.x == spec_pixel(position.x as int),
        r.y == spec_pixel(position.y as int),
{
    Point::new(pixel(position.x), pixel(position.y))
}

pub fn car_angle(direction: Location) -> (r: i32)
    ensures
        r == spec_car_angle(direction),
{
    match direction {
        Location::North => 0,
        Location::East => 90,
        Location::South => 180,
        Location::West => 270,
    }
}

pub fn sign_angle(location: Location) -> (r: i32)
    ensures
        r == spec_sign_angle(location),
{
    match location {
        Location::North => 0,
        Location::East => 90,
        Location::South => 180,
        Location::West => 270,
    }
}

/// The size of each of the four fields beside the roads.
pub fn corner_field(cfg: &Config) -> (r: Dimen)
    ensures
        r.width == cfg.width() / 2 - cfg.size() - cfg.gutter(),
        r.length == cfg.height() / 2 - cfg.size() - cfg.gutter(),
{
    let reach = cfg.car_size() + cfg.margin();
    Dimen::new((cfg.screen_width() / 2 - reach) as i32, (cfg.screen_height() / 2 - reach) as i32)
}

pub fn sign_position(cfg: &Config, location: Location, width: i32, height: i32) -> (r: Point)
    requires
        0 <= width <= MAX_IMAGE,
        0 <= height <= MAX_IMAGE,
    ensures
        (r.x as int, r.y as int) == spec_sign_position(
            *cfg,
            location,
            width as int,
            height as int,
        ),
{
    let reach = cfg.car_size() + 2 * cfg.margin();
    let near_x = cfg.screen_width() / 2 - reach - width as i64;
    let far_x = cfg.screen_width() / 2 + reach;
    let near_y = cfg.screen_height() / 2 - reach - height as i64;
    let far_y = cfg.screen_height() / 2 + reach;
    match location {
        Location::East => Point::new(far_x as i32, far_y as i32),
        Location::West => Point::new(near_x as i32, near_y as i32),
        Location::North => Point::new(far_x as i32, near_y as i32),
        Location::South => Point::new(near_x as i32, far_y as i32),
    }
}

pub fn light_position(cfg: &Config, location: Location) -> (r: Point)
    ensures
        (r.x as int, r.y as int) == spec_light_position(*cfg, location),
{
    let size = cfg.car_size();
    let margin = cfg.margin();
    let near_x = (cfg.screen_width() - 2 * size - margin) / 2 - margin
        - TRAFFIC_LIGHTS_WIDTH as i64;
    let far_x = (cfg.screen_width() + margin) / 2 + size + margin;
    let near_y = (cfg.screen_height() - 2 * size - margin) / 2 - margin
        - TRAFFIC_LIGHTS_HEIGHT as i64;
    let far_y = (cfg.screen_height() + margin) / 2 + size + margin;
    match location {
        Location::East => Point::new(far_x as i32, far_y as i32),
        Location::West => Point::new(near_x as i32, near_y as i32),
        Location::North => Point::new(far_x as i32, near_y as i32),
        Location::South => Point::new(near_x as i32, far_y as i32),
    }
}

} // verus!
