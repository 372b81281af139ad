//! The immutable geometry of one intersection.

use vstd::prelude::*;
use crate::location::Location;

verus! {

/// Largest screen extent, in pixels.
pub const MAX_SCREEN: i64 = 1_000_000;

/// Largest vehicle size, margin and separation distance, in pixels.
pub const MAX_LENGTH: i64 = 10_000;

/// Largest queue threshold.
pub const MAX_QUEUE: i64 = 1_000_000;

/// Screen extents, vehicle size, lane margin, speed, separation distance and
/// queue threshold, all in pixels (the speed in pixels per tick). A value of
/// this type always satisfies [`Config::valid`].
#[derive(Clone, Copy, Debug)]
pub struct Config {
    screen_width: i64,
    screen_height: i64,
    car_size: i64,
    margin: i64,
    car_speed: i64,
    separation_distance: i64,
    max_cars_in_queue: i64,
}

impl Config {
    /// The width of the screen, in pixels.
    pub closed spec fn width(self) -> int {
        self.screen_width as int
    }

    /// The height of the screen, in pixels.
    pub closed spec fn height(self) -> int {
        self.screen_height as int
    }

    /// The length and width of a vehicle, in pixels.
    pub closed spec fn size(self) -> int {
        self.car_size as int
    }

    /// The margin between a vehicle and the edge of its lane, in pixels.
    pub closed spec fn gutter(self) -> int {
        self.margin as int
    }

    /// The distance a vehicle covers in one tick, in pixels.
    pub closed spec fn speed(self) -> int {
        self.car_speed as int
    }

    /// The gap kept between a vehicle and the one ahead, in pixels.
    pub closed spec fn separation(self) -> int {
        self.separation_distance as int
    }

    /// The number of queued vehicles at which an approach becomes urgent.
    pub closed spec fn queue_limit(self) -> int {
        self.max_cars_in_queue as int
    }

    /// The geometries that can be simulated. The vehicle size and the speed
    /// are positive, the speed does not exceed the radius of a left turn (so
    /// that one tick never sweeps a quarter turn), and the four stop lines
    /// lie on the screen.
    pub open spec fn valid(
        width: int,
        height: int,
        size: int,
        gutter: int,
        speed: int,
        separation: int,
        queue_limit: int,
    ) -> bool {
        &&& 1 <= size <= MAX_LENGTH
        &&& 0 <= gutter <= MAX_LENGTH
        &&& 1 <= speed
        &&& 2 * speed <= 2 * size + gutter
        &&& 0 <= separation <= MAX_LENGTH
        &&& 1 <= queue_limit <= MAX_QUEUE
        &&& 3 * size + 2 * gutter <= width <= MAX_SCREEN
        &&& 3 * size + 2 * gutter <= height <= MAX_SCREEN
    }

    /// What holds of every configuration: it is valid. The functions that
    /// read a configuration restate it for their callers.
    #[verifier::type_invariant]
    pub open spec fn inv(self) -> bool {
        Self::valid(
            self.width(),
            self.height(),
            self.size(),
            self.gutter(),
            self.speed(),
            self.separation(),
            self.queue_limit(),
        )
    }

    /// Checks a geometry and, where it is valid, returns its configuration.
    pub fn new(
        screen_width: i64,
        screen_height: i64,
        car_size: i64,
        margin: i64,
        car_speed: i64,
        separation_distance: i64,
        max_cars_in_queue: i64,
    ) -> (r: Option<Config>)
        ensures
            r is Some <==> Self::valid(
                screen_width as int,
                screen_height as int,
                car_size as int,
                margin as int,
                car_speed as int,
                separation_distance as int,
                max_cars_in_queue as int,
            ),
            r is Some ==> {
                let c = r->Some_0;
                &&& c.width() == screen_width
                &&& c.height() == screen_height
                &&& c.size() == car_size
                &&& c.gutter() == margin
                &&& c.speed() == car_speed
                &&& c.separation() == separation_distance
                &&& c.queue_limit() == max_cars_in_queue
            },
    {
        if 1 <= car_size && car_size <= MAX_LENGTH && 0 <= margin && margin <= MAX_LENGTH
            && 1 <= car_speed && car_speed <= MAX_LENGTH + MAX_LENGTH
            && 2 * car_speed <= 2 * car_size + margin && 0 <= separation_distance
            && separation_distance <= MAX_LENGTH && 1 <= max_cars_in_queue
            && max_cars_in_queue <= MAX_QUEUE && 3 * car_size + 2 * margin <= screen_width
            && screen_width <= MAX_SCREEN && 3 * car_size + 2 * margin <= screen_height
            && screen_height <= MAX_SCREEN {
            Some(
                Config {
                    screen_width,
                    screen_height,
                    car_size,
                    margin,
                    car_speed,
                    separation_distance,
                    max_cars_in_queue,
                },
            )
        } else {
            None
        }
    }

    /// An 800 by 600 screen with vehicles of 40 pixels, a margin of 10, a
    /// speed of 2 pixels per tick, 20 pixels between vehicles and urgency at
    /// five queued vehicles.
    pub fn standard() -> (r: Config)
        ensures
            r.width() == 800,
            r.height() == 600,
            r.size() == 40,
            r.gutter() == 10,
            r.speed() == 2,
            r.separation() == 20,
            r.queue_limit() == 5,
    {
        Config {
            screen_width: 800,
            screen_height: 600,
            car_size: 40,
            margin: 10,
            car_speed: 2,
            separation_distance: 20,
            max_cars_in_queue: 5,
        }
    }

    /// Whether vehicles heading towards `direction` travel along the x axis.
    pub open spec fn spec_horizontal(direction: Location) -> bool {
        direction == Location::East || direction == Location::West
    }

    /// Whether travel towards `direction` increases the coordinate along
    /// its axis: East and South do, West and North do not.
    pub open spec fn spec_ascending(direction: Location) -> bool {
        direction == Location::East || direction == Location::South
    }

    /// The coordinate reached from `base` by going `delta` towards
    /// `direction`.
    pub open spec fn spec_offset(direction: Location, base: int, delta: int) -> int {
        if Self::spec_ascending(direction) {
            base + delta
        } else {
            base - delta
        }
    }

    /// The coordinate, along the axis of travel, at which a vehicle heading
    /// towards `direction` enters the screen.
    pub open spec fn spec_entry(self, direction: Location) -> int {
        match direction {
            Location::East => 0,
            Location::South => 0,
            Location::West => 1000 * self.width(),
            Location::North => 1000 * self.height(),
        }
    }

    /// The distance covered in one tick, in units.
    pub open spec fn spec_step(self) -> int {
        1000 * self.speed()
    }

    /// The distance between the centres of two vehicles that stand one
    /// separation distance apart: vehicle size plus separation, in units.
    pub open spec fn spec_spacing(self) -> int {
        1000 * (self.size() + self.separation())
    }

    /// The coordinate, along the axis of travel, of the centre of a vehicle
    /// heading towards `direction` whose front touches the crossing box.
    pub open spec fn spec_stop_line(self, direction: Location) -> int {
        match direction {
            Location::East => 500 * self.width() - 1500 * self.size() - 1000 * self.gutter(),
            Location::West => 500 * self.width() + 1500 * self.size() + 1000 * self.gutter(),
            Location::South => 500 * self.height() - 1500 * self.size() - 1000 * self.gutter(),
            Location::North => 500 * self.height() + 1500 * self.size() + 1000 * self.gutter(),
        }
    }

    /// The coordinate, across the axis of travel, of the lane that vehicles
    /// heading towards `direction` use.
    pub open spec fn spec_lane(self, direction: Location) -> int {
        match direction {
            Location::East => 500 * (self.height() - self.gutter() - self.size()),
            Location::West => 500 * (self.height() + self.gutter() + self.size()),
            Location::South => 500 * (self.width() + self.gutter() + self.size()),
            Location::North => 500 * (self.width() - self.gutter() - self.size()),
        }
    }

    /// The lower corner of the crossing box, on the x axis and on the y axis.
    pub open spec fn spec_box_low(self) -> (int, int) {
        (
            500 * self.width() - 1000 * (self.size() + self.gutter()),
            500 * self.height() - 1000 * (self.size() + self.gutter()),
        )
    }

    /// The upper corner of the crossing box.
    pub open spec fn spec_box_high(self) -> (int, int) {
        (
            500 * self.width() + 1000 * (self.size() + self.gutter()),
            500 * self.height() + 1000 * (self.size() + self.gutter()),
        )
    }

    /// Whether vehicles heading towards `direction` travel along the x axis.
    pub fn horizontal(direction: Location) -> (r: bool)
        ensures
            r == Self::spec_horizontal(direction),
    {
        direction == Location::East || direction == Location::West
    }

    /// Whether travel towards `direction` increases the coordinate.
    pub fn ascending(direction: Location) -> (r: bool)
        ensures
            r == Self::spec_ascending(direction),
    {
        direction == Location::East || direction == Location::South
    }

    /// The coordinate reached from `base` by going `delta` towards `direction`.
    pub fn offset(direction: Location, base: i64, delta: i64) -> (r: i64)
        requires
            i64::MIN <= base + delta <= i64::MAX,
            i64::MIN <= base - delta <= i64::MAX,
        ensures
            r == Self::spec_offset(direction, base as int, delta as int),
    {
        if Self::ascending(direction) {
            base + delta
        } else {
            base - delta
        }
    }

    /// The coordinate at which a vehicle heading towards `direction` enters.
    pub fn entry(&self, direction: Location) -> (r: i64)
        ensures
            r == self.spec_entry(direction),
            self.inv(),
    {
        proof {
            use_type_invariant(self);
        }
        match direction {
            Location::East => 0,
            Location::South => 0,
            Location::West => 1000 * self.screen_width,
            Location::North => 1000 * self.screen_height,
        }
    }

    /// The distance covered in one tick, in units.
    pub fn step(&self) -> (r: i64)
        ensures
            r == self.spec_step(),
            self.inv(),
    {
        proof {
            use_type_invariant(self);
        }
        1000 * self.car_speed
    }

    /// Vehicle size plus separation distance, in units.
    pub fn spacing(&self) -> (r: i64)
        ensures
            r == self.spec_spacing(),
            self.inv(),
    {
        proof {
            use_type_invariant(self);
        }
        1000 * (self.car_size + self.separation_distance)
    }

    /// The coordinate of the centre of a vehicle heading towards `direction`
    /// whose front touches the crossing box.
    pub fn stop_line(&self, direction: Location) -> (r: i64)
        ensures
            r == self.spec_stop_line(direction),
            self.inv(),
    {
        proof {
            use_type_invariant(self);
        }
        match direction {
            Location::East => 500 * self.screen_width - 1500 * self.car_size - 1000 * self.margin,
            Location::West => 500 * self.screen_width + 1500 * self.car_size + 1000 * self.margin,
            Location::South => 500 * self.screen_height - 1500 * self.car_size - 1000
                * self.margin,
            Location::North => 500 * self.screen_height + 1500 * self.car_size + 1000
                * self.margin,
        }
    }

    /// The coordinate, across the axis of travel, of the lane towards
    /// `direction`.
    pub fn lane(&self, direction: Location) -> (r: i64)
        ensures
            r == self.spec_lane(direction),
            self.inv(),
    {
        proof {
            use_type_invariant(self);
        }
        match direction {
            Location::East => 500 * (self.screen_height - self.margin - self.car_size),
            Location::West => 500 * (self.screen_height + self.margin + self.car_size),
            Location::South => 500 * (self.screen_width + self.margin + self.car_size),
            Location::North => 500 * (self.screen_width - self.margin - self.car_size),
        }
    }

    /// The width of the screen, in pixels.
    pub fn screen_width(&self) -> (r: i64)
        ensures
            r == self.width(),
            self.inv(),
    {
        proof {
            use_type_invariant(self);
        }
        self.screen_width
    }

    /// The height of the screen, in pixels.
    pub fn screen_height(&self) -> (r: i64)
        ensures
            r == self.height(),
            self.inv(),
    {
        proof {
            use_type_invariant(self);
        }
        self.screen_height
    }

    /// The length and width of a vehicle, in pixels.
    pub fn car_size(&self) -> (r: i64)
        ensures
            r == self.size(),
            self.inv(),
    {
        proof {
            use_type_invariant(self);
        }
        self.car_size
    }

    /// The margin between a vehicle and the edge of its lane, in pixels.
    pub fn margin(&self) -> (r: i64)
        ensures
            r == self.gutter(),
            self.inv(),
    {
        proof {
            use_type_invariant(self);
        }
        self.margin
    }

    /// The distance a vehicle covers in one tick, in pixels.
    pub fn car_speed(&self) -> (r: i64)
        ensures
            r == self.speed(),
            self.inv(),
    {
        proof {
            use_type_invariant(self);
        }
        self.car_speed
    }

    /// The gap kept between a vehicle and the one ahead, in pixels.
    pub fn separation_distance(&self) -> (r: i64)
        ensures
            r == self.separation(),
            self.inv(),
    {
        proof {
            use_type_invariant(self);
        }
        self.separation_distance
    }

    /// The number of queued vehicles at which an approach becomes urgent.
    pub fn max_cars_in_queue(&self) -> (r: i64)
        ensures
            r == self.queue_limit(),
            self.inv(),
    {
        proof {
            use_type_invariant(self);
        }
        self.max_cars_in_queue
    }
}

} // verus!
