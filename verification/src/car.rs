//! Vehicles and their motion in one tick.

use vstd::prelude::*;
use crate::arc::{
    angle_step, arc_sine, arc_versine, canonical_deg, lemma_angle_step_bounds, lemma_arc_bounds,
    lemma_arc_sine_positive, spec_angle_step, spec_arc_sine, spec_arc_versine,
    spec_canonical_deg, spec_turn_radius, spec_turned, turn_radius, turned, QUARTER_TURN,
};
use crate::config::Config;
use crate::geometry::{Dimen, PointF};
use crate::lights::TrafficLights;
use crate::location::{Destination, Location};
use crate::model::Model;

verus! {

/// No coordinate of a well-formed vehicle lies further than this from the
/// origin, in units.
pub const POSITION_LIMIT: i64 = 1_000_000_000_000;

/// How a vehicle is drawn: a colour, and the path of an image.
#[derive(Debug)]
pub struct ColorOrUrl {
    pub color: (u8, u8, u8),
    pub url: String,
}

impl Clone for ColorOrUrl {
    fn clone(&self) -> (r: Self)
        ensures
            r == *self,
    {
        ColorOrUrl { color: self.color, url: self.url.clone() }
    }
}

/// A vehicle. `position` is its centre, in units; `direction` is the side it
/// travels towards; `deg` is its heading in thousandths of a degree.
#[derive(Debug)]
pub struct Car {
    pub position: PointF,
    pub size: Dimen,
    pub color: ColorOrUrl,
    pub destination: Destination,
    pub direction: Location,
    pub deg: i64,
}

impl Clone for Car {
    fn clone(&self) -> (r: Self)
        ensures
            r == *self,
    {
        Car {
            position: self.position,
            size: self.size,
            color: self.color.clone(),
            destination: self.destination,
            direction: self.direction,
            deg: self.deg,
        }
    }
}

/// The colour of a vehicle with the given intention: white to go ahead,
/// orange to turn right, blue to turn left.
pub open spec fn spec_car_color(destination: Destination) -> (u8, u8, u8) {
    match destination {
        Destination::Ahead => (255u8, 255u8, 255u8),
        Destination::Right => (255u8, 165u8, 0u8),
        Destination::Left => (0u8, 0u8, 255u8),
    }
}

/// The image of a vehicle with the given intention.
pub open spec fn spec_car_url(destination: Destination) -> Seq<char> {
    match destination {
        Destination::Ahead => "assets/images/car_white.png"@,
        Destination::Right => "assets/images/car_orange.png"@,
        Destination::Left => "assets/images/car_blue.png"@,
    }
}

/// The point with the given coordinates along and across the axis of travel
/// towards `direction`.
pub open spec fn spec_point(direction: Location, along: int, lateral: int) -> PointF {
    if Config::spec_horizontal(direction) {
        PointF { x: along as i64, y: lateral as i64 }
    } else {
        PointF { x: lateral as i64, y: along as i64 }
    }
}

/// Where a vehicle entering from the side `location` starts: on the edge of
/// the screen, in the lane of the opposite direction.
pub open spec fn spec_initial_position(cfg: Config, location: Location) -> PointF {
    match location {
        Location::West => PointF {
            x: 0,
            y: (500 * (cfg.height() - cfg.gutter() - cfg.size())) as i64,
        },
        Location::North => PointF {
            x: (500 * (cfg.width() + cfg.gutter() + cfg.size())) as i64,
            y: 0,
        },
        Location::East => PointF {
            x: (1000 * cfg.width()) as i64,
            y: (500 * (cfg.height() + cfg.gutter() + cfg.size())) as i64,
        },
        Location::South => PointF {
            x: (500 * (cfg.width() - cfg.gutter() - cfg.size())) as i64,
            y: (1000 * cfg.height()) as i64,
        },
    }
}

/// The centre of a vehicle that entered its turn heading towards
/// `direction` and has swept `angle` of it: forward of the stop line by the
/// sine of the arc, and off the lane, towards the new direction, by its
/// versine.
pub open spec fn spec_arc_point(
    cfg: Config,
    direction: Location,
    destination: Destination,
    angle: int,
) -> PointF {
    let radius = spec_turn_radius(cfg, destination);
    spec_point(
        direction,
        Config::spec_offset(
            direction,
            cfg.spec_stop_line(direction),
            spec_arc_sine(radius, angle),
        ),
        Config::spec_offset(
            spec_turned(direction, destination),
            cfg.spec_lane(direction),
            spec_arc_versine(radius, angle),
        ),
    )
}

fn point(direction: Location, along: i64, lateral: i64) -> (r: PointF)
    ensures
        r == spec_point(direction, along as int, lateral as int),
{
    if Config::horizontal(direction) {
        PointF::new(along, lateral)
    } else {
        PointF::new(lateral, along)
    }
}

fn arc_point(cfg: &Config, direction: Location, destination: Destination, angle: i64) -> (r:
    PointF)
    requires
        0 <= angle <= QUARTER_TURN,
    ensures
        r == spec_arc_point(*cfg, direction, destination, angle as int),
{
    let radius = turn_radius(cfg, destination);
    let forward = arc_sine(radius, angle);
    let sideways = arc_versine(radius, angle);
    let stop = cfg.stop_line(direction);
    let lane = cfg.lane(direction);
    point(
        direction,
        Config::offset(direction, stop, forward),
        Config::offset(turned(direction, destination), lane, sideways),
    )
}

impl Car {
    /// The coordinate of the centre along the axis of travel.
    pub open spec fn along(self) -> int {
        if Config::spec_horizontal(self.direction) {
            self.position.x as int
        } else {
            self.position.y as int
        }
    }

    /// The coordinate of the centre across the axis of travel.
    pub open spec fn lateral(self) -> int {
        if Config::spec_horizontal(self.direction) {
            self.position.y as int
        } else {
            self.position.x as int
        }
    }

    /// How much of its turn the vehicle has swept.
    pub open spec fn turned_angle(self) -> int {
        match self.destination {
            Destination::Ahead => 0,
            Destination::Left => spec_canonical_deg(self.direction) - self.deg,
            Destination::Right => self.deg - spec_canonical_deg(self.direction),
        }
    }

    /// The vehicle's coordinates are within [`POSITION_LIMIT`], and its
    /// heading agrees with its direction and the part of a turn it has swept,
    /// which is less than a quarter turn.
    pub open spec fn wf(self) -> bool {
        &&& -POSITION_LIMIT <= self.position.x <= POSITION_LIMIT
        &&& -POSITION_LIMIT <= self.position.y <= POSITION_LIMIT
        &&& 0 <= self.turned_angle() < QUARTER_TURN
        &&& self.destination == Destination::Ahead ==> self.deg == spec_canonical_deg(
            self.direction,
        )
    }

    /// The vehicle travels along its lane's axis: it is not inside a turn.
    pub open spec fn straight(self) -> bool {
        self.deg == spec_canonical_deg(self.direction)
    }

    /// How far the centre is past the stop line of its direction; negative
    /// before the line.
    pub open spec fn progress(self, cfg: Config) -> int {
        if Config::spec_ascending(self.direction) {
            self.along() - cfg.spec_stop_line(self.direction)
        } else {
            cfg.spec_stop_line(self.direction) - self.along()
        }
    }

    /// The point one spacing ahead of the centre.
    pub open spec fn point_ahead(self, cfg: Config) -> PointF {
        spec_point(
            self.direction,
            Config::spec_offset(self.direction, self.along(), cfg.spec_spacing()),
            self.lateral(),
        )
    }

    /// `other` heads the same way and sits exactly one spacing ahead.
    pub open spec fn blocked_by(self, other: Car, cfg: Config) -> bool {
        other.direction == self.direction && other.position == self.point_ahead(cfg)
    }

    /// The following-distance guard: some vehicle of `cars` blocks this one.
    pub open spec fn follows_closely(self, cars: Seq<Car>, cfg: Config) -> bool {
        exists|i: int| 0 <= i < cars.len() && self.blocked_by(#[trigger] cars[i], cfg)
    }

    /// The signal guard: the vehicle is at its stop line, or less than one
    /// step before it, and the signal of its approach is red.
    pub open spec fn held_at_signal(self, lights: TrafficLights, cfg: Config) -> bool {
        &&& -cfg.spec_step() < self.progress(cfg) <= 0
        &&& !lights.is_green(self.direction.spec_opposite())
    }

    /// The turn trigger: the vehicle means to turn and its front has reached
    /// the crossing box.
    pub open spec fn turning(self, cfg: Config) -> bool {
        self.destination != Destination::Ahead && self.progress(cfg) >= 0
    }

    /// The vehicle once its turn is complete: it travels towards the new
    /// direction with that direction's exact heading, and goes ahead from
    /// then on. Its position is the one it had.
    pub open spec fn spec_turned_car(self) -> Car {
        let onward = spec_turned(self.direction, self.destination);
        Car {
            direction: onward,
            destination: Destination::Ahead,
            deg: spec_canonical_deg(onward) as i64,
            ..self
        }
    }

    /// The vehicle after one tick of motion. In a turn it sweeps one angle
    /// step; on reaching a quarter turn it takes the new direction with its
    /// exact heading and goes ahead from then on, and before that its centre
    /// is the point of the arc at the swept angle. Otherwise it goes one step
    /// forward.
    pub open spec fn spec_advance(self, cfg: Config) -> Car {
        if self.turning(cfg) {
            let step = spec_angle_step(cfg, self.destination);
            if self.turned_angle() + step >= QUARTER_TURN {
                self.spec_turned_car()
            } else {
                Car {
                    position: spec_arc_point(
                        cfg,
                        self.direction,
                        self.destination,
                        self.turned_angle() + step,
                    ),
                    deg: (if self.destination == Destination::Left {
                        self.deg - step
                    } else {
                        self.deg + step
                    }) as i64,
                    ..self
                }
            }
        } else {
            Car {
                position: spec_point(
                    self.direction,
                    Config::spec_offset(self.direction, self.along(), cfg.spec_step()),
                    self.lateral(),
                ),
                ..self
            }
        }
    }

    /// The vehicle after one tick: unchanged where a guard halts it, moved
    /// otherwise.
    pub open spec fn spec_drive(self, cars: Seq<Car>, lights: TrafficLights, cfg: Config) -> Car {
        if self.follows_closely(cars, cfg) || self.held_at_signal(lights, cfg) {
            self
        } else {
            self.spec_advance(cfg)
        }
    }

    /// The vehicle after `n` ticks of motion, guards aside.
    pub open spec fn spec_advance_n(self, cfg: Config, n: nat) -> Car
        decreases n,
    {
        if n == 0 {
            self
        } else {
            self.spec_advance(cfg).spec_advance_n(cfg, (n - 1) as nat)
        }
    }

    /// Both vehicles travel straight, the same way and in the same lane.
    pub open spec fn shares_lane(self, other: Car) -> bool {
        &&& self.direction == other.direction
        &&& self.straight()
        &&& other.straight()
        &&& self.lateral() == other.lateral()
    }

    /// How far `other` is ahead of this vehicle along their common axis of
    /// travel; negative where it is behind.
    pub open spec fn lead_of(self, other: Car) -> int {
        if Config::spec_ascending(self.direction) {
            other.along() - self.along()
        } else {
            self.along() - other.along()
        }
    }

    /// The vehicle is the one that enters from `location` with the intention
    /// `destination`.
    pub open spec fn is_fresh(self, location: Location, destination: Destination, cfg: Config)
        -> bool {
        &&& self.position == spec_initial_position(cfg, location)
        &&& self.size.width == cfg.size()
        &&& self.size.length == cfg.size()
        &&& self.color.color == spec_car_color(destination)
        &&& self.color.url@ == spec_car_url(destination)
        &&& self.destination == destination
        &&& self.direction == location.spec_opposite()
        &&& self.deg == spec_canonical_deg(location.spec_opposite())
    }

    /// A vehicle entering from `location`: it starts on the edge of the
    /// screen, heads for the opposite side along that side's canonical
    /// heading, and is drawn according to its intention.
    pub fn new(location: Location, destination: Destination, cfg: &Config) -> (r: Self)
        ensures
            r.is_fresh(location, destination, *cfg),
            r.wf(),
    {
        let position = Car::calculate_initial_position(&location, cfg);
        let size = cfg.car_size();
        let color = match destination {
            Destination::Ahead => ColorOrUrl {
                color: (255, 255, 255),
                url: "assets/images/car_white.png".to_owned(),
            },
            Destination::Right => ColorOrUrl {
                color: (255, 165, 0),
                url: "assets/images/car_orange.png".to_owned(),
            },
            Destination::Left => ColorOrUrl {
                color: (0, 0, 255),
                url: "assets/images/car_blue.png".to_owned(),
            },
        };
        let direction = location.opposite();
        Car {
            position,
            size: Dimen::new(size as i32, size as i32),
            color,
            destination,
            direction,
            deg: canonical_deg(direction),
        }
    }

    /// Where a vehicle entering from `location` starts.
    pub fn calculate_initial_position(location: &Location, cfg: &Config) -> (r: PointF)
        ensures
            r == spec_initial_position(*cfg, *location),
            0 <= r.x <= 1000 * cfg.width(),
            0 <= r.y <= 1000 * cfg.height(),
            cfg.inv(),
    {
        let direction = location.opposite();
        let lane = cfg.lane(direction);
        let entry = cfg.entry(direction);
        point(direction, entry, lane)
    }

    /// The heading in millionths of a radian, rounded towards zero, with
    /// 355/113 for pi.
    pub open spec fn spec_rad(self) -> int {
        if self.deg >= 0 {
            (self.deg * 17750) / 1017
        } else {
            -((-self.deg * 17750) / 1017)
        }
    }

    /// The heading in millionths of a radian.
    pub fn rad(&self) -> (r: i64)
        requires
            -1_000_000_000 <= self.deg <= 1_000_000_000,
        ensures
            r == self.spec_rad(),
    {
        if self.deg >= 0 {
            (self.deg * 17750) / 1017
        } else {
            -((-self.deg * 17750) / 1017)
        }
    }

    /// How much of its turn the vehicle has swept.
    pub fn swept(&self) -> (r: i64)
        requires
            self.wf(),
        ensures
            r == self.turned_angle(),
    {
        match self.destination {
            Destination::Ahead => 0,
            Destination::Left => canonical_deg(self.direction) - self.deg,
            Destination::Right => self.deg - canonical_deg(self.direction),
        }
    }

    /// How far the vehicle is past its stop line.
    pub fn distance_past_stop(&self, cfg: &Config) -> (r: i64)
        requires
            self.wf(),
        ensures
            r == self.progress(*cfg),
    {
        let stop = cfg.stop_line(self.direction);
        let along = if Config::horizontal(self.direction) {
            self.position.x
        } else {
            self.position.y
        };
        if Config::ascending(self.direction) {
            along - stop
        } else {
            stop - along
        }
    }

    /// Whether the following-distance guard halts the vehicle.
    pub fn is_following(&self, cars: &Vec<Car>, cfg: &Config) -> (r: bool)
        requires
            self.wf(),
        ensures
            r == self.follows_closely(cars@, *cfg),
    {
        let spacing = cfg.spacing();
        let ahead = if Config::horizontal(self.direction) {
            point(
                self.direction,
                Config::offset(self.direction, self.position.x, spacing),
                self.position.y,
            )
        } else {
            point(
                self.direction,
                Config::offset(self.direction, self.position.y, spacing),
                self.position.x,
            )
        };
        let mut i: usize = 0;
        while i < cars.len()
            invariant
                i <= cars.len(),
                ahead == self.point_ahead(*cfg),
                forall|j: int| 0 <= j < i ==> !self.blocked_by(#[trigger] cars@[j], *cfg),
            decreases cars.len() - i,
        {
            if cars[i].direction == self.direction && cars[i].position == ahead {
                return true;
            }
            i += 1;
        }
        false
    }

    /// Whether the signal guard halts the vehicle.
    pub fn is_held(&self, traffic_lights: &TrafficLights, cfg: &Config) -> (r: bool)
        requires
            self.wf(),
        ensures
            r == self.held_at_signal(*traffic_lights, *cfg),
    {
        let progress = self.distance_past_stop(cfg);
        let step = cfg.step();
        -step < progress && progress <= 0 && !traffic_lights.status(self.direction.opposite())
    }

    /// Moves the vehicle by one tick, guards aside.
    pub fn advance(&mut self, cfg: &Config)
        requires
            old(self).wf(),
        ensures
            *final(self) == old(self).spec_advance(*cfg),
    {
        let progress = self.distance_past_stop(cfg);
        if self.destination != Destination::Ahead && progress >= 0 {
            let step = angle_step(cfg, self.destination);
            let angle = self.swept() + step;
            if angle >= QUARTER_TURN {
                Model::update_direction(self);
            } else {
                self.position = arc_point(cfg, self.direction, self.destination, angle);
                if self.destination == Destination::Left {
                    self.deg = self.deg - step;
                } else {
                    self.deg = self.deg + step;
                }
            }
        } else {
            let step = cfg.step();
            if Config::horizontal(self.direction) {
                self.position = point(
                    self.direction,
                    Config::offset(self.direction, self.position.x, step),
                    self.position.y,
                );
            } else {
                self.position = point(
                    self.direction,
                    Config::offset(self.direction, self.position.y, step),
                    self.position.x,
                );
            }
        }
    }

    /// One tick of a vehicle among `cars`, the vehicles as they stood when
    /// the tick began. The vehicle stays where it is if another one heading
    /// the same way sits exactly one spacing ahead, or if it is at its stop
    /// line while its signal is red; otherwise it moves.
    pub fn drive(&mut self, cars: &Vec<Car>, traffic_lights: &TrafficLights, cfg: &Config)
        requires
            old(self).wf(),
        ensures
            *final(self) == old(self).spec_drive(cars@, *traffic_lights, *cfg),
    {
        if self.is_following(cars, cfg) {
            return ;
        }
        if self.is_held(traffic_lights, cfg) {
            return ;
        }
        self.advance(cfg);
    }
}

/// The one way in which a gap can fall below one spacing: the leader is
/// more than one spacing ahead but less than one spacing and one step, it
/// stands still during the tick, and the follower moves and still shares its
/// lane. A follower that looks for a leader at exactly one spacing does not
/// see this one.
pub open spec fn closes_gap(
    follower: Car,
    leader: Car,
    cars: Seq<Car>,
    lights: TrafficLights,
    cfg: Config,
) -> bool {
    &&& cfg.spec_spacing() < follower.lead_of(leader) < cfg.spec_spacing() + cfg.spec_step()
    &&& leader.spec_drive(cars, lights, cfg).position == leader.position
    &&& follower.spec_drive(cars, lights, cfg).position != follower.position
    &&& follower.spec_drive(cars, lights, cfg).shares_lane(leader.spec_drive(cars, lights, cfg))
}

/// Following distance. Take two vehicles that travel straight in one lane,
/// the leader being one of `cars` and at least one spacing ahead of the
/// follower, and leave out the case of [`closes_gap`]. If both still share a
/// lane after a tick against `cars`, the leader is still at least one
/// spacing ahead.
pub proof fn lemma_following_distance_kept(
    follower: Car,
    leader: Car,
    cars: Seq<Car>,
    lights: TrafficLights,
    cfg: Config,
)
    requires
        cfg.inv(),
        follower.wf(),
        leader.wf(),
        cars.contains(leader),
        follower.shares_lane(leader),
        follower.lead_of(leader) >= cfg.spec_spacing(),
        !closes_gap(follower, leader, cars, lights, cfg),
    ensures
        follower.spec_drive(cars, lights, cfg).shares_lane(leader.spec_drive(cars, lights, cfg))
            ==> follower.spec_drive(cars, lights, cfg).lead_of(
            leader.spec_drive(cars, lights, cfg),
        ) >= cfg.spec_spacing(),
{
    lemma_angle_step_bounds(cfg, follower.destination);
    lemma_angle_step_bounds(cfg, leader.destination);
    if follower.lead_of(leader) == cfg.spec_spacing() {
        let i = choose|i: int| 0 <= i < cars.len() && cars[i] == leader;
        assert(follower.blocked_by(cars[i], cfg));
        assert(follower.follows_closely(cars, cfg));
    }
}

/// A red signal is not passed: a vehicle at or before its stop line whose
/// signal is red is, after the tick, still at or before the line.
pub proof fn lemma_red_signal_not_passed(
    car: Car,
    cars: Seq<Car>,
    lights: TrafficLights,
    cfg: Config,
)
    requires
        cfg.inv(),
        car.wf(),
        car.progress(cfg) <= 0,
        !lights.is_green(car.direction.spec_opposite()),
    ensures
        car.spec_drive(cars, lights, cfg).direction == car.direction,
        car.spec_drive(cars, lights, cfg).progress(cfg) <= 0,
{
}

/// A vehicle in its turn that moves has, after the tick, either completed
/// the turn or swept exactly one angle step more, and is then still in its
/// turn.
pub proof fn lemma_turn_advances(car: Car, cfg: Config)
    requires
        cfg.inv(),
        car.wf(),
        car.turning(cfg),
    ensures
        car.turned_angle() + spec_angle_step(cfg, car.destination) >= QUARTER_TURN ==> {
            &&& car.spec_advance(cfg).direction == spec_turned(car.direction, car.destination)
            &&& car.spec_advance(cfg).destination == Destination::Ahead
            &&& car.spec_advance(cfg).straight()
        },
        car.turned_angle() + spec_angle_step(cfg, car.destination) < QUARTER_TURN ==> {
            &&& car.spec_advance(cfg).direction == car.direction
            &&& car.spec_advance(cfg).destination == car.destination
            &&& car.spec_advance(cfg).turned_angle() == car.turned_angle() + spec_angle_step(
                cfg,
                car.destination,
            )
            &&& car.spec_advance(cfg).turning(cfg)
        },
        car.spec_advance(cfg).wf(),
        spec_angle_step(cfg, car.destination) >= 1,
{
    lemma_angle_step_bounds(cfg, car.destination);
    let angle = car.turned_angle() + spec_angle_step(cfg, car.destination);
    if angle < QUARTER_TURN {
        lemma_arc_bounds(spec_turn_radius(cfg, car.destination), angle);
    }
}

/// The signal guard never holds a vehicle inside its turn: once a tick of
/// motion has taken a turning vehicle onto its arc, the vehicle is past its
/// stop line, whatever the signals show.
pub proof fn lemma_signal_passed_in_turn(car: Car, lights: TrafficLights, cfg: Config)
    requires
        cfg.inv(),
        car.wf(),
        car.turning(cfg),
    ensures
        car.spec_advance(cfg).destination != Destination::Ahead ==> car.spec_advance(
            cfg,
        ).progress(cfg) >= 1,
        car.spec_advance(cfg).destination != Destination::Ahead ==> !car.spec_advance(
            cfg,
        ).held_at_signal(lights, cfg),
{
    lemma_angle_step_bounds(cfg, car.destination);
    let angle = car.turned_angle() + spec_angle_step(cfg, car.destination);
    if angle < QUARTER_TURN {
        lemma_arc_bounds(spec_turn_radius(cfg, car.destination), angle);
        lemma_arc_sine_positive(cfg, car.destination, angle);
    }
}

/// The ticks of motion that a vehicle in its turn needs to complete it: what
/// is left of the quarter turn over the angle step, rounded up.
pub open spec fn spec_turn_ticks(car: Car, cfg: Config) -> int {
    let step = spec_angle_step(cfg, car.destination);
    (QUARTER_TURN - car.turned_angle() + step - 1) / step
}

/// No vehicle stays in a turn. A vehicle in its turn that moves at every
/// tick has, after the number of ticks returned, taken its new direction
/// with that direction's exact heading, and goes ahead. That number is what
/// is left of the quarter turn over the angle step, rounded up, and so at
/// most the thousandths of a degree that were left.
pub proof fn lemma_turn_completes(car: Car, cfg: Config) -> (n: nat)
    requires
        cfg.inv(),
        car.wf(),
        car.turning(cfg),
    ensures
        n == spec_turn_ticks(car, cfg),
        1 <= n <= QUARTER_TURN - car.turned_angle(),
        car.spec_advance_n(cfg, n).direction == spec_turned(car.direction, car.destination),
        car.spec_advance_n(cfg, n).destination == Destination::Ahead,
        car.spec_advance_n(cfg, n).straight(),
    decreases QUARTER_TURN - car.turned_angle(),
{
    lemma_turn_advances(car, cfg);
    let next = car.spec_advance(cfg);
    let step = spec_angle_step(cfg, car.destination);
    let left = QUARTER_TURN - car.turned_angle();
    assert(next.spec_advance_n(cfg, 0) == next);
    if car.turned_angle() + step >= QUARTER_TURN {
        assert(car.spec_advance_n(cfg, 1) == next.spec_advance_n(cfg, 0));
        assert((left + step - 1) / step == 1) by (nonlinear_arith)
            requires
                1 <= left <= step,
        ;
        1
    } else {
        let rest = lemma_turn_completes(next, cfg);
        assert(car.spec_advance_n(cfg, rest + 1) == next.spec_advance_n(cfg, rest));
        assert((left + step - 1) / step == (left - step + step - 1) / step + 1) by (nonlinear_arith)
            requires
                1 <= step < left,
        ;
        rest + 1
    }
}

} // verus!
