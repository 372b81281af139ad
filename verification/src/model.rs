//! The world: vehicles, road markings and the traffic-light switch.

use vstd::prelude::*;
use crate::arc::{
    canonical_deg, lemma_angle_step_bounds, lemma_arc_bounds, lemma_arc_sine_positive,
    spec_angle_step, spec_turn_radius, turned, QUARTER_TURN,
};
use crate::car::{
    closes_gap, lemma_following_distance_kept, spec_arc_point, spec_initial_position, Car,
};
use crate::config::Config;
use crate::geometry::{Line, Point, PointF};
use crate::lights::{TrafficLightSwitch, TrafficLights};
use crate::location::{Destination, Location};

verus! {

/// A corner at (`x`, `y`) lies strictly inside the crossing box.
pub open spec fn inside_box(cfg: Config, x: int, y: int) -> bool {
    &&& cfg.spec_box_low().0 < x < cfg.spec_box_high().0
    &&& cfg.spec_box_low().1 < y < cfg.spec_box_high().1
}

/// One of the four corners of the vehicle centred at `p` lies strictly
/// inside the crossing box.
pub open spec fn occupies_box(cfg: Config, p: PointF) -> bool {
    let h = 500 * cfg.size();
    ||| inside_box(cfg, p.x - h, p.y - h)
    ||| inside_box(cfg, p.x - h, p.y + h)
    ||| inside_box(cfg, p.x + h, p.y - h)
    ||| inside_box(cfg, p.x + h, p.y + h)
}

/// No vehicle of `cars` has a corner strictly inside the crossing box.
pub open spec fn crossing_clear(cars: Seq<Car>, cfg: Config) -> bool {
    forall|i: int| 0 <= i < cars.len() ==> !occupies_box(cfg, (#[trigger] cars[i]).position)
}

/// Two vehicles centred at `p` and `q` are on one line of travel and no
/// more than one spacing apart, whichever is in front.
pub open spec fn too_close(cfg: Config, p: PointF, q: PointF) -> bool {
    ||| p.y == q.y && -cfg.spec_spacing() <= p.x - q.x <= cfg.spec_spacing()
    ||| p.x == q.x && -cfg.spec_spacing() <= p.y - q.y <= cfg.spec_spacing()
}

/// Some vehicle of `cars` is too close to a vehicle centred at `p`.
pub open spec fn overlaps(cars: Seq<Car>, p: PointF, cfg: Config) -> bool {
    exists|i: int| 0 <= i < cars.len() && too_close(cfg, (#[trigger] cars[i]).position, p)
}

/// No two vehicles of `cars` are too close to each other.
pub open spec fn lanes_clear(cars: Seq<Car>, cfg: Config) -> bool {
    forall|i: int, j: int|
        0 <= i < cars.len() && 0 <= j < cars.len() && i != j ==> !too_close(
            cfg,
            (#[trigger] cars[i]).position,
            (#[trigger] cars[j]).position,
        )
}

/// The vehicle has passed the edge of the screen that it heads for: the
/// right or lower edge, or one vehicle size beyond the left or upper edge.
pub open spec fn off_screen(car: Car, cfg: Config) -> bool {
    match car.direction {
        Location::East => car.position.x > 1000 * cfg.width(),
        Location::West => car.position.x < -1000 * cfg.size(),
        Location::South => car.position.y > 1000 * cfg.height(),
        Location::North => car.position.y < -1000 * cfg.size(),
    }
}

/// The vehicle is well formed and within the screen, taken one vehicle size
/// beyond its left and upper edges; and if it is inside a turn, it has swept
/// at least one angle step and its centre is the point of its arc at the
/// angle swept.
pub open spec fn on_stage(car: Car, cfg: Config) -> bool {
    &&& car.wf()
    &&& -1000 * cfg.size() <= car.position.x <= 1000 * cfg.width()
    &&& -1000 * cfg.size() <= car.position.y <= 1000 * cfg.height()
    &&& car.turned_angle() > 0 ==> {
        &&& car.turned_angle() >= spec_angle_step(cfg, car.destination)
        &&& car.position == spec_arc_point(
            cfg,
            car.direction,
            car.destination,
            car.turned_angle(),
        )
    }
}

/// The vehicles after one tick of motion: each is driven against the
/// vehicles as they stood before, and those that left the screen are dropped.
/// The others keep their order.
pub open spec fn spec_moved(cars: Seq<Car>, lights: TrafficLights, cfg: Config) -> Seq<Car> {
    cars.map_values(|c: Car| c.spec_drive(cars, lights, cfg)).filter(
        |c: Car| !off_screen(c, cfg),
    )
}

/// The colour of the road markings.
pub open spec fn spec_line_color() -> (u8, u8, u8) {
    (255u8, 255u8, 255u8)
}

/// The `index`-th road marking. The first four are the stop lines of the
/// East, West, North and South approaches, each across its lane at the edge
/// of the crossing box. Then come five dashes for each of the West, East,
/// North and South arms: 50 pixels long, 75 apart, running outwards from the
/// box along the middle of the road.
pub open spec fn spec_marking(cfg: Config, index: int) -> Line {
    let mid_x = cfg.width() / 2;
    let mid_y = cfg.height() / 2;
    let reach = cfg.size() + cfg.gutter();
    let k = (index - 4) % 5;
    let near = 75 * k;
    let far = 75 * k + 50;
    let (sx, sy, ex, ey) = if index == 0 {
        (mid_x + reach, mid_y, mid_x + reach, mid_y + reach)
    } else if index == 1 {
        (mid_x - reach, mid_y - reach, mid_x - reach, mid_y)
    } else if index == 2 {
        (mid_x + reach, mid_y - reach, mid_x, mid_y - reach)
    } else if index == 3 {
        (mid_x - reach, mid_y + reach, mid_x, mid_y + reach)
    } else if index < 9 {
        (mid_x - reach - near, mid_y, mid_x - reach - far, mid_y)
    } else if index < 14 {
        (mid_x + reach + near, mid_y, mid_x + reach + far, mid_y)
    } else if index < 19 {
        (mid_x, mid_y - reach - near, mid_x, mid_y - reach - far)
    } else {
        (mid_x, mid_y + reach + near, mid_x, mid_y + reach + far)
    };
    Line {
        start: Point { x: sx as i32, y: sy as i32 },
        end: Point { x: ex as i32, y: ey as i32 },
        color: spec_line_color(),
    }
}

/// The 24 road markings of a geometry.
pub open spec fn spec_road_markings(cfg: Config) -> Seq<Line> {
    Seq::new(24, |i: int| spec_marking(cfg, i))
}

/// Adding a vehicle that is too close to none keeps every two vehicles
/// apart.
pub proof fn lemma_spawn_keeps_lanes_clear(cars: Seq<Car>, car: Car, cfg: Config)
    requires
        lanes_clear(cars, cfg),
        !overlaps(cars, car.position, cfg),
    ensures
        lanes_clear(cars.push(car), cfg),
{
    let after = cars.push(car);
    assert forall|i: int, j: int|
        0 <= i < after.len() && 0 <= j < after.len() && i != j implies !too_close(
        cfg,
        (#[trigger] after[i]).position,
        (#[trigger] after[j]).position,
    ) by {
        if i < cars.len() && j < cars.len() {
            assert(after[i] == cars[i] && after[j] == cars[j]);
        } else if i < cars.len() {
            assert(!too_close(cfg, cars[i].position, car.position));
        } else {
            assert(!too_close(cfg, cars[j].position, car.position));
        }
    }
}

/// A vehicle on the stage is, after one tick, well formed and either still
/// on the stage or off the screen.
pub proof fn lemma_drive_stays(car: Car, cars: Seq<Car>, lights: TrafficLights, cfg: Config)
    requires
        cfg.inv(),
        on_stage(car, cfg),
    ensures
        car.spec_drive(cars, lights, cfg).wf(),
        off_screen(car.spec_drive(cars, lights, cfg), cfg) || on_stage(
            car.spec_drive(cars, lights, cfg),
            cfg,
        ),
{
    lemma_angle_step_bounds(cfg, car.destination);
    let radius = spec_turn_radius(cfg, car.destination);
    let angle = car.turned_angle() + spec_angle_step(cfg, car.destination);
    if 0 <= angle <= QUARTER_TURN {
        lemma_arc_bounds(radius, angle);
    }
    // a vehicle inside its turn is past its stop line, so it goes on turning
    lemma_arc_bounds(radius, car.turned_angle());
}

/// No vehicle on the stage waits at a signal inside its turn: once it has
/// begun to turn it is past its stop line, whatever the signals show.
pub proof fn lemma_staged_turn_not_held(car: Car, lights: TrafficLights, cfg: Config)
    requires
        cfg.inv(),
        on_stage(car, cfg),
        car.turned_angle() > 0,
    ensures
        car.progress(cfg) >= 1,
        !car.held_at_signal(lights, cfg),
{
    lemma_arc_bounds(spec_turn_radius(cfg, car.destination), car.turned_angle());
    lemma_arc_sine_positive(cfg, car.destination, car.turned_angle());
}

/// Following distance over a tick. Take two of the vehicles that travel
/// straight in one lane, the second at least one spacing ahead of the first,
/// and leave out the case of [`closes_gap`]. If they still share a lane once
/// every vehicle has been driven, the second is still at least one spacing
/// ahead.
pub proof fn lemma_tick_keeps_following_distance(
    cars: Seq<Car>,
    lights: TrafficLights,
    cfg: Config,
    i: int,
    j: int,
)
    requires
        cfg.inv(),
        0 <= i < cars.len(),
        0 <= j < cars.len(),
        cars[i].wf(),
        cars[j].wf(),
        cars[i].shares_lane(cars[j]),
        cars[i].lead_of(cars[j]) >= cfg.spec_spacing(),
        !closes_gap(cars[i], cars[j], cars, lights, cfg),
    ensures
        ({
            let driven = cars.map_values(|c: Car| c.spec_drive(cars, lights, cfg));
            driven[i].shares_lane(driven[j]) ==> driven[i].lead_of(driven[j])
                >= cfg.spec_spacing()
        }),
{
    assert(cars.contains(cars[j]));
    lemma_following_distance_kept(cars[i], cars[j], cars, lights, cfg);
}

/// The world of one intersection. Every vehicle in it is well formed and
/// on the stage.
pub struct Model {
    cars: Vec<Car>,
    road_marking: Vec<Line>,
    traffic_light_switch: TrafficLightSwitch,
    config: Config,
}

impl Model {
    /// The vehicles, oldest first.
    pub closed spec fn vehicles(self) -> Seq<Car> {
        self.cars@
    }

    /// The road markings.
    pub closed spec fn markings(self) -> Seq<Line> {
        self.road_marking@
    }

    /// The traffic-light switch.
    pub closed spec fn switch(self) -> TrafficLightSwitch {
        self.traffic_light_switch
    }

    /// The geometry.
    pub closed spec fn geometry(self) -> Config {
        self.config
    }

    /// Every vehicle is on the stage.
    pub open spec fn staged(self) -> bool {
        forall|i: int|
            0 <= i < self.vehicles().len() ==> on_stage(
                #[trigger] self.vehicles()[i],
                self.geometry(),
            )
    }

    #[verifier::type_invariant]
    closed spec fn inv(self) -> bool {
        forall|i: int| 0 <= i < self.cars@.len() ==> on_stage(#[trigger] self.cars@[i], self.config)
    }

    /// An empty world: no vehicle, every signal red, nothing pending.
    pub fn new(config: Config) -> (r: Self)
        ensures
            r.vehicles().len() == 0,
            r.markings() == spec_road_markings(config),
            r.switch().pending() is None,
            r.switch().lights().all_red(),
            r.geometry() == config,
    {
        let road_marking = Model::create_road_markings(&config);
        Self {
            cars: Vec::new(),
            road_marking,
            traffic_light_switch: TrafficLightSwitch::new(),
            config,
        }
    }

    /// The vehicles, oldest first.
    pub fn cars(&self) -> (r: &Vec<Car>)
        ensures
            r@ == self.vehicles(),
            self.staged(),
    {
        proof {
            use_type_invariant(self);
        }
        &self.cars
    }

    /// The road markings.
    pub fn road_marking(&self) -> (r: &Vec<Line>)
        ensures
            r@ == self.markings(),
    {
        &self.road_marking
    }

    /// The traffic-light switch.
    pub fn traffic_light_switch(&self) -> (r: &TrafficLightSwitch)
        ensures
            *r == self.switch(),
            r.lights().at_most_one_green(),
    {
        proof {
            use_type_invariant(&self.traffic_light_switch);
        }
        &self.traffic_light_switch
    }

    /// The geometry.
    pub fn config(&self) -> (r: &Config)
        ensures
            *r == self.geometry(),
    {
        &self.config
    }

    /// This world is `before` after an attempt to spawn a vehicle from
    /// `location` with the intention `destination`. Where a vehicle at the
    /// entry would be too close to one already present, the vehicles are
    /// those of `before`; otherwise the new vehicle follows them. Nothing
    /// else differs.
    pub open spec fn spawned_from(
        self,
        before: Model,
        location: Location,
        destination: Destination,
    ) -> bool {
        &&& self.geometry() == before.geometry()
        &&& self.switch() == before.switch()
        &&& self.markings() == before.markings()
        &&& if overlaps(
            before.vehicles(),
            spec_initial_position(before.geometry(), location),
            before.geometry(),
        ) {
            self.vehicles() == before.vehicles()
        } else {
            &&& self.vehicles().len() == before.vehicles().len() + 1
            &&& self.vehicles() == before.vehicles().push(self.vehicles().last())
            &&& self.vehicles().last().is_fresh(location, destination, before.geometry())
        }
    }

    /// Puts a new vehicle at the entry of `location` unless a vehicle there
    /// would be too close to one already present; in that case nothing
    /// changes. Vehicles that were apart stay apart.
    pub fn spawn_car(&mut self, location: Location, destination: Destination)
        ensures
            final(self).spawned_from(*old(self), location, destination),
            lanes_clear(old(self).vehicles(), old(self).geometry()) ==> lanes_clear(
                final(self).vehicles(),
                final(self).geometry(),
            ),
    {
        proof {
            use_type_invariant(&*self);
        }
        let position = Car::calculate_initial_position(&location, &self.config);
        if !Self::is_overlap(&self.cars, &position, &self.config) {
            let car = Car::new(location, destination, &self.config);
            proof {
                if lanes_clear(self.cars@, self.config) {
                    lemma_spawn_keeps_lanes_clear(self.cars@, car, self.config);
                }
            }
            let mut cars: Vec<Car> = Vec::new();
            core::mem::swap(&mut self.cars, &mut cars);
            cars.push(car);
            self.cars = cars;
        }
    }

    /// Whether a vehicle placed at `initial_position` would be too close to
    /// one of `cars`.
    pub fn is_overlap(cars: &Vec<Car>, initial_position: &PointF, cfg: &Config) -> (r: bool)
        ensures
            r == overlaps(cars@, *initial_position, *cfg),
    {
        let spacing = cfg.spacing() as i128;
        let x1 = initial_position.x as i128;
        let y1 = initial_position.y as i128;
        let mut i: usize = 0;
        while i < cars.len()
            invariant
                i <= cars.len(),
                spacing == cfg.spec_spacing(),
                x1 == initial_position.x,
                y1 == initial_position.y,
                forall|j: int|
                    0 <= j < i ==> !too_close(
                        *cfg,
                        (#[trigger] cars@[j]).position,
                        *initial_position,
                    ),
            decreases cars.len() - i,
        {
            let dx = cars[i].position.x as i128 - x1;
            let dy = cars[i].position.y as i128 - y1;
            if dy == 0 && -spacing <= dx && dx <= spacing {
                return true;
            }
            if dx == 0 && -spacing <= dy && dy <= spacing {
                return true;
            }
            i += 1;
        }
        false
    }

    /// Whether the crossing box is clear of `cars`.
    pub fn is_crossing_clear(cars: &Vec<Car>, cfg: &Config) -> (r: bool)
        ensures
            r == crossing_clear(cars@, *cfg),
    {
        let half = 500 * cfg.car_size();
        let reach = 1000 * (cfg.car_size() + cfg.margin());
        let low_x = 500 * cfg.screen_width() - reach;
        let high_x = 500 * cfg.screen_width() + reach;
        let low_y = 500 * cfg.screen_height() - reach;
        let high_y = 500 * cfg.screen_height() + reach;
        let mut i: usize = 0;
        while i < cars.len()
            invariant
                i <= cars.len(),
                cfg.inv(),
                half == 500 * cfg.size(),
                low_x == cfg.spec_box_low().0,
                low_y == cfg.spec_box_low().1,
                high_x == cfg.spec_box_high().0,
                high_y == cfg.spec_box_high().1,
                forall|j: int| 0 <= j < i ==> !occupies_box(*cfg, (#[trigger] cars@[j]).position),
            decreases cars.len() - i,
        {
            let p = cars[i].position;
            // The left corners are inside on the x axis where the centre is
            // half a vehicle further right, and so on for each side.
            let left_in = low_x + half < p.x && p.x < high_x + half;
            let right_in = low_x - half < p.x && p.x < high_x - half;
            let top_in = low_y + half < p.y && p.y < high_y + half;
            let bottom_in = low_y - half < p.y && p.y < high_y - half;
            if (left_in || right_in) && (top_in || bottom_in) {
                return false;
            }
            i += 1;
        }
        true
    }

    /// Completes the turn of a vehicle at the crossing: the vehicle takes
    /// the direction that its turn leads to, with the exact heading of that
    /// direction, and goes ahead from then on.
    pub fn update_direction(car: &mut Car)
        ensures
            *final(car) == old(car).spec_turned_car(),
    {
        let onward = turned(car.direction, car.destination);
        car.direction = onward;
        car.destination = Destination::Ahead;
        car.deg = canonical_deg(onward);
    }

    /// Whether the vehicle has passed the edge of the screen that it heads
    /// for.
    pub fn is_off_screen(car: &Car, cfg: &Config) -> (r: bool)
        ensures
            r == off_screen(*car, *cfg),
    {
        match car.direction {
            Location::East => car.position.x > 1000 * cfg.screen_width(),
            Location::West => car.position.x < -1000 * cfg.car_size(),
            Location::South => car.position.y > 1000 * cfg.screen_height(),
            Location::North => car.position.y < -1000 * cfg.car_size(),
        }
    }

    /// One tick of motion: every vehicle is driven against the vehicles as
    /// they stood before the tick and the signals as they are, and the
    /// vehicles that left the screen are dropped.
    pub fn drive_cars(&mut self)
        ensures
            final(self).vehicles() == spec_moved(
                old(self).vehicles(),
                old(self).switch().lights(),
                old(self).geometry(),
            ),
            final(self).geometry() == old(self).geometry(),
            final(self).switch() == old(self).switch(),
            final(self).markings() == old(self).markings(),
    {
        proof {
            use_type_invariant(&*self);
            use_type_invariant(&self.config);
        }
        let ghost before = self.cars@;
        let ghost lights = self.traffic_light_switch.lights();
        let ghost cfg = self.config;
        let ghost drive = |c: Car| c.spec_drive(before, lights, cfg);
        let ghost keep = |c: Car| !off_screen(c, cfg);
        let mut kept: Vec<Car> = Vec::new();
        let mut i: usize = 0;
        assert(before.take(0).map_values(drive).filter(keep) =~= Seq::<Car>::empty()) by {
            assert(before.take(0).map_values(drive) =~= Seq::<Car>::empty());
            Seq::<Car>::empty().lemma_filter_len(keep);
        }
        while i < self.cars.len()
            invariant
                i <= self.cars.len(),
                self.cars@ == before,
                self.traffic_light_switch.lights() == lights,
                self.config == cfg,
                cfg.inv(),
                drive == |c: Car| c.spec_drive(before, lights, cfg),
                keep == |c: Car| !off_screen(c, cfg),
                forall|j: int| 0 <= j < before.len() ==> on_stage(#[trigger] before[j], cfg),
                forall|j: int| 0 <= j < kept@.len() ==> on_stage(#[trigger] kept@[j], cfg),
                kept@ == before.take(i as int).map_values(drive).filter(keep),
            decreases self.cars.len() - i,
        {
            let mut car = self.cars[i].clone();
            car.drive(&self.cars, self.traffic_light_switch.traffic_lights(), &self.config);
            proof {
                lemma_drive_stays(before[i as int], before, lights, cfg);
                before.lemma_take_succ_push(i as int);
                before.take(i as int).lemma_push_map_commute(drive, before[i as int]);
                before.take(i as int).map_values(drive).lemma_filter_push(car, keep);
            }
            if !Self::is_off_screen(&car, &self.config) {
                kept.push(car);
            }
            i += 1;
        }
        proof {
            assert(before.take(before.len() as int) =~= before);
        }
        self.cars = kept;
    }

    /// Records a request of the approach `location` with the switch, unless
    /// one is pending already.
    pub fn request(&mut self, location: Location)
        ensures
            final(self).switch().pending() == if old(self).switch().pending() is None {
                Some(location)
            } else {
                old(self).switch().pending()
            },
            final(self).switch().lights() == old(self).switch().lights(),
            final(self).vehicles() == old(self).vehicles(),
            final(self).geometry() == old(self).geometry(),
            final(self).markings() == old(self).markings(),
    {
        proof {
            use_type_invariant(&*self);
        }
        let mut switch = self.traffic_light_switch;
        switch.request(location);
        self.traffic_light_switch = switch;
    }

    /// Turns every signal red and records `location` as pending.
    pub fn urgent_request(&mut self, location: Location)
        ensures
            final(self).switch().pending() == Some(location),
            final(self).switch().lights().all_red(),
            final(self).vehicles() == old(self).vehicles(),
            final(self).geometry() == old(self).geometry(),
            final(self).markings() == old(self).markings(),
    {
        proof {
            use_type_invariant(&*self);
        }
        let mut switch = self.traffic_light_switch;
        switch.urgent_request(location);
        self.traffic_light_switch = switch;
    }

    /// Lets the switch grant its pending request if the crossing box is
    /// clear of the vehicles.
    pub fn update_lights(&mut self)
        ensures
            old(self).switch().grants(old(self).vehicles(), old(self).geometry()) ==> final(
                self
            ).switch().pending() is None,
            old(self).switch().grants(old(self).vehicles(), old(self).geometry()) ==> final(
                self
            ).switch().lights().only_green(old(self).switch().pending()->Some_0),
            !old(self).switch().grants(old(self).vehicles(), old(self).geometry()) ==> final(
                self
            ).switch() == old(self).switch(),
            final(self).switch().lights().at_most_one_green(),
            final(self).vehicles() == old(self).vehicles(),
            final(self).geometry() == old(self).geometry(),
            final(self).markings() == old(self).markings(),
    {
        proof {
            use_type_invariant(&*self);
        }
        let mut switch = self.traffic_light_switch;
        switch.update(&self.cars, &self.config);
        self.traffic_light_switch = switch;
    }

    /// The road markings of a geometry.
    pub fn create_road_markings(cfg: &Config) -> (r: Vec<Line>)
        ensures
            r@ == spec_road_markings(*cfg),
    {
        let mid_x = cfg.screen_width() / 2;
        let mid_y = cfg.screen_height() / 2;
        let reach = cfg.car_size() + cfg.margin();
        let mut lines: Vec<Line> = Vec::new();
        lines.push(Self::marking(mid_x + reach, mid_y, mid_x + reach, mid_y + reach));
        lines.push(Self::marking(mid_x - reach, mid_y - reach, mid_x - reach, mid_y));
        lines.push(Self::marking(mid_x + reach, mid_y - reach, mid_x, mid_y - reach));
        lines.push(Self::marking(mid_x - reach, mid_y + reach, mid_x, mid_y + reach));
        let mut arm: usize = 0;
        while arm < 4
            invariant
                arm <= 4,
                cfg.inv(),
                mid_x == cfg.width() / 2,
                mid_y == cfg.height() / 2,
                reach == cfg.size() + cfg.gutter(),
                lines@.len() == 4 + 5 * arm,
                forall|j: int| 0 <= j < lines@.len() ==> #[trigger] lines@[j] == spec_marking(*cfg, j),
            decreases 4 - arm,
        {
            let mut k: i64 = 0;
            while k < 5
                invariant
                    arm < 4,
                    0 <= k <= 5,
                    cfg.inv(),
                    mid_x == cfg.width() / 2,
                    mid_y == cfg.height() / 2,
                    reach == cfg.size() + cfg.gutter(),
                    lines@.len() == 4 + 5 * arm + k,
                    forall|j: int|
                        0 <= j < lines@.len() ==> #[trigger] lines@[j] == spec_marking(*cfg, j),
                decreases 5 - k,
            {
                let near = 75 * k;
                let far = 75 * k + 50;
                let line = if arm == 0 {
                    Self::marking(mid_x - reach - near, mid_y, mid_x - reach - far, mid_y)
                } else if arm == 1 {
                    Self::marking(mid_x + reach + near, mid_y, mid_x + reach + far, mid_y)
                } else if arm == 2 {
                    Self::marking(mid_x, mid_y - reach - near, mid_x, mid_y - reach - far)
                } else {
                    Self::marking(mid_x, mid_y + reach + near, mid_x, mid_y + reach + far)
                };
                lines.push(line);
                k += 1;
            }
            arm += 1;
        }
        assert(lines@ =~= spec_road_markings(*cfg));
        lines
    }

    fn marking(sx: i64, sy: i64, ex: i64, ey: i64) -> (r: Line)
        requires
            -2_000_000 <= sx <= 2_000_000,
            -2_000_000 <= sy <= 2_000_000,
            -2_000_000 <= ex <= 2_000_000,
            -2_000_000 <= ey <= 2_000_000,
        ensures
            r == (Line {
                start: Point { x: sx as i32, y: sy as i32 },
                end: Point { x: ex as i32, y: ey as i32 },
                color: spec_line_color(),
            }),
    {
        Line {
            start: Point::new(sx as i32, sy as i32),
            end: Point::new(ex as i32, ey as i32),
            color: (255, 255, 255),
        }
    }
}

} // verus!
