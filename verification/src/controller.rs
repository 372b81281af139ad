//! The control policy and the sequence of one tick.

use vstd::prelude::*;
use crate::car::Car;
use crate::config::Config;
use crate::lights::TrafficLightSwitch;
use crate::location::{Destination, Location};
use crate::model::{crossing_clear, spec_moved, Model};

verus! {

/// A key that the simulation reacts to, or any other.
#[derive(PartialEq, Eq, Structural, Clone, Copy, Debug)]
pub enum Key {
    Up,
    Down,
    Left,
    Right,
    R,
    Other,
}

/// What the control policy asks of the switch in one tick.
#[derive(PartialEq, Eq, Structural, Clone, Copy, Debug)]
pub enum Action {
    /// A congested approach takes precedence.
    Urgent(Location),
    /// A vehicle has come near its stop line.
    Normal(Location),
    /// Nothing to ask.
    Nothing,
}

/// The vehicle came in by `approach` and is at or before its stop line.
pub open spec fn queued(car: Car, approach: Location, cfg: Config) -> bool {
    car.direction == approach.spec_opposite() && car.progress(cfg) <= 0
}

/// The number of vehicles queued on `approach`.
pub open spec fn queue_length(cars: Seq<Car>, approach: Location, cfg: Config) -> nat {
    cars.filter(|c: Car| queued(c, approach, cfg)).len()
}

/// The queue of `approach` has reached the threshold.
pub open spec fn congested(cars: Seq<Car>, approach: Location, cfg: Config) -> bool {
    queue_length(cars, approach, cfg) >= cfg.queue_limit()
}

/// The vehicle has just reached one of the two points that announce it: its
/// stop line, or one vehicle size before it. A point counts as just reached
/// while the vehicle is at it or less than one step before it.
pub open spec fn approaching(car: Car, cfg: Config) -> bool {
    ||| -cfg.spec_step() < car.progress(cfg) <= 0
    ||| -cfg.spec_step() < car.progress(cfg) + 1000 * cfg.size() <= 0
}

/// The approach of the first vehicle of `cars` that is approaching, if any.
pub open spec fn first_approach(cars: Seq<Car>, cfg: Config) -> Option<Location>
    decreases cars.len(),
{
    if cars.len() == 0 {
        None
    } else if first_approach(cars.drop_last(), cfg) is Some {
        first_approach(cars.drop_last(), cfg)
    } else if approaching(cars.last(), cfg) {
        Some(cars.last().direction.spec_opposite())
    } else {
        None
    }
}

/// The control policy. A congested approach gets an urgent request, the
/// West before the East, the North and the South. Without one, the approach
/// of the first approaching vehicle gets a normal request.
pub open spec fn spec_decide(cars: Seq<Car>, cfg: Config) -> Action {
    if congested(cars, Location::West, cfg) {
        Action::Urgent(Location::West)
    } else if congested(cars, Location::East, cfg) {
        Action::Urgent(Location::East)
    } else if congested(cars, Location::North, cfg) {
        Action::Urgent(Location::North)
    } else if congested(cars, Location::South, cfg) {
        Action::Urgent(Location::South)
    } else {
        match first_approach(cars, cfg) {
            Some(approach) => Action::Normal(approach),
            None => Action::Nothing,
        }
    }
}

/// `after` is the switch `before` once `action` has been put to it.
pub open spec fn applied(before: TrafficLightSwitch, action: Action, after: TrafficLightSwitch)
    -> bool {
    match action {
        Action::Urgent(approach) => {
            &&& after.pending() == Some(approach)
            &&& after.lights().all_red()
        },
        Action::Normal(approach) => {
            &&& after.pending() == if before.pending() is None {
                Some(approach)
            } else {
                before.pending()
            }
            &&& after.lights() == before.lights()
        },
        Action::Nothing => after == before,
    }
}

/// `after` is the switch `before` once it has been updated against `cars`.
pub open spec fn updated(
    before: TrafficLightSwitch,
    cars: Seq<Car>,
    cfg: Config,
    after: TrafficLightSwitch,
) -> bool {
    if before.grants(cars, cfg) {
        &&& after.pending() is None
        &&& after.lights().only_green(before.pending()->Some_0)
    } else {
        after == before
    }
}

/// The side that a key spawns from, where the key fixes it: the arrow keys
/// spawn from the side they point away from.
pub open spec fn spec_key_location(key: Key) -> Option<Location> {
    match key {
        Key::Down => Some(Location::North),
        Key::Up => Some(Location::South),
        Key::Left => Some(Location::East),
        Key::Right => Some(Location::West),
        Key::R => None,
        Key::Other => None,
    }
}

/// The request that the control policy makes for `cars`.
pub fn decide(cars: &Vec<Car>, cfg: &Config) -> (r: Action)
    requires
        forall|i: int| 0 <= i < cars@.len() ==> (#[trigger] cars@[i]).wf(),
    ensures
        r == spec_decide(cars@, *cfg),
{
    let ghost in_west = |c: Car| queued(c, Location::West, *cfg);
    let ghost in_east = |c: Car| queued(c, Location::East, *cfg);
    let ghost in_north = |c: Car| queued(c, Location::North, *cfg);
    let ghost in_south = |c: Car| queued(c, Location::South, *cfg);
    let mut west: usize = 0;
    let mut east: usize = 0;
    let mut north: usize = 0;
    let mut south: usize = 0;
    let mut first: Option<Location> = None;
    let step = cfg.step();
    let length = 1000 * cfg.car_size();
    let mut i: usize = 0;
    proof {
        assert(cars@.take(0) =~= Seq::<Car>::empty());
        Seq::<Car>::empty().lemma_filter_len(in_west);
        Seq::<Car>::empty().lemma_filter_len(in_east);
        Seq::<Car>::empty().lemma_filter_len(in_north);
        Seq::<Car>::empty().lemma_filter_len(in_south);
    }
    while i < cars.len()
        invariant
            i <= cars.len(),
            cfg.inv(),
            step == cfg.spec_step(),
            length == 1000 * cfg.size(),
            forall|j: int| 0 <= j < cars@.len() ==> (#[trigger] cars@[j]).wf(),
            in_west == |c: Car| queued(c, Location::West, *cfg),
            in_east == |c: Car| queued(c, Location::East, *cfg),
            in_north == |c: Car| queued(c, Location::North, *cfg),
            in_south == |c: Car| queued(c, Location::South, *cfg),
            west == cars@.take(i as int).filter(in_west).len() <= i,
            east == cars@.take(i as int).filter(in_east).len() <= i,
            north == cars@.take(i as int).filter(in_north).len() <= i,
            south == cars@.take(i as int).filter(in_south).len() <= i,
            first == first_approach(cars@.take(i as int), *cfg),
        decreases cars.len() - i,
    {
        let car = &cars[i];
        let progress = car.distance_past_stop(cfg);
        proof {
            let head = cars@.take(i as int);
            cars@.lemma_take_succ_push(i as int);
            head.lemma_filter_push(*car, in_west);
            head.lemma_filter_push(*car, in_east);
            head.lemma_filter_push(*car, in_north);
            head.lemma_filter_push(*car, in_south);
            assert(cars@.take(i + 1).drop_last() =~= head);
            assert(cars@.take(i + 1).last() == *car);
        }
        if progress <= 0 {
            match car.direction {
                Location::East => {
                    west += 1;
                },
                Location::West => {
                    east += 1;
                },
                Location::South => {
                    north += 1;
                },
                Location::North => {
                    south += 1;
                },
            }
        }
        if first.is_none() && ((-step < progress && progress <= 0) || (-step < progress + length
            && progress + length <= 0)) {
            first = Some(car.direction.opposite());
        }
        i += 1;
    }
    proof {
        assert(cars@.take(cars@.len() as int) =~= cars@);
    }
    let limit = cfg.max_cars_in_queue() as u64;
    if west as u64 >= limit {
        Action::Urgent(Location::West)
    } else if east as u64 >= limit {
        Action::Urgent(Location::East)
    } else if north as u64 >= limit {
        Action::Urgent(Location::North)
    } else if south as u64 >= limit {
        Action::Urgent(Location::South)
    } else {
        match first {
            Some(approach) => Action::Normal(approach),
            None => Action::Nothing,
        }
    }
}

/// The side that a key spawns from, where the key fixes it.
pub fn key_location(key: Key) -> (r: Option<Location>)
    ensures
        r == spec_key_location(key),
{
    match key {
        Key::Down => Some(Location::North),
        Key::Up => Some(Location::South),
        Key::Left => Some(Location::East),
        Key::Right => Some(Location::West),
        Key::R => None,
        Key::Other => None,
    }
}

/// The simulation: a world and the sequence of its tick.
pub struct Controller {
    model: Model,
}

impl Controller {
    /// The world.
    pub closed spec fn world(self) -> Model {
        self.model
    }

    pub fn new(model: Model) -> (r: Self)
        ensures
            r.world() == model,
    {
        Self { model }
    }

    /// The world, to read.
    pub fn model(&self) -> (r: &Model)
        ensures
            *r == self.world(),
    {
        &self.model
    }

    /// Spawns a vehicle with the given intention from `location`, as
    /// [`Model::spawn_car`] does.
    pub fn spawn(&mut self, location: Location, destination: Destination)
        ensures
            final(self).world().spawned_from(old(self).world(), location, destination),
    {
        self.model.spawn_car(location, destination);
    }

    /// Reacts to a key. An arrow key spawns a vehicle from the side it
    /// points away from, R from a side chosen at random, each with an
    /// intention chosen at random; any other key does nothing.
    pub fn key_down(&mut self, key: Key)
        ensures
            key == Key::Other ==> final(self).world() == old(self).world(),
            key != Key::Other ==> exists|location: Location, destination: Destination|
                {
                    &&& spec_key_location(key) is Some ==> spec_key_location(key) == Some(
                        location,
                    )
                    &&& #[trigger] final(self).world().spawned_from(
                        old(self).world(),
                        location,
                        destination,
                    )
                },
    {
        match key {
            Key::Other => {},
            Key::R => {
                let location = Location::get_random();
                let destination = Destination::get_random();
                self.spawn(location, destination);
            },
            _ => {
                if let Some(location) = key_location(key) {
                    let destination = Destination::get_random();
                    self.spawn(location, destination);
                }
            },
        }
    }

    /// Puts the request of the control policy to the switch.
    pub fn control_traffic(&mut self)
        ensures
            applied(
                old(self).world().switch(),
                spec_decide(old(self).world().vehicles(), old(self).world().geometry()),
                final(self).world().switch(),
            ),
            final(self).world().vehicles() == old(self).world().vehicles(),
            final(self).world().geometry() == old(self).world().geometry(),
            final(self).world().markings() == old(self).world().markings(),
    {
        let action = decide(self.model.cars(), self.model.config());
        match action {
            Action::Urgent(approach) => {
                self.model.urgent_request(approach);
            },
            Action::Normal(approach) => {
                self.model.request(approach);
            },
            Action::Nothing => {},
        }
    }

    /// One tick. The vehicles move against the signals as they are and
    /// those that left the screen are dropped; the control policy puts its
    /// request for the vehicles that remain; the switch grants what is
    /// pending if the crossing box is clear of them.
    pub fn tick(&mut self)
        ensures
            final(self).world().vehicles() == spec_moved(
                old(self).world().vehicles(),
                old(self).world().switch().lights(),
                old(self).world().geometry(),
            ),
            exists|asked: TrafficLightSwitch|
                {
                    &&& #[trigger] applied(
                        old(self).world().switch(),
                        spec_decide(
                            final(self).world().vehicles(),
                            old(self).world().geometry(),
                        ),
                        asked,
                    )
                    &&& updated(
                        asked,
                        final(self).world().vehicles(),
                        old(self).world().geometry(),
                        final(self).world().switch(),
                    )
                },
            forall|l: Location|
                final(self).world().switch().lights().is_green(l) && !old(
                    self
                ).world().switch().lights().is_green(l) ==> crossing_clear(
                    final(self).world().vehicles(),
                    old(self).world().geometry(),
                ),
            final(self).world().switch().lights().at_most_one_green(),
            final(self).world().geometry() == old(self).world().geometry(),
            final(self).world().markings() == old(self).world().markings(),
    {
        self.model.drive_cars();
        self.control_traffic();
        let ghost asked = self.model.switch();
        self.model.update_lights();
        proof {
            assert(applied(
                old(self).world().switch(),
                spec_decide(self.world().vehicles(), old(self).world().geometry()),
                asked,
            ));
        }
    }
}

} // verus!
