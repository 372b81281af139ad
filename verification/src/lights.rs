//! The four signals and the switch that grants one approach at a time.

use vstd::prelude::*;
use crate::car::Car;
use crate::config::Config;
use crate::geometry::Dimen;
use crate::location::Location;
use crate::model::{crossing_clear, Model};

verus! {

/// Width of a signal, in pixels.
pub const TRAFFIC_LIGHTS_WIDTH: i32 = 20;

/// Height of a signal, in pixels.
pub const TRAFFIC_LIGHTS_HEIGHT: i32 = 20;

/// The signal of one approach. `status` is true while it is green.
#[derive(Clone, Copy, Debug)]
pub struct TrafficLight {
    pub location: Location,
    pub size: Dimen,
    pub status: bool,
}

impl TrafficLight {
    /// A red signal for the approach `location`.
    pub fn new(location: Location) -> (r: Self)
        ensures
            r.location == location,
            r.size.width == TRAFFIC_LIGHTS_WIDTH,
            r.size.length == TRAFFIC_LIGHTS_HEIGHT,
            !r.status,
    {
        TrafficLight {
            location,
            size: Dimen::new(TRAFFIC_LIGHTS_WIDTH, TRAFFIC_LIGHTS_HEIGHT),
            status: false,
        }
    }
}

/// One signal for each approach. At most one of them is green; nothing
/// outside this module can change a signal.
#[derive(Clone, Copy, Debug)]
pub struct TrafficLights {
    west: TrafficLight,
    east: TrafficLight,
    north: TrafficLight,
    south: TrafficLight,
}

impl TrafficLights {
    /// Whether the signal of the approach `location` is green.
    pub closed spec fn is_green(self, location: Location) -> bool {
        match location {
            Location::West => self.west.status,
            Location::East => self.east.status,
            Location::North => self.north.status,
            Location::South => self.south.status,
        }
    }

    /// No signal is green.
    pub open spec fn all_red(self) -> bool {
        forall|l: Location| !self.is_green(l)
    }

    /// No two signals are green.
    pub open spec fn at_most_one_green(self) -> bool {
        forall|l: Location, m: Location| self.is_green(l) && self.is_green(m) ==> l == m
    }

    /// The signal of `location` is green and no other is.
    pub open spec fn only_green(self, location: Location) -> bool {
        forall|l: Location| self.is_green(l) <==> l == location
    }

    /// The size that every signal has.
    pub open spec fn standard_size(size: Dimen) -> bool {
        size.width == TRAFFIC_LIGHTS_WIDTH && size.length == TRAFFIC_LIGHTS_HEIGHT
    }

    #[verifier::type_invariant]
    closed spec fn inv(self) -> bool {
        &&& self.west.location == Location::West
        &&& self.east.location == Location::East
        &&& self.north.location == Location::North
        &&& self.south.location == Location::South
        &&& Self::standard_size(self.west.size)
        &&& Self::standard_size(self.east.size)
        &&& Self::standard_size(self.north.size)
        &&& Self::standard_size(self.south.size)
        &&& !(self.west.status && self.east.status)
        &&& !(self.west.status && self.north.status)
        &&& !(self.west.status && self.south.status)
        &&& !(self.east.status && self.north.status)
        &&& !(self.east.status && self.south.status)
        &&& !(self.north.status && self.south.status)
    }

    /// Four red signals.
    pub fn new() -> (r: Self)
        ensures
            r.all_red(),
    {
        TrafficLights {
            west: TrafficLight::new(Location::West),
            east: TrafficLight::new(Location::East),
            north: TrafficLight::new(Location::North),
            south: TrafficLight::new(Location::South),
        }
    }

    /// The signal of the approach `location`.
    pub fn get(&self, location: Location) -> (r: &TrafficLight)
        ensures
            r.location == location,
            r.status == self.is_green(location),
            Self::standard_size(r.size),
    {
        proof {
            use_type_invariant(self);
        }
        match location {
            Location::West => &self.west,
            Location::East => &self.east,
            Location::North => &self.north,
            Location::South => &self.south,
        }
    }

    /// Whether the signal of the approach `location` is green.
    pub fn status(&self, location: Location) -> (r: bool)
        ensures
            r == self.is_green(location),
    {
        self.get(location).status
    }

    /// The approach whose signal is green, if there is one. There is never
    /// more than one.
    pub fn green(&self) -> (r: Option<Location>)
        ensures
            self.at_most_one_green(),
            r is None ==> self.all_red(),
            r is Some ==> self.only_green(r->Some_0),
    {
        proof {
            use_type_invariant(self);
        }
        if self.west.status {
            Some(Location::West)
        } else if self.east.status {
            Some(Location::East)
        } else if self.north.status {
            Some(Location::North)
        } else if self.south.status {
            Some(Location::South)
        } else {
            None
        }
    }

    /// The four signals, in the order West, East, North, South.
    pub fn values(&self) -> (r: Vec<TrafficLight>)
        ensures
            r@.len() == 4,
            r@[0].location == Location::West,
            r@[1].location == Location::East,
            r@[2].location == Location::North,
            r@[3].location == Location::South,
            forall|i: int| 0 <= i < 4 ==> #[trigger] r@[i].status == self.is_green(r@[i].location),
            forall|i: int| 0 <= i < 4 ==> Self::standard_size(#[trigger] r@[i].size),
    {
        proof {
            use_type_invariant(self);
        }
        let mut v: Vec<TrafficLight> = Vec::new();
        v.push(self.west);
        v.push(self.east);
        v.push(self.north);
        v.push(self.south);
        v
    }

    fn set_all_red(&mut self)
        ensures
            final(self).all_red(),
    {
        proof {
            use_type_invariant(&*self);
        }
        self.west.status = false;
        self.east.status = false;
        self.north.status = false;
        self.south.status = false;
    }

    fn set_green(&mut self, location: Location)
        requires
            old(self).all_red(),
        ensures
            final(self).only_green(location),
    {
        proof {
            use_type_invariant(&*self);
            assert(!self.is_green(Location::West));
            assert(!self.is_green(Location::East));
            assert(!self.is_green(Location::North));
            assert(!self.is_green(Location::South));
        }
        match location {
            Location::West => {
                self.west.status = true;
            },
            Location::East => {
                self.east.status = true;
            },
            Location::North => {
                self.north.status = true;
            },
            Location::South => {
                self.south.status = true;
            },
        }
    }
}

/// Signals that are all red, or of which exactly one is green, are never
/// two green at once.
pub proof fn lemma_at_most_one_green(lights: TrafficLights)
    requires
        lights.all_red() || exists|l: Location| lights.only_green(l),
    ensures
        lights.at_most_one_green(),
{
    if !lights.all_red() {
        let l = choose|l: Location| lights.only_green(l);
        assert forall|a: Location, b: Location| lights.is_green(a) && lights.is_green(b) implies a
            == b by {
            assert(a == l && b == l);
        }
    }
}

/// The arbiter of the intersection: the four signals and at most one
/// pending request.
#[derive(Clone, Copy, Debug)]
pub struct TrafficLightSwitch {
    request: Option<Location>,
    traffic_lights: TrafficLights,
}

impl TrafficLightSwitch {
    /// The approach that waits for a grant, if any.
    pub closed spec fn pending(self) -> Option<Location> {
        self.request
    }

    /// The signals.
    pub closed spec fn lights(self) -> TrafficLights {
        self.traffic_lights
    }

    /// What holds of every switch: no two of its signals are green.
    #[verifier::type_invariant]
    pub open spec fn inv(self) -> bool {
        self.lights().at_most_one_green()
    }

    /// Whether `update` on this switch and these vehicles grants the pending
    /// request: there is one, its signal is not green already, and the
    /// crossing box is clear.
    pub open spec fn grants(self, cars: Seq<Car>, cfg: Config) -> bool {
        &&& self.pending() is Some
        &&& !self.lights().is_green(self.pending()->Some_0)
        &&& crossing_clear(cars, cfg)
    }

    /// A switch with all signals red and no pending request.
    pub fn new() -> (r: Self)
        ensures
            r.pending() is None,
            r.lights().all_red(),
            r.lights().at_most_one_green(),
    {
        let traffic_lights = Self::create_traffic_lights();
        proof {
            use_type_invariant(&traffic_lights);
        }
        TrafficLightSwitch { request: None, traffic_lights }
    }

    /// Four red signals, one for each approach.
    pub fn create_traffic_lights() -> (r: TrafficLights)
        ensures
            r.all_red(),
    {
        TrafficLights::new()
    }

    /// The approach that waits for a grant, if any.
    pub fn pending_request(&self) -> (r: Option<Location>)
        ensures
            r == self.pending(),
    {
        self.request
    }

    /// The signals. At most one of them is green.
    pub fn traffic_lights(&self) -> (r: &TrafficLights)
        ensures
            *r == self.lights(),
            r.at_most_one_green(),
    {
        proof {
            use_type_invariant(&self.traffic_lights);
        }
        &self.traffic_lights
    }

    /// Records `location` as pending unless a request is pending already.
    /// The signals stay as they are.
    pub fn request(&mut self, location: Location)
        ensures
            final(self).pending() == if old(self).pending() is None {
                Some(location)
            } else {
                old(self).pending()
            },
            final(self).lights() == old(self).lights(),
            final(self).lights().at_most_one_green(),
    {
        proof {
            use_type_invariant(&self.traffic_lights);
        }
        if self.request.is_none() {
            self.request = Some(location);
        }
    }

    /// Turns every signal red and records `location` as pending, whatever
    /// was pending before.
    pub fn urgent_request(&mut self, location: Location)
        ensures
            final(self).pending() == Some(location),
            final(self).lights().all_red(),
            final(self).lights().at_most_one_green(),
    {
        let mut lights = self.traffic_lights;
        lights.set_all_red();
        proof {
            use_type_invariant(&lights);
        }
        self.traffic_lights = lights;
        self.request = Some(location);
    }

    /// Grants the pending request if its signal is not green yet and the
    /// crossing box is clear of `cars`: that signal alone is then green and
    /// nothing is pending. Otherwise nothing changes. So a signal turns green
    /// only while the crossing box is clear, and never two at once.
    pub fn update(&mut self, cars: &Vec<Car>, cfg: &Config)
        ensures
            old(self).grants(cars@, *cfg) ==> final(self).pending() is None,
            old(self).grants(cars@, *cfg) ==> final(self).lights().only_green(
                old(self).pending()->Some_0,
            ),
            !old(self).grants(cars@, *cfg) ==> *final(self) == *old(self),
            forall|l: Location|
                final(self).lights().is_green(l) && !old(self).lights().is_green(l)
                    ==> crossing_clear(cars@, *cfg),
            final(self).lights().at_most_one_green(),
    {
        proof {
            use_type_invariant(&self.traffic_lights);
        }
        if let Some(location) = self.request {
            if !self.traffic_lights.status(location) {
                if Model::is_crossing_clear(cars, cfg) {
                    let mut lights = self.traffic_lights;
                    lights.set_all_red();
                    lights.set_green(location);
                    proof {
                        use_type_invariant(&lights);
                    }
                    self.traffic_lights = lights;
                    self.request = None;
                }
            }
        }
    }
}

} // verus!
