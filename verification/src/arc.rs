//! The geometry of a quarter turn: radii, the angle swept per tick, and the
//! offsets of a point on the arc.
//!
//! Angles are in thousandths of a degree. The sine is taken by Bhaskara's
//! rational approximation, `4a(180 - a) / (40500 - a(180 - a))` for an angle
//! of `a` degrees, which is exact at 0, 30, 90 degrees and within 0.002 of
//! the true sine in between.

use vstd::prelude::*;
use crate::config::Config;
use crate::location::{Destination, Location};

verus! {

/// A quarter turn, in thousandths of a degree.
pub const QUARTER_TURN: i64 = 90_000;

/// Largest radius for which [`arc_sine`] is computed, in units.
pub const MAX_RADIUS: i64 = 35_000_000;

/// `radius` times the approximate sine of `angle`, rounded down.
pub open spec fn spec_arc_sine(radius: int, angle: int) -> int {
    let p = angle * (180_000 - angle);
    (radius * (4 * p)) / (40_500_000_000 - p)
}

/// `radius` times one minus the approximate cosine of `angle`.
pub open spec fn spec_arc_versine(radius: int, angle: int) -> int {
    radius - spec_arc_sine(radius, QUARTER_TURN - angle)
}

/// The heading of straight travel towards `direction`: 0 for East, growing
/// by a quarter turn through South and West to North.
pub open spec fn spec_canonical_deg(direction: Location) -> int {
    match direction {
        Location::East => 0,
        Location::South => 90_000,
        Location::West => 180_000,
        Location::North => 270_000,
    }
}

/// The direction of travel after a turn.
pub open spec fn spec_turned(direction: Location, destination: Destination) -> Location {
    match destination {
        Destination::Ahead => direction,
        Destination::Left => match direction {
            Location::East => Location::North,
            Location::North => Location::West,
            Location::West => Location::South,
            Location::South => Location::East,
        },
        Destination::Right => match direction {
            Location::East => Location::South,
            Location::South => Location::West,
            Location::West => Location::North,
            Location::North => Location::East,
        },
    }
}

/// The radius of a turn, in units: vehicle size plus half the margin for a
/// left turn, twice the vehicle size plus one and a half margins otherwise.
pub open spec fn spec_turn_radius(cfg: Config, destination: Destination) -> int {
    if destination == Destination::Left {
        1000 * cfg.size() + 500 * cfg.gutter()
    } else {
        2000 * cfg.size() + 1500 * cfg.gutter()
    }
}

/// The angle swept in one tick: speed over radius radians, in thousandths
/// of a degree and rounded down, with 355/113 for pi.
pub open spec fn spec_angle_step(cfg: Config, destination: Destination) -> int {
    (cfg.speed() * 20_340_000_000) / (355 * spec_turn_radius(cfg, destination))
}

pub fn arc_sine(radius: i64, angle: i64) -> (r: i64)
    requires
        0 <= radius <= MAX_RADIUS,
        0 <= angle <= QUARTER_TURN,
    ensures
        r == spec_arc_sine(radius as int, angle as int),
        0 <= r <= radius,
{
    assert(0 <= angle * (180_000 - angle) <= 8_100_000_000) by (nonlinear_arith)
        requires
            0 <= angle <= 90_000,
    ;
    let p: i64 = angle * (180_000 - angle);
    assert(0 <= radius * (4 * p) <= 35_000_000 * 32_400_000_000) by (nonlinear_arith)
        requires
            0 <= radius <= 35_000_000,
            0 <= p <= 8_100_000_000,
    ;
    let d: i64 = 40_500_000_000 - p;
    let n: i64 = radius * (4 * p);
    assert(0 <= n / d <= radius) by (nonlinear_arith)
        requires
            0 <= radius,
            0 <= p,
            n == radius * (4 * p),
            d >= 4 * p,
            d > 0,
    ;
    n / d
}

pub fn arc_versine(radius: i64, angle: i64) -> (r: i64)
    requires
        0 <= radius <= MAX_RADIUS,
        0 <= angle <= QUARTER_TURN,
    ensures
        r == spec_arc_versine(radius as int, angle as int),
        0 <= r <= radius,
{
    radius - arc_sine(radius, QUARTER_TURN - angle)
}

pub fn canonical_deg(direction: Location) -> (r: i64)
    ensures
        r == spec_canonical_deg(direction),
{
    match direction {
        Location::East => 0,
        Location::South => 90_000,
        Location::West => 180_000,
        Location::North => 270_000,
    }
}

pub fn turned(direction: Location, destination: Destination) -> (r: Location)
    ensures
        r == spec_turned(direction, destination),
{
    match destination {
        Destination::Ahead => direction,
        Destination::Left => match direction {
            Location::East => Location::North,
            Location::North => Location::West,
            Location::West => Location::South,
            Location::South => Location::East,
        },
        Destination::Right => match direction {
            Location::East => Location::South,
            Location::South => Location::West,
            Location::West => Location::North,
            Location::North => Location::East,
        },
    }
}

pub fn turn_radius(cfg: &Config, destination: Destination) -> (r: i64)
    ensures
        r == spec_turn_radius(*cfg, destination),
        1000 <= r <= MAX_RADIUS,
        1000 * cfg.speed() <= r,
        cfg.inv(),
{
    let size = cfg.car_size();
    let margin = cfg.margin();
    if destination == Destination::Left {
        1000 * size + 500 * margin
    } else {
        2000 * size + 1500 * margin
    }
}

/// The angle swept in one tick. It is at least one thousandth of a degree
/// and less than a quarter turn, so a turn always advances and never
/// completes in its first tick.
pub fn angle_step(cfg: &Config, destination: Destination) -> (r: i64)
    ensures
        r == spec_angle_step(*cfg, destination),
        1 <= r < QUARTER_TURN,
{
    let radius = turn_radius(cfg, destination);
    let speed = cfg.car_speed();
    let n: i64 = speed * 20_340_000_000;
    let d: i64 = 355 * radius;
    assert(1 <= n / d < 90_000) by (nonlinear_arith)
        requires
            0 < d <= n,
            n < 90_000 * d,
    ;
    n / d
}

/// In a valid geometry every turn sweeps at least one thousandth of a degree
/// per tick and less than a quarter turn.
pub proof fn lemma_angle_step_bounds(cfg: Config, destination: Destination)
    requires
        cfg.inv(),
    ensures
        1 <= spec_angle_step(cfg, destination) < QUARTER_TURN,
{
    let radius = spec_turn_radius(cfg, destination);
    let speed = cfg.speed();
    let n = speed * 20_340_000_000;
    let d = 355 * radius;
    assert(1 <= n / d < 90_000) by (nonlinear_arith)
        requires
            0 < d <= n,
            n < 90_000 * d,
    ;
}

/// The offsets of a point on an arc stay within the radius.
pub proof fn lemma_arc_bounds(radius: int, angle: int)
    requires
        0 <= radius,
        0 <= angle <= QUARTER_TURN,
    ensures
        0 <= spec_arc_sine(radius, angle) <= radius,
        0 <= spec_arc_versine(radius, angle) <= radius,
{
    lemma_sine_bounds(radius, angle);
    lemma_sine_bounds(radius, QUARTER_TURN - angle);
}

/// From its first angle step on, a turn has carried the vehicle forward of
/// the stop line by at least one unit.
pub proof fn lemma_arc_sine_positive(cfg: Config, destination: Destination, angle: int)
    requires
        cfg.inv(),
        spec_angle_step(cfg, destination) <= angle <= QUARTER_TURN,
    ensures
        spec_arc_sine(spec_turn_radius(cfg, destination), angle) >= 1,
{
    let radius = spec_turn_radius(cfg, destination);
    let step = spec_angle_step(cfg, destination);
    let n = cfg.speed() * 20_340_000_000;
    let d = 355 * radius;
    assert(step == n / d);
    // the angle step, rounded down, still covers most of speed over radius
    assert(step * d > n - d) by (nonlinear_arith)
        requires
            step == n / d,
            d > 0,
    ;
    assert(step * radius >= 22_000_000) by (nonlinear_arith)
        requires
            step * d > n - d,
            d == 355 * radius,
            n - d >= 7_900_000_000,
    ;
    let p = angle * (180_000 - angle);
    assert(90_000 * step <= p <= 8_100_000_000) by (nonlinear_arith)
        requires
            p == angle * (180_000 - angle),
            0 <= step <= angle <= 90_000,
    ;
    let den = 40_500_000_000 - p;
    let num = radius * (4 * p);
    assert(num >= 40_500_000_000) by (nonlinear_arith)
        requires
            num == radius * (4 * p),
            p >= 90_000 * step,
            step * radius >= 22_000_000,
            radius >= 0,
            step >= 0,
    ;
    assert(num / den >= 1) by (nonlinear_arith)
        requires
            0 < den <= num,
    ;
}

proof fn lemma_sine_bounds(radius: int, angle: int)
    requires
        0 <= radius,
        0 <= angle <= QUARTER_TURN,
    ensures
        0 <= spec_arc_sine(radius, angle) <= radius,
{
    let p = angle * (180_000 - angle);
    assert(0 <= p <= 8_100_000_000) by (nonlinear_arith)
        requires
            p == angle * (180_000 - angle),
            0 <= angle <= 90_000,
    ;
    let d = 40_500_000_000 - p;
    let n = radius * (4 * p);
    assert(0 <= n / d <= radius) by (nonlinear_arith)
        requires
            0 <= radius,
            0 <= p,
            n == radius * (4 * p),
            d >= 4 * p,
            d > 0,
    ;
}

} // verus!
