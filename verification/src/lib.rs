//! A fixed-point simulation of vehicles crossing a single four-way
//! intersection under a traffic-light switch that grants one approach at a
//! time.
//!
//! All lengths are integers. A [`config::Config`] is given in pixels;
//! vehicle positions are kept in thousandths of a pixel and heading angles in
//! thousandths of a degree, so every step of the simulation is exact and
//! repeatable.
//!
//! A tick ([`controller::Controller::tick`]) drives every vehicle against the
//! vehicles as they stood before it ([`car::Car::drive`]), drops those that
//! left the screen, lets the control policy put a request
//! ([`controller::decide`]) and lets the switch grant what is pending once
//! the crossing box is clear ([`lights::TrafficLightSwitch::update`]).

pub mod location;
pub mod geometry;
pub mod config;
pub mod arc;
pub mod car;
pub mod lights;
pub mod model;
pub mod controller;
pub mod layout;
