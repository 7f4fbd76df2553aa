//! The kinds of entity and the names of bodies as the simulation's
//! tables store them.

use vstd::prelude::*;

verus! {

/// What kind of thing a stored entity is.
#[derive(Debug, Clone)]
pub enum EntityType {
    Star,
    Planet,
    Moon,
    Asteroid,
    Comet,
    Ship,
    Custom(String),
}

/// The body that a stored node stands for.
#[derive(Debug, Clone)]
pub enum NodeName {
    Sun,
    Earth,
    Mars,
    Venus,
    Jupiter,
    Saturn,
    Uranus,
    Neptune,
    Pluto,
    Moon,
    Ceres,
    Eris,
    Haumea,
    Makemake,
    Phoebe,
    Titan,
    Callisto,
    Ganymede,
    Io,
    Europa,
    Enceladus,
    Triton,
    Charon,
    Titania,
    Oberon,
    Rhea,
    Iapetus,
    Dione,
    Tethys,
    Mimas,
    Hyperion,
    Ariel,
    Umbriel,
    Miranda,
    Custom(String),
}

} // verus!
