//! Weather conditions. Heavy rain, harsh sunlight and strong winds come only from the primal
//! forms of the legendaries of the third generation's covers and from their Mega Evolution.
use vstd::prelude::*;

verus! {

/// A weather condition; `Normal` is a battle without weather.
#[derive(Copy, Clone, Debug, PartialEq, Eq, Structural, Hash)]
pub enum Weather {
    Normal,
    Rain,
    HeavyRain,
    Sun,
    HarshSun,
    Sand,
    Hail,
    StrongWinds,
}

impl Weather {
    /// Whether this weather is one of the three set by a special form of a legendary: heavy
    /// rain, harsh sunlight or strong winds. Such weather ends when its setter leaves and
    /// holds off every other weather.
    pub fn is_special(self) -> (r: bool)
        ensures
            r == (self is HeavyRain || self is HarshSun || self is StrongWinds),
    {
        match self {
            Weather::HeavyRain | Weather::HarshSun | Weather::StrongWinds => true,
            _ => false,
        }
    }
}

} // verus!
