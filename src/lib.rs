//! Static battle knowledge for a turn-based creature-battling game: elemental type
//! effectiveness, stat stages, natures, species, weather and terrain.
pub mod nature;
pub mod species;
pub mod stat;
pub mod stat_stage;
pub mod terrain;
pub mod typing;
pub mod weather;
