//! Endpoints of Rocket League.

pub mod leagues;
pub mod matches;
pub mod players;
pub mod series;
pub mod teams;
pub mod tournaments;
