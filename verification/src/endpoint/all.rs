//! Endpoints generic across all games.

pub mod leagues;
pub mod matches;
pub mod players;
pub mod series;
pub mod teams;
pub mod tournament;
