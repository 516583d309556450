//! Endpoints of League of Legends.

pub mod champions;
pub mod items;
pub mod leagues;
pub mod matches;
pub mod players;
pub mod series;
pub mod spells;
pub mod teams;
pub mod tournaments;
