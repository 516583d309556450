//! What is particular to League of Legends.

pub mod item;
pub mod spell;
