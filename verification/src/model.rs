//! What the API answers with: leagues, series, tournaments, matches, teams
//! and players, as plain values.

pub mod bracket;
pub mod clock;
pub mod game;
pub mod league;
pub mod lol;
pub mod matches;
pub mod player;
pub mod series;
pub mod team;
pub mod tournament;
pub mod winner;

use vstd::prelude::*;
use vstd::string::*;
use crate::decimal::{nat_text, u64_text};

pub use winner::Winner;

verus! {

/// An instant: nanoseconds since 1970-01-01T00:00:00 UTC.
#[derive(Debug, Clone, Copy, PartialEq, Eq, Hash, PartialOrd, Ord)]
pub struct Timestamp {
    pub unix_nanos: i128,
}

/// A day of the calendar.
#[derive(Debug, Clone, Copy, PartialEq, Eq, Hash)]
pub struct CalendarDate {
    pub year: i32,
    pub month: u8,
    pub day: u8,
}

#[derive(Debug, Clone, PartialEq, Eq, Hash)]
pub struct VideoGame {
    pub id: u64,
    pub name: String,
    pub slug: String,
    pub current_version: Option<String>,
}

/// What names a resource: its number or its slug. The API takes either.
#[derive(Debug, Clone, Copy, PartialEq, Eq, Hash)]
pub enum Identifier<'a> {
    Id(u64),
    Slug(&'a str),
}

impl<'a> Identifier<'a> {
    /// The identifier as it stands in a path.
    pub open spec fn text(self) -> Seq<char> {
        match self {
            Identifier::Id(id) => nat_text(id as nat),
            Identifier::Slug(slug) => slug@,
        }
    }

    /// The identifier as it stands in a path: the number in decimal, or the
    /// slug as it is.
    pub fn to_text(&self) -> (r: String)
        ensures
            r@ == self.text(),
    {
        match self {
            Identifier::Id(id) => u64_text(*id),
            Identifier::Slug(slug) => String::from_str(slug),
        }
    }
}

impl<'a> From<u64> for Identifier<'a> {
    fn from(id: u64) -> (r: Self) {
        Identifier::Id(id)
    }
}

impl<'a> vstd::std_specs::convert::FromSpecImpl<u64> for Identifier<'a> {
    open spec fn obeys_from_spec() -> bool {
        true
    }

    open spec fn from_spec(id: u64) -> Self {
        Identifier::Id(id)
    }
}

impl<'a> From<&'a str> for Identifier<'a> {
    fn from(slug: &'a str) -> (r: Self) {
        Identifier::Slug(slug)
    }
}

impl<'a> vstd::std_specs::convert::FromSpecImpl<&'a str> for Identifier<'a> {
    open spec fn obeys_from_spec() -> bool {
        true
    }

    open spec fn from_spec(slug: &'a str) -> Self {
        Identifier::Slug(slug)
    }
}

/// Whether an event lies behind, is under way, or lies ahead.
#[derive(Debug, Clone, Copy, PartialEq, Eq, Hash)]
pub enum EventStatus {
    Past,
    Running,
    Upcoming,
}

impl EventStatus {
    /// The path segment that selects events of this status.
    pub open spec fn name(self) -> Seq<char> {
        match self {
            EventStatus::Past => seq!['p', 'a', 's', 't'],
            EventStatus::Running => seq!['r', 'u', 'n', 'n', 'i', 'n', 'g'],
            EventStatus::Upcoming => seq!['u', 'p', 'c', 'o', 'm', 'i', 'n', 'g'],
        }
    }

    /// The path segment that selects events of this status.
    pub fn as_str(&self) -> (r: &'static str)
        ensures
            r@ == self.name(),
    {
        proof {
            reveal_strlit("past");
            reveal_strlit("running");
            reveal_strlit("upcoming");
        }
        let r: &'static str = match self {
            EventStatus::Past => "past",
            EventStatus::Running => "running",
            EventStatus::Upcoming => "upcoming",
        };
        assert(r@ =~= self.name());
        r
    }
}

} // verus!
