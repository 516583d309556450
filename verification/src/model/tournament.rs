use vstd::prelude::*;
use crate::model::league::CompactLeague;
use crate::model::matches::CompactMatch;
use crate::model::player::{CompactPlayer, Player};
use crate::model::series::CompactSeries;
use crate::model::team::{CompactTeam, Team};
use crate::model::{Timestamp, VideoGame, Winner};

verus! {

#[derive(Debug, Clone, Eq, PartialEq, Hash)]
pub struct Tournament {
    pub inner: CompactTournament,
    pub expected_roster: Vec<Roster>,
    pub league: CompactLeague,
    pub matches: Vec<CompactMatch>,
    pub serie: CompactSeries,
    pub teams: Vec<CompactTeam>,
    pub video_game: VideoGame,
}

#[derive(Debug, Clone, Eq, PartialEq, Hash)]
pub struct Roster {
    pub players: Vec<CompactPlayer>,
    pub team: CompactTeam,
}

#[derive(Debug, Clone, Eq, PartialEq, Hash)]
pub struct CompactTournament {
    pub begin_at: Option<Timestamp>,
    pub end_at: Option<Timestamp>,
    pub detailed_stats: bool,
    pub has_bracket: bool,
    pub id: u64,
    pub league_id: u64,
    pub live_supported: bool,
    pub modified_at: Timestamp,
    pub name: String,
    pub prize_pool: Option<String>,
    pub serie_id: u64,
    pub slug: String,
    pub tier: Option<Tier>,
    pub winner: Option<Winner>,
}

#[derive(Debug, Copy, Clone, Eq, PartialEq, Ord, PartialOrd, Hash)]
pub enum Tier {
    Unranked,
    D,
    C,
    B,
    A,
    S,
}

#[derive(Debug, Clone, Eq, PartialEq, Hash)]
pub enum TournamentRosters {
    Team(Vec<Team>),
    Player(Vec<Player>),
}

#[derive(Debug, Clone, Eq, PartialEq, Hash)]
#[allow(clippy::large_enum_variant)]
pub enum TournamentStanding {
    Bracket(BracketStanding),
    Group(GroupStanding),
}

#[derive(Debug, Clone, Eq, PartialEq, Hash)]
pub struct BracketStanding {
    pub last_match: CompactMatch,
    pub rank: u64,
    pub team: CompactTeam,
}

#[derive(Debug, Clone, Eq, PartialEq, Hash)]
pub struct GroupStanding {
    pub losses: u64,
    pub rank: u64,
    pub team: CompactTeam,
    pub ties: Option<u64>,
    pub total: u64,
    pub wins: u64,
}

impl From<Tournament> for CompactTournament {
    fn from(value: Tournament) -> (r: Self) {
        value.inner
    }
}

impl vstd::std_specs::convert::FromSpecImpl<Tournament> for CompactTournament {
    open spec fn obeys_from_spec() -> bool {
        true
    }

    open spec fn from_spec(value: Tournament) -> Self {
        value.inner
    }
}

} // verus!
