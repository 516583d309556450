use vstd::prelude::*;
use crate::model::league::CompactLeague;
use crate::model::player::CompactPlayer;
use crate::model::series::CompactSeries;
use crate::model::team::CompactTeam;
use crate::model::tournament::CompactTournament;
use crate::model::{Timestamp, VideoGame, Winner};

verus! {

#[derive(Debug, Clone, Eq, PartialEq, Hash)]
pub struct Match {
    pub inner: CompactMatch,
    pub league: CompactLeague,
    pub league_id: u64,
    pub results: Vec<MatchResult>,
    pub serie: CompactSeries,
    pub serie_id: u64,
    pub tournament: CompactTournament,
    pub video_game: VideoGame,
    pub video_game_version: Option<MatchVideoGameVersion>,
}

#[derive(Debug, Copy, Clone, Eq, PartialEq, Hash)]
pub enum MatchResult {
    Team { score: u32, team_id: u64 },
    Player { score: u32, player_id: u64 },
}

#[derive(Debug, Clone, Eq, PartialEq, Hash)]
pub struct MatchVideoGameVersion {
    /// Whether this videogame version is current
    pub current: bool,
    pub name: String,
}

#[derive(Debug, Clone, Eq, PartialEq, Hash)]
pub struct CompactMatch {
    pub begin_at: Option<Timestamp>,
    /// Whether the match offers full stats.
    pub detailed_stats: bool,
    /// Whether result of the match is a draw.
    pub draw: bool,
    pub end_at: Option<Timestamp>,
    /// Whether match was forfeited.
    pub forfeit: bool,
    /// ID of the opponent with a game advantage.
    pub game_advantage: Option<u64>,
    pub id: u64,
    pub live: MatchLive,
    pub match_type: MatchType,
    pub modified_at: Timestamp,
    pub name: String,
    /// Number of games.
    pub number_of_games: u32,
    pub original_scheduled_at: Option<Timestamp>,
    /// Whether match has been rescheduled.
    pub rescheduled: Option<bool>,
    pub scheduled_at: Option<Timestamp>,
    pub slug: String,
    pub status: MatchStatus,
    pub tournament_id: u64,
    pub winner: Option<Winner>,
}

#[derive(Debug, Copy, Clone, Eq, PartialEq, Hash)]
pub enum MatchType {
    AllGamesPlayed,
    BestOf,
    Custom,
    FirstTo,
    OwBestOf,
    RedBullHomeGround,
}

#[derive(Debug, Copy, Clone, Eq, PartialEq, Hash)]
pub enum MatchStatus {
    Canceled,
    Finished,
    NotStarted,
    Postponed,
    Running,
}

#[derive(Debug, Clone, Eq, PartialEq, Hash)]
pub struct MatchLive {
    pub opens_at: Option<Timestamp>,
    /// Whether live is supported
    pub supported: bool,
    pub url: Option<String>,
}

#[derive(Debug, Clone, Eq, PartialEq, Hash)]
pub enum CompactMatchOpponent {
    Team(CompactTeam),
    Player(CompactPlayer),
}

#[derive(Debug, Clone, Eq, PartialEq, Hash)]
pub enum MatchOpponents {
    Team(Vec<CompactTeam>),
    Player(Vec<CompactPlayer>),
}

impl From<Match> for CompactMatch {
    fn from(value: Match) -> (r: Self) {
        value.inner
    }
}

impl vstd::std_specs::convert::FromSpecImpl<Match> for CompactMatch {
    open spec fn obeys_from_spec() -> bool {
        true
    }

    open spec fn from_spec(value: Match) -> Self {
        value.inner
    }
}

} // verus!
