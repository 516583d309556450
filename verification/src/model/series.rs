use vstd::prelude::*;
use crate::model::league::CompactLeague;
use crate::model::tournament::CompactTournament;
use crate::model::{Timestamp, VideoGame, Winner};

verus! {

#[derive(Debug, Clone, Eq, PartialEq, Hash)]
pub struct Series {
    pub inner: CompactSeries,
    pub league: CompactLeague,
    pub tournaments: Vec<CompactTournament>,
    pub video_game: VideoGame,
}

#[derive(Debug, Clone, Eq, PartialEq, Hash)]
pub struct CompactSeries {
    pub begin_at: Option<Timestamp>,
    pub end_at: Option<Timestamp>,
    pub full_name: String,
    pub id: u64,
    pub league_id: u64,
    pub modified_at: Timestamp,
    pub name: Option<String>,
    pub season: Option<String>,
    pub slug: String,
    pub winner: Option<Winner>,
    pub year: u16,
}

impl From<Series> for CompactSeries {
    fn from(value: Series) -> (r: Self) {
        value.inner
    }
}

impl vstd::std_specs::convert::FromSpecImpl<Series> for CompactSeries {
    open spec fn obeys_from_spec() -> bool {
        true
    }

    open spec fn from_spec(value: Series) -> Self {
        value.inner
    }
}

} // verus!
