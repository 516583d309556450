use vstd::prelude::*;
use crate::model::series::CompactSeries;
use crate::model::{Timestamp, VideoGame};

verus! {

#[derive(Debug, Clone, Eq, PartialEq, Hash)]
pub struct League {
    pub inner: CompactLeague,
    pub series: Vec<CompactSeries>,
    pub video_game: VideoGame,
}

#[derive(Debug, Clone, Eq, PartialEq, Hash)]
pub struct CompactLeague {
    pub id: u64,
    pub image_url: Option<String>,
    pub modified_at: Timestamp,
    pub name: String,
    pub slug: String,
    pub url: Option<String>,
}

impl From<League> for CompactLeague {
    fn from(value: League) -> (r: Self) {
        value.inner
    }
}

impl vstd::std_specs::convert::FromSpecImpl<League> for CompactLeague {
    open spec fn obeys_from_spec() -> bool {
        true
    }

    open spec fn from_spec(value: League) -> Self {
        value.inner
    }
}

} // verus!
