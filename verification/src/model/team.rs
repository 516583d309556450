use vstd::prelude::*;
use vstd::string::*;
use crate::json::{
    get_member, is_named_twice, member, members, named_twice, optional_text_in,
    read_optional_text, read_text, read_u64, text_in, text_view, u64_in, JsonScalar, Scalar,
};
use crate::model::clock::{instant_in, read_instant};
use crate::model::player::CompactPlayer;
use crate::model::{Timestamp, VideoGame};

verus! {

#[derive(Debug, Clone, Eq, PartialEq, Hash)]
pub struct Team {
    pub inner: CompactTeam,
    pub current_video_game: Option<VideoGame>,
    pub players: Vec<CompactPlayer>,
}

#[derive(Debug, Clone, Eq, PartialEq, Hash)]
pub struct CompactTeam {
    pub acronym: Option<String>,
    /// The ID of the team.
    pub id: u64,
    /// URL of the team logo
    pub image_url: Option<String>,
    /// The team's organization location.
    pub location: Option<String>,
    pub modified_at: Timestamp,
    /// The name of the team.
    pub name: String,
    pub slug: Option<String>,
}

/// The mathematical content of a [`CompactTeam`].
pub struct CompactTeamView {
    pub acronym: Option<Seq<char>>,
    pub id: u64,
    pub image_url: Option<Seq<char>>,
    pub location: Option<Seq<char>>,
    pub modified_at: Timestamp,
    pub name: Seq<char>,
    pub slug: Option<Seq<char>>,
}

impl View for CompactTeam {
    type V = CompactTeamView;

    open spec fn view(&self) -> CompactTeamView {
        CompactTeamView {
            acronym: text_view(self.acronym),
            id: self.id,
            image_url: text_view(self.image_url),
            location: text_view(self.location),
            modified_at: self.modified_at,
            name: self.name@,
            slug: text_view(self.slug),
        }
    }
}

/// One of the members that make up a team stands twice.
pub open spec fn team_member_twice(ms: Seq<(Seq<char>, Scalar)>) -> bool {
    named_twice(ms, "acronym"@) || named_twice(ms, "id"@) || named_twice(ms, "image_url"@)
        || named_twice(ms, "location"@) || named_twice(ms, "modified_at"@) || named_twice(
        ms,
        "name"@,
    ) || named_twice(ms, "slug"@)
}

/// The team that the members of an object describe, given the instant that
/// `modified_at` was read as, or `None` where no instant was read from it.
/// `id` and `name` must be there; `acronym`, `image_url`, `location` and
/// `slug` may be missing or null. Members with other names are passed over.
/// There is no team where one of the members of a team stands twice or holds
/// a value of another type, or where no instant was read.
pub open spec fn team_at(ms: Seq<(Seq<char>, Scalar)>, modified_at: Option<Timestamp>) -> Option<
    CompactTeamView,
> {
    if team_member_twice(ms) {
        None
    } else {
        match (
            optional_text_in(member(ms, "acronym"@)),
            u64_in(member(ms, "id"@)),
            optional_text_in(member(ms, "image_url"@)),
            optional_text_in(member(ms, "location"@)),
            modified_at,
            text_in(member(ms, "name"@)),
            optional_text_in(member(ms, "slug"@)),
        ) {
            (
                Some(acronym),
                Some(id),
                Some(image_url),
                Some(location),
                Some(modified_at),
                Some(name),
                Some(slug),
            ) => Some(
                CompactTeamView { acronym, id, image_url, location, modified_at, name, slug },
            ),
            _ => None,
        }
    }
}

/// The team that the members of an object describe: as `team_at` says, with
/// `modified_at` read as an instant in ISO 8601.
pub open spec fn team_of(ms: Seq<(Seq<char>, Scalar)>) -> Option<CompactTeamView> {
    team_at(ms, instant_in(member(ms, "modified_at"@)))
}

impl CompactTeam {
    /// Reads a team from the members of a JSON object.
    pub fn from_members(entries: &Vec<(String, JsonScalar)>) -> (r: Option<CompactTeam>)
        ensures
            match team_of(members(entries@)) {
                Some(v) => r.is_some() && r.unwrap()@ == v,
                None => r.is_none(),
            },
    {
        let modified_at = read_instant(get_member(entries, "modified_at"));
        CompactTeam::from_members_at(entries, modified_at)
    }

    /// Reads a team from the members of a JSON object, `modified_at` having
    /// been read already: `modified_at` is the instant it holds, or `None`
    /// where it holds none.
    pub fn from_members_at(
        entries: &Vec<(String, JsonScalar)>,
        modified_at: Option<Timestamp>,
    ) -> (r: Option<CompactTeam>)
        ensures
            match team_at(members(entries@), modified_at) {
                Some(v) => r.is_some() && r.unwrap()@ == v,
                None => r.is_none(),
            },
    {
        if is_named_twice(entries, "acronym") || is_named_twice(entries, "id") || is_named_twice(
            entries,
            "image_url",
        ) || is_named_twice(entries, "location") || is_named_twice(entries, "modified_at")
            || is_named_twice(entries, "name") || is_named_twice(entries, "slug") {
            return None;
        }
        let acronym = read_optional_text(get_member(entries, "acronym"));
        let id = read_u64(get_member(entries, "id"));
        let image_url = read_optional_text(get_member(entries, "image_url"));
        let location = read_optional_text(get_member(entries, "location"));
        let name = read_text(get_member(entries, "name"));
        let slug = read_optional_text(get_member(entries, "slug"));
        match (acronym, id, image_url, location, modified_at, name, slug) {
            (
                Some(acronym),
                Some(id),
                Some(image_url),
                Some(location),
                Some(modified_at),
                Some(name),
                Some(slug),
            ) => Some(CompactTeam { acronym, id, image_url, location, modified_at, name, slug }),
            _ => None,
        }
    }
}

impl From<Team> for CompactTeam {
    fn from(value: Team) -> (r: Self) {
        value.inner
    }
}

impl vstd::std_specs::convert::FromSpecImpl<Team> for CompactTeam {
    open spec fn obeys_from_spec() -> bool {
        true
    }

    open spec fn from_spec(value: Team) -> Self {
        value.inner
    }
}

} // verus!
