use vstd::prelude::*;
use vstd::string::*;
use crate::json::{
    bool_in, get_member, is_named_twice, member, members, named_twice, optional_text_in,
    optional_u8_in, read_bool, read_optional_text, read_optional_u8, read_text, read_u64,
    text_in, text_view, u64_in, JsonScalar, Scalar,
};
use crate::model::clock::{instant_in, optional_day_in, read_instant, read_optional_day};
use crate::model::team::CompactTeam;
use crate::model::{CalendarDate, Timestamp, VideoGame};

verus! {

#[derive(Debug, Clone, Eq, PartialEq, Hash)]
pub struct Player {
    pub inner: CompactPlayer,
    pub current_team: Option<CompactTeam>,
    pub current_video_game: Option<VideoGame>,
}

#[derive(Debug, Clone, Eq, PartialEq, Hash)]
pub struct CompactPlayer {
    /// Whether player is active.
    pub active: bool,
    /// Age of the player, null if unknown. When `birthday` is null, age is an approximation.
    /// Note: this field is only present for users running the Historical plan or up.
    pub age: Option<u8>,
    /// Birthday of the player.
    /// Note: this field is only present for users running the Historical plan or up.
    pub birthday: Option<CalendarDate>,
    /// First name of the player.
    pub first_name: Option<String>,
    /// ID of the player.
    pub id: u64,
    /// URL to the photo of the player.
    pub image_url: Option<String>,
    /// Last name of the player.
    pub last_name: Option<String>,
    pub modified_at: Timestamp,
    /// Professional name of the player.
    pub name: String,
    /// Country code matching the nationality of the player according to the ISO 3166-1 standard (Alpha-2 code).
    /// In addition to the standard, the XK code is used for Kosovo.
    pub nationality: Option<String>,
    /// Role/position of the player. Field value varies depending on the video game.
    /// Note: role is only available for DOTA 2, League of Legends, and Overwatch players.
    pub role: Option<String>,
    /// Unique, human-readable identifier for the player.
    /// `id` and `slug` can be used interchangeably throughout the API.
    pub slug: Option<String>,
}

/// The mathematical content of a [`CompactPlayer`].
pub struct CompactPlayerView {
    pub active: bool,
    pub age: Option<u8>,
    pub birthday: Option<CalendarDate>,
    pub first_name: Option<Seq<char>>,
    pub id: u64,
    pub image_url: Option<Seq<char>>,
    pub last_name: Option<Seq<char>>,
    pub modified_at: Timestamp,
    pub name: Seq<char>,
    pub nationality: Option<Seq<char>>,
    pub role: Option<Seq<char>>,
    pub slug: Option<Seq<char>>,
}

impl View for CompactPlayer {
    type V = CompactPlayerView;

    open spec fn view(&self) -> CompactPlayerView {
        CompactPlayerView {
            active: self.active,
            age: self.age,
            birthday: self.birthday,
            first_name: text_view(self.first_name),
            id: self.id,
            image_url: text_view(self.image_url),
            last_name: text_view(self.last_name),
            modified_at: self.modified_at,
            name: self.name@,
            nationality: text_view(self.nationality),
            role: text_view(self.role),
            slug: text_view(self.slug),
        }
    }
}

/// One of the members that make up a player stands twice.
pub open spec fn player_member_twice(ms: Seq<(Seq<char>, Scalar)>) -> bool {
    named_twice(ms, "active"@) || named_twice(ms, "age"@) || named_twice(ms, "birthday"@)
        || named_twice(ms, "first_name"@) || named_twice(ms, "id"@) || named_twice(
        ms,
        "image_url"@,
    ) || named_twice(ms, "last_name"@) || named_twice(ms, "modified_at"@) || named_twice(
        ms,
        "name"@,
    ) || named_twice(ms, "nationality"@) || named_twice(ms, "role"@) || named_twice(ms, "slug"@)
}

/// The texts of a player that may be missing or null: first name, image URL,
/// last name, nationality, role and slug.
pub open spec fn player_texts(ms: Seq<(Seq<char>, Scalar)>) -> Option<
    (
        Option<Seq<char>>,
        Option<Seq<char>>,
        Option<Seq<char>>,
        Option<Seq<char>>,
        Option<Seq<char>>,
        Option<Seq<char>>,
    ),
> {
    match (
        optional_text_in(member(ms, "first_name"@)),
        optional_text_in(member(ms, "image_url"@)),
        optional_text_in(member(ms, "last_name"@)),
        optional_text_in(member(ms, "nationality"@)),
        optional_text_in(member(ms, "role"@)),
        optional_text_in(member(ms, "slug"@)),
    ) {
        (Some(a), Some(b), Some(c), Some(d), Some(e), Some(f)) => Some((a, b, c, d, e, f)),
        _ => None,
    }
}

/// The player that the members of an object describe, given what
/// `modified_at` and `birthday` were read as: for `modified_at` the instant,
/// or `None` where no instant was read from it; for `birthday` the day, no
/// day where it is missing or null, or `None` where it holds something that
/// is no day. `active`, `id` and `name` must be there; the other members may
/// be missing or null. Members with other names are passed over. There is no
/// player where one of the members of a player stands twice or holds a value
/// of another type, or where no instant or something that is no day was read.
pub open spec fn player_at(
    ms: Seq<(Seq<char>, Scalar)>,
    modified_at: Option<Timestamp>,
    birthday: Option<Option<CalendarDate>>,
) -> Option<CompactPlayerView> {
    if player_member_twice(ms) {
        None
    } else {
        match (
            bool_in(member(ms, "active"@)),
            optional_u8_in(member(ms, "age"@)),
            birthday,
            u64_in(member(ms, "id"@)),
            modified_at,
            text_in(member(ms, "name"@)),
            player_texts(ms),
        ) {
            (
                Some(active),
                Some(age),
                Some(birthday),
                Some(id),
                Some(modified_at),
                Some(name),
                Some(texts),
            ) => Some(
                CompactPlayerView {
                    active,
                    age,
                    birthday,
                    first_name: texts.0,
                    id,
                    image_url: texts.1,
                    last_name: texts.2,
                    modified_at,
                    name,
                    nationality: texts.3,
                    role: texts.4,
                    slug: texts.5,
                },
            ),
            _ => None,
        }
    }
}

/// The player that the members of an object describe: as `player_at` says,
/// with `modified_at` read as an instant in ISO 8601 and `birthday` as a day
/// written as year, month and day.
pub open spec fn player_of(ms: Seq<(Seq<char>, Scalar)>) -> Option<CompactPlayerView> {
    player_at(
        ms,
        instant_in(member(ms, "modified_at"@)),
        optional_day_in(member(ms, "birthday"@)),
    )
}

impl CompactPlayer {
    /// Reads a player from the members of a JSON object.
    pub fn from_members(entries: &Vec<(String, JsonScalar)>) -> (r: Option<CompactPlayer>)
        ensures
            match player_of(members(entries@)) {
                Some(v) => r.is_some() && r.unwrap()@ == v,
                None => r.is_none(),
            },
    {
        let modified_at = read_instant(get_member(entries, "modified_at"));
        let birthday = read_optional_day(get_member(entries, "birthday"));
        CompactPlayer::from_members_at(entries, modified_at, birthday)
    }

    /// Reads a player from the members of a JSON object, `modified_at` and
    /// `birthday` having been read already: `modified_at` is the instant, or
    /// `None` where there is none; `birthday` is the day, no day where the
    /// member is missing or null, or `None` where it holds no day.
    pub fn from_members_at(
        entries: &Vec<(String, JsonScalar)>,
        modified_at: Option<Timestamp>,
        birthday: Option<Option<CalendarDate>>,
    ) -> (r: Option<CompactPlayer>)
        ensures
            match player_at(members(entries@), modified_at, birthday) {
                Some(v) => r.is_some() && r.unwrap()@ == v,
                None => r.is_none(),
            },
    {
        if is_named_twice(entries, "active") || is_named_twice(entries, "age") || is_named_twice(
            entries,
            "birthday",
        ) || is_named_twice(entries, "first_name") || is_named_twice(entries, "id")
            || is_named_twice(entries, "image_url") || is_named_twice(entries, "last_name")
            || is_named_twice(entries, "modified_at") || is_named_twice(entries, "name")
            || is_named_twice(entries, "nationality") || is_named_twice(entries, "role")
            || is_named_twice(entries, "slug") {
            return None;
        }
        let active = read_bool(get_member(entries, "active"));
        let age = read_optional_u8(get_member(entries, "age"));
        let id = read_u64(get_member(entries, "id"));
        let name = read_text(get_member(entries, "name"));
        let first_name = read_optional_text(get_member(entries, "first_name"));
        let image_url = read_optional_text(get_member(entries, "image_url"));
        let last_name = read_optional_text(get_member(entries, "last_name"));
        let nationality = read_optional_text(get_member(entries, "nationality"));
        let role = read_optional_text(get_member(entries, "role"));
        let slug = read_optional_text(get_member(entries, "slug"));
        match (active, age, birthday, id, modified_at, name) {
            (Some(active), Some(age), Some(birthday), Some(id), Some(modified_at), Some(name)) => {
                match (first_name, image_url, last_name, nationality, role, slug) {
                    (
                        Some(first_name),
                        Some(image_url),
                        Some(last_name),
                        Some(nationality),
                        Some(role),
                        Some(slug),
                    ) => Some(
                        CompactPlayer {
                            active,
                            age,
                            birthday,
                            first_name,
                            id,
                            image_url,
                            last_name,
                            modified_at,
                            name,
                            nationality,
                            role,
                            slug,
                        },
                    ),
                    _ => None,
                }
            },
            _ => None,
        }
    }
}

impl From<Player> for CompactPlayer {
    fn from(value: Player) -> (r: Self) {
        value.inner
    }
}

impl vstd::std_specs::convert::FromSpecImpl<Player> for CompactPlayer {
    open spec fn obeys_from_spec() -> bool {
        true
    }

    open spec fn from_spec(value: Player) -> Self {
        value.inner
    }
}

} // verus!
