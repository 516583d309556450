//! The winner of a match, a series or a tournament, and how it is read.
//!
//! The API writes a winner in three shapes, as members of the object that
//! the winner belongs to:
//!
//! - flat: `winner_id` and `winner_type`;
//! - expanded: `winner` with the winning team or player in full, beside
//!   `winner_id` and `winner_type`;
//! - compact: `winner` with an object of just `id` and `type`.
//!
//! All three read as one [`Winner`].

use vstd::prelude::*;
use vstd::string::*;
use crate::endpoint::entries::same_text;
use crate::json::{
    get_member, member, members, read_u64, u64_in, JsonScalar, JsonValue, Scalar, Value,
};
use crate::model::player::{player_of, CompactPlayer, CompactPlayerView};
use crate::model::team::{team_of, CompactTeam, CompactTeamView};

verus! {

/// Who won: a team or a player, by number where the API gave one, and in
/// full where it sent the winner along.
#[derive(Debug, Clone, Eq, PartialEq, Hash)]
pub enum Winner {
    Team {
        /// The team ID that won the event.
        id: Option<u64>,
        /// The team that won the event. This is only present in Match objects.
        team: Option<Box<CompactTeam>>,
    },
    Player {
        /// The player ID that won the event.
        id: Option<u64>,
        /// The player that won the event. This is only present in Match objects.
        player: Option<Box<CompactPlayer>>,
    },
}

/// The mathematical content of a [`Winner`].
pub enum WinnerView {
    Team { id: Option<u64>, team: Option<CompactTeamView> },
    Player { id: Option<u64>, player: Option<CompactPlayerView> },
}

impl View for Winner {
    type V = WinnerView;

    open spec fn view(&self) -> WinnerView {
        match self {
            Winner::Team { id, team } => WinnerView::Team {
                id: *id,
                team: match team {
                    Some(t) => Some((**t)@),
                    None => None,
                },
            },
            Winner::Player { id, player } => WinnerView::Player {
                id: *id,
                player: match player {
                    Some(p) => Some((**p)@),
                    None => None,
                },
            },
        }
    }
}

/// Whether the winner is a team or a player.
#[derive(Debug, Copy, Clone, Eq, PartialEq, Hash)]
pub enum WinnerType {
    Team,
    Player,
}

/// The members of an object by which a winner is written.
#[derive(Debug, Copy, Clone, Eq, PartialEq, Hash)]
pub enum WinnerField {
    Winner,
    WinnerId,
    WinnerType,
}

/// Why no winner could be read.
#[derive(Debug, Copy, Clone, Eq, PartialEq, Hash)]
pub enum WinnerError {
    /// The member stands twice.
    DuplicateField(WinnerField),
    /// The member is needed and is not there, or is null.
    MissingField(WinnerField),
    /// The member holds a value of the wrong type.
    InvalidValue(WinnerField),
    /// `winner` holds something that is neither the compact shape nor the
    /// team or player that `winner_type` announces.
    InvalidNested,
}

impl WinnerField {
    /// The name of the member.
    pub open spec fn name_text(self) -> Seq<char> {
        match self {
            WinnerField::Winner => "winner"@,
            WinnerField::WinnerId => "winner_id"@,
            WinnerField::WinnerType => "winner_type"@,
        }
    }

    /// The name of the member.
    pub fn name(&self) -> (r: &'static str)
        ensures
            r@ == self.name_text(),
    {
        match self {
            WinnerField::Winner => "winner",
            WinnerField::WinnerId => "winner_id",
            WinnerField::WinnerType => "winner_type",
        }
    }
}

impl WinnerError {
    /// The error in words.
    pub open spec fn message_text(self) -> Seq<char> {
        match self {
            WinnerError::DuplicateField(field) => "duplicate field `"@ + field.name_text() + "`"@,
            WinnerError::MissingField(field) => "missing field `"@ + field.name_text() + "`"@,
            WinnerError::InvalidValue(field) => "invalid value for `"@ + field.name_text() + "`"@,
            WinnerError::InvalidNested => "invalid value for `winner`"@,
        }
    }

    /// The error in words.
    pub fn message(&self) -> (r: String)
        ensures
            r@ == self.message_text(),
    {
        match self {
            WinnerError::DuplicateField(field) => {
                let mut text = String::from_str("duplicate field `");
                text.append(field.name());
                text.append("`");
                text
            },
            WinnerError::MissingField(field) => {
                let mut text = String::from_str("missing field `");
                text.append(field.name());
                text.append("`");
                text
            },
            WinnerError::InvalidValue(field) => {
                let mut text = String::from_str("invalid value for `");
                text.append(field.name());
                text.append("`");
                text
            },
            WinnerError::InvalidNested => String::from_str("invalid value for `winner`"),
        }
    }
}

/// The kind of winner that a text names.
pub open spec fn tag_of(s: Seq<char>) -> Option<WinnerType> {
    if s == "Team"@ {
        Some(WinnerType::Team)
    } else if s == "Player"@ {
        Some(WinnerType::Player)
    } else {
        None
    }
}

/// What `winner_type` gives: nothing where it is null, the kind where it
/// names one; the outer `None` is for any other value.
pub open spec fn type_in(v: Value) -> Option<Option<WinnerType>> {
    match v {
        Value::Scalar(Scalar::Null) => Some(None),
        Value::Scalar(Scalar::Text(s)) => match tag_of(s) {
            Some(tp) => Some(Some(tp)),
            None => None,
        },
        _ => None,
    }
}

/// What `winner_id` gives: nothing where it is null, the number where it
/// holds one; the outer `None` is for any other value.
pub open spec fn id_in(v: Value) -> Option<Option<u64>> {
    match v {
        Value::Scalar(Scalar::Null) => Some(None),
        Value::Scalar(Scalar::Unsigned(n)) => Some(Some(n)),
        _ => None,
    }
}

/// What has been gathered of a winner while the members of its object are
/// gone through.
#[derive(Debug, PartialEq, Eq)]
pub struct WinnerDraft {
    tp: Option<WinnerType>,
    id: Option<u64>,
    obj: Option<JsonValue>,
    seen_type: bool,
    seen_id: bool,
}

/// The mathematical content of a [`WinnerDraft`].
pub struct DraftView {
    /// The kind that `winner_type` gave.
    pub tp: Option<WinnerType>,
    /// The number that `winner_id` gave.
    pub id: Option<u64>,
    /// The value of `winner`, where that member was met.
    pub obj: Option<Value>,
    /// Whether `winner_type` was met.
    pub seen_type: bool,
    /// Whether `winner_id` was met.
    pub seen_id: bool,
}

impl View for WinnerDraft {
    type V = DraftView;

    closed spec fn view(&self) -> DraftView {
        DraftView {
            tp: self.tp,
            id: self.id,
            obj: match self.obj {
                Some(v) => Some(v@),
                None => None,
            },
            seen_type: self.seen_type,
            seen_id: self.seen_id,
        }
    }
}

/// A draft before any member was met.
pub open spec fn empty_draft() -> DraftView {
    DraftView { tp: None, id: None, obj: None, seen_type: false, seen_id: false }
}

/// The draft after one more member. A member that stands twice is an error,
/// and so is a `winner_id` or `winner_type` of the wrong type; a member with
/// another name changes nothing.
pub open spec fn accept(d: DraftView, key: Seq<char>, value: Value) -> Result<
    DraftView,
    WinnerError,
> {
    if key == "winner"@ {
        if d.obj.is_some() {
            Err(WinnerError::DuplicateField(WinnerField::Winner))
        } else {
            Ok(DraftView { obj: Some(value), ..d })
        }
    } else if key == "winner_id"@ {
        if d.seen_id {
            Err(WinnerError::DuplicateField(WinnerField::WinnerId))
        } else {
            match id_in(value) {
                Some(id) => Ok(DraftView { id, seen_id: true, ..d }),
                None => Err(WinnerError::InvalidValue(WinnerField::WinnerId)),
            }
        }
    } else if key == "winner_type"@ {
        if d.seen_type {
            Err(WinnerError::DuplicateField(WinnerField::WinnerType))
        } else {
            match type_in(value) {
                Some(tp) => Ok(DraftView { tp, seen_type: true, ..d }),
                None => Err(WinnerError::InvalidValue(WinnerField::WinnerType)),
            }
        }
    } else {
        Ok(d)
    }
}

/// The draft after the members `entries`, met first to last, or the first
/// error among them.
pub open spec fn accept_all(d: DraftView, entries: Seq<(Seq<char>, Value)>) -> Result<
    DraftView,
    WinnerError,
>
    decreases entries.len(),
{
    if entries.len() == 0 {
        Ok(d)
    } else {
        match accept(d, entries[0].0, entries[0].1) {
            Ok(next) => accept_all(next, entries.drop_first()),
            Err(e) => Err(e),
        }
    }
}

/// The winner that the flat shape gives: the kind must be known.
pub open spec fn flat_winner(tp: Option<WinnerType>, id: Option<u64>) -> Result<
    WinnerView,
    WinnerError,
> {
    match tp {
        None => Err(WinnerError::MissingField(WinnerField::WinnerType)),
        Some(WinnerType::Team) => Ok(WinnerView::Team { id, team: None }),
        Some(WinnerType::Player) => Ok(WinnerView::Player { id, player: None }),
    }
}

/// The team that wins in full: `team` is what `winner` was read as, or `None`
/// where no team could be read from it.
pub open spec fn winning_team(id: Option<u64>, team: Option<CompactTeamView>) -> Result<
    WinnerView,
    WinnerError,
> {
    match team {
        Some(team) => Ok(WinnerView::Team { id, team: Some(team) }),
        None => Err(WinnerError::InvalidNested),
    }
}

/// The player that wins in full: `player` is what `winner` was read as, or
/// `None` where no player could be read from it.
pub open spec fn winning_player(id: Option<u64>, player: Option<CompactPlayerView>) -> Result<
    WinnerView,
    WinnerError,
> {
    match player {
        Some(player) => Ok(WinnerView::Player { id, player: Some(player) }),
        None => Err(WinnerError::InvalidNested),
    }
}

/// The team that an object describes.
pub open spec fn team_in(obj: Value) -> Option<CompactTeamView> {
    match obj {
        Value::Object(ms) => team_of(ms),
        Value::Scalar(_) => None,
    }
}

/// The player that an object describes.
pub open spec fn player_in(obj: Value) -> Option<CompactPlayerView> {
    match obj {
        Value::Object(ms) => player_of(ms),
        Value::Scalar(_) => None,
    }
}

/// The winner that the expanded shape gives: the kind must be known, and
/// `obj` must be an object that describes a team or a player of that kind.
pub open spec fn expanded_winner(tp: Option<WinnerType>, id: Option<u64>, obj: Value) -> Result<
    WinnerView,
    WinnerError,
> {
    match tp {
        None => Err(WinnerError::MissingField(WinnerField::WinnerType)),
        Some(WinnerType::Team) => winning_team(id, team_in(obj)),
        Some(WinnerType::Player) => winning_player(id, player_in(obj)),
    }
}

/// What a value gives as a kind of winner that must be there.
pub open spec fn tag_in(v: Option<Scalar>) -> Option<WinnerType> {
    match v {
        Some(Scalar::Text(s)) => tag_of(s),
        _ => None,
    }
}

/// The number and the kind that the compact shape gives: an object of two
/// members, `id` with an unsigned number and `type` with `Team` or `Player`.
pub open spec fn compact_in(v: Value) -> Option<(u64, WinnerType)> {
    match v {
        Value::Object(ms) => if ms.len() == 2 {
            match (u64_in(member(ms, "id"@)), tag_in(member(ms, "type"@))) {
                (Some(id), Some(tp)) => Some((id, tp)),
                _ => None,
            }
        } else {
            None
        },
        Value::Scalar(_) => None,
    }
}

/// The winner that a draft stands for.
///
/// Without a `winner`, or with a null one, the flat shape decides. With a
/// `winner` in the compact shape, that shape decides and what `winner_id` and
/// `winner_type` said is dropped. With any other `winner`, the expanded shape
/// decides.
pub open spec fn resolve(d: DraftView) -> Result<WinnerView, WinnerError> {
    match d.obj {
        None => flat_winner(d.tp, d.id),
        Some(Value::Scalar(Scalar::Null)) => flat_winner(d.tp, d.id),
        Some(obj) => match compact_in(obj) {
            Some((id, WinnerType::Team)) => Ok(WinnerView::Team { id: Some(id), team: None }),
            Some((id, WinnerType::Player)) => Ok(
                WinnerView::Player { id: Some(id), player: None },
            ),
            None => expanded_winner(d.tp, d.id, obj),
        },
    }
}

/// The members of an object, each with its name and the content of its value.
pub open spec fn value_members(entries: Seq<(String, JsonValue)>) -> Seq<(Seq<char>, Value)> {
    Seq::new(entries.len(), |i: int| (entries[i].0@, entries[i].1@))
}

/// The winner that the members of an object give.
pub open spec fn winner_of(entries: Seq<(Seq<char>, Value)>) -> Result<WinnerView, WinnerError> {
    match accept_all(empty_draft(), entries) {
        Ok(d) => resolve(d),
        Err(e) => Err(e),
    }
}

/// The kind of winner that a text names.
fn read_tag(s: &str) -> (r: Option<WinnerType>)
    ensures
        r == tag_of(s@),
{
    if same_text(s, "Team") {
        Some(WinnerType::Team)
    } else if same_text(s, "Player") {
        Some(WinnerType::Player)
    } else {
        None
    }
}

/// The winner that the flat shape gives.
pub fn from_flat(tp: Option<WinnerType>, id: Option<u64>) -> (r: Result<Winner, WinnerError>)
    ensures
        match flat_winner(tp, id) {
            Ok(v) => r matches Ok(w) && w@ == v,
            Err(e) => r == Err::<Winner, WinnerError>(e),
        },
{
    match tp {
        None => Err(WinnerError::MissingField(WinnerField::WinnerType)),
        Some(WinnerType::Team) => Ok(Winner::Team { id, team: None }),
        Some(WinnerType::Player) => Ok(Winner::Player { id, player: None }),
    }
}

/// The content of an optional team.
pub open spec fn team_view(team: Option<CompactTeam>) -> Option<CompactTeamView> {
    match team {
        Some(t) => Some(t@),
        None => None,
    }
}

/// The content of an optional player.
pub open spec fn player_view(player: Option<CompactPlayer>) -> Option<CompactPlayerView> {
    match player {
        Some(p) => Some(p@),
        None => None,
    }
}

/// The winner that is a team sent along in full; an error where no team
/// could be read.
pub fn with_team(id: Option<u64>, team: Option<CompactTeam>) -> (r: Result<Winner, WinnerError>)
    ensures
        match winning_team(id, team_view(team)) {
            Ok(v) => r matches Ok(w) && w@ == v,
            Err(e) => r == Err::<Winner, WinnerError>(e),
        },
{
    match team {
        Some(team) => Ok(Winner::Team { id, team: Some(Box::new(team)) }),
        None => Err(WinnerError::InvalidNested),
    }
}

/// The winner that is a player sent along in full; an error where no player
/// could be read.
pub fn with_player(id: Option<u64>, player: Option<CompactPlayer>) -> (r: Result<
    Winner,
    WinnerError,
>)
    ensures
        match winning_player(id, player_view(player)) {
            Ok(v) => r matches Ok(w) && w@ == v,
            Err(e) => r == Err::<Winner, WinnerError>(e),
        },
{
    match player {
        Some(player) => Ok(Winner::Player { id, player: Some(Box::new(player)) }),
        None => Err(WinnerError::InvalidNested),
    }
}

/// The winner that the expanded shape gives.
pub fn from_expanded(tp: Option<WinnerType>, id: Option<u64>, obj: &JsonValue) -> (r: Result<
    Winner,
    WinnerError,
>)
    ensures
        match expanded_winner(tp, id, obj@) {
            Ok(v) => r matches Ok(w) && w@ == v,
            Err(e) => r == Err::<Winner, WinnerError>(e),
        },
{
    match tp {
        None => Err(WinnerError::MissingField(WinnerField::WinnerType)),
        Some(WinnerType::Team) => {
            let team = match obj {
                JsonValue::Object(entries) => CompactTeam::from_members(entries),
                JsonValue::Scalar(_) => None,
            };
            with_team(id, team)
        },
        Some(WinnerType::Player) => {
            let player = match obj {
                JsonValue::Object(entries) => CompactPlayer::from_members(entries),
                JsonValue::Scalar(_) => None,
            };
            with_player(id, player)
        },
    }
}

/// The number and the kind that the compact shape gives.
pub fn read_compact(obj: &JsonValue) -> (r: Option<(u64, WinnerType)>)
    ensures
        r == compact_in(obj@),
{
    match obj {
        JsonValue::Object(entries) => {
            if entries.len() != 2 {
                return None;
            }
            let id = read_u64(get_member(entries, "id"));
            let tp = match get_member(entries, "type") {
                Some(JsonScalar::String(s)) => read_tag(s.as_str()),
                _ => None,
            };
            match (id, tp) {
                (Some(id), Some(tp)) => Some((id, tp)),
                _ => None,
            }
        },
        JsonValue::Scalar(_) => None,
    }
}

impl WinnerDraft {
    /// A draft before any member was met.
    pub fn new() -> (r: Self)
        ensures
            r@ == empty_draft(),
    {
        WinnerDraft { tp: None, id: None, obj: None, seen_type: false, seen_id: false }
    }

    /// The draft after one more member.
    pub fn accept(self, key: &str, value: &JsonValue) -> (r: Result<Self, WinnerError>)
        ensures
            match accept(self@, key@, value@) {
                Ok(v) => r matches Ok(d) && d@ == v,
                Err(e) => r == Err::<Self, WinnerError>(e),
            },
    {
        let WinnerDraft { tp, id, obj, seen_type, seen_id } = self;
        if same_text(key, "winner") {
            if obj.is_some() {
                Err(WinnerError::DuplicateField(WinnerField::Winner))
            } else {
                Ok(WinnerDraft { tp, id, obj: Some(value.copy()), seen_type, seen_id })
            }
        } else if same_text(key, "winner_id") {
            if seen_id {
                return Err(WinnerError::DuplicateField(WinnerField::WinnerId));
            }
            match value {
                JsonValue::Scalar(JsonScalar::Null) => Ok(
                    WinnerDraft { tp, id: None, obj, seen_type, seen_id: true },
                ),
                JsonValue::Scalar(JsonScalar::Unsigned(n)) => Ok(
                    WinnerDraft { tp, id: Some(*n), obj, seen_type, seen_id: true },
                ),
                _ => Err(WinnerError::InvalidValue(WinnerField::WinnerId)),
            }
        } else if same_text(key, "winner_type") {
            if seen_type {
                return Err(WinnerError::DuplicateField(WinnerField::WinnerType));
            }
            match value {
                JsonValue::Scalar(JsonScalar::Null) => Ok(
                    WinnerDraft { tp: None, id, obj, seen_type: true, seen_id },
                ),
                JsonValue::Scalar(JsonScalar::String(s)) => match read_tag(s.as_str()) {
                    Some(kind) => Ok(
                        WinnerDraft { tp: Some(kind), id, obj, seen_type: true, seen_id },
                    ),
                    None => Err(WinnerError::InvalidValue(WinnerField::WinnerType)),
                },
                _ => Err(WinnerError::InvalidValue(WinnerField::WinnerType)),
            }
        } else {
            Ok(WinnerDraft { tp, id, obj, seen_type, seen_id })
        }
    }

    /// The winner that the draft stands for.
    pub fn finish(self) -> (r: Result<Winner, WinnerError>)
        ensures
            match resolve(self@) {
                Ok(v) => r matches Ok(w) && w@ == v,
                Err(e) => r == Err::<Winner, WinnerError>(e),
            },
    {
        match &self.obj {
            None => from_flat(self.tp, self.id),
            Some(JsonValue::Scalar(JsonScalar::Null)) => from_flat(self.tp, self.id),
            Some(obj) => match read_compact(obj) {
                Some((id, WinnerType::Team)) => Ok(Winner::Team { id: Some(id), team: None }),
                Some((id, WinnerType::Player)) => Ok(
                    Winner::Player { id: Some(id), player: None },
                ),
                None => from_expanded(self.tp, self.id, obj),
            },
        }
    }
}

impl Winner {
    /// Reads the winner from the members of the object it belongs to. Members
    /// that do not write the winner are passed over.
    pub fn from_entries(entries: &Vec<(String, JsonValue)>) -> (r: Result<Winner, WinnerError>)
        ensures
            match winner_of(value_members(entries@)) {
                Ok(v) => r matches Ok(w) && w@ == v,
                Err(e) => r == Err::<Winner, WinnerError>(e),
            },
    {
        let mut draft: WinnerDraft = WinnerDraft::new();
        let n: usize = entries.len();
        let ghost all = value_members(entries@);
        let mut i: usize = 0;
        assert(all.subrange(0, n as int) =~= all);
        while i < n
            invariant
                i <= n,
                n == entries.len(),
                all == value_members(entries@),
                accept_all(draft@, all.subrange(i as int, n as int)) == accept_all(
                    empty_draft(),
                    all,
                ),
            decreases n - i,
        {
            proof {
                let rest = all.subrange(i as int, n as int);
                assert(rest[0] == (entries[i as int].0@, entries[i as int].1@));
                assert(rest.drop_first() =~= all.subrange(i + 1, n as int));
            }
            match draft.accept(entries[i].0.as_str(), &entries[i].1) {
                Ok(next) => {
                    draft = next;
                },
                Err(e) => {
                    return Err(e);
                },
            }
            i += 1;
        }
        draft.finish()
    }

    /// Reads the winner of an object that may have none: where no winner can
    /// be read, for whatever reason, there is none.
    pub fn from_entries_optional(entries: &Vec<(String, JsonValue)>) -> (r: Option<Winner>)
        ensures
            match winner_of(value_members(entries@)) {
                Ok(v) => r matches Some(w) && w@ == v,
                Err(_) => r.is_none(),
            },
    {
        match Winner::from_entries(entries) {
            Ok(winner) => Some(winner),
            Err(_) => None,
        }
    }
}

} // verus!
