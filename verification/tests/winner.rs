use pandascore::json::{JsonScalar, JsonValue};
use pandascore::model::player::CompactPlayer;
use pandascore::model::team::CompactTeam;
use pandascore::model::winner::{with_player, with_team, WinnerDraft, WinnerError, WinnerField};
use pandascore::model::{CalendarDate, Timestamp, Winner};

fn scalar(value: &serde_json::Value) -> JsonScalar {
    if value.is_null() {
        JsonScalar::Null
    } else if let Some(b) = value.as_bool() {
        JsonScalar::Bool(b)
    } else if let Some(n) = value.as_u64() {
        JsonScalar::Unsigned(n)
    } else if let Some(i) = value.as_i64() {
        JsonScalar::Signed(i)
    } else if let Some(s) = value.as_str() {
        JsonScalar::String(s.to_owned())
    } else {
        JsonScalar::Other
    }
}

fn value(value: &serde_json::Value) -> JsonValue {
    match value.as_object() {
        Some(map) => JsonValue::Object(map.iter().map(|(k, v)| (k.clone(), scalar(v))).collect()),
        None => JsonValue::Scalar(scalar(value)),
    }
}

fn entries(json: &str) -> Vec<(String, JsonValue)> {
    let parsed: serde_json::Value = serde_json::from_str(json).unwrap();
    parsed.as_object().unwrap().iter().map(|(k, v)| (k.clone(), value(v))).collect()
}

#[test]
fn test_winner_case1() {
    let json = r#"{"extra":42,"winner_id":1,"winner_type":"Team"}"#;
    let test = Winner::Team { id: Some(1), team: None };
    assert_eq!(Winner::from_entries(&entries(json)).unwrap(), test);

    let json = r#"{"extra":42,"winner_id":1,"winner_type":"Player"}"#;
    let test = Some(Winner::Player { id: Some(1), player: None });
    assert_eq!(Winner::from_entries_optional(&entries(json)), test);

    let json = r#"{"extra":42,"winner_id":null,"winner_type":null}"#;
    assert_eq!(Winner::from_entries_optional(&entries(json)), None);

    let json = r#"{"extra":42,"winner_id":null,"winner_type":"Team"}"#;
    let test = Some(Winner::Team { id: None, team: None });
    assert_eq!(Winner::from_entries_optional(&entries(json)), test);
}

#[test]
fn test_winner_case2() {
    let json = r#"{
    "extra": 42,
    "winner": {
        "modified_at": "1970-01-01T00:00:00Z",
        "id": 1,
        "name": "T1"
    },
    "winner_id": 1,
    "winner_type": "Team"
}"#;
    let test = Winner::Team {
        id: Some(1),
        team: Some(Box::new(CompactTeam {
            acronym: None,
            id: 1,
            image_url: None,
            location: None,
            modified_at: Timestamp { unix_nanos: 0 },
            name: "T1".into(),
            slug: None,
        })),
    };
    assert_eq!(Winner::from_entries(&entries(json)).unwrap(), test);

    let json = r#"{
    "extra": 42,
    "winner": null,
    "winner_id": 1,
    "winner_type": "Team"
}"#;
    let test = Winner::Team { id: Some(1), team: None };
    assert_eq!(Winner::from_entries(&entries(json)).unwrap(), test);
}

#[test]
fn test_winner_case3() {
    let json = r#"{"extra":42,"winner":{"id":1,"type":"Player"}}"#;
    let test = Winner::Player { id: Some(1), player: None };
    assert_eq!(Winner::from_entries(&entries(json)).unwrap(), test);

    let json = r#"{"extra":42,"winner":{"id":1,"type":"Player"}}"#;
    let test = Some(Winner::Player { id: Some(1), player: None });
    assert_eq!(Winner::from_entries_optional(&entries(json)), test);

    let json = r#"{"extra":42,"winner":null}"#;
    assert_eq!(Winner::from_entries_optional(&entries(json)), None);

    let json = r#"{"extra":42,"winner":null,"winner_type":"Team"}"#;
    let test = Some(Winner::Team { id: None, team: None });
    assert_eq!(Winner::from_entries_optional(&entries(json)), test);
}

#[test]
fn winner_without_any_member_is_no_winner() {
    assert_eq!(Winner::from_entries_optional(&entries(r#"{"extra":42}"#)), None);
    assert_eq!(
        Winner::from_entries(&entries(r#"{"extra":42}"#)),
        Err(WinnerError::MissingField(WinnerField::WinnerType))
    );
}

#[test]
fn compact_winner_overrides_the_flat_members() {
    let json = r#"{"winner":{"id":7,"type":"Player"},"winner_id":1,"winner_type":"Team"}"#;
    assert_eq!(
        Winner::from_entries(&entries(json)).unwrap(),
        Winner::Player { id: Some(7), player: None }
    );
}

#[test]
fn winner_with_an_unknown_inner_type_is_read_in_full() {
    let json = r#"{"winner":{"id":7,"type":"Coach"},"winner_id":1,"winner_type":"Team"}"#;
    assert_eq!(Winner::from_entries(&entries(json)), Err(WinnerError::InvalidNested));
    let json = r#"{"winner":{"id":7,"type":"Coach","name":"T1","modified_at":"2024-02-03T04:05:06+01:00"},"winner_id":null,"winner_type":"Team"}"#;
    match Winner::from_entries(&entries(json)).unwrap() {
        Winner::Team { id, team } => {
            assert_eq!(id, None);
            let team = team.unwrap();
            assert_eq!(team.id, 7);
            assert_eq!(team.name, "T1");
            assert_eq!(team.modified_at, Timestamp { unix_nanos: 1_706_929_506_000_000_000 });
        }
        Winner::Player { .. } => panic!("a team was announced"),
    }
}

#[test]
fn winner_in_full_needs_its_type() {
    let json = r#"{"winner":{"id":7,"name":"T1","modified_at":"1970-01-01T00:00:00Z"},"winner_id":7}"#;
    assert_eq!(
        Winner::from_entries(&entries(json)),
        Err(WinnerError::MissingField(WinnerField::WinnerType))
    );
}

#[test]
fn winner_in_full_as_a_player() {
    let json = r#"{"winner":{"active":true,"age":27,"birthday":"1996-05-07","id":585,"name":"Faker","first_name":"Lee","modified_at":"1970-01-01T00:00:01Z","role":"mid"},"winner_id":585,"winner_type":"Player"}"#;
    match Winner::from_entries(&entries(json)).unwrap() {
        Winner::Player { id, player } => {
            assert_eq!(id, Some(585));
            let player = player.unwrap();
            assert!(player.active);
            assert_eq!(player.age, Some(27));
            let birthday = player.birthday.unwrap();
            assert_eq!((birthday.year, birthday.month, birthday.day), (1996, 5, 7));
            assert_eq!(player.first_name.as_deref(), Some("Lee"));
            assert_eq!(player.last_name, None);
            assert_eq!(player.modified_at, Timestamp { unix_nanos: 1_000_000_000 });
            assert_eq!(player.name, "Faker");
            assert_eq!(player.role.as_deref(), Some("mid"));
        }
        Winner::Team { .. } => panic!("a player was announced"),
    }
    let json = r#"{"winner":{"active":true,"birthday":"7 May 1996","id":585,"name":"Faker","modified_at":"1970-01-01T00:00:01Z"},"winner_type":"Player"}"#;
    assert_eq!(Winner::from_entries(&entries(json)), Err(WinnerError::InvalidNested));
}

#[test]
fn winner_members_of_the_wrong_type_are_errors() {
    assert_eq!(
        Winner::from_entries(&entries(r#"{"winner_id":"1","winner_type":"Team"}"#)),
        Err(WinnerError::InvalidValue(WinnerField::WinnerId))
    );
    assert_eq!(
        Winner::from_entries(&entries(r#"{"winner_id":-1,"winner_type":"Team"}"#)),
        Err(WinnerError::InvalidValue(WinnerField::WinnerId))
    );
    assert_eq!(
        Winner::from_entries(&entries(r#"{"winner_id":1,"winner_type":"Coach"}"#)),
        Err(WinnerError::InvalidValue(WinnerField::WinnerType))
    );
    assert_eq!(
        Winner::from_entries(&entries(r#"{"winner_id":1,"winner_type":7}"#)),
        Err(WinnerError::InvalidValue(WinnerField::WinnerType))
    );
}

#[test]
fn a_member_that_stands_twice_is_an_error() {
    let null = || JsonValue::Scalar(JsonScalar::Null);
    let team = || JsonValue::Scalar(JsonScalar::String("Team".to_owned()));
    let one = || JsonValue::Scalar(JsonScalar::Unsigned(1));
    let twice = vec![("winner_id".to_owned(), one()), ("winner_id".to_owned(), one())];
    assert_eq!(
        Winner::from_entries(&twice),
        Err(WinnerError::DuplicateField(WinnerField::WinnerId))
    );
    let twice = vec![("winner_type".to_owned(), null()), ("winner_type".to_owned(), team())];
    assert_eq!(
        Winner::from_entries(&twice),
        Err(WinnerError::DuplicateField(WinnerField::WinnerType))
    );
    let twice = vec![
        ("winner_type".to_owned(), team()),
        ("winner".to_owned(), null()),
        ("winner".to_owned(), null()),
    ];
    assert_eq!(
        Winner::from_entries(&twice),
        Err(WinnerError::DuplicateField(WinnerField::Winner))
    );
    assert_eq!(
        WinnerError::DuplicateField(WinnerField::Winner).message(),
        "duplicate field `winner`"
    );
    assert_eq!(
        WinnerError::MissingField(WinnerField::WinnerType).message(),
        "missing field `winner_type`"
    );
}

#[test]
fn a_draft_takes_the_members_one_by_one() {
    let draft = WinnerDraft::new();
    let draft = draft
        .accept("winner_type", &JsonValue::Scalar(JsonScalar::String("Player".to_owned())))
        .unwrap();
    let draft = draft.accept("name", &JsonValue::Scalar(JsonScalar::Other)).unwrap();
    let draft = draft.accept("winner_id", &JsonValue::Scalar(JsonScalar::Unsigned(9))).unwrap();
    assert_eq!(draft.finish(), Ok(Winner::Player { id: Some(9), player: None }));
}

fn members(json: &str) -> Vec<(String, JsonScalar)> {
    let parsed: serde_json::Value = serde_json::from_str(json).unwrap();
    parsed.as_object().unwrap().iter().map(|(k, v)| (k.clone(), scalar(v))).collect()
}

#[test]
fn a_team_is_read_with_the_instant_given() {
    let at = Timestamp { unix_nanos: 42 };
    let entries = members(r#"{"id":3,"name":"T1","acronym":"T1","slug":null,"players":[1,2]}"#);
    assert_eq!(
        CompactTeam::from_members_at(&entries, Some(at)),
        Some(CompactTeam {
            acronym: Some("T1".to_owned()),
            id: 3,
            image_url: None,
            location: None,
            modified_at: at,
            name: "T1".to_owned(),
            slug: None,
        })
    );
    assert_eq!(CompactTeam::from_members_at(&entries, None), None);
    assert_eq!(CompactTeam::from_members(&entries), None);
    let entries = members(r#"{"id":"3","name":"T1"}"#);
    assert_eq!(CompactTeam::from_members_at(&entries, Some(at)), None);
    let entries = members(r#"{"id":3}"#);
    assert_eq!(CompactTeam::from_members_at(&entries, Some(at)), None);
    let entries = members(r#"{"id":3,"name":"T1","location":7}"#);
    assert_eq!(CompactTeam::from_members_at(&entries, Some(at)), None);
    let twice = vec![
        ("id".to_owned(), JsonScalar::Unsigned(3)),
        ("name".to_owned(), JsonScalar::String("T1".to_owned())),
        ("id".to_owned(), JsonScalar::Unsigned(3)),
    ];
    assert_eq!(CompactTeam::from_members_at(&twice, Some(at)), None);
}

#[test]
fn a_player_is_read_with_the_instant_and_the_day_given() {
    let at = Timestamp { unix_nanos: -1 };
    let day = CalendarDate { year: 1996, month: 5, day: 7 };
    let entries = members(r#"{"active":false,"age":255,"id":585,"name":"Faker","role":"mid"}"#);
    let player = CompactPlayer::from_members_at(&entries, Some(at), Some(Some(day))).unwrap();
    assert!(!player.active);
    assert_eq!(player.age, Some(255));
    assert_eq!(player.birthday, Some(day));
    assert_eq!(player.id, 585);
    assert_eq!(player.modified_at, at);
    assert_eq!(player.name, "Faker");
    assert_eq!(player.role.as_deref(), Some("mid"));
    assert_eq!(player.slug, None);
    let player = CompactPlayer::from_members_at(&entries, Some(at), Some(None)).unwrap();
    assert_eq!(player.birthday, None);
    assert_eq!(CompactPlayer::from_members_at(&entries, Some(at), None), None);
    assert_eq!(CompactPlayer::from_members_at(&entries, None, Some(None)), None);
    let entries = members(r#"{"active":false,"age":256,"id":585,"name":"Faker"}"#);
    assert_eq!(CompactPlayer::from_members_at(&entries, Some(at), Some(None)), None);
    let entries = members(r#"{"active":"no","id":585,"name":"Faker"}"#);
    assert_eq!(CompactPlayer::from_members_at(&entries, Some(at), Some(None)), None);
}

#[test]
fn a_winner_in_full_is_made_of_what_was_read() {
    let team = CompactTeam {
        acronym: None,
        id: 1,
        image_url: None,
        location: None,
        modified_at: Timestamp { unix_nanos: 0 },
        name: "T1".to_owned(),
        slug: None,
    };
    assert_eq!(
        with_team(None, Some(team.clone())),
        Ok(Winner::Team { id: None, team: Some(Box::new(team)) })
    );
    assert_eq!(with_team(Some(1), None), Err(WinnerError::InvalidNested));
    assert_eq!(with_player(Some(1), None), Err(WinnerError::InvalidNested));
}
