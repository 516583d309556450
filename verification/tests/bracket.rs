use pandascore::model::bracket::{
    sort_by_schedule, BracketEdge, BracketError, PreviousMatchType, TournamentBracket,
    TournamentBracketMatch, TournamentPreviousMatch,
};
use pandascore::model::matches::{CompactMatch, MatchLive, MatchStatus, MatchType};
use pandascore::model::Timestamp;

fn bracket_match(
    id: u64,
    time: Option<i64>,
    previous: &[(u64, PreviousMatchType)],
) -> TournamentBracketMatch {
    TournamentBracketMatch {
        inner: CompactMatch {
            id,
            scheduled_at: time.map(|t| Timestamp { unix_nanos: i128::from(t) * 1_000_000_000 }),
            begin_at: None,
            detailed_stats: false,
            draw: false,
            end_at: None,
            forfeit: false,
            game_advantage: None,
            live: MatchLive { opens_at: None, supported: false, url: None },
            match_type: MatchType::BestOf,
            modified_at: Timestamp { unix_nanos: 0 },
            name: "".into(),
            number_of_games: 1,
            original_scheduled_at: None,
            rescheduled: None,
            slug: "".into(),
            status: MatchStatus::NotStarted,
            tournament_id: 0,
            winner: None,
        },
        previous_matches: previous
            .iter()
            .map(|&(match_id, relation)| TournamentPreviousMatch { match_id, relation })
            .collect(),
        opponents: vec![],
        results: vec![],
    }
}

fn chain() -> Vec<TournamentBracketMatch> {
    vec![
        bracket_match(1, Some(0), &[]),
        bracket_match(2, Some(1), &[]),
        bracket_match(
            3,
            Some(2),
            &[(1, PreviousMatchType::Winner), (2, PreviousMatchType::Winner)],
        ),
    ]
}

fn two_chains() -> Vec<TournamentBracketMatch> {
    vec![
        bracket_match(1, Some(0), &[]),
        bracket_match(2, Some(1), &[]),
        bracket_match(3, Some(2), &[]),
        bracket_match(4, Some(3), &[]),
        bracket_match(
            5,
            Some(4),
            &[(1, PreviousMatchType::Winner), (2, PreviousMatchType::Winner)],
        ),
        bracket_match(
            6,
            Some(5),
            &[(3, PreviousMatchType::Winner), (4, PreviousMatchType::Winner)],
        ),
    ]
}

#[test]
fn test_bracket_new() {
    let _ = TournamentBracket::new(chain());
}

#[test]
fn test_bracket_sub_brackets() {
    let bracket = TournamentBracket::new(chain());
    assert_eq!(bracket.sub_brackets(), 1);

    let bracket = TournamentBracket::new(two_chains());
    assert_eq!(bracket.sub_brackets(), 2);
}

#[test]
fn a_chain_has_two_edges_into_its_last_match() {
    let bracket = TournamentBracket::new(chain());
    assert_eq!(bracket.match_count(), 3);
    assert_eq!(bracket.match_at(2).unwrap().inner.id, 3);
    assert_eq!(
        bracket.edges(),
        vec![
            BracketEdge { from: 0, to: 2, relation: PreviousMatchType::Winner },
            BracketEdge { from: 1, to: 2, relation: PreviousMatchType::Winner },
        ]
    );
    assert!(!bracket.is_cyclic());
    assert!(!bracket.is_asyclic());
}

#[test]
fn matches_are_put_in_schedule_order() {
    let mut matches = two_chains();
    matches.reverse();
    matches.push(bracket_match(7, None, &[]));
    let bracket = TournamentBracket::try_new(matches).unwrap();
    let ids: Vec<u64> =
        (0..bracket.match_count()).map(|i| bracket.match_at(i).unwrap().inner.id).collect();
    assert_eq!(ids, vec![7, 1, 2, 3, 4, 5, 6]);
    assert_eq!(bracket.sub_brackets(), 3);
    assert!(bracket.match_at(7).is_none());
}

#[test]
fn matches_at_the_same_time_keep_their_order() {
    let matches = vec![
        bracket_match(3, Some(5), &[]),
        bracket_match(1, Some(5), &[]),
        bracket_match(2, None, &[]),
        bracket_match(4, None, &[]),
    ];
    let ids: Vec<u64> = sort_by_schedule(matches).iter().map(|m| m.inner.id).collect();
    assert_eq!(ids, vec![2, 4, 3, 1]);
}

#[test]
fn a_predecessor_that_comes_later_is_an_error() {
    let matches = vec![
        bracket_match(1, Some(10), &[]),
        bracket_match(2, Some(5), &[(1, PreviousMatchType::Loser)]),
    ];
    assert_eq!(
        TournamentBracket::try_new(matches).err(),
        Some(BracketError::UnknownPredecessor { match_id: 2, missing: 1 })
    );
    let matches = vec![bracket_match(1, Some(10), &[(9, PreviousMatchType::Winner)])];
    assert_eq!(
        TournamentBracket::try_new(matches).err(),
        Some(BracketError::UnknownPredecessor { match_id: 1, missing: 9 })
    );
}

#[test]
fn a_match_that_names_itself_is_a_cycle() {
    let matches = vec![
        bracket_match(1, Some(0), &[]),
        bracket_match(2, Some(1), &[(1, PreviousMatchType::Loser), (2, PreviousMatchType::Winner)]),
    ];
    let bracket = TournamentBracket::try_new(matches).unwrap();
    assert_eq!(
        bracket.edges(),
        vec![
            BracketEdge { from: 0, to: 1, relation: PreviousMatchType::Loser },
            BracketEdge { from: 1, to: 1, relation: PreviousMatchType::Winner },
        ]
    );
    assert!(bracket.is_cyclic());
    assert!(bracket.is_asyclic());
    assert_eq!(bracket.sub_brackets(), 1);
}

#[test]
fn an_empty_bracket_has_no_sub_bracket() {
    let bracket = TournamentBracket::new_empty();
    assert_eq!(bracket.match_count(), 0);
    assert_eq!(bracket.sub_brackets(), 0);
    assert!(!bracket.is_cyclic());
    assert_eq!(PreviousMatchType::Winner.to_text(), "winner");
    assert_eq!(PreviousMatchType::Loser.to_text(), "loser");
}
