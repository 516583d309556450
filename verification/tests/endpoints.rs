use pandascore::endpoint::all::leagues::{GetLeague, GetLeagueMatches, ListLeagues};
use pandascore::endpoint::all::matches::{GetMatchOpponents, ListMatches};
use pandascore::endpoint::all::tournament::GetTournamentBracket;
use pandascore::endpoint::lol::champions::GetChampion;
use pandascore::endpoint::{CollectionOptions, Endpoint, PaginatedEndpoint, BASE_URL};
use pandascore::model::{EventStatus, Identifier};

#[test]
fn test_get_league() {
    let id = 1;
    let slug = "slug";
    let get_league_id = GetLeague(Identifier::Id(id));
    let get_league_slug = GetLeague(Identifier::Slug(slug));

    let request_id = get_league_id.to_url().unwrap();
    let request_slug = get_league_slug.to_url().unwrap();

    assert_eq!(request_id.as_str(), "https://api.pandascore.co/leagues/1");
    assert_eq!(request_slug.as_str(), "https://api.pandascore.co/leagues/slug");
}

#[test]
fn a_listing_carries_its_options() {
    let url = ListLeagues(CollectionOptions::new().filter("name", "LCK").page(2)).to_url().unwrap();
    assert_eq!(
        url.as_str(),
        "https://api.pandascore.co/leagues?filter%5Bname%5D=LCK&page%5Bnumber%5D=2"
    );
    let url = ListLeagues::default().with_options(CollectionOptions::new().per_page(5));
    assert_eq!(url.to_url().unwrap().as_str(), "https://api.pandascore.co/leagues?page%5Bsize%5D=5");
    assert_eq!(BASE_URL, "https://api.pandascore.co");
}

#[test]
fn a_status_is_joined_to_the_path() {
    let url = ListMatches { status: Some(EventStatus::Upcoming), options: CollectionOptions::new() };
    assert_eq!(url.to_url().unwrap().as_str(), "https://api.pandascore.co/matches/upcoming");
    let url = ListMatches { status: None, options: CollectionOptions::new().sort("-begin_at") };
    assert_eq!(url.to_url().unwrap().as_str(), "https://api.pandascore.co/matches/?sort=-begin_at");
    let url = GetLeagueMatches {
        id: Identifier::Id(5139),
        status: Some(EventStatus::Past),
        options: CollectionOptions::new(),
    };
    assert_eq!(url.to_url().unwrap().as_str(), "https://api.pandascore.co/leagues/5139/matches/past");
    assert_eq!(EventStatus::Running.as_str(), "running");
}

#[test]
fn requests_below_an_item() {
    let url = GetTournamentBracket(Identifier::Slug("worlds")).to_url().unwrap();
    assert_eq!(url.as_str(), "https://api.pandascore.co/tournaments/worlds/brackets");
    let url = GetMatchOpponents(Identifier::Id(1000450)).to_url().unwrap();
    assert_eq!(url.as_str(), "https://api.pandascore.co/matches/1000450/opponents");
    let url = GetChampion(18446744073709551615).to_url().unwrap();
    assert_eq!(url.as_str(), "https://api.pandascore.co/champions/18446744073709551615");
    assert_eq!(Identifier::Id(0).to_text(), "0");
    assert_eq!(Identifier::Slug("faker").to_text(), "faker");
}

#[test]
fn one_item_and_one_spell_are_asked_for_below_the_game() {
    let url = pandascore::endpoint::lol::items::GetItem(2297).to_url().unwrap();
    assert_eq!(url.as_str(), "https://api.pandascore.co/lol/items/2297");
    assert_eq!(url.path(), "/lol/items/2297");
    let url = pandascore::endpoint::lol::spells::GetSpell(39).to_url().unwrap();
    assert_eq!(url.as_str(), "https://api.pandascore.co/lol/spells/39");
    assert_eq!(url.path(), "/lol/spells/39");
    let url = GetChampion(1).to_url().unwrap();
    assert_eq!(url.path(), "/champions/1");
}

#[test]
fn listings_of_one_game_are_asked_for_below_the_game() {
    let none = CollectionOptions::new;
    let url = pandascore::endpoint::lol::items::ListItems(none()).to_url().unwrap();
    assert_eq!(url.path(), "/lol/items");
    let url = pandascore::endpoint::lol::spells::ListSpells(none()).to_url().unwrap();
    assert_eq!(url.path(), "/lol/spells");
    let url = pandascore::endpoint::lol::champions::ListChampions(none()).to_url().unwrap();
    assert_eq!(url.path(), "/lol/champions");
    let url = pandascore::endpoint::lol::leagues::ListLeagues(none()).to_url().unwrap();
    assert_eq!(url.path(), "/lol/leagues");
    let url = pandascore::endpoint::rl::teams::ListTeams(none()).to_url().unwrap();
    assert_eq!(url.path(), "/rl/teams");
    let url = pandascore::endpoint::rl::matches::ListMatches {
        status: Some(EventStatus::Running),
        options: none(),
    };
    assert_eq!(url.to_url().unwrap().path(), "/rl/matches/running");
}
