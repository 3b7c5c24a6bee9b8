use jell_debrid::decimal::u64_to_decimal;
use jell_debrid::errors::Error;
use jell_debrid::trakt::{
    media_type_of, resolve, resolve_outcome, search_path, Episode, IDs, MediaType, Movie, Person,
    SearchResult, SearchResultEpisode, SearchResultItem, SearchResultMovie, SearchResultPerson,
    SearchResultShow, Show,
};

fn movie_item(imdb: Option<&str>) -> SearchResultItem {
    SearchResultItem::Movie(SearchResultMovie {
        score_milli: 1000,
        movie: Movie {
            title: "a movie".to_string(),
            year: 2001,
            ids: IDs { imdb: imdb.map(|s| s.to_string()) },
        },
    })
}

#[test]
fn a_movie_list_resolves_to_its_first_identifier() {
    let response = SearchResult { searchresult: vec![movie_item(Some("tt1")), movie_item(Some("tt2"))] };
    assert_eq!(resolve(&response), Some("tt1".to_string()));
}

#[test]
fn an_empty_list_is_unresolvable() {
    let response = SearchResult { searchresult: Vec::new() };
    assert_eq!(resolve(&response), None);
    let outcome = resolve_outcome(&Ok(response));
    assert!(matches!(outcome, Err(Error::UnresolvableContent)));
}

#[test]
fn a_first_entry_without_identifier_is_unresolvable() {
    let response = SearchResult { searchresult: vec![movie_item(None), movie_item(Some("tt2"))] };
    assert_eq!(resolve(&response), None);
}

#[test]
fn every_variant_exposes_the_identifier_through_its_own_path() {
    let show = SearchResultItem::Show(SearchResultShow {
        score_milli: 900,
        show: Show {
            title: "a show".to_string(),
            year: 1999,
            ids: IDs { imdb: Some("tt3".to_string()) },
        },
    });
    let episode = SearchResultItem::Episode(SearchResultEpisode {
        score_milli: 800,
        episode: Episode { title: "an episode".to_string(), ids: IDs { imdb: Some("tt4".to_string()) } },
    });
    let person = SearchResultItem::Person(SearchResultPerson {
        score_milli: 700,
        person: Person { name: "someone".to_string(), ids: IDs { imdb: Some("tt5".to_string()) } },
    });
    for (item, expected) in [(show, "tt3"), (episode, "tt4"), (person, "tt5")] {
        let response = SearchResult { searchresult: vec![item] };
        assert_eq!(resolve(&response), Some(expected.to_string()));
    }
}

#[test]
fn a_stored_failure_propagates_from_the_outcome() {
    let outcome = resolve_outcome(&Err(Error::TransportError("down".to_string())));
    assert!(matches!(outcome, Err(Error::TransportError(_))));
}

#[test]
fn the_content_kind_word_picks_the_search_kind() {
    assert_eq!(media_type_of(&"movie".to_string()), MediaType::Movie);
    assert_eq!(media_type_of(&"tv".to_string()), MediaType::Show);
    // The fallback for an unrecognized kind is a movie search.
    assert_eq!(media_type_of(&"music".to_string()), MediaType::Movie);
}

#[test]
fn the_search_path_carries_the_decimal_id() {
    assert_eq!(search_path(0), "/search/tmdb/0");
    assert_eq!(search_path(550), "/search/tmdb/550");
}

#[test]
fn decimal_rendering_matches_the_standard_one() {
    for n in [0u64, 7, 10, 105, 999, 1000, u64::MAX] {
        assert_eq!(u64_to_decimal(n), n.to_string());
    }
}
