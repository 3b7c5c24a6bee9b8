use std::cell::Cell;

use jell_debrid::config::{plan_trakt_credentials, validate_config, AppConfig, ConfigValues, CredentialPlan};
use jell_debrid::errors::Error;
use jell_debrid::jellyfin::{decode_no_content, JellyfinClient};
use jell_debrid::reconcile::run_tick;
use jell_debrid::seerrs::{MediaInfo, MediaRequest, PageInfo, Requests, SeerrClient, User};
use jell_debrid::trakt::{
    IDs, MediaType, Movie, SearchResult, SearchResultItem, SearchResultMovie, TraktClient,
};

fn dummy_user() -> User {
    User {
        avatar: String::new(),
        created_at: String::new(),
        display_name: "someone".to_string(),
        email: String::new(),
        id: 1,
        jellyfin_auth_token: String::new(),
        jellyfin_device_id: String::new(),
        jellyfin_user_id: String::new(),
        jellyfin_username: String::new(),
        movie_quota_days: None,
        movie_quota_limit: None,
        permissions: 2,
        plex_id: None,
        plex_token: None,
        plex_username: None,
        recovery_link_expiration_date: None,
        request_count: 0,
        tv_quota_days: None,
        tv_quota_limit: None,
        updated_at: String::new(),
        user_type: 1,
        username: None,
        warnings: Vec::new(),
    }
}

fn pending_request(id: u64, tmdb_id: u64, kind: &str) -> MediaRequest {
    MediaRequest {
        created_at: String::new(),
        id,
        is4k: false,
        media: MediaInfo {
            id: 100 + id,
            tmdb_id,
            tvdb_id: None,
            status: 3,
            created_at: String::new(),
            updated_at: String::new(),
        },
        modified_by: None,
        profile_id: None,
        requested_by: dummy_user(),
        root_folder: None,
        server_id: None,
        status: 2,
        kind: kind.to_string(),
        updated_at: String::new(),
    }
}

fn batch(requests: Vec<MediaRequest>) -> Requests {
    Requests {
        page_info: PageInfo { page: 1, pages: 1, results: requests.len() as u64, page_size: 1000 },
        results: requests,
    }
}

fn movie_response(imdb: &str) -> SearchResult {
    SearchResult {
        searchresult: vec![SearchResultItem::Movie(SearchResultMovie {
            score_milli: 1000,
            movie: Movie {
                title: "found".to_string(),
                year: 2001,
                ids: IDs { imdb: Some(imdb.to_string()) },
            },
        })],
    }
}

#[test]
fn a_tick_resolves_each_request_and_reports_per_item() {
    let mut trakt = TraktClient::new("token", "cid");
    let reqs = batch(vec![
        pending_request(1, 550, "movie"),
        pending_request(2, 1399, "tv"),
        pending_request(3, 777, "movie"),
    ]);
    let outcomes = run_tick(&mut trakt, Ok(reqs), 0, |id, kind| match (id, kind) {
        (550, MediaType::Movie) => Ok(movie_response("tt0137523")),
        (1399, MediaType::Show) => Ok(movie_response("tt0944947")),
        _ => Ok(SearchResult { searchresult: Vec::new() }),
    })
    .ok()
    .unwrap();
    assert_eq!(outcomes.len(), 3);
    assert_eq!(outcomes[0].request_id, 1);
    assert_eq!(outcomes[0].resolution.as_deref().ok(), Some("tt0137523"));
    assert_eq!(outcomes[1].resolution.as_deref().ok(), Some("tt0944947"));
    // The unresolvable third item is reported, and did not abort the tick.
    assert!(matches!(outcomes[2].resolution, Err(Error::UnresolvableContent)));
}

#[test]
fn a_failing_batch_fails_the_tick_and_leaves_the_cache_alone() {
    let mut trakt = TraktClient::new("token", "cid");
    let calls = Cell::new(0u32);
    let fetch = |_id: u64, _kind: MediaType| {
        calls.set(calls.get() + 1);
        Ok(movie_response("tt1"))
    };
    let r = run_tick(&mut trakt, Err(Error::TransportError("down".to_string())), 0, fetch);
    assert!(matches!(r, Err(Error::TransportError(_))));
    assert_eq!(calls.get(), 0);
    // The next tick starts from an untouched cache: the key still misses.
    let reqs = batch(vec![pending_request(1, 550, "movie")]);
    let r2 = run_tick(&mut trakt, Ok(reqs), 1, fetch).ok().unwrap();
    assert_eq!(calls.get(), 1);
    assert_eq!(r2[0].resolution.as_deref().ok(), Some("tt1"));
}

#[test]
fn within_a_tick_one_key_is_fetched_once() {
    let mut trakt = TraktClient::new("token", "cid");
    let calls = Cell::new(0u32);
    let reqs = batch(vec![pending_request(1, 550, "movie"), pending_request(2, 550, "movie")]);
    let outcomes = run_tick(&mut trakt, Ok(reqs), 0, |_id, _kind| {
        calls.set(calls.get() + 1);
        Ok(movie_response("tt1"))
    })
    .ok()
    .unwrap();
    assert_eq!(calls.get(), 1);
    assert_eq!(outcomes[0].resolution.as_deref().ok(), Some("tt1"));
    assert_eq!(outcomes[1].resolution.as_deref().ok(), Some("tt1"));
}

#[test]
fn a_transport_failure_is_reported_for_its_item_only() {
    let mut trakt = TraktClient::new("token", "cid");
    let reqs = batch(vec![pending_request(1, 1, "movie"), pending_request(2, 2, "movie")]);
    let outcomes = run_tick(&mut trakt, Ok(reqs), 0, |id, _kind| {
        if id == 1 {
            Err(Error::TransportError("timeout".to_string()))
        } else {
            Ok(movie_response("tt2"))
        }
    })
    .ok()
    .unwrap();
    assert!(matches!(outcomes[0].resolution, Err(Error::TransportError(_))));
    assert_eq!(outcomes[1].resolution.as_deref().ok(), Some("tt2"));
}

#[test]
fn search_memoizes_by_content_identity() {
    let mut trakt = TraktClient::new("t", "c");
    let calls = Cell::new(0u32);
    let r = trakt.search(550, &"movie".to_string(), 0, || {
        calls.set(calls.get() + 1);
        Ok(movie_response("tt1"))
    });
    assert_eq!(calls.get(), 1);
    assert!(r.is_ok());
    // Within the five-minute window the entry is live: no second search.
    let r2 = trakt.search(550, &"movie".to_string(), 300, || {
        calls.set(calls.get() + 1);
        Err(Error::UnresolvableContent)
    });
    assert_eq!(calls.get(), 1);
    assert!(r2.is_ok());
    // Past the window the entry expired and the search runs again.
    let r3 = trakt.search(550, &"movie".to_string(), 301, || {
        calls.set(calls.get() + 1);
        Err(Error::UnresolvableContent)
    });
    assert_eq!(calls.get(), 2);
    assert!(r3.is_err());
}

#[test]
fn the_search_client_prepares_the_search_request() {
    let trakt = TraktClient::new("tok", "cid");
    let r = trakt.search_request(550, MediaType::Movie);
    assert_eq!(r.url, "https://api.trakt.tv/search/tmdb/550?type=movie");
    assert!(r.headers.contains(&("Authorization".to_string(), "Bearer tok".to_string())));
    assert!(r.headers.contains(&("trakt-api-key".to_string(), "cid".to_string())));
    assert!(r.headers.contains(&("trakt-api-version".to_string(), "2".to_string())));
    let w = trakt.watchlist_request();
    assert_eq!(w.url, "https://api.trakt.tv/sync/watchlist/movies,shows");
}

#[test]
fn the_tracker_client_lists_pending_requests_in_one_page() {
    let seerr = SeerrClient::new("http://192.168.0.69:5055", "key");
    let r = seerr.unfulfilled_requests_request();
    assert_eq!(
        r.url,
        "http://192.168.0.69:5055/api/v1/request?take=1000&skip=0&filter=processing"
    );
    assert!(r.headers.contains(&("X-Api-Key".to_string(), "key".to_string())));
}

#[test]
fn the_library_client_prepares_its_two_requests() {
    let jf = JellyfinClient::new("http://192.168.0.69:8096", "jfkey");
    let info = jf.system_info_request();
    assert_eq!(info.url, "http://192.168.0.69:8096/System/Info");
    assert!(info
        .headers
        .contains(&("Authorization".to_string(), "MediaBrowser Token=jfkey".to_string())));
    let refresh = jf.refresh_libraries_request();
    assert_eq!(refresh.url, "http://192.168.0.69:8096/Library/Refresh");
    assert!(decode_no_content("").is_ok());
    assert!(decode_no_content("[]").is_err());
}

#[test]
fn missing_required_settings_are_fatal() {
    let r = validate_config(ConfigValues {
        jf_api_key: Some("a".to_string()),
        rd_api_key: None,
        seerr_api_key: Some("c".to_string()),
        trakt_api_key: None,
        trakt_client_id: Some("d".to_string()),
        trakt_client_secret: None,
    });
    assert!(matches!(r, Err(Error::ConfigurationError(_))));
}

#[test]
fn a_complete_configuration_validates() {
    let r = validate_config(ConfigValues {
        jf_api_key: Some("a".to_string()),
        rd_api_key: Some("b".to_string()),
        seerr_api_key: Some("c".to_string()),
        trakt_api_key: Some("t".to_string()),
        trakt_client_id: Some("d".to_string()),
        trakt_client_secret: Some("s".to_string()),
    })
    .ok()
    .unwrap();
    assert_eq!(r.jf_api_key, "a");
    assert_eq!(r.trakt_api_key.as_deref(), Some("t"));
}

#[test]
fn the_credential_plan_prefers_a_configured_token() {
    let plan = plan_trakt_credentials(Some("tok".to_string()), "cid".to_string(), None)
        .ok()
        .unwrap();
    assert!(matches!(plan, CredentialPlan::UseToken(ref t) if t == "tok"));
}

#[test]
fn without_a_token_the_device_flow_needs_the_secret() {
    let plan = plan_trakt_credentials(None, "cid".to_string(), Some("sec".to_string()))
        .ok()
        .unwrap();
    assert!(
        matches!(plan, CredentialPlan::RunDeviceFlow { ref client_id, ref client_secret }
            if client_id == "cid" && client_secret == "sec")
    );
    let missing = plan_trakt_credentials(None, "cid".to_string(), None);
    assert!(matches!(missing, Err(Error::ConfigurationError(_))));
}

#[test]
fn config_round_trip_keeps_the_optional_fields() {
    let cfg = AppConfig {
        jf_api_key: "a".to_string(),
        rd_api_key: "b".to_string(),
        seerr_api_key: "c".to_string(),
        trakt_api_key: None,
        trakt_client_id: "d".to_string(),
        trakt_client_secret: Some("s".to_string()),
    };
    assert_eq!(cfg.trakt_client_secret.as_deref(), Some("s"));
    assert!(cfg.trakt_api_key.is_none());
}
