//! The request-tracking collaborator: the pending-request page data and the
//! client that lists what still awaits fulfilment.

use vstd::prelude::*;

use crate::http::{HttpClient, Method, Pairs, PreparedRequest, RequestBody};

verus! {

/// The "no content" type an empty response body decodes into.
pub struct NoContent {}

/// The page envelope of a list response.
pub struct PageInfo {
    pub page: u64,
    pub pages: u64,
    pub results: u64,
    pub page_size: u64,
}

/// What the tracker knows of one media item.
pub struct MediaInfo {
    pub id: u64,
    pub tmdb_id: u64,
    pub tvdb_id: Option<u64>,
    pub status: u8,
    pub created_at: String,
    pub updated_at: String,
}

/// The account a request belongs to.
pub struct User {
    pub avatar: String,
    pub created_at: String,
    pub display_name: String,
    pub email: String,
    pub id: u8,
    pub jellyfin_auth_token: String,
    pub jellyfin_device_id: String,
    pub jellyfin_user_id: String,
    pub jellyfin_username: String,
    pub movie_quota_days: Option<u8>,
    pub movie_quota_limit: Option<u8>,
    pub permissions: u8,
    pub plex_id: Option<u16>,
    pub plex_token: Option<String>,
    pub plex_username: Option<String>,
    pub recovery_link_expiration_date: Option<String>,
    pub request_count: u8,
    pub tv_quota_days: Option<u16>,
    pub tv_quota_limit: Option<u16>,
    pub updated_at: String,
    pub user_type: u8,
    pub username: Option<String>,
    pub warnings: Vec<String>,
}

/// Who last touched a request: a full account record or a bare name.
pub enum UserOrString {
    User(User),
    Text(String),
}

/// One pending request, as the tracker reports it. `kind` carries the
/// content-kind word of the wire format's `type` member.
pub struct MediaRequest {
    pub created_at: String,
    pub id: u64,
    pub is4k: bool,
    pub media: MediaInfo,
    pub modified_by: Option<UserOrString>,
    pub profile_id: Option<u64>,
    pub requested_by: User,
    pub root_folder: Option<String>,
    pub server_id: Option<u64>,
    pub status: u8,
    pub kind: String,
    pub updated_at: String,
}

/// One page of pending requests.
pub struct Requests {
    pub page_info: PageInfo,
    pub results: Vec<MediaRequest>,
}

/// The query that lists pending requests: one bulk page of everything
/// still processing.
pub open spec fn pending_filter_model() -> Pairs {
    seq![("take"@, "1000"@), ("skip"@, "0"@), ("filter"@, "processing"@)]
}

/// The query parameters that list pending requests.
pub fn pending_filter_params() -> (ps: Vec<(String, String)>)
    ensures
        ps.deep_view() =~= pending_filter_model(),
{
    let mut ps: Vec<(String, String)> = Vec::new();
    ps.push((String::from_str("take"), String::from_str("1000")));
    ps.push((String::from_str("skip"), String::from_str("0")));
    ps.push((String::from_str("filter"), String::from_str("processing")));
    ps
}

/// The request-tracking client: the generic REST client under the API-key
/// header.
pub struct SeerrClient {
    pub client: HttpClient,
}

impl SeerrClient {
    /// A client for the tracker at `base_url`, authenticated by `token`.
    pub fn new(base_url: &str, token: &str) -> (c: SeerrClient)
        ensures
            c.client.base_url@ == base_url@,
            c.client.headers.deep_view() =~= crate::http::default_header_model() + seq![
                ("X-Api-Key"@, token@),
            ],
    {
        let mut overrides: Vec<(String, String)> = Vec::new();
        overrides.push((String::from_str("X-Api-Key"), token.to_owned()));
        proof {
            assert(overrides.deep_view() =~= seq![("X-Api-Key"@, token@)]);
        }
        SeerrClient { client: HttpClient::new(base_url, Some(overrides)) }
    }

    /// The request that lists the pending batch.
    pub fn unfulfilled_requests_request(&self) -> (r: PreparedRequest)
        ensures
            r.method == Method::Get,
            r.url@ == crate::http::url_model(
                self.client.base_url@,
                "/api/v1/request"@,
                pending_filter_model(),
            ),
            r.headers.deep_view() =~= self.client.headers.deep_view(),
            r.body@ == "{}"@,
    {
        let params = pending_filter_params();
        self.client.prepare(Method::Get, "/api/v1/request", &params, &RequestBody::Empty)
    }
}

} // verus!
