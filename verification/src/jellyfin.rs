//! The library-management collaborator: system information, the library
//! refresh trigger, and the "no content" decoding of its empty replies.

use vstd::prelude::*;

use crate::errors::Error;
use crate::http::{
    is_json_object, normalized_text_model, HttpClient, Method, PreparedRequest, RequestBody,
};

verus! {

/// The "no content" type an empty response body decodes into.
pub struct NoContent {}

/// The server's self-description.
pub struct SystemInfo {
    pub cache_path: String,
    pub can_launch_web_browser: bool,
    pub can_self_restart: bool,
    pub completed_installations: Vec<String>,
    pub encoder_location: String,
    pub has_pending_restart: bool,
    pub has_update_available: bool,
    pub id: String,
    pub internal_metadata_path: String,
    pub is_shutting_down: bool,
    pub items_by_name_path: String,
    pub local_address: String,
    pub log_path: String,
    pub operating_system: String,
    pub operating_system_display_name: String,
    pub program_data_path: String,
    pub server_name: String,
    pub supports_library_monitor: bool,
    pub system_architecture: String,
    pub transcoding_temp_path: String,
    pub version: String,
    pub web_path: String,
    pub web_socket_port_number: u16,
}

/// The library-management client: the generic REST client under the
/// media-browser token header.
pub struct JellyfinClient {
    pub client: HttpClient,
}

impl JellyfinClient {
    /// A client for the server at `base_url`, authenticated by `token`.
    pub fn new(base_url: &str, token: &str) -> (c: JellyfinClient)
        ensures
            c.client.base_url@ == base_url@,
            c.client.headers.deep_view() =~= crate::http::default_header_model() + seq![
                ("Authorization"@, "MediaBrowser Token="@ + token@),
            ],
    {
        let mut overrides: Vec<(String, String)> = Vec::new();
        let auth = String::from_str("MediaBrowser Token=").concat(token);
        overrides.push((String::from_str("Authorization"), auth));
        proof {
            assert(overrides.deep_view() =~= seq![
                ("Authorization"@, "MediaBrowser Token="@ + token@),
            ]);
        }
        JellyfinClient { client: HttpClient::new(base_url, Some(overrides)) }
    }

    /// The request that reads the server's system information.
    pub fn system_info_request(&self) -> (r: PreparedRequest)
        ensures
            r.method == Method::Get,
            r.url@ == self.client.base_url@ + "/System/Info"@,
            r.headers.deep_view() =~= self.client.headers.deep_view(),
            r.body@ == "{}"@,
    {
        let params: Vec<(String, String)> = Vec::new();
        let r = self.client.prepare(Method::Get, "/System/Info", &params, &RequestBody::Empty);
        proof {
            assert(params.deep_view() =~= Seq::<(Seq<char>, Seq<char>)>::empty());
        }
        r
    }

    /// The request that triggers a library refresh; the server answers it
    /// with no body.
    pub fn refresh_libraries_request(&self) -> (r: PreparedRequest)
        ensures
            r.method == Method::Post,
            r.url@ == self.client.base_url@ + "/Library/Refresh"@,
            r.headers.deep_view() =~= self.client.headers.deep_view(),
            r.body@ == "{}"@,
    {
        let params: Vec<(String, String)> = Vec::new();
        let r = self.client.prepare(Method::Post, "/Library/Refresh", &params, &RequestBody::Empty);
        proof {
            assert(params.deep_view() =~= Seq::<(Seq<char>, Seq<char>)>::empty());
        }
        r
    }
}

/// Decodes a response body into the "no content" type: the empty-body
/// substitution applies first, so an empty body always decodes without
/// error; any JSON object decodes, anything else is a decode error.
pub fn decode_no_content(text: &str) -> (r: Result<NoContent, Error>)
    ensures
        r is Ok <==> is_json_object(normalized_text_model(text@)),
        text@.len() == 0 ==> r is Ok,
        r matches Err(e) ==> e is DecodeError,
{
    match crate::http::decode_empty_object(text) {
        Ok(()) => Ok(NoContent {}),
        Err(e) => Err(e),
    }
}

} // verus!
