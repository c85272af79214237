//! Endpoint paths, query parameter lists, and response classification.
//!
//! Every request carries the application id header; protected requests
//! add the session token and, for signed endpoints, a timestamp and a
//! signature computed by an external signing strategy.  The functions
//! here build the exact parameter lists and map response statuses to the
//! error taxonomy; sending the requests is the surrounding application's
//! work.

use vstd::prelude::*;
use vstd::string::StringExecFns;

use crate::error::ApiError;
use crate::text::dec_str_of;
use crate::text::u64_to_string;

verus! {

/// The track id of the fixed, known test track that secret probes
/// request.
pub const PROBE_TRACK_ID: u64 = 5966783;

/// The format id secret probes request.
pub const PROBE_FORMAT_ID: u32 = 5;

/// The fixed base of the vendor API.
pub fn api_base_url() -> (r: &'static str)
    ensures
        r@ == ("https://www.qobuz.com/api.json/0.2/")@,
{
    "https://www.qobuz.com/api.json/0.2/"
}

/// The full URL of an endpoint: the fixed base followed by the path.
pub fn build_url(path: &str) -> (r: String)
    ensures
        r@ == ("https://www.qobuz.com/api.json/0.2/")@ + path@,
{
    let mut s = String::from_str(api_base_url());
    s.append(path);
    s
}

/// The streaming-location endpoint path.
pub fn path_track_get_file_url() -> (r: &'static str)
    ensures
        r@ == ("track/getFileUrl")@,
{
    "track/getFileUrl"
}

/// The login endpoint path.
pub fn path_user_login() -> (r: &'static str)
    ensures
        r@ == ("user/login")@,
{
    "user/login"
}

/// The album search endpoint path.
pub fn path_album_search() -> (r: &'static str)
    ensures
        r@ == ("album/search")@,
{
    "album/search"
}

/// The track search endpoint path.
pub fn path_track_search() -> (r: &'static str)
    ensures
        r@ == ("track/search")@,
{
    "track/search"
}

/// The artist search endpoint path.
pub fn path_artist_search() -> (r: &'static str)
    ensures
        r@ == ("artist/search")@,
{
    "artist/search"
}

/// The album get endpoint path.
pub fn path_album_get() -> (r: &'static str)
    ensures
        r@ == ("album/get")@,
{
    "album/get"
}

/// The track get endpoint path.
pub fn path_track_get() -> (r: &'static str)
    ensures
        r@ == ("track/get")@,
{
    "track/get"
}

/// The artist get endpoint path.
pub fn path_artist_get() -> (r: &'static str)
    ensures
        r@ == ("artist/get")@,
{
    "artist/get"
}

/// The playlist get endpoint path.
pub fn path_playlist_get() -> (r: &'static str)
    ensures
        r@ == ("playlist/get")@,
{
    "playlist/get"
}

/// The user playlists endpoint path.
pub fn path_playlist_get_user_playlists() -> (r: &'static str)
    ensures
        r@ == ("playlist/getUserPlaylists")@,
{
    "playlist/getUserPlaylists"
}

/// The favorites endpoint path.
pub fn path_favorite_get_user_favorites() -> (r: &'static str)
    ensures
        r@ == ("favorite/getUserFavorites")@,
{
    "favorite/getUserFavorites"
}

/// The query parameters of a signed streaming-location request:
/// `track_id`, `format_id`, `intent=stream`, `request_ts`, `request_sig`,
/// in that order.
pub fn stream_query(track_id: u64, format_id: u32, request_ts: u64, request_sig: String) -> (r:
    Vec<(String, String)>)
    ensures
        r@.len() == 5,
        r@[0].0@ == ("track_id")@ && r@[0].1@ == dec_str_of(track_id as nat),
        r@[1].0@ == ("format_id")@ && r@[1].1@ == dec_str_of(format_id as nat),
        r@[2].0@ == ("intent")@ && r@[2].1@ == ("stream")@,
        r@[3].0@ == ("request_ts")@ && r@[3].1@ == dec_str_of(request_ts as nat),
        r@[4].0@ == ("request_sig")@ && r@[4].1@ == request_sig@,
{
    let mut v: Vec<(String, String)> = Vec::new();
    v.push((String::from_str("track_id"), u64_to_string(track_id)));
    v.push((String::from_str("format_id"), u64_to_string(format_id as u64)));
    v.push((String::from_str("intent"), String::from_str("stream")));
    v.push((String::from_str("request_ts"), u64_to_string(request_ts)));
    v.push((String::from_str("request_sig"), request_sig));
    v
}

/// The query parameters of a search request: `query` and `limit`.
pub fn search_query(query: &str, limit: u32) -> (r: Vec<(String, String)>)
    ensures
        r@.len() == 2,
        r@[0].0@ == ("query")@ && r@[0].1@ == query@,
        r@[1].0@ == ("limit")@ && r@[1].1@ == dec_str_of(limit as nat),
{
    let mut v: Vec<(String, String)> = Vec::new();
    v.push((String::from_str("query"), query.to_owned()));
    v.push((String::from_str("limit"), u64_to_string(limit as u64)));
    v
}

/// The query parameter of an album get request.
pub fn album_query(album_id: &str) -> (r: Vec<(String, String)>)
    ensures
        r@.len() == 1,
        r@[0].0@ == ("album_id")@ && r@[0].1@ == album_id@,
{
    let mut v: Vec<(String, String)> = Vec::new();
    v.push((String::from_str("album_id"), album_id.to_owned()));
    v
}

/// The query parameter of a track get request.
pub fn track_query(track_id: u64) -> (r: Vec<(String, String)>)
    ensures
        r@.len() == 1,
        r@[0].0@ == ("track_id")@ && r@[0].1@ == dec_str_of(track_id as nat),
{
    let mut v: Vec<(String, String)> = Vec::new();
    v.push((String::from_str("track_id"), u64_to_string(track_id)));
    v
}

/// The query parameters of an artist get request; asking for albums adds
/// `extra=albums`.
pub fn artist_query(artist_id: u64, with_albums: bool) -> (r: Vec<(String, String)>)
    ensures
        r@[0].0@ == ("artist_id")@ && r@[0].1@ == dec_str_of(artist_id as nat),
        with_albums ==> r@.len() == 2 && r@[1].0@ == ("extra")@ && r@[1].1@ == ("albums")@,
        !with_albums ==> r@.len() == 1,
{
    let mut v: Vec<(String, String)> = Vec::new();
    v.push((String::from_str("artist_id"), u64_to_string(artist_id)));
    if with_albums {
        v.push((String::from_str("extra"), String::from_str("albums")));
    }
    v
}

/// The query parameters of a playlist get request: the playlist id and a
/// fixed item limit of 500.
pub fn playlist_query(playlist_id: u64) -> (r: Vec<(String, String)>)
    ensures
        r@.len() == 2,
        r@[0].0@ == ("playlist_id")@ && r@[0].1@ == dec_str_of(playlist_id as nat),
        r@[1].0@ == ("limit")@ && r@[1].1@ == ("500")@,
{
    let mut v: Vec<(String, String)> = Vec::new();
    v.push((String::from_str("playlist_id"), u64_to_string(playlist_id)));
    v.push((String::from_str("limit"), String::from_str("500")));
    v
}

/// The query parameters of a signed favorites request: `type`, `limit`,
/// `offset`, `request_ts`, `request_sig`, in that order.
pub fn favorites_query(fav_type: &str, limit: u32, offset: u32, request_ts: u64, request_sig:
    String) -> (r: Vec<(String, String)>)
    ensures
        r@.len() == 5,
        r@[0].0@ == ("type")@ && r@[0].1@ == fav_type@,
        r@[1].0@ == ("limit")@ && r@[1].1@ == dec_str_of(limit as nat),
        r@[2].0@ == ("offset")@ && r@[2].1@ == dec_str_of(offset as nat),
        r@[3].0@ == ("request_ts")@ && r@[3].1@ == dec_str_of(request_ts as nat),
        r@[4].0@ == ("request_sig")@ && r@[4].1@ == request_sig@,
{
    let mut v: Vec<(String, String)> = Vec::new();
    v.push((String::from_str("type"), fav_type.to_owned()));
    v.push((String::from_str("limit"), u64_to_string(limit as u64)));
    v.push((String::from_str("offset"), u64_to_string(offset as u64)));
    v.push((String::from_str("request_ts"), u64_to_string(request_ts)));
    v.push((String::from_str("request_sig"), request_sig));
    v
}

/// Does a probe response status accept the candidate secret?  Any status
/// but "bad request" counts as acceptance: a wrong app id or a quota
/// error must not be confused with a wrong secret.
pub fn probe_accepts(status: u16) -> (r: bool)
    ensures
        r == (status != 400),
{
    status != 400
}

/// Classify a login response status: 200 proceeds to parsing, 401 means
/// bad credentials, 400 means the app id was rejected, anything else is
/// an unexpected status.
pub fn login_status_error(status: u16) -> (r: Option<ApiError>)
    ensures
        status == 200 ==> r is None,
        status == 401 ==> (r matches Some(e) && e matches ApiError::AuthenticationError(m) && m@
            == ("Invalid credentials")@),
        status == 400 ==> (r matches Some(e) && e is InvalidAppId),
        status != 200 && status != 401 && status != 400 ==> (r matches Some(e) && e matches
            ApiError::ApiResponse(m) && m@ == ("Unexpected status: ")@ + dec_str_of(
            status as nat,
        )),
{
    if status == 200 {
        None
    } else if status == 401 {
        Some(ApiError::AuthenticationError(String::from_str("Invalid credentials")))
    } else if status == 400 {
        Some(ApiError::InvalidAppId)
    } else {
        let mut m = String::from_str("Unexpected status: ");
        m.append(u64_to_string(status as u64).as_str());
        Some(ApiError::ApiResponse(m))
    }
}

/// Classify a signed-endpoint response status: 200 proceeds to parsing,
/// 400 means the backend rejected the secret (signals rotation),
/// anything else is an unexpected status.
pub fn stream_status_error(status: u16) -> (r: Option<ApiError>)
    ensures
        status == 200 ==> r is None,
        status == 400 ==> (r matches Some(e) && e is InvalidAppSecret),
        status != 200 && status != 400 ==> (r matches Some(e) && e matches ApiError::ApiResponse(m)
            && m@ == ("Unexpected status: ")@ + dec_str_of(status as nat)),
{
    if status == 200 {
        None
    } else if status == 400 {
        Some(ApiError::InvalidAppSecret)
    } else {
        let mut m = String::from_str("Unexpected status: ");
        m.append(u64_to_string(status as u64).as_str());
        Some(ApiError::ApiResponse(m))
    }
}

/// The error for a 200 response that lacks its expected top-level
/// section, naming the missing field.
pub fn missing_section_error(section: &str) -> (r: ApiError)
    ensures
        r matches ApiError::ApiResponse(m) && m@ == ("No ")@ + section@ + (" in response")@,
{
    let mut m = String::from_str("No ");
    m.append(section);
    m.append(" in response");
    ApiError::ApiResponse(m)
}

} // verus!
