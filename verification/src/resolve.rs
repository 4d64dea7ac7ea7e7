//! Finding a suggested song in the catalogue, and adding what was found to
//! the playlist.

use crate::http::{
    decoded_document, decode_document, is_success, status_is_success, ApiError, ApiErrorView,
    Credentials, CredentialsView, DecodeError, DecodeErrorView, HttpReply, HttpReplyView,
    HttpRequest, HttpRequestView, Method, Payload, PayloadView,
};
use crate::json::json_decoding;
use crate::models::{AddTracksRequest, SearchResponse, TrackView};
use crate::text::owned;
use crate::views::{outcome, views};
use vstd::prelude::*;

verus! {

/// The address of a search for one track by `artist` that is called
/// `track`. The two stand in the address as they are, not percent-encoded:
/// a name that holds `&`, `+` or `#` changes the query.
pub open spec fn search_url(artist: Seq<char>, track: Seq<char>) -> Seq<char> {
    "https://api.spotify.com/v1/search?q=artist:"@ + artist + "+track:"@ + track
        + "&type=track&limit=1"@
}

/// The request that searches the catalogue for the best match.
pub open spec fn search_request_model(
    access_token: Seq<char>,
    artist: Seq<char>,
    track: Seq<char>,
) -> HttpRequestView {
    HttpRequestView {
        method: Method::Get,
        url: search_url(artist, track),
        credentials: CredentialsView::Bearer { token: access_token },
        payload: PayloadView::Empty,
    }
}

/// The request that searches the catalogue for one track by `artist` that
/// is called `track`.
pub fn search_request(access_token: &str, artist: &str, track: &str) -> (r: HttpRequest)
    ensures
        r@ == search_request_model(access_token@, artist@, track@),
{
    let mut url = String::from_str("https://api.spotify.com/v1/search?q=artist:");
    url.append(artist);
    url.append("+track:");
    url.append(track);
    url.append("&type=track&limit=1");
    HttpRequest {
        method: Method::Get,
        url,
        credentials: Credentials::Bearer { token: owned(access_token) },
        payload: Payload::Empty,
    }
}

/// What a list of found tracks holds: the identifier of the first. No track
/// is no match; a first track without an identifier is not the document
/// that a search gives.
pub open spec fn first_uri(tracks: Seq<TrackView>) -> Result<Seq<char>, ApiErrorView> {
    if tracks.len() == 0 {
        Err(ApiErrorView::NotFound)
    } else {
        match tracks[0].uri {
            Some(uri) => Ok(uri),
            None => Err(ApiErrorView::Decode { error: DecodeErrorView::Shape }),
        }
    }
}

/// What the answer to a search holds: under status 200 the identifier of
/// the first track found; no match where none was found or the status is
/// 404; any other status as it came.
pub open spec fn search_outcome(reply: HttpReplyView) -> Result<Seq<char>, ApiErrorView> {
    match reply {
        HttpReplyView::Failed { message } => Err(ApiErrorView::Transport { message }),
        HttpReplyView::Answered { status, status_text, body } => if status == 200 {
            match decoded_document::<SearchResponse>(json_decoding(body)) {
                Ok(tracks) => first_uri(tracks),
                Err(error) => Err(ApiErrorView::Decode { error }),
            }
        } else if status == 404 {
            Err(ApiErrorView::NotFound)
        } else {
            Err(ApiErrorView::Status { status, status_text })
        },
    }
}

/// The identifier of the first of the tracks that a search found.
pub fn first_match(found: &SearchResponse) -> (r: Result<String, ApiError>)
    ensures
        outcome(r) == first_uri(found@),
{
    if found.tracks.items.len() == 0 {
        Err(ApiError::NotFound)
    } else {
        match &found.tracks.items[0].uri {
            Some(uri) => Ok(uri.clone()),
            None => Err(ApiError::Decode { error: DecodeError::Shape }),
        }
    }
}

/// Reads the identifier of the best match out of the answer to a search.
pub fn read_search(reply: &HttpReply) -> (r: Result<String, ApiError>)
    ensures
        outcome(r) == search_outcome(reply@),
{
    match reply {
        HttpReply::Failed { message } => Err(ApiError::Transport { message: message.clone() }),
        HttpReply::Answered { status, status_text, body } => {
            if *status == 200 {
                match decode_document::<SearchResponse>(body.as_str()) {
                    Ok(found) => first_match(&found),
                    Err(error) => Err(ApiError::Decode { error }),
                }
            } else if *status == 404 {
                Err(ApiError::NotFound)
            } else {
                Err(ApiError::Status { status: *status, status_text: status_text.clone() })
            }
        },
    }
}

/// The request that adds the tracks `uris` to the playlist `playlist_id`,
/// all of them in one call.
pub open spec fn add_tracks_request_model(
    access_token: Seq<char>,
    playlist_id: Seq<char>,
    uris: Seq<Seq<char>>,
) -> HttpRequestView {
    HttpRequestView {
        method: Method::Post,
        url: "https://api.spotify.com/v1/playlists/"@ + playlist_id + "/tracks"@,
        credentials: CredentialsView::Bearer { token: access_token },
        payload: PayloadView::Json { text: AddTracksRequest::json_text(uris) },
    }
}

/// The request that adds the tracks `uris` to the playlist `playlist_id`.
/// The list is sent whole, however long it is, and must hold a track: with
/// nothing to add, no request is made.
pub fn add_tracks_request(access_token: &str, playlist_id: &str, uris: Vec<String>) -> (r:
    HttpRequest)
    requires
        uris@.len() > 0,
    ensures
        r@ == add_tracks_request_model(access_token@, playlist_id@, views(uris@)),
{
    let mut url = String::from_str("https://api.spotify.com/v1/playlists/");
    url.append(playlist_id);
    url.append("/tracks");
    let body = AddTracksRequest { uris };
    HttpRequest {
        method: Method::Post,
        url,
        credentials: Credentials::Bearer { token: owned(access_token) },
        payload: Payload::Json { text: body.to_json() },
    }
}

/// What the answer to adding tracks holds: any success status is success,
/// any other status comes as it is.
pub open spec fn add_tracks_outcome(reply: HttpReplyView) -> Result<(), ApiErrorView> {
    match reply {
        HttpReplyView::Failed { message } => Err(ApiErrorView::Transport { message }),
        HttpReplyView::Answered { status, status_text, body } => if is_success(status) {
            Ok(())
        } else {
            Err(ApiErrorView::Status { status, status_text })
        },
    }
}

/// Reads whether the tracks were added. The body of the answer is not
/// looked at.
pub fn read_add_tracks(reply: &HttpReply) -> (r: Result<(), ApiError>)
    ensures
        outcome(r) == add_tracks_outcome(reply@),
{
    match reply {
        HttpReply::Failed { message } => Err(ApiError::Transport { message: message.clone() }),
        HttpReply::Answered { status, status_text, body: _ } => {
            if status_is_success(*status) {
                Ok(())
            } else {
                Err(ApiError::Status { status: *status, status_text: status_text.clone() })
            }
        },
    }
}

} // verus!
