use playlist_suggest::auth::read_access_token;
use playlist_suggest::http::{decode_document, status_is_success, ApiError, DecodeError, HttpReply, Operation};
use playlist_suggest::models::{
    Artist, Choice, LlmResponse, MessageResponse, PlaylistResponse, PlaylistTracks, SearchResponse,
    SearchTracks, SpotifyAuthResponse, Track, TrackItem,
};
use playlist_suggest::playlist::read_playlist;
use playlist_suggest::recommend::read_completion;
use playlist_suggest::resolve::{first_match, read_add_tracks, read_search};

fn answered(status: u16, status_text: &str, body: &str) -> HttpReply {
    HttpReply::Answered { status, status_text: status_text.to_string(), body: body.to_string() }
}

fn failed(message: &str) -> HttpReply {
    HttpReply::Failed { message: message.to_string() }
}

fn transport(message: &str) -> ApiError {
    ApiError::Transport { message: message.to_string() }
}

fn status(status: u16, status_text: &str) -> ApiError {
    ApiError::Status { status, status_text: status_text.to_string() }
}

fn shape() -> ApiError {
    ApiError::Decode { error: DecodeError::Shape }
}

fn is_syntax(error: &ApiError) -> bool {
    matches!(error, ApiError::Decode { error: DecodeError::Syntax { .. } })
}

fn found(name: &str, artists: &[&str], uri: Option<&str>) -> Track {
    Track {
        name: name.to_string(),
        artists: artists.iter().map(|a| Artist { name: a.to_string() }).collect(),
        uri: uri.map(|u| u.to_string()),
    }
}

const PLAYLIST_BODY: &str = "{\"name\":\"Mix\",\"tracks\":{\"total\":2,\"items\":[{\"added_at\":\"now\",\"track\":{\"name\":\"Song1\",\"artists\":[{\"name\":\"ArtistA\",\"id\":\"1\"}],\"uri\":\"spotify:track:1\"}},{\"track\":{\"name\":\"Song2\",\"artists\":[{\"name\":\"ArtistB\"},{\"name\":\"ArtistC\"}]}}]}}";

#[test]
fn access_token_is_read_from_the_body() {
    let reply = answered(200, "200 OK", "{\"access_token\":\"tok\",\"token_type\":\"Bearer\",\"expires_in\":3600}");
    assert_eq!(read_access_token(&reply), Ok("tok".to_string()));
}

#[test]
fn access_token_does_not_look_at_the_status() {
    assert_eq!(read_access_token(&answered(400, "400 Bad Request", "{\"access_token\":\"t\"}")), Ok("t".to_string()));
    assert_eq!(read_access_token(&answered(400, "400 Bad Request", "{\"error\":\"invalid_grant\"}")), Err(shape()));
}

#[test]
fn access_token_fails_on_transport_and_on_decoding() {
    assert_eq!(read_access_token(&failed("connection refused")), Err(transport("connection refused")));
    assert!(is_syntax(&read_access_token(&answered(200, "200 OK", "<html>")).unwrap_err()));
    assert_eq!(read_access_token(&answered(200, "200 OK", "{\"access_token\":5}")), Err(shape()));
    assert_eq!(read_access_token(&answered(200, "200 OK", "[]")), Err(shape()));
}

#[test]
fn playlist_is_read_under_status_200() {
    let playlist = read_playlist(&answered(200, "200 OK", PLAYLIST_BODY)).unwrap();
    assert_eq!(
        playlist,
        PlaylistResponse {
            tracks: PlaylistTracks {
                items: vec![
                    TrackItem { track: found("Song1", &["ArtistA"], Some("spotify:track:1")) },
                    TrackItem { track: found("Song2", &["ArtistB", "ArtistC"], None) },
                ],
            },
        }
    );
}

#[test]
fn playlist_of_an_unknown_id_is_not_found() {
    assert_eq!(read_playlist(&answered(404, "404 Not Found", "")), Err(ApiError::NotFound));
    assert_eq!(read_playlist(&answered(404, "404 Not Found", PLAYLIST_BODY)), Err(ApiError::NotFound));
}

#[test]
fn playlist_under_another_status_is_that_status() {
    assert_eq!(read_playlist(&answered(401, "401 Unauthorized", "")), Err(status(401, "401 Unauthorized")));
    assert_eq!(read_playlist(&answered(500, "500 Internal Server Error", PLAYLIST_BODY)), Err(status(500, "500 Internal Server Error")));
    assert_eq!(read_playlist(&answered(201, "201 Created", PLAYLIST_BODY)), Err(status(201, "201 Created")));
}

#[test]
fn playlist_fails_on_transport_and_on_decoding() {
    assert_eq!(read_playlist(&failed("dns error")), Err(transport("dns error")));
    assert!(is_syntax(&read_playlist(&answered(200, "200 OK", "{")).unwrap_err()));
    assert_eq!(read_playlist(&answered(200, "200 OK", "{}")), Err(shape()));
    assert_eq!(read_playlist(&answered(200, "200 OK", "{\"tracks\":{\"items\":[{\"track\":null}]}}")), Err(shape()));
    assert_eq!(read_playlist(&answered(200, "200 OK", "{\"tracks\":{\"items\":[{\"track\":{\"name\":\"x\",\"artists\":[{}]}}]}}")), Err(shape()));
    assert_eq!(read_playlist(&answered(200, "200 OK", "{\"tracks\":{\"items\":[{\"track\":{\"name\":\"x\",\"artists\":[],\"uri\":7}}]}}")), Err(shape()));
}

#[test]
fn playlist_without_items_is_empty() {
    let playlist = read_playlist(&answered(200, "200 OK", "{\"tracks\":{\"items\":[]}}")).unwrap();
    assert_eq!(playlist.tracks.items.len(), 0);
}

#[test]
fn completion_gives_the_first_choice_unchanged() {
    let body = "{\"id\":\"x\",\"choices\":[{\"index\":0,\"message\":{\"role\":\"assistant\",\"content\":\"  `{}`\\n\"}},{\"message\":{\"content\":\"second\"}}]}";
    assert_eq!(read_completion(&answered(200, "200 OK", body)), Ok("  `{}`\n".to_string()));
    assert_eq!(read_completion(&answered(201, "201 Created", body)), Ok("  `{}`\n".to_string()));
    assert_eq!(read_completion(&answered(299, "299 <unknown status code>", body)), Ok("  `{}`\n".to_string()));
}

#[test]
fn completion_without_choices_fails() {
    assert_eq!(read_completion(&answered(200, "200 OK", "{\"choices\":[]}")), Err(ApiError::NoChoices));
}

#[test]
fn completion_under_a_status_that_is_no_success() {
    let body = "{\"choices\":[{\"message\":{\"content\":\"x\"}}]}";
    assert_eq!(read_completion(&answered(500, "500 Internal Server Error", body)), Err(status(500, "500 Internal Server Error")));
    assert_eq!(read_completion(&answered(404, "404 Not Found", body)), Err(status(404, "404 Not Found")));
    assert_eq!(read_completion(&answered(199, "199 <unknown status code>", body)), Err(status(199, "199 <unknown status code>")));
    assert_eq!(read_completion(&answered(300, "300 Multiple Choices", body)), Err(status(300, "300 Multiple Choices")));
}

#[test]
fn completion_fails_on_transport_and_on_decoding() {
    assert_eq!(read_completion(&failed("timed out")), Err(transport("timed out")));
    assert!(is_syntax(&read_completion(&answered(200, "200 OK", "oops")).unwrap_err()));
    assert_eq!(read_completion(&answered(200, "200 OK", "{\"choices\":[{\"message\":{}}]}")), Err(shape()));
    assert_eq!(read_completion(&answered(200, "200 OK", "{\"choices\":[{}]}")), Err(shape()));
    assert_eq!(read_completion(&answered(200, "200 OK", "{}")), Err(shape()));
}

#[test]
fn search_with_one_item_gives_its_uri() {
    let body = "{\"tracks\":{\"items\":[{\"name\":\"Song3\",\"artists\":[{\"name\":\"ArtistC\"}],\"uri\":\"spotify:track:123\"}]}}";
    assert_eq!(read_search(&answered(200, "200 OK", body)), Ok("spotify:track:123".to_string()));
}

#[test]
fn search_takes_the_first_of_several_items() {
    let body = "{\"tracks\":{\"items\":[{\"name\":\"a\",\"artists\":[],\"uri\":\"u1\"},{\"name\":\"b\",\"artists\":[],\"uri\":\"u2\"}]}}";
    assert_eq!(read_search(&answered(200, "200 OK", body)), Ok("u1".to_string()));
}

#[test]
fn search_with_zero_items_is_no_match() {
    assert_eq!(read_search(&answered(200, "200 OK", "{\"tracks\":{\"items\":[]}}")), Err(ApiError::NotFound));
}

#[test]
fn search_under_404_is_no_match() {
    assert_eq!(read_search(&answered(404, "404 Not Found", "")), Err(ApiError::NotFound));
}

#[test]
fn search_under_another_status_is_that_status() {
    assert_eq!(read_search(&answered(429, "429 Too Many Requests", "")), Err(status(429, "429 Too Many Requests")));
    assert_eq!(read_search(&answered(204, "204 No Content", "")), Err(status(204, "204 No Content")));
}

#[test]
fn search_fails_on_transport_and_on_decoding() {
    assert_eq!(read_search(&failed("reset")), Err(transport("reset")));
    assert!(is_syntax(&read_search(&answered(200, "200 OK", "")).unwrap_err()));
    assert_eq!(read_search(&answered(200, "200 OK", "{\"tracks\":{}}")), Err(shape()));
    let without_uri = "{\"tracks\":{\"items\":[{\"name\":\"a\",\"artists\":[]}]}}";
    assert_eq!(read_search(&answered(200, "200 OK", without_uri)), Err(shape()));
}

#[test]
fn first_match_reads_a_response_built_by_hand() {
    let none = SearchResponse { tracks: SearchTracks { items: vec![] } };
    assert_eq!(first_match(&none), Err(ApiError::NotFound));
    let one = SearchResponse { tracks: SearchTracks { items: vec![found("a", &[], Some("u")), found("b", &[], None)] } };
    assert_eq!(first_match(&one), Ok("u".to_string()));
    let bare = SearchResponse { tracks: SearchTracks { items: vec![found("a", &[], None)] } };
    assert_eq!(first_match(&bare), Err(shape()));
}

#[test]
fn add_tracks_succeeds_under_any_success_status() {
    assert_eq!(read_add_tracks(&answered(201, "201 Created", "{\"snapshot_id\":\"x\"}")), Ok(()));
    assert_eq!(read_add_tracks(&answered(200, "200 OK", "")), Ok(()));
    assert_eq!(read_add_tracks(&answered(204, "204 No Content", "not json")), Ok(()));
}

#[test]
fn add_tracks_fails_under_any_other_status_and_on_transport() {
    assert_eq!(read_add_tracks(&answered(403, "403 Forbidden", "")), Err(status(403, "403 Forbidden")));
    assert_eq!(read_add_tracks(&answered(404, "404 Not Found", "")), Err(status(404, "404 Not Found")));
    assert_eq!(read_add_tracks(&answered(302, "302 Found", "")), Err(status(302, "302 Found")));
    assert_eq!(read_add_tracks(&failed("broken pipe")), Err(transport("broken pipe")));
}

#[test]
fn success_statuses_are_200_to_299() {
    for code in 0..=700u16 {
        assert_eq!(status_is_success(code), (200..300).contains(&code));
    }
}

#[test]
fn wants_body_only_where_the_body_is_read() {
    for code in [100u16, 200, 201, 204, 299, 300, 401, 404, 500] {
        assert!(Operation::Token.wants_body(code));
        assert_eq!(Operation::Playlist.wants_body(code), code == 200);
        assert_eq!(Operation::Search.wants_body(code), code == 200);
        assert_eq!(Operation::Completion.wants_body(code), (200..300).contains(&code));
        assert!(!Operation::AddTracks.wants_body(code));
    }
}

#[test]
fn messages_of_the_errors() {
    assert_eq!(ApiError::NotFound.message(Operation::Playlist), "Invalid Playlist ID: The playlist could not be found.");
    assert_eq!(ApiError::NotFound.message(Operation::Search), "No results found for the specified artist and track.");
    assert_eq!(status(500, "500 Internal Server Error").message(Operation::Playlist), "Error fetching playlist: 500 Internal Server Error");
    assert_eq!(status(403, "403 Forbidden").message(Operation::AddTracks), "Failed to add tracks to playlist: 403 Forbidden");
    assert_eq!(status(429, "429 Too Many Requests").message(Operation::Search), "429 Too Many Requests");
    assert_eq!(status(500, "500 Internal Server Error").message(Operation::Completion), "500 Internal Server Error");
    assert_eq!(status(400, "400 Bad Request").message(Operation::Token), "400 Bad Request");
    for operation in [Operation::Token, Operation::Playlist, Operation::Completion, Operation::Search, Operation::AddTracks] {
        assert_eq!(transport("dns error").message(operation), "dns error");
        assert_eq!(ApiError::NoChoices.message(operation), "No response choices available");
    }
    let syntax = ApiError::Decode { error: DecodeError::Syntax { message: "expected value at line 1 column 1".to_string() } };
    assert_eq!(syntax.message(Operation::Completion), "Failed to parse response: expected value at line 1 column 1");
    assert_eq!(syntax.message(Operation::Playlist), "expected value at line 1 column 1");
    assert_eq!(shape().message(Operation::Search), "unexpected shape of the JSON document");
    assert_eq!(shape().message(Operation::Completion), "Failed to parse response: unexpected shape of the JSON document");
    assert_eq!(DecodeError::Shape.message(), "unexpected shape of the JSON document");
    assert_eq!(DecodeError::Syntax { message: "m".to_string() }.message(), "m");
}

#[test]
fn decode_document_reads_each_shape() {
    assert_eq!(
        decode_document::<SpotifyAuthResponse>("{\"access_token\":\"t\"}"),
        Ok(SpotifyAuthResponse { access_token: "t".to_string() })
    );
    assert_eq!(
        decode_document::<LlmResponse>("{\"choices\":[{\"message\":{\"content\":\"c\"}}]}"),
        Ok(LlmResponse { choices: vec![Choice { message: MessageResponse { content: "c".to_string() } }] })
    );
    assert_eq!(
        decode_document::<Track>("{\"name\":\"n\",\"artists\":[{\"name\":\"a\"}],\"uri\":null}"),
        Ok(found("n", &["a"], None))
    );
    assert_eq!(decode_document::<Artist>("{\"name\":[]}"), Err(DecodeError::Shape));
    assert!(matches!(decode_document::<Artist>("{\"name\""), Err(DecodeError::Syntax { .. })));
}
