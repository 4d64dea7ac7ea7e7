use playlist_suggest::auth::{get_authorization_url, token_request, Grant};
use playlist_suggest::http::{Credentials, FormField, HttpRequest, Method, Payload};
use playlist_suggest::models::{AddTracksRequest, LlmRequest, Message};
use playlist_suggest::playlist::playlist_request;
use playlist_suggest::recommend::{build_prompt, completion_request, recommendation_request};
use playlist_suggest::resolve::{add_tracks_request, search_request};

fn field(name: &str, value: &str) -> FormField {
    FormField { name: name.to_string(), value: value.to_string() }
}

fn bearer(token: &str) -> Credentials {
    Credentials::Bearer { token: token.to_string() }
}

fn json_body(request: &HttpRequest) -> serde_json::Value {
    match &request.payload {
        Payload::Json { text } => serde_json::from_str(text).unwrap(),
        other => panic!("no JSON payload: {:?}", other),
    }
}

#[test]
fn authorization_url_embeds_the_scopes_and_the_arguments() {
    assert_eq!(
        get_authorization_url("id", "http://localhost:8888/callback"),
        "https://accounts.spotify.com/authorize?response_type=code&client_id=id&scope=playlist-modify-public playlist-modify-private&redirect_uri=http://localhost:8888/callback"
    );
}

#[test]
fn authorization_url_does_not_examine_its_arguments() {
    assert_eq!(
        get_authorization_url("", "not a uri & more"),
        "https://accounts.spotify.com/authorize?response_type=code&client_id=&scope=playlist-modify-public playlist-modify-private&redirect_uri=not a uri & more"
    );
}

#[test]
fn token_request_for_a_code() {
    let grant = Grant::AuthorizationCode { code: "abc".to_string(), redirect_uri: "http://cb".to_string() };
    let request = token_request("id", "secret", &grant);
    assert_eq!(
        request,
        HttpRequest {
            method: Method::Post,
            url: "https://accounts.spotify.com/api/token".to_string(),
            credentials: Credentials::Anonymous,
            payload: Payload::Form {
                fields: vec![
                    field("grant_type", "authorization_code"),
                    field("code", "abc"),
                    field("redirect_uri", "http://cb"),
                    field("client_id", "id"),
                    field("client_secret", "secret"),
                ],
            },
        }
    );
}

#[test]
fn token_request_for_client_credentials() {
    let request = token_request("id", "secret", &Grant::ClientCredentials);
    assert_eq!(
        request,
        HttpRequest {
            method: Method::Post,
            url: "https://accounts.spotify.com/api/token".to_string(),
            credentials: Credentials::Basic { user: "id".to_string(), password: "secret".to_string() },
            payload: Payload::Form { fields: vec![field("grant_type", "client_credentials")] },
        }
    );
}

#[test]
fn playlist_request_is_a_get_with_the_token() {
    assert_eq!(
        playlist_request("tok", "37i9dQ"),
        HttpRequest {
            method: Method::Get,
            url: "https://api.spotify.com/v1/playlists/37i9dQ".to_string(),
            credentials: bearer("tok"),
            payload: Payload::Empty,
        }
    );
}

#[test]
fn search_request_asks_for_one_track() {
    assert_eq!(
        search_request("tok", "ArtistC", "Song3"),
        HttpRequest {
            method: Method::Get,
            url: "https://api.spotify.com/v1/search?q=artist:ArtistC+track:Song3&type=track&limit=1".to_string(),
            credentials: bearer("tok"),
            payload: Payload::Empty,
        }
    );
}

#[test]
fn search_request_leaves_names_unencoded() {
    let request = search_request("tok", "AC/DC & Friends", "R#1 + more");
    assert_eq!(
        request.url,
        "https://api.spotify.com/v1/search?q=artist:AC/DC & Friends+track:R#1 + more&type=track&limit=1"
    );
}

#[test]
fn add_tracks_request_sends_the_list_in_one_body() {
    let request = add_tracks_request("tok", "pl", vec!["spotify:track:999".to_string()]);
    assert_eq!(
        request,
        HttpRequest {
            method: Method::Post,
            url: "https://api.spotify.com/v1/playlists/pl/tracks".to_string(),
            credentials: bearer("tok"),
            payload: Payload::Json { text: "{\"uris\":[\"spotify:track:999\"]}".to_string() },
        }
    );
}

#[test]
fn add_tracks_request_does_not_split_a_long_list() {
    let uris: Vec<String> = (0..250).map(|i| format!("spotify:track:{}", i)).collect();
    let request = add_tracks_request("tok", "pl", uris.clone());
    let body = json_body(&request);
    let sent = body.get("uris").unwrap().as_array().unwrap();
    assert_eq!(sent.len(), 250);
    for (i, uri) in sent.iter().enumerate() {
        assert_eq!(uri.as_str().unwrap(), uris[i]);
    }
}

#[test]
fn add_tracks_body_is_what_serde_writes() {
    let request = AddTracksRequest { uris: vec!["a".to_string(), "b\"c".to_string(), "d\\e\n".to_string()] };
    assert_eq!(request.to_json(), "{\"uris\":[\"a\",\"b\\\"c\",\"d\\\\e\\n\"]}");
    let empty = AddTracksRequest { uris: vec![] };
    assert_eq!(empty.to_json(), "{\"uris\":[]}");
}

#[test]
fn message_and_chat_bodies_are_what_serde_writes() {
    let message = Message { role: "user".to_string(), content: "say \"hi\"\n\u{e9}\u{1}".to_string() };
    assert_eq!(message.to_json(), "{\"role\":\"user\",\"content\":\"say \\\"hi\\\"\\n\u{e9}\\u0001\"}");
    let chat = LlmRequest {
        model: "m".to_string(),
        messages: vec![
            Message { role: "system".to_string(), content: "a".to_string() },
            Message { role: "user".to_string(), content: "b".to_string() },
        ],
    };
    assert_eq!(
        chat.to_json(),
        "{\"model\":\"m\",\"messages\":[{\"role\":\"system\",\"content\":\"a\"},{\"role\":\"user\",\"content\":\"b\"}]}"
    );
    let none = LlmRequest { model: "m".to_string(), messages: vec![] };
    assert_eq!(none.to_json(), "{\"model\":\"m\",\"messages\":[]}");
}

#[test]
fn completion_request_puts_one_user_message() {
    let request = completion_request("key", "hello \"there\"");
    assert_eq!(request.method, Method::Post);
    assert_eq!(request.url, "https://integrate.api.nvidia.com/v1/chat/completions");
    assert_eq!(request.credentials, bearer("key"));
    assert_eq!(
        request.payload,
        Payload::Json {
            text: "{\"model\":\"nvidia/llama-3.1-nemotron-70b-instruct\",\"messages\":[{\"role\":\"user\",\"content\":\"hello \\\"there\\\"\"}]}".to_string(),
        }
    );
}

#[test]
fn recommendation_request_carries_the_prompt() {
    let request = recommendation_request("key", "Song1 by ArtistA, ", 3);
    let body = json_body(&request);
    assert_eq!(body.get("model").unwrap().as_str().unwrap(), "nvidia/llama-3.1-nemotron-70b-instruct");
    let messages = body.get("messages").unwrap().as_array().unwrap();
    assert_eq!(messages.len(), 1);
    assert_eq!(messages[0].get("role").unwrap().as_str().unwrap(), "user");
    assert_eq!(
        messages[0].get("content").unwrap().as_str().unwrap(),
        build_prompt(3, "Song1 by ArtistA, ")
    );
}
