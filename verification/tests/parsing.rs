use playlist_suggest::http::DecodeError;
use playlist_suggest::json::{decode_json, FromJson, Json, Member};
use playlist_suggest::models::{LlmSongsResponse, Song};
use playlist_suggest::suggestions::parse;

fn song(name: &str, artist: &str) -> Song {
    Song { name: name.to_string(), artist: artist.to_string() }
}

#[test]
fn parse_reads_one_song() {
    let songs = parse("{\"songs\":[{\"name\":\"A\",\"artist\":\"B\"}]}").unwrap();
    assert_eq!(songs, vec![song("A", "B")]);
}

#[test]
fn parse_of_what_is_no_json_fails_with_the_decoder_message() {
    let expected = serde_json::from_str::<serde_json::Value>("not json").unwrap_err().to_string();
    match parse("not json") {
        Err(DecodeError::Syntax { message }) => {
            assert_eq!(message, expected);
            assert_eq!(message, "expected ident at line 1 column 2");
        }
        other => panic!("unexpected {:?}", other),
    }
}

#[test]
fn parse_keeps_the_order_of_the_songs() {
    let text = "{\"songs\":[{\"name\":\"C\",\"artist\":\"1\"},{\"name\":\"A\",\"artist\":\"2\"},{\"name\":\"B\",\"artist\":\"3\"}]}";
    assert_eq!(parse(text).unwrap(), vec![song("C", "1"), song("A", "2"), song("B", "3")]);
}

#[test]
fn parse_of_no_songs_is_an_empty_list() {
    assert_eq!(parse("{\"songs\":[]}").unwrap(), Vec::<Song>::new());
}

#[test]
fn parse_ignores_members_it_does_not_know() {
    let text = "{\"note\":\"x\",\"songs\":[{\"year\":1999,\"name\":\"A\",\"artist\":\"B\"}]}";
    assert_eq!(parse(text).unwrap(), vec![song("A", "B")]);
}

#[test]
fn parse_undoes_json_escapes() {
    let text = "{\"songs\":[{\"name\":\"Caf\\u00e9 \\\"Live\\\"\",\"artist\":\"A\\\\B\\n\"}]}";
    assert_eq!(parse(text).unwrap(), vec![song("Caf\u{e9} \"Live\"", "A\\B\n")]);
}

#[test]
fn parse_of_another_shape_fails() {
    let wrong = [
        "{}",
        "[]",
        "null",
        "\"songs\"",
        "{\"songs\":{}}",
        "{\"songs\":null}",
        "{\"songs\":[{\"name\":\"A\"}]}",
        "{\"songs\":[{\"artist\":\"B\"}]}",
        "{\"songs\":[{\"name\":1,\"artist\":\"B\"}]}",
        "{\"songs\":[{\"name\":\"A\",\"artist\":null}]}",
        "{\"songs\":[{\"name\":\"A\",\"artist\":\"B\"},7]}",
        "{\"Songs\":[]}",
    ];
    for text in wrong {
        assert_eq!(parse(text), Err(DecodeError::Shape), "for {}", text);
    }
}

#[test]
fn parse_of_broken_json_fails() {
    let broken = ["", "{", "{\"songs\":[}", "{\"songs\":[]} trailing", "`{\"songs\":[]}`"];
    for text in broken {
        match parse(text) {
            Err(DecodeError::Syntax { message }) => assert!(!message.is_empty()),
            other => panic!("unexpected {:?} for {}", other, text),
        }
    }
}

#[test]
fn decode_json_reads_every_kind_of_value() {
    let json = decode_json("[null,true,false,1,-2,2.5,\"x\",[],{}]").unwrap();
    assert_eq!(
        json,
        Json::Array(vec![
            Json::Null,
            Json::Bool(true),
            Json::Bool(false),
            Json::Number("1".to_string()),
            Json::Number("-2".to_string()),
            Json::Number("2.5".to_string()),
            Json::Text("x".to_string()),
            Json::Array(vec![]),
            Json::Object(vec![]),
        ])
    );
}

#[test]
fn decode_json_reads_nested_members() {
    let json = decode_json("{\"a\":{\"b\":[\"c\"]}}").unwrap();
    assert_eq!(
        json,
        Json::Object(vec![Member {
            name: "a".to_string(),
            value: Json::Object(vec![Member {
                name: "b".to_string(),
                value: Json::Array(vec![Json::Text("c".to_string())]),
            }]),
        }])
    );
}

#[test]
fn decode_json_reports_the_decoder_message() {
    assert_eq!(decode_json("{\"a\":"), Err("EOF while parsing a value at line 1 column 5".to_string()));
    assert_eq!(decode_json(""), Err("EOF while parsing a value at line 1 column 0".to_string()));
}

#[test]
fn member_finds_by_name() {
    let json = decode_json("{\"b\":\"2\",\"a\":[\"1\"],\"c\":null}").unwrap();
    assert_eq!(json.member("a"), Some(&Json::Array(vec![Json::Text("1".to_string())])));
    assert_eq!(json.member("c"), Some(&Json::Null));
    assert_eq!(json.member("d"), None);
    assert_eq!(json.text_member("b"), Some("2"));
    assert_eq!(json.text_member("a"), None);
    assert_eq!(json.text_member("d"), None);
    assert_eq!(json.array_member("a"), Some(&vec![Json::Text("1".to_string())]));
    assert_eq!(json.array_member("b"), None);
    assert_eq!(Json::Null.member("a"), None);
    assert_eq!(Json::Text("a".to_string()).text(), Some("a"));
    assert_eq!(Json::Null.text(), None);
    assert_eq!(Json::Array(vec![]).items(), Some(&vec![]));
    assert_eq!(Json::Bool(true).items(), None);
}

#[test]
fn member_takes_the_first_of_equal_names() {
    let json = Json::Object(vec![
        Member { name: "k".to_string(), value: Json::Text("first".to_string()) },
        Member { name: "k".to_string(), value: Json::Text("second".to_string()) },
    ]);
    assert_eq!(json.text_member("k"), Some("first"));
}

#[test]
fn from_json_reads_a_document_built_by_hand() {
    let document = Json::Object(vec![Member {
        name: "songs".to_string(),
        value: Json::Array(vec![Json::Object(vec![
            Member { name: "artist".to_string(), value: Json::Text("B".to_string()) },
            Member { name: "name".to_string(), value: Json::Text("A".to_string()) },
        ])]),
    }]);
    assert_eq!(LlmSongsResponse::from_json(&document), Some(LlmSongsResponse { songs: vec![song("A", "B")] }));
    assert_eq!(Song::from_json(&Json::Null), None);
}
