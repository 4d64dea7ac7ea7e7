use playlist_suggest::models::{Artist, PlaylistResponse, PlaylistTracks, Track, TrackItem};
use playlist_suggest::playlist::render_playlist_text;
use playlist_suggest::recommend::build_prompt;
use playlist_suggest::text::{decimal_text, join};

fn track(name: &str, artists: &[&str]) -> TrackItem {
    TrackItem {
        track: Track {
            name: name.to_string(),
            artists: artists.iter().map(|a| Artist { name: a.to_string() }).collect(),
            uri: None,
        },
    }
}

fn playlist(items: Vec<TrackItem>) -> PlaylistResponse {
    PlaylistResponse { tracks: PlaylistTracks { items } }
}

fn count_of(text: &str, pattern: &str) -> usize {
    let mut n = 0;
    let mut at = 0;
    while at + pattern.len() <= text.len() {
        if text.is_char_boundary(at) && text[at..].starts_with(pattern) {
            n += 1;
        }
        at += 1;
    }
    n
}

const INSTRUCTION_FOR_FIVE: &str = "I will give you a playlist, give me 5 songs that are similar to the songs in the playlist, no songs that you give me should be the same as the songs in the playlist. Your goal is to give me songs that fit the vibe of the playlist. You are only allowed to give me the songs nothing more. The format of your answer will be a JSON object with the key 'songs' and the value being a list of song objects. Each song object should have the keys 'name' and 'artist'. Here is the playlist: ";

#[test]
fn render_of_no_tracks_is_empty() {
    assert_eq!(render_playlist_text(&playlist(vec![])), "");
}

#[test]
fn prompt_embeds_an_empty_playlist() {
    let text = render_playlist_text(&playlist(vec![]));
    assert_eq!(build_prompt(5, &text), INSTRUCTION_FOR_FIVE);
}

#[test]
fn render_writes_each_track_with_by_and_a_comma() {
    let p = playlist(vec![track("Song1", &["ArtistA"]), track("Song2", &["ArtistB"])]);
    assert_eq!(render_playlist_text(&p), "Song1 by ArtistA, Song2 by ArtistB, ");
}

#[test]
fn render_joins_the_artists_of_a_track() {
    let p = playlist(vec![track("S", &["A", "B", "C"])]);
    assert_eq!(render_playlist_text(&p), "S by A, B, C, ");
}

#[test]
fn render_of_a_track_without_artists() {
    let p = playlist(vec![track("S", &[]), track("", &[""])]);
    assert_eq!(render_playlist_text(&p), "S by ,  by , ");
}

#[test]
fn render_has_one_by_for_each_track_and_keeps_the_order() {
    let names = ["Alpha", "Beta", "Gamma", "Delta"];
    let mut items = Vec::new();
    for (i, name) in names.iter().enumerate() {
        items.push(track(name, &[&format!("Artist{}", i)]));
        let text = render_playlist_text(&playlist(
            names[..=i].iter().enumerate().map(|(k, n)| track(n, &[&format!("Artist{}", k)])).collect(),
        ));
        assert_eq!(count_of(&text, " by "), i + 1);
    }
    let text = render_playlist_text(&playlist(items));
    let mut last = 0;
    for name in names {
        let at = text.find(name).unwrap();
        assert!(at >= last);
        last = at;
    }
}

#[test]
fn render_counts_a_by_inside_a_name_too() {
    let p = playlist(vec![track("Stand by Me", &["Ben E. King"])]);
    let text = render_playlist_text(&p);
    assert_eq!(text, "Stand by Me by Ben E. King, ");
    assert_eq!(count_of(&text, " by "), 2);
}

#[test]
fn prompt_holds_the_count_and_the_playlist_as_it_is() {
    assert_eq!(
        build_prompt(5, "Song1 by ArtistA, Song2 by ArtistB, "),
        format!("{}Song1 by ArtistA, Song2 by ArtistB, ", INSTRUCTION_FOR_FIVE)
    );
    let p = build_prompt(12, "x");
    assert!(p.starts_with("I will give you a playlist, give me 12 songs that are similar"));
    assert!(p.ends_with("Here is the playlist: x"));
    assert!(p.contains("'songs'"));
    assert!(p.contains("'name' and 'artist'"));
}

#[test]
fn prompt_takes_any_count() {
    assert!(build_prompt(0, "").starts_with("I will give you a playlist, give me 0 songs"));
    assert!(build_prompt(-3, "").starts_with("I will give you a playlist, give me -3 songs"));
}

#[test]
fn decimal_text_is_what_display_writes() {
    for n in [0, 1, 9, 10, 11, 99, 100, 101, 1000, 65535, i32::MAX, -1, -9, -10, -100, -2147483647, i32::MIN] {
        assert_eq!(decimal_text(n), format!("{}", n));
    }
    assert_eq!(decimal_text(i32::MIN), "-2147483648");
    assert_eq!(decimal_text(2147483647), "2147483647");
    assert_eq!(decimal_text(7), "7");
}

#[test]
fn join_puts_the_separator_between() {
    let none: Vec<String> = vec![];
    assert_eq!(join(&none, ", "), "");
    assert_eq!(join(&vec!["a".to_string()], ", "), "a");
    assert_eq!(join(&vec!["a".to_string(), "b".to_string(), "c".to_string()], ", "), "a, b, c");
    assert_eq!(join(&vec!["".to_string(), "".to_string()], ","), ",");
    assert_eq!(join(&vec!["a".to_string(), "b".to_string()], ""), "ab");
}
