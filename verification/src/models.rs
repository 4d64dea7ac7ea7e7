//! The shapes that travel to and from the two services.

use crate::json::{
    all_decoded, all_from_json, array_member_from_json, decoded_array_member, decoded_member,
    json_quoted, member_from_json, quote, FromJson, Json, JsonValue,
};
use crate::text::{join, joined};
use crate::views::views;
use vstd::prelude::*;

verus! {

/// An artist of a track.
#[derive(Debug, PartialEq, Eq)]
pub struct Artist {
    pub name: String,
}

impl View for Artist {
    type V = Seq<char>;

    open spec fn view(&self) -> Seq<char> {
        self.name@
    }
}

impl FromJson for Artist {
    open spec fn decoded(value: JsonValue) -> Option<Seq<char>> {
        value.text_member("name"@)
    }

    fn from_json(value: &Json) -> (r: Option<Artist>) {
        match value.text_member("name") {
            Some(name) => Some(Artist { name: String::from_str(name) }),
            None => None,
        }
    }
}

/// A track of the catalogue.
#[derive(Debug, PartialEq, Eq)]
pub struct Track {
    pub name: String,
    pub artists: Vec<Artist>,
    /// The identifier under which the catalogue knows the track, where the
    /// service gave one.
    pub uri: Option<String>,
}

/// The mathematical value of a [`Track`].
pub struct TrackView {
    pub name: Seq<char>,
    pub artists: Seq<Seq<char>>,
    pub uri: Option<Seq<char>>,
}

impl View for Track {
    type V = TrackView;

    open spec fn view(&self) -> TrackView {
        TrackView {
            name: self.name@,
            artists: views(self.artists@),
            uri: match self.uri {
                Some(uri) => Some(uri@),
                None => None,
            },
        }
    }
}

/// What an optional string member holds: nothing where the member is absent
/// or null, its text where it is a string. Anything else has not the shape.
pub open spec fn optional_text(member: Option<JsonValue>) -> Option<Option<Seq<char>>> {
    match member {
        None => Some(None),
        Some(JsonValue::Null) => Some(None),
        Some(JsonValue::Text(t)) => Some(Some(t)),
        Some(_) => None,
    }
}

impl FromJson for Track {
    open spec fn decoded(value: JsonValue) -> Option<TrackView> {
        match (
            value.text_member("name"@),
            value.array_member("artists"@),
            optional_text(value.member("uri"@)),
        ) {
            (Some(name), Some(items), Some(uri)) => match all_decoded::<Artist>(items) {
                Some(artists) => Some(TrackView { name, artists, uri }),
                None => None,
            },
            _ => None,
        }
    }

    fn from_json(value: &Json) -> (r: Option<Track>) {
        let name = match value.text_member("name") {
            Some(name) => String::from_str(name),
            None => { return None; },
        };
        let artists = match value.array_member("artists") {
            Some(items) => match all_from_json::<Artist>(items) {
                Some(artists) => artists,
                None => { return None; },
            },
            None => { return None; },
        };
        let uri = match value.member("uri") {
            None => None,
            Some(Json::Null) => None,
            Some(Json::Text(t)) => Some(t.clone()),
            Some(_) => { return None; },
        };
        Some(Track { name, artists, uri })
    }
}

/// One entry of a playlist.
#[derive(Debug, PartialEq, Eq)]
pub struct TrackItem {
    pub track: Track,
}

impl View for TrackItem {
    type V = TrackView;

    open spec fn view(&self) -> TrackView {
        self.track@
    }
}

impl FromJson for TrackItem {
    open spec fn decoded(value: JsonValue) -> Option<TrackView> {
        decoded_member::<Track>(value, "track"@)
    }

    fn from_json(value: &Json) -> (r: Option<TrackItem>) {
        match member_from_json::<Track>(value, "track") {
            Some(track) => Some(TrackItem { track }),
            None => None,
        }
    }
}

/// The entries of a playlist, in the order of the service.
#[derive(Debug, PartialEq, Eq)]
pub struct PlaylistTracks {
    pub items: Vec<TrackItem>,
}

impl View for PlaylistTracks {
    type V = Seq<TrackView>;

    open spec fn view(&self) -> Seq<TrackView> {
        views(self.items@)
    }
}

impl FromJson for PlaylistTracks {
    open spec fn decoded(value: JsonValue) -> Option<Seq<TrackView>> {
        decoded_array_member::<TrackItem>(value, "items"@)
    }

    fn from_json(value: &Json) -> (r: Option<PlaylistTracks>) {
        match array_member_from_json::<TrackItem>(value, "items") {
            Some(items) => Some(PlaylistTracks { items }),
            None => None,
        }
    }
}

/// What the service answers when asked for a playlist. Its value is the
/// sequence of the playlist's tracks.
#[derive(Debug, PartialEq, Eq)]
pub struct PlaylistResponse {
    pub tracks: PlaylistTracks,
}

impl View for PlaylistResponse {
    type V = Seq<TrackView>;

    open spec fn view(&self) -> Seq<TrackView> {
        self.tracks@
    }
}

impl FromJson for PlaylistResponse {
    open spec fn decoded(value: JsonValue) -> Option<Seq<TrackView>> {
        decoded_member::<PlaylistTracks>(value, "tracks"@)
    }

    fn from_json(value: &Json) -> (r: Option<PlaylistResponse>) {
        match member_from_json::<PlaylistTracks>(value, "tracks") {
            Some(tracks) => Some(PlaylistResponse { tracks }),
            None => None,
        }
    }
}

/// The tracks that a search found, the best match first.
#[derive(Debug, PartialEq, Eq)]
pub struct SearchTracks {
    pub items: Vec<Track>,
}

impl View for SearchTracks {
    type V = Seq<TrackView>;

    open spec fn view(&self) -> Seq<TrackView> {
        views(self.items@)
    }
}

impl FromJson for SearchTracks {
    open spec fn decoded(value: JsonValue) -> Option<Seq<TrackView>> {
        decoded_array_member::<Track>(value, "items"@)
    }

    fn from_json(value: &Json) -> (r: Option<SearchTracks>) {
        match array_member_from_json::<Track>(value, "items") {
            Some(items) => Some(SearchTracks { items }),
            None => None,
        }
    }
}

/// What the service answers to a search for tracks. Its value is the
/// sequence of the tracks found.
#[derive(Debug, PartialEq, Eq)]
pub struct SearchResponse {
    pub tracks: SearchTracks,
}

impl View for SearchResponse {
    type V = Seq<TrackView>;

    open spec fn view(&self) -> Seq<TrackView> {
        self.tracks@
    }
}

impl FromJson for SearchResponse {
    open spec fn decoded(value: JsonValue) -> Option<Seq<TrackView>> {
        decoded_member::<SearchTracks>(value, "tracks"@)
    }

    fn from_json(value: &Json) -> (r: Option<SearchResponse>) {
        match member_from_json::<SearchTracks>(value, "tracks") {
            Some(tracks) => Some(SearchResponse { tracks }),
            None => None,
        }
    }
}

/// What the token endpoint answers. Its value is the access token.
#[derive(Debug, PartialEq, Eq)]
pub struct SpotifyAuthResponse {
    pub access_token: String,
}

impl View for SpotifyAuthResponse {
    type V = Seq<char>;

    open spec fn view(&self) -> Seq<char> {
        self.access_token@
    }
}

impl FromJson for SpotifyAuthResponse {
    open spec fn decoded(value: JsonValue) -> Option<Seq<char>> {
        value.text_member("access_token"@)
    }

    fn from_json(value: &Json) -> (r: Option<SpotifyAuthResponse>) {
        match value.text_member("access_token") {
            Some(token) => Some(SpotifyAuthResponse { access_token: String::from_str(token) }),
            None => None,
        }
    }
}

/// The message of one choice of a chat completion. Its value is the content.
#[derive(Debug, PartialEq, Eq)]
pub struct MessageResponse {
    pub content: String,
}

impl View for MessageResponse {
    type V = Seq<char>;

    open spec fn view(&self) -> Seq<char> {
        self.content@
    }
}

impl FromJson for MessageResponse {
    open spec fn decoded(value: JsonValue) -> Option<Seq<char>> {
        value.text_member("content"@)
    }

    fn from_json(value: &Json) -> (r: Option<MessageResponse>) {
        match value.text_member("content") {
            Some(content) => Some(MessageResponse { content: String::from_str(content) }),
            None => None,
        }
    }
}

/// One choice of a chat completion. Its value is the content of its message.
#[derive(Debug, PartialEq, Eq)]
pub struct Choice {
    pub message: MessageResponse,
}

impl View for Choice {
    type V = Seq<char>;

    open spec fn view(&self) -> Seq<char> {
        self.message@
    }
}

impl FromJson for Choice {
    open spec fn decoded(value: JsonValue) -> Option<Seq<char>> {
        decoded_member::<MessageResponse>(value, "message"@)
    }

    fn from_json(value: &Json) -> (r: Option<Choice>) {
        match member_from_json::<MessageResponse>(value, "message") {
            Some(message) => Some(Choice { message }),
            None => None,
        }
    }
}

/// A chat completion. Its value is the contents of its choices, in order.
#[derive(Debug, PartialEq, Eq)]
pub struct LlmResponse {
    pub choices: Vec<Choice>,
}

impl View for LlmResponse {
    type V = Seq<Seq<char>>;

    open spec fn view(&self) -> Seq<Seq<char>> {
        views(self.choices@)
    }
}

impl FromJson for LlmResponse {
    open spec fn decoded(value: JsonValue) -> Option<Seq<Seq<char>>> {
        decoded_array_member::<Choice>(value, "choices"@)
    }

    fn from_json(value: &Json) -> (r: Option<LlmResponse>) {
        match array_member_from_json::<Choice>(value, "choices") {
            Some(choices) => Some(LlmResponse { choices }),
            None => None,
        }
    }
}

/// A song that the model suggests.
#[derive(Debug, PartialEq, Eq)]
pub struct Song {
    pub name: String,
    pub artist: String,
}

/// The mathematical value of a [`Song`].
pub struct SongView {
    pub name: Seq<char>,
    pub artist: Seq<char>,
}

impl View for Song {
    type V = SongView;

    open spec fn view(&self) -> SongView {
        SongView { name: self.name@, artist: self.artist@ }
    }
}

impl FromJson for Song {
    open spec fn decoded(value: JsonValue) -> Option<SongView> {
        match (value.text_member("name"@), value.text_member("artist"@)) {
            (Some(name), Some(artist)) => Some(SongView { name, artist }),
            _ => None,
        }
    }

    fn from_json(value: &Json) -> (r: Option<Song>) {
        match (value.text_member("name"), value.text_member("artist")) {
            (Some(name), Some(artist)) => Some(
                Song { name: String::from_str(name), artist: String::from_str(artist) },
            ),
            _ => None,
        }
    }
}

/// The songs that the model suggests, in its order.
#[derive(Debug, PartialEq, Eq)]
pub struct LlmSongsResponse {
    pub songs: Vec<Song>,
}

impl View for LlmSongsResponse {
    type V = Seq<SongView>;

    open spec fn view(&self) -> Seq<SongView> {
        views(self.songs@)
    }
}

impl FromJson for LlmSongsResponse {
    open spec fn decoded(value: JsonValue) -> Option<Seq<SongView>> {
        decoded_array_member::<Song>(value, "songs"@)
    }

    fn from_json(value: &Json) -> (r: Option<LlmSongsResponse>) {
        match array_member_from_json::<Song>(value, "songs") {
            Some(songs) => Some(LlmSongsResponse { songs }),
            None => None,
        }
    }
}

/// Each of `texts` as a JSON string literal.
pub open spec fn quoted_all(texts: Seq<Seq<char>>) -> Seq<Seq<char>> {
    Seq::new(texts.len(), |i: int| json_quoted(texts[i]))
}

/// One message of a chat.
#[derive(Debug, PartialEq, Eq)]
pub struct Message {
    pub role: String,
    pub content: String,
}

/// The mathematical value of a [`Message`].
pub struct MessageView {
    pub role: Seq<char>,
    pub content: Seq<char>,
}

impl View for Message {
    type V = MessageView;

    open spec fn view(&self) -> MessageView {
        MessageView { role: self.role@, content: self.content@ }
    }
}

impl Message {
    /// The JSON object that stands for `message`, without white space.
    pub open spec fn json_text(message: MessageView) -> Seq<char> {
        "{\"role\":"@ + json_quoted(message.role) + ",\"content\":"@ + json_quoted(
            message.content,
        ) + "}"@
    }

    /// This message as a JSON object.
    pub fn to_json(&self) -> (r: String)
        ensures
            r@ == Self::json_text(self@),
    {
        let mut out = String::from_str("{\"role\":");
        out.append(quote(self.role.as_str()).as_str());
        out.append(",\"content\":");
        out.append(quote(self.content.as_str()).as_str());
        out.append("}");
        out
    }
}

/// A request for a chat completion.
#[derive(Debug, PartialEq, Eq)]
pub struct LlmRequest {
    pub model: String,
    pub messages: Vec<Message>,
}

/// The mathematical value of an [`LlmRequest`].
pub struct LlmRequestView {
    pub model: Seq<char>,
    pub messages: Seq<MessageView>,
}

impl View for LlmRequest {
    type V = LlmRequestView;

    open spec fn view(&self) -> LlmRequestView {
        LlmRequestView { model: self.model@, messages: views(self.messages@) }
    }
}

impl LlmRequest {
    /// The JSON object that stands for `request`, without white space.
    pub open spec fn json_text(request: LlmRequestView) -> Seq<char> {
        "{\"model\":"@ + json_quoted(request.model) + ",\"messages\":["@ + joined(
            Seq::new(request.messages.len(), |i: int| Message::json_text(request.messages[i])),
            ","@,
        ) + "]}"@
    }

    /// This request as a JSON object.
    pub fn to_json(&self) -> (r: String)
        ensures
            r@ == Self::json_text(self@),
    {
        let mut parts: Vec<String> = Vec::new();
        let mut i: usize = 0;
        while i < self.messages.len()
            invariant
                i <= self.messages.len(),
                parts.len() == i,
                forall|k: int| 0 <= k < i ==> parts@[k]@ == Message::json_text(self.messages@[k]@),
            decreases self.messages.len() - i,
        {
            parts.push(self.messages[i].to_json());
            i += 1;
        }
        assert(views(parts@) =~= Seq::new(
            self@.messages.len(),
            |i: int| Message::json_text(self@.messages[i]),
        ));
        let mut out = String::from_str("{\"model\":");
        out.append(quote(self.model.as_str()).as_str());
        out.append(",\"messages\":[");
        out.append(join(&parts, ",").as_str());
        out.append("]}");
        out
    }
}

/// A request to add tracks to a playlist. Its value is the identifiers of
/// the tracks, in order.
#[derive(Debug, PartialEq, Eq)]
pub struct AddTracksRequest {
    pub uris: Vec<String>,
}

impl View for AddTracksRequest {
    type V = Seq<Seq<char>>;

    open spec fn view(&self) -> Seq<Seq<char>> {
        views(self.uris@)
    }
}

impl AddTracksRequest {
    /// The JSON object that stands for a request with these identifiers,
    /// without white space.
    pub open spec fn json_text(uris: Seq<Seq<char>>) -> Seq<char> {
        "{\"uris\":["@ + joined(quoted_all(uris), ","@) + "]}"@
    }

    /// This request as a JSON object.
    pub fn to_json(&self) -> (r: String)
        ensures
            r@ == Self::json_text(self@),
    {
        let mut parts: Vec<String> = Vec::new();
        let mut i: usize = 0;
        while i < self.uris.len()
            invariant
                i <= self.uris.len(),
                parts.len() == i,
                forall|k: int| 0 <= k < i ==> parts@[k]@ == json_quoted(self.uris@[k]@),
            decreases self.uris.len() - i,
        {
            parts.push(quote(self.uris[i].as_str()));
            i += 1;
        }
        assert(views(parts@) =~= quoted_all(self@));
        let mut out = String::from_str("{\"uris\":[");
        out.append(join(&parts, ",").as_str());
        out.append("]}");
        out
    }
}

} // verus!
