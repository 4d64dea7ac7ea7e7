//! Reading a playlist and writing its tracks out as one line of text.

use crate::http::{
    decoded_document, decode_document, ApiError, ApiErrorView, Credentials, CredentialsView,
    HttpReply, HttpReplyView, HttpRequest, HttpRequestView, Method, Payload, PayloadView,
};
use crate::json::json_decoding;
use crate::models::{PlaylistResponse, Track, TrackView};
use crate::text::{join, joined, occurrences, occurrences_before, occurs_at, owned};
use crate::text::{lemma_occurrence_counts, lemma_single_occurrence};
use crate::views::{outcome, views};
use vstd::prelude::*;

verus! {

/// The request for the playlist `playlist_id`.
pub open spec fn playlist_request_model(
    access_token: Seq<char>,
    playlist_id: Seq<char>,
) -> HttpRequestView {
    HttpRequestView {
        method: Method::Get,
        url: "https://api.spotify.com/v1/playlists/"@ + playlist_id,
        credentials: CredentialsView::Bearer { token: access_token },
        payload: PayloadView::Empty,
    }
}

/// The request for the playlist `playlist_id`.
pub fn playlist_request(access_token: &str, playlist_id: &str) -> (r: HttpRequest)
    ensures
        r@ == playlist_request_model(access_token@, playlist_id@),
{
    let mut url = String::from_str("https://api.spotify.com/v1/playlists/");
    url.append(playlist_id);
    HttpRequest {
        method: Method::Get,
        url,
        credentials: Credentials::Bearer { token: owned(access_token) },
        payload: Payload::Empty,
    }
}

/// What the answer to a playlist request holds: the tracks under status
/// 200, no such playlist under 404, and any other status as it came.
pub open spec fn playlist_outcome(reply: HttpReplyView) -> Result<Seq<TrackView>, ApiErrorView> {
    match reply {
        HttpReplyView::Failed { message } => Err(ApiErrorView::Transport { message }),
        HttpReplyView::Answered { status, status_text, body } => if status == 200 {
            match decoded_document::<PlaylistResponse>(json_decoding(body)) {
                Ok(tracks) => Ok(tracks),
                Err(error) => Err(ApiErrorView::Decode { error }),
            }
        } else if status == 404 {
            Err(ApiErrorView::NotFound)
        } else {
            Err(ApiErrorView::Status { status, status_text })
        },
    }
}

/// Reads the playlist out of the answer to a playlist request.
pub fn read_playlist(reply: &HttpReply) -> (r: Result<PlaylistResponse, ApiError>)
    ensures
        outcome(r) == playlist_outcome(reply@),
{
    match reply {
        HttpReply::Failed { message } => Err(ApiError::Transport { message: message.clone() }),
        HttpReply::Answered { status, status_text, body } => {
            if *status == 200 {
                match decode_document::<PlaylistResponse>(body.as_str()) {
                    Ok(playlist) => Ok(playlist),
                    Err(error) => Err(ApiError::Decode { error }),
                }
            } else if *status == 404 {
                Err(ApiError::NotFound)
            } else {
                Err(ApiError::Status { status: *status, status_text: status_text.clone() })
            }
        },
    }
}

/// The text for one track: its name, ` by `, its artists with `, ` between
/// them, and `, ` after the last.
pub open spec fn entry(track: TrackView) -> Seq<char> {
    track.name + " by "@ + joined(track.artists, ", "@) + ", "@
}

/// The text for a playlist: the entries of its tracks, in their order. The
/// `, ` after the last entry stays.
pub open spec fn rendered(tracks: Seq<TrackView>) -> Seq<char>
    decreases tracks.len(),
{
    if tracks.len() == 0 {
        Seq::empty()
    } else {
        rendered(tracks.drop_last()) + entry(tracks.last())
    }
}

/// The names of the artists of `track`, in order.
fn artist_names(track: &Track) -> (names: Vec<String>)
    ensures
        views(names@) == track@.artists,
{
    let mut names: Vec<String> = Vec::new();
    let mut i: usize = 0;
    while i < track.artists.len()
        invariant
            i <= track.artists.len(),
            names.len() == i,
            forall|k: int| 0 <= k < i ==> names@[k]@ == track.artists@[k]@,
        decreases track.artists.len() - i,
    {
        names.push(track.artists[i].name.clone());
        i += 1;
    }
    assert(views(names@) =~= track@.artists);
    names
}

/// The tracks of `playlist` as one line of text, in the order in which the
/// service gave them.
pub fn render_playlist_text(playlist: &PlaylistResponse) -> (r: String)
    ensures
        r@ == rendered(playlist@),
        playlist@.len() == 0 ==> r@ == Seq::<char>::empty(),
{
    let items = &playlist.tracks.items;
    let ghost tracks = playlist@;
    let mut out = String::new();
    let mut i: usize = 0;
    assert(tracks.take(0) =~= Seq::<TrackView>::empty());
    while i < items.len()
        invariant
            i <= items.len(),
            tracks == views(items@),
            out@ == rendered(tracks.take(i as int)),
        decreases items.len() - i,
    {
        let track = &items[i].track;
        let names = artist_names(track);
        proof {
            let next = tracks.take(i + 1);
            assert(next.drop_last() =~= tracks.take(i as int));
            assert(next.last() == track@);
        }
        out.append(track.name.as_str());
        out.append(" by ");
        out.append(join(&names, ", ").as_str());
        out.append(", ");
        assert(out@ =~= rendered(tracks.take(i + 1)));
        i += 1;
    }
    assert(tracks.take(items.len() as int) =~= tracks);
    out
}

/// Where the entry of the track at `index` begins in the text of `tracks`;
/// for the length of `tracks`, where the text ends.
pub open spec fn entry_start(tracks: Seq<TrackView>, index: int) -> int {
    rendered(tracks.take(index)).len() as int
}

/// Where the ` by ` that follows the name of the track at `index` stands in
/// the text of `tracks`.
pub open spec fn marker(tracks: Seq<TrackView>, index: int) -> int {
    entry_start(tracks, index) + tracks[index].name.len()
}

/// Whether ` by ` stands in the text of `tracks` only where the text puts
/// it: after the name of each track, and nowhere inside or across names.
pub open spec fn by_only_after_names(tracks: Seq<TrackView>) -> bool {
    forall|at: int| #[trigger]
        occurs_at(rendered(tracks), " by "@, at) ==> exists|index: int|
            0 <= index < tracks.len() && at == marker(tracks, index)
}

/// The text of the first `index + 1` tracks is that of the first `index`
/// with one more entry.
proof fn lemma_rendered_step(tracks: Seq<TrackView>, index: int)
    requires
        0 <= index < tracks.len(),
    ensures
        rendered(tracks.take(index + 1)) == rendered(tracks.take(index)) + entry(tracks[index]),
{
    let next = tracks.take(index + 1);
    assert(next.drop_last() =~= tracks.take(index));
    assert(next.last() == tracks[index]);
}

/// The text of the first `index` tracks opens the text of all of them.
proof fn lemma_rendered_prefix(tracks: Seq<TrackView>, index: int)
    requires
        0 <= index <= tracks.len(),
    ensures
        entry_start(tracks, index) <= rendered(tracks).len(),
        rendered(tracks).subrange(0, entry_start(tracks, index)) == rendered(tracks.take(index)),
    decreases tracks.len() - index,
{
    let text = rendered(tracks);
    if index == tracks.len() {
        assert(tracks.take(index) =~= tracks);
        assert(text.subrange(0, text.len() as int) =~= text);
    } else {
        lemma_rendered_prefix(tracks, index + 1);
        lemma_rendered_step(tracks, index);
        let longer = rendered(tracks.take(index + 1));
        let shorter = rendered(tracks.take(index));
        assert(longer.subrange(0, shorter.len() as int) =~= shorter);
        assert(text.subrange(0, shorter.len() as int) =~= longer.subrange(
            0,
            shorter.len() as int,
        ));
    }
}

/// The text keeps the order of the tracks: the entry of each track stands
/// in the text where the entries of the tracks before it end, and the next
/// entry begins where it ends.
pub proof fn law_entries_in_order(tracks: Seq<TrackView>, index: int)
    requires
        0 <= index < tracks.len(),
    ensures
        0 <= entry_start(tracks, index) < entry_start(tracks, index + 1) <= rendered(
            tracks,
        ).len(),
        rendered(tracks).subrange(entry_start(tracks, index), entry_start(tracks, index + 1))
            == entry(tracks[index]),
        entry_start(tracks, tracks.len() as int) == rendered(tracks).len(),
{
    let text = rendered(tracks);
    lemma_rendered_prefix(tracks, index);
    lemma_rendered_prefix(tracks, index + 1);
    lemma_rendered_step(tracks, index);
    reveal_strlit(" by ");
    let shorter = rendered(tracks.take(index));
    let longer = rendered(tracks.take(index + 1));
    assert(longer.subrange(shorter.len() as int, longer.len() as int) =~= entry(tracks[index]));
    assert(text.subrange(shorter.len() as int, longer.len() as int) =~= text.subrange(
        0,
        longer.len() as int,
    ).subrange(shorter.len() as int, longer.len() as int));
    assert(tracks.take(tracks.len() as int) =~= tracks);
}

/// Entries that come later begin later.
proof fn lemma_entry_starts_grow(tracks: Seq<TrackView>, i: int, j: int)
    requires
        0 <= i <= j <= tracks.len(),
    ensures
        entry_start(tracks, i) <= entry_start(tracks, j),
    decreases j - i,
{
    if i < j {
        lemma_entry_starts_grow(tracks, i, j - 1);
        law_entries_in_order(tracks, j - 1);
    }
}

/// The ` by ` after the name of each track stands in the text, inside the
/// entry of that track.
pub proof fn law_marker_stands(tracks: Seq<TrackView>, index: int)
    requires
        0 <= index < tracks.len(),
    ensures
        entry_start(tracks, index) <= marker(tracks, index) < entry_start(tracks, index + 1),
        occurs_at(rendered(tracks), " by "@, marker(tracks, index)),
{
    let text = rendered(tracks);
    let start = entry_start(tracks, index);
    let end = entry_start(tracks, index + 1);
    let at = marker(tracks, index);
    law_entries_in_order(tracks, index);
    reveal_strlit(" by ");
    let one = entry(tracks[index]);
    let width = tracks[index].name.len() as int;
    assert(one.len() >= width + 4);
    assert(one.subrange(width, width + 4) =~= " by "@);
    assert(text.subrange(at, at + 4) =~= text.subrange(start, end).subrange(width, width + 4));
}

/// The text of a playlist of N tracks holds ` by ` at N places at least.
pub proof fn law_by_count_at_least(tracks: Seq<TrackView>)
    ensures
        occurrences(rendered(tracks), " by "@) >= tracks.len(),
{
    lemma_by_count_at_least_before(tracks, tracks.len() as int);
    lemma_entry_start_of_end(tracks);
}

/// The text ends where the entry of a track after the last would begin.
proof fn lemma_entry_start_of_end(tracks: Seq<TrackView>)
    ensures
        entry_start(tracks, tracks.len() as int) == rendered(tracks).len(),
{
    assert(tracks.take(tracks.len() as int) =~= tracks);
}

proof fn lemma_by_count_at_least_before(tracks: Seq<TrackView>, index: int)
    requires
        0 <= index <= tracks.len(),
    ensures
        occurrences_before(rendered(tracks), " by "@, entry_start(tracks, index)) >= index,
    decreases index,
{
    if index > 0 {
        lemma_by_count_at_least_before(tracks, index - 1);
        law_marker_stands(tracks, index - 1);
        lemma_occurrence_counts(
            rendered(tracks),
            " by "@,
            entry_start(tracks, index - 1),
            entry_start(tracks, index),
            marker(tracks, index - 1),
        );
    }
}

proof fn lemma_by_count_before(tracks: Seq<TrackView>, index: int)
    requires
        0 <= index <= tracks.len(),
        by_only_after_names(tracks),
    ensures
        occurrences_before(rendered(tracks), " by "@, entry_start(tracks, index)) == index,
    decreases index,
{
    if index > 0 {
        let text = rendered(tracks);
        let start = entry_start(tracks, index - 1);
        let end = entry_start(tracks, index);
        let at = marker(tracks, index - 1);
        lemma_by_count_before(tracks, index - 1);
        law_marker_stands(tracks, index - 1);
        assert forall|p: int| start <= p < end && occurs_at(text, " by "@, p) implies p == at by {
            let other = choose|other: int|
                0 <= other < tracks.len() && p == marker(tracks, other);
            law_marker_stands(tracks, other);
            if other < index - 1 {
                lemma_entry_starts_grow(tracks, other + 1, index - 1);
            } else if other > index - 1 {
                lemma_entry_starts_grow(tracks, index, other);
            }
        }
        lemma_single_occurrence(text, " by "@, start, end, at);
    }
}

/// The text of a playlist of N tracks holds ` by ` at exactly N places,
/// unless the names themselves bring in a ` by ` of their own.
pub proof fn law_by_count(tracks: Seq<TrackView>)
    requires
        by_only_after_names(tracks),
    ensures
        occurrences(rendered(tracks), " by "@) == tracks.len(),
{
    lemma_by_count_before(tracks, tracks.len() as int);
    lemma_entry_start_of_end(tracks);
}

/// Whether `b` stands directly before `y` at the index `at` of `text`.
pub open spec fn by_at(text: Seq<char>, at: int) -> bool {
    0 <= at && at + 1 < text.len() && text[at] == 'b' && text[at + 1] == 'y'
}

/// Whether `b` stands directly before `y` somewhere in `text`.
pub open spec fn holds_by(text: Seq<char>) -> bool {
    exists|at: int| by_at(text, at)
}

/// Whether no name of `track`, its own or an artist's, holds `by`.
pub open spec fn track_without_by(track: TrackView) -> bool {
    &&& !holds_by(track.name)
    &&& forall|which: int|
        0 <= which < track.artists.len() ==> !holds_by(#[trigger] track.artists[which])
}

/// Whether no name of a track or of an artist holds `b` directly before
/// `y`.
pub open spec fn names_without_by(tracks: Seq<TrackView>) -> bool {
    forall|index: int| 0 <= index < tracks.len() ==> track_without_by(#[trigger] tracks[index])
}

/// Names without `by`, joined by `, `, are a text without `by`.
proof fn lemma_joined_without_by(names: Seq<Seq<char>>)
    requires
        forall|which: int| 0 <= which < names.len() ==> !holds_by(#[trigger] names[which]),
    ensures
        !holds_by(joined(names, ", "@)),
    decreases names.len(),
{
    reveal_strlit(", ");
    let whole = joined(names, ", "@);
    if names.len() == 1 {
        assert(!holds_by(names[0]));
    } else if names.len() > 1 {
        let earlier = names.drop_last();
        assert forall|which: int| 0 <= which < earlier.len() implies !holds_by(
            #[trigger] earlier[which],
        ) by {
            assert(earlier[which] == names[which]);
        }
        lemma_joined_without_by(earlier);
        let head = joined(earlier, ", "@);
        assert(!holds_by(names[names.len() - 1]));
        assert forall|at: int| !by_at(whole, at) by {
            if by_at(whole, at) {
                if at + 1 < head.len() {
                    assert(by_at(head, at));
                } else if at >= head.len() + 2 {
                    assert(by_at(names.last(), at - head.len() - 2));
                }
            }
        }
    }
}

/// In the entry of a track whose names are without `by`, the only `by` is
/// the one that the entry puts after the name.
proof fn lemma_entry_by(track: TrackView)
    requires
        track_without_by(track),
    ensures
        forall|at: int| by_at(entry(track), at) ==> at == track.name.len() + 1,
        entry(track).len() >= 2,
        entry(track).last() == ' ',
{
    reveal_strlit(", ");
    reveal_strlit(" by ");
    lemma_joined_without_by(track.artists);
    let artists = joined(track.artists, ", "@);
    let one = entry(track);
    let width = track.name.len() as int;
    assert forall|at: int| by_at(one, at) implies at == width + 1 by {
        if at + 1 < width {
            assert(by_at(track.name, at));
        } else if at >= width + 4 && at + 1 < width + 4 + artists.len() {
            assert(by_at(artists, at - width - 4));
        }
    }
}

/// The text of tracks whose names are without `by` holds `by` only after
/// the names of the tracks.
proof fn lemma_text_by(tracks: Seq<TrackView>)
    requires
        names_without_by(tracks),
    ensures
        forall|at: int| #[trigger]
            by_at(rendered(tracks), at) ==> exists|index: int|
                0 <= index < tracks.len() && at == marker(tracks, index) + 1,
        tracks.len() > 0 ==> rendered(tracks).len() > 0 && rendered(tracks).last() == ' ',
    decreases tracks.len(),
{
    if tracks.len() > 0 {
        let earlier = tracks.drop_last();
        let last = tracks.len() - 1;
        assert forall|index: int| 0 <= index < earlier.len() implies track_without_by(
            #[trigger] earlier[index],
        ) by {
            assert(earlier[index] == tracks[index]);
        }
        lemma_text_by(earlier);
        assert(track_without_by(tracks[last]));
        lemma_entry_by(tracks[last]);
        let head = rendered(earlier);
        let text = rendered(tracks);
        assert(tracks.take(last) =~= earlier);
        assert forall|at: int| #[trigger] by_at(text, at) implies exists|index: int|
            0 <= index < tracks.len() && at == marker(tracks, index) + 1 by {
            if at + 1 < head.len() {
                assert(by_at(head, at));
                let index = choose|index: int|
                    0 <= index < earlier.len() && at == marker(earlier, index) + 1;
                assert(earlier.take(index) =~= tracks.take(index));
                assert(at == marker(tracks, index) + 1);
            } else if at >= head.len() {
                assert(by_at(entry(tracks[last]), at - head.len()));
                assert(at == marker(tracks, last) + 1);
            } else {
                assert(text[at] == head.last());
            }
        }
    }
}

/// Names in which `b` never stands directly before `y` bring no ` by ` of
/// their own into the text.
pub proof fn law_names_without_by_bring_none(tracks: Seq<TrackView>)
    requires
        names_without_by(tracks),
    ensures
        by_only_after_names(tracks),
        occurrences(rendered(tracks), " by "@) == tracks.len(),
{
    reveal_strlit(" by ");
    lemma_text_by(tracks);
    let text = rendered(tracks);
    assert forall|at: int| #[trigger] occurs_at(text, " by "@, at) implies exists|index: int|
        0 <= index < tracks.len() && at == marker(tracks, index) by {
        let found = text.subrange(at, at + 4);
        assert(found[1] == 'b' && found[2] == 'y');
        assert(by_at(text, at + 1));
    }
    law_by_count(tracks);
}

/// A playlist without tracks has the empty text.
pub proof fn law_empty_playlist(tracks: Seq<TrackView>)
    requires
        tracks.len() == 0,
    ensures
        rendered(tracks) == Seq::<char>::empty(),
{
}

} // verus!
