//! From the model's free text to a list of songs.

use crate::http::{decoded_document, decode_document, DecodeError, DecodeErrorView};
use crate::json::json_decoding;
use crate::models::{LlmSongsResponse, Song, SongView};
use crate::text::{chars_of, owned, strip_bounds, stripped, Margin};
use crate::views::views;
use vstd::prelude::*;

verus! {

/// A reply with the white space around it removed, and then every backtick
/// at either end of what is left. What stands between is untouched: a
/// fence of three backticks loses its backticks and keeps the word after
/// them.
pub open spec fn cleaned(reply: Seq<char>) -> Seq<char> {
    stripped(stripped(reply, Margin::WhiteSpace), Margin::Backticks)
}

/// Removes the white space around a reply, and then the backticks at either
/// end of what is left. This never fails.
pub fn parse_llm_response(response: &str) -> (r: Result<String, DecodeError>)
    ensures
        r is Ok,
        r->Ok_0@ == cleaned(response@),
{
    let chars = chars_of(response);
    let (a, b) = strip_bounds(&chars, 0, chars.len(), Margin::WhiteSpace);
    assert(chars@.subrange(0, chars.len() as int) =~= response@);
    let (c, d) = strip_bounds(&chars, a, b, Margin::Backticks);
    Ok(owned(response.substring_char(c, d)))
}

/// The songs that a decoding holds: those of the member `songs` of the
/// document, each with its `name` and `artist`.
pub open spec fn songs_outcome(text: Seq<char>) -> Result<Seq<SongView>, DecodeErrorView> {
    decoded_document::<LlmSongsResponse>(json_decoding(text))
}

/// Reads `cleaned` as `{"songs": [{"name": ..., "artist": ...}, ...]}`. A
/// text that is no JSON, or JSON of another shape, gives an error and no
/// song.
pub fn parse(cleaned: &str) -> (r: Result<Vec<Song>, DecodeError>)
    ensures
        match r {
            Ok(songs) => songs_outcome(cleaned@) == Ok::<Seq<SongView>, DecodeErrorView>(
                views(songs@),
            ),
            Err(error) => songs_outcome(cleaned@) == Err::<Seq<SongView>, DecodeErrorView>(error@),
        },
{
    match decode_document::<LlmSongsResponse>(cleaned) {
        Ok(read) => Ok(read.songs),
        Err(error) => Err(error),
    }
}

} // verus!
