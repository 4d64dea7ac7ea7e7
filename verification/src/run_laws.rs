//! What holds of every run, proved from the transitions.

use crate::http::{is_success, ApiError, ApiErrorView, HttpReplyView, Operation};
use crate::models::SongView;
use crate::resolve::{add_tracks_request_model, search_request_model};
use crate::workflow::{
    after_add, after_playlist, after_reply, after_search, after_suggestions, after_token, finished,
    miss_line, resolving, well_formed, ActionView, RunView, StepView, SuggestionsView,
};
use vstd::prelude::*;

verus! {

/// Whatever reply arrives, the state after the turn is well formed.
pub proof fn law_turns_keep_runs_well_formed(run: RunView, reply: HttpReplyView)
    requires
        well_formed(run),
    ensures
        well_formed(after_reply(run, reply).run),
{
}

/// A turn names a request exactly when the run goes on, and the request is
/// the call that the new state awaits.
pub proof fn law_request_is_awaited(run: RunView, reply: HttpReplyView)
    requires
        well_formed(run),
    ensures
        match after_reply(run, reply).action {
            ActionView::Send { operation, request } => after_reply(run, reply).run.pending == Some(
                operation,
            ),
            _ => after_reply(run, reply).run.pending is None,
        },
{
}

/// A run that is over stays over: it shows nothing and names no request.
pub proof fn law_finished_run_stays_finished(run: RunView, reply: HttpReplyView)
    requires
        run.pending is None,
    ensures
        after_reply(run, reply) == finished(run, Seq::empty()),
        after_reply(run, reply).run == run,
        after_reply(run, reply).action == ActionView::Finish,
{
}

/// A song that the search did not find is shown and left out of the list,
/// and the run goes on to the next song where there is one.
pub proof fn law_miss_is_left_out(run: RunView, error: ApiErrorView)
    requires
        well_formed(run),
        run.pending == Some(Operation::Search),
    ensures
        after_search(run, Err(error)).run.uris == run.uris,
        after_search(run, Err(error)).lines == seq![miss_line(run.songs[run.next], error)],
        after_search(run, Err(error)).run.next == run.next + 1,
        run.next + 1 < run.songs.len() ==> after_search(run, Err(error)).action
            == (ActionView::Send {
            operation: Operation::Search,
            request: search_request_model(
                run.access_token,
                run.songs[run.next + 1].artist,
                run.songs[run.next + 1].name,
            ),
        }),
{
}

/// A song that the search found puts its identifier at the end of the list.
pub proof fn law_hit_is_kept(run: RunView, uri: Seq<char>)
    requires
        well_formed(run),
        run.pending == Some(Operation::Search),
    ensures
        after_search(run, Ok(uri)).run.uris == run.uris.push(uri),
        after_search(run, Ok(uri)).lines == Seq::<Seq<char>>::empty(),
        after_search(run, Ok(uri)).run.next == run.next + 1,
{
}

/// Tracks are added only where there are tracks to add: a turn that names
/// the request to add tracks names it for the list of the state, and that
/// list is not empty.
pub proof fn law_nothing_found_adds_nothing(run: RunView, reply: HttpReplyView)
    requires
        well_formed(run),
    ensures
        ({
            let after = after_reply(run, reply);
            after.action is Send && after.action->operation == Operation::AddTracks ==> {
                &&& after.run.uris.len() > 0
                &&& after.action->request == add_tracks_request_model(
                    after.run.access_token,
                    after.run.settings.playlist_id,
                    after.run.uris,
                )
            }
        }),
{
}

/// After the last search, a run that found nothing ends without a request.
pub proof fn law_empty_list_ends_run(run: RunView, error: ApiErrorView)
    requires
        run.pending == Some(Operation::Search),
        run.next + 1 == run.songs.len(),
        run.uris.len() == 0,
    ensures
        after_search(run, Err(error)).action == ActionView::Finish,
        after_search(run, Err(error)).run.pending is None,
{
}

/// Where the model cannot be asked, the failure is shown and the run ends:
/// no search is made and no tracks are added.
pub proof fn law_failed_completion_ends_run(run: RunView, error: ApiErrorView)
    ensures
        after_suggestions(run, SuggestionsView::Unanswered { error }).action == ActionView::Finish,
        after_suggestions(run, SuggestionsView::Unanswered { error }).run.pending is None,
        after_suggestions(run, SuggestionsView::Unanswered { error }).lines == seq![
            ApiError::text(error, Operation::Completion),
        ],
{
}

/// A status of the model's service that is no success ends the run, and the
/// status is what is shown.
pub proof fn law_refused_completion_ends_run(
    run: RunView,
    status: u16,
    status_text: Seq<char>,
    body: Seq<char>,
)
    requires
        run.pending == Some(Operation::Completion),
        !is_success(status),
    ensures
        after_reply(run, HttpReplyView::Answered { status, status_text, body }) == finished(
            run,
            seq![status_text],
        ),
{
}

/// The identifiers among `results`, in order.
pub open spec fn found(results: Seq<Result<Seq<char>, ApiErrorView>>) -> Seq<Seq<char>>
    decreases results.len(),
{
    if results.len() == 0 {
        Seq::empty()
    } else {
        match results.last() {
            Ok(uri) => found(results.drop_last()).push(uri),
            Err(_) => found(results.drop_last()),
        }
    }
}

/// The state after the searches whose outcomes are `results`, taken one
/// turn after the other.
pub open spec fn searched(run: RunView, results: Seq<Result<Seq<char>, ApiErrorView>>) -> RunView
    decreases results.len(),
{
    if results.len() == 0 {
        run
    } else {
        after_search(searched(run, results.drop_last()), results.last()).run
    }
}

/// What the turn after the last of the searches asks for.
pub open spec fn last_action(
    run: RunView,
    results: Seq<Result<Seq<char>, ApiErrorView>>,
) -> ActionView
    recommends
        results.len() > 0,
{
    after_search(searched(run, results.drop_last()), results.last()).action
}

/// While songs are left, the searches so far have put into the list the
/// identifiers that were found, in the order of the songs, and nothing
/// else.
pub proof fn law_list_holds_what_was_found(
    run: RunView,
    results: Seq<Result<Seq<char>, ApiErrorView>>,
)
    requires
        run.pending == Some(Operation::Search),
        0 <= run.next,
        run.next + results.len() <= run.songs.len(),
    ensures
        searched(run, results).uris == run.uris + found(results),
        searched(run, results).next == run.next + results.len(),
        searched(run, results).songs == run.songs,
        searched(run, results).access_token == run.access_token,
        searched(run, results).settings == run.settings,
        run.next + results.len() < run.songs.len() ==> searched(run, results).pending == Some(
            Operation::Search,
        ),
    decreases results.len(),
{
    if results.len() == 0 {
        assert(run.uris + found(results) =~= run.uris);
    } else {
        let earlier = results.drop_last();
        law_list_holds_what_was_found(run, earlier);
        let before = searched(run, earlier);
        match results.last() {
            Ok(uri) => {
                assert(before.uris.push(uri) =~= run.uris + found(results));
            },
            Err(_) => {},
        }
    }
}

/// Once every song of the model's list has been searched for, the request
/// that follows adds exactly the songs that were found, in the order of the
/// list; where none was found, the run ends with no request.
pub proof fn law_only_found_songs_are_added(
    run: RunView,
    songs: Seq<SongView>,
    results: Seq<Result<Seq<char>, ApiErrorView>>,
)
    requires
        songs.len() == results.len(),
        songs.len() > 0,
    ensures
        ({
            let first = after_suggestions(run, SuggestionsView::Songs { songs }).run;
            last_action(first, results) == if found(results).len() > 0 {
                ActionView::Send {
                    operation: Operation::AddTracks,
                    request: add_tracks_request_model(
                        run.access_token,
                        run.settings.playlist_id,
                        found(results),
                    ),
                }
            } else {
                ActionView::Finish
            }
        }),
{
    let first = after_suggestions(run, SuggestionsView::Songs { songs }).run;
    let earlier = results.drop_last();
    law_list_holds_what_was_found(first, earlier);
    let before = searched(first, earlier);
    assert(before.uris =~= found(earlier));
    match results.last() {
        Ok(uri) => {
            assert(before.uris.push(uri) =~= found(results));
        },
        Err(_) => {},
    }
}

} // verus!
