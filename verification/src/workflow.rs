//! The run as a whole: which call comes next, what is shown to the person
//! at the console, and when the run ends. A caller sends each request that
//! a [`Step`] names and hands the reply back to [`Run::advance`].

use crate::auth::{read_access_token, token_outcome, token_request, token_request_model, Grant, GrantView};
use crate::http::{
    ApiError, ApiErrorView, DecodeError, DecodeErrorView, HttpReply, HttpReplyView, HttpRequest,
    HttpRequestView, Operation,
};
use crate::models::{PlaylistResponse, Song, SongView, TrackView};
use crate::playlist::{
    playlist_outcome, playlist_request, playlist_request_model, read_playlist, render_playlist_text,
    rendered,
};
use crate::recommend::{
    completion_outcome, completion_request_model, prompt, read_completion, recommendation_request,
};
use crate::resolve::{
    add_tracks_outcome, add_tracks_request, add_tracks_request_model, read_add_tracks, read_search,
    search_outcome, search_request, search_request_model,
};
use crate::suggestions::{cleaned, parse, parse_llm_response, songs_outcome};
use crate::text::owned;
use crate::views::{outcome, views};
use vstd::prelude::*;

verus! {

/// What a run is configured with.
#[derive(Debug, PartialEq, Eq)]
pub struct Settings {
    pub client_id: String,
    pub client_secret: String,
    pub llm_api_key: String,
    pub playlist_id: String,
}

/// The mathematical value of [`Settings`].
pub struct SettingsView {
    pub client_id: Seq<char>,
    pub client_secret: Seq<char>,
    pub llm_api_key: Seq<char>,
    pub playlist_id: Seq<char>,
}

impl View for Settings {
    type V = SettingsView;

    open spec fn view(&self) -> SettingsView {
        SettingsView {
            client_id: self.client_id@,
            client_secret: self.client_secret@,
            llm_api_key: self.llm_api_key@,
            playlist_id: self.playlist_id@,
        }
    }
}

/// What the caller does next.
#[derive(Debug, PartialEq, Eq)]
pub enum Action {
    /// Send `request`, which is the call `operation`, and hand back its
    /// reply.
    Send { operation: Operation, request: HttpRequest },
    /// The run is over.
    Finish,
    /// The run is over and has failed with `message`.
    Abort { message: String },
}

/// The mathematical value of an [`Action`].
pub enum ActionView {
    Send { operation: Operation, request: HttpRequestView },
    Finish,
    Abort { message: Seq<char> },
}

impl View for Action {
    type V = ActionView;

    open spec fn view(&self) -> ActionView {
        match self {
            Action::Send { operation, request } => ActionView::Send {
                operation: *operation,
                request: request@,
            },
            Action::Finish => ActionView::Finish,
            Action::Abort { message } => ActionView::Abort { message: message@ },
        }
    }
}

/// The state of a run between two calls.
#[derive(Debug)]
pub struct Run {
    settings: Settings,
    count: i32,
    pending: Option<Operation>,
    access_token: String,
    songs: Vec<Song>,
    next: usize,
    uris: Vec<String>,
}

/// The mathematical value of a [`Run`].
pub struct RunView {
    pub settings: SettingsView,
    /// How many songs the model is asked for.
    pub count: int,
    /// The call whose reply is awaited; none once the run is over.
    pub pending: Option<Operation>,
    pub access_token: Seq<char>,
    /// The songs that the model suggested.
    pub songs: Seq<SongView>,
    /// The index of the song that is searched for.
    pub next: int,
    /// The identifiers of the songs found so far, in the order of the
    /// suggestions.
    pub uris: Seq<Seq<char>>,
}

/// One turn of a run: the state after it, the lines to show, in order, and
/// what to do next.
#[derive(Debug)]
pub struct Step {
    pub run: Run,
    pub lines: Vec<String>,
    pub action: Action,
}

/// The mathematical value of a [`Step`].
pub struct StepView {
    pub run: RunView,
    pub lines: Seq<Seq<char>>,
    pub action: ActionView,
}

impl View for Step {
    type V = StepView;

    open spec fn view(&self) -> StepView {
        StepView { run: self.run@, lines: views(self.lines@), action: self.action@ }
    }
}

/// While a search is awaited, it is the search for one of the songs.
pub open spec fn well_formed(run: RunView) -> bool {
    run.pending == Some(Operation::Search) ==> 0 <= run.next < run.songs.len()
}

impl View for Run {
    type V = RunView;

    closed spec fn view(&self) -> RunView {
        RunView {
            settings: self.settings@,
            count: self.count as int,
            pending: self.pending,
            access_token: self.access_token@,
            songs: views(self.songs@),
            next: self.next as int,
            uris: views(self.uris@),
        }
    }
}

/// The state in which the run waits for an access token.
pub open spec fn started(settings: SettingsView, count: int) -> RunView {
    RunView {
        settings,
        count,
        pending: Some(Operation::Token),
        access_token: Seq::empty(),
        songs: Seq::empty(),
        next: 0,
        uris: Seq::empty(),
    }
}

/// The first turn: nothing to show, and the token request to send.
pub open spec fn first_step(settings: SettingsView, grant: GrantView, count: int) -> StepView {
    StepView {
        run: started(settings, count),
        lines: Seq::empty(),
        action: ActionView::Send {
            operation: Operation::Token,
            request: token_request_model(settings.client_id, settings.client_secret, grant),
        },
    }
}

/// The turn that ends the run, having shown `lines`.
pub open spec fn finished(run: RunView, lines: Seq<Seq<char>>) -> StepView {
    StepView { run: RunView { pending: None, ..run }, lines, action: ActionView::Finish }
}

/// The turn that ends the run in failure.
pub open spec fn aborted(run: RunView, message: Seq<char>) -> StepView {
    StepView {
        run: RunView { pending: None, ..run },
        lines: Seq::empty(),
        action: ActionView::Abort { message },
    }
}

/// The turn after the token exchange. Without a token the run fails; with
/// one, the playlist is asked for.
pub open spec fn after_token(run: RunView, result: Result<Seq<char>, ApiErrorView>) -> StepView {
    match result {
        Ok(token) => StepView {
            run: RunView { pending: Some(Operation::Playlist), access_token: token, ..run },
            lines: Seq::empty(),
            action: ActionView::Send {
                operation: Operation::Playlist,
                request: playlist_request_model(token, run.settings.playlist_id),
            },
        },
        Err(error) => aborted(run, ApiError::text(error, Operation::Token)),
    }
}

/// The text of the playlist that goes into the prompt: that of its tracks,
/// or nothing where the playlist could not be read.
pub open spec fn playlist_text(result: Result<Seq<TrackView>, ApiErrorView>) -> Seq<char> {
    match result {
        Ok(tracks) => rendered(tracks),
        Err(_) => Seq::empty(),
    }
}

/// The turn after the playlist was asked for. A failure is shown and the run
/// goes on with an empty playlist; either way the model is asked.
pub open spec fn after_playlist(
    run: RunView,
    result: Result<Seq<TrackView>, ApiErrorView>,
) -> StepView {
    StepView {
        run: RunView { pending: Some(Operation::Completion), ..run },
        lines: match result {
            Ok(_) => Seq::empty(),
            Err(error) => seq![ApiError::text(error, Operation::Playlist)],
        },
        action: ActionView::Send {
            operation: Operation::Completion,
            request: completion_request_model(
                run.settings.llm_api_key,
                prompt(run.count, playlist_text(result)),
            ),
        },
    }
}

/// What came of asking the model: the call failed, or its text was no list
/// of songs, or it was one.
#[derive(Debug, PartialEq, Eq)]
pub enum Suggestions {
    Unanswered { error: ApiError },
    Unreadable { cause: DecodeError },
    Songs { songs: Vec<Song> },
}

/// The mathematical value of [`Suggestions`].
pub enum SuggestionsView {
    Unanswered { error: ApiErrorView },
    Unreadable { cause: DecodeErrorView },
    Songs { songs: Seq<SongView> },
}

impl View for Suggestions {
    type V = SuggestionsView;

    open spec fn view(&self) -> SuggestionsView {
        match self {
            Suggestions::Unanswered { error } => SuggestionsView::Unanswered { error: error@ },
            Suggestions::Unreadable { cause } => SuggestionsView::Unreadable { cause: cause@ },
            Suggestions::Songs { songs } => SuggestionsView::Songs { songs: views(songs@) },
        }
    }
}

/// The turn that searches for the song at `index`, or, past the last song,
/// adds what was found; with nothing found, the run ends and no tracks are
/// added.
pub open spec fn resolving(run: RunView, index: int, lines: Seq<Seq<char>>) -> StepView {
    if index < run.songs.len() {
        StepView {
            run: RunView { pending: Some(Operation::Search), next: index, ..run },
            lines,
            action: ActionView::Send {
                operation: Operation::Search,
                request: search_request_model(
                    run.access_token,
                    run.songs[index].artist,
                    run.songs[index].name,
                ),
            },
        }
    } else if run.uris.len() > 0 {
        StepView {
            run: RunView { pending: Some(Operation::AddTracks), next: index, ..run },
            lines,
            action: ActionView::Send {
                operation: Operation::AddTracks,
                request: add_tracks_request_model(
                    run.access_token,
                    run.settings.playlist_id,
                    run.uris,
                ),
            },
        }
    } else {
        finished(RunView { next: index, ..run }, lines)
    }
}

/// The turn after the model was asked. A failed call is shown and ends the
/// run; a text that is no list of songs fails the run; the songs are
/// searched for one by one, from the first.
pub open spec fn after_suggestions(run: RunView, suggestions: SuggestionsView) -> StepView {
    match suggestions {
        SuggestionsView::Unanswered { error } => finished(
            run,
            seq![ApiError::text(error, Operation::Completion)],
        ),
        SuggestionsView::Unreadable { cause } => aborted(run, DecodeError::text(cause)),
        SuggestionsView::Songs { songs } => resolving(
            RunView { songs, uris: Seq::empty(), ..run },
            0,
            Seq::empty(),
        ),
    }
}

/// The line that says that `song` was not found.
pub open spec fn miss_line(song: SongView, error: ApiErrorView) -> Seq<char> {
    "Error finding song '"@ + song.name + " - "@ + song.artist + "': "@ + ApiError::text(
        error,
        Operation::Search,
    )
}

/// The turn after a search. A song that was found adds its identifier to
/// the list; one that was not is shown and left out. Then the next song is
/// searched for.
pub open spec fn after_search(run: RunView, result: Result<Seq<char>, ApiErrorView>) -> StepView {
    match result {
        Ok(uri) => resolving(
            RunView { uris: run.uris.push(uri), ..run },
            run.next + 1,
            Seq::empty(),
        ),
        Err(error) => resolving(run, run.next + 1, seq![miss_line(run.songs[run.next], error)]),
    }
}

/// The turn after the tracks were sent: the outcome is shown and the run
/// ends.
pub open spec fn after_add(run: RunView, result: Result<(), ApiErrorView>) -> StepView {
    match result {
        Ok(_) => finished(run, seq!["Successfully added songs to the playlist."@]),
        Err(error) => finished(run, seq![ApiError::text(error, Operation::AddTracks)]),
    }
}

/// What the answer to a completion request holds once its text is cleaned
/// and read as a list of songs.
pub open spec fn suggestions_outcome(reply: HttpReplyView) -> SuggestionsView {
    match completion_outcome(reply) {
        Ok(text) => match songs_outcome(cleaned(text)) {
            Ok(songs) => SuggestionsView::Songs { songs },
            Err(cause) => SuggestionsView::Unreadable { cause },
        },
        Err(error) => SuggestionsView::Unanswered { error },
    }
}

/// The turn after `reply` arrived, by the call that was awaited. A run that
/// is over stays over.
pub open spec fn after_reply(run: RunView, reply: HttpReplyView) -> StepView {
    match run.pending {
        Some(Operation::Token) => after_token(run, token_outcome(reply)),
        Some(Operation::Playlist) => after_playlist(run, playlist_outcome(reply)),
        Some(Operation::Completion) => after_suggestions(run, suggestions_outcome(reply)),
        Some(Operation::Search) => after_search(run, search_outcome(reply)),
        Some(Operation::AddTracks) => after_add(run, add_tracks_outcome(reply)),
        None => finished(run, Seq::empty()),
    }
}

/// Reads the suggested songs out of the answer to a completion request.
pub fn read_suggestions(reply: &HttpReply) -> (r: Suggestions)
    ensures
        r@ == suggestions_outcome(reply@),
{
    match read_completion(reply) {
        Ok(text) => match parse_llm_response(text.as_str()) {
            Ok(clean) => match parse(clean.as_str()) {
                Ok(songs) => Suggestions::Songs { songs },
                Err(cause) => Suggestions::Unreadable { cause },
            },
            Err(cause) => Suggestions::Unreadable { cause },
        },
        Err(error) => Suggestions::Unanswered { error },
    }
}

/// A copy of `texts`.
fn copied(texts: &Vec<String>) -> (r: Vec<String>)
    ensures
        views(r@) == views(texts@),
{
    let mut r: Vec<String> = Vec::new();
    let mut i: usize = 0;
    while i < texts.len()
        invariant
            i <= texts.len(),
            r.len() == i,
            forall|k: int| 0 <= k < i ==> r@[k]@ == texts@[k]@,
        decreases texts.len() - i,
    {
        r.push(texts[i].clone());
        i += 1;
    }
    assert(views(r@) =~= views(texts@));
    r
}

/// The line that says that `song` was not found.
fn miss_text(song: &Song, error: &ApiError) -> (r: String)
    ensures
        r@ == miss_line(song@, error@),
{
    let mut out = String::from_str("Error finding song '");
    out.append(song.name.as_str());
    out.append(" - ");
    out.append(song.artist.as_str());
    out.append("': ");
    out.append(error.message(Operation::Search).as_str());
    out
}

/// A list that holds `line` alone.
fn one_line(line: String) -> (r: Vec<String>)
    ensures
        views(r@) == seq![line@],
{
    let mut r: Vec<String> = Vec::new();
    r.push(line);
    assert(views(r@) =~= seq![line@]);
    r
}

/// A list without a line.
fn no_lines() -> (r: Vec<String>)
    ensures
        views(r@) == Seq::<Seq<char>>::empty(),
{
    let r: Vec<String> = Vec::new();
    assert(views(r@) =~= Seq::<Seq<char>>::empty());
    r
}

impl Run {
    #[verifier::type_invariant]
    spec fn coherent(&self) -> bool {
        well_formed(self@)
    }

    /// Begins a run that asks for `count` songs: the token request is the
    /// first to send.
    pub fn start(settings: Settings, grant: &Grant, count: i32) -> (step: Step)
        ensures
            step@ == first_step(settings@, grant@, count as int),
            well_formed(step@.run),
    {
        let request = token_request(
            settings.client_id.as_str(),
            settings.client_secret.as_str(),
            grant,
        );
        let songs: Vec<Song> = Vec::new();
        let uris: Vec<String> = Vec::new();
        assert(views(songs@) =~= Seq::<SongView>::empty());
        assert(views(uris@) =~= Seq::<Seq<char>>::empty());
        let run = Run {
            settings,
            count,
            pending: Some(Operation::Token),
            access_token: String::new(),
            songs,
            next: 0,
            uris,
        };
        Step { run, lines: no_lines(), action: Action::Send { operation: Operation::Token, request } }
    }

    /// The call whose reply is awaited; none once the run is over.
    pub fn pending(&self) -> (r: Option<Operation>)
        ensures
            r == self@.pending,
    {
        self.pending
    }

    /// The identifiers of the songs found so far.
    pub fn uris(&self) -> (r: &Vec<String>)
        ensures
            views(r@) == self@.uris,
    {
        &self.uris
    }

    /// The songs that the model suggested.
    pub fn songs(&self) -> (r: &Vec<Song>)
        ensures
            views(r@) == self@.songs,
    {
        &self.songs
    }

    fn finish(self, lines: Vec<String>) -> (step: Step)
        ensures
            step@ == finished(self@, views(lines@)),
    {
        let Run { settings, count, pending: _, access_token, songs, next, uris } = self;
        let run = Run { settings, count, pending: None, access_token, songs, next, uris };
        Step { run, lines, action: Action::Finish }
    }

    fn abort(self, message: String) -> (step: Step)
        ensures
            step@ == aborted(self@, message@),
    {
        let Run { settings, count, pending: _, access_token, songs, next, uris } = self;
        let run = Run { settings, count, pending: None, access_token, songs, next, uris };
        Step { run, lines: no_lines(), action: Action::Abort { message } }
    }

    fn resolve_from(
        settings: Settings,
        count: i32,
        access_token: String,
        songs: Vec<Song>,
        index: usize,
        uris: Vec<String>,
        lines: Vec<String>,
    ) -> (step: Step)
        requires
            index <= songs.len(),
        ensures
            step@ == resolving(
                RunView {
                    settings: settings@,
                    count: count as int,
                    pending: None,
                    access_token: access_token@,
                    songs: views(songs@),
                    next: index as int,
                    uris: views(uris@),
                },
                index as int,
                views(lines@),
            ),
    {
        if index < songs.len() {
            let request = search_request(
                access_token.as_str(),
                songs[index].artist.as_str(),
                songs[index].name.as_str(),
            );
            let run = Run {
                settings,
                count,
                pending: Some(Operation::Search),
                access_token,
                songs,
                next: index,
                uris,
            };
            Step { run, lines, action: Action::Send { operation: Operation::Search, request } }
        } else if uris.len() > 0 {
            let request = add_tracks_request(
                access_token.as_str(),
                settings.playlist_id.as_str(),
                copied(&uris),
            );
            let run = Run {
                settings,
                count,
                pending: Some(Operation::AddTracks),
                access_token,
                songs,
                next: index,
                uris,
            };
            Step { run, lines, action: Action::Send { operation: Operation::AddTracks, request } }
        } else {
            let run = Run { settings, count, pending: None, access_token, songs, next: index, uris };
            Step { run, lines, action: Action::Finish }
        }
    }

    /// Takes the outcome of the token exchange.
    pub fn on_token(self, result: Result<String, ApiError>) -> (step: Step)
        ensures
            step@ == after_token(self@, outcome(result)),
    {
        match result {
            Ok(token) => {
                let Run { settings, count, pending: _, access_token: _, songs, next, uris } = self;
                let request = playlist_request(token.as_str(), settings.playlist_id.as_str());
                let run = Run {
                    settings,
                    count,
                    pending: Some(Operation::Playlist),
                    access_token: token,
                    songs,
                    next,
                    uris,
                };
                Step {
                    run,
                    lines: no_lines(),
                    action: Action::Send { operation: Operation::Playlist, request },
                }
            },
            Err(error) => {
                let message = error.message(Operation::Token);
                self.abort(message)
            },
        }
    }

    /// Takes the outcome of reading the playlist.
    pub fn on_playlist(self, result: Result<PlaylistResponse, ApiError>) -> (step: Step)
        ensures
            step@ == after_playlist(self@, outcome(result)),
    {
        let Run { settings, count, pending: _, access_token, songs, next, uris } = self;
        let (text, lines) = match result {
            Ok(playlist) => (render_playlist_text(&playlist), no_lines()),
            Err(error) => (String::new(), one_line(error.message(Operation::Playlist))),
        };
        let request = recommendation_request(settings.llm_api_key.as_str(), text.as_str(), count);
        let run = Run {
            settings,
            count,
            pending: Some(Operation::Completion),
            access_token,
            songs,
            next,
            uris,
        };
        Step { run, lines, action: Action::Send { operation: Operation::Completion, request } }
    }

    /// Takes what came of asking the model.
    pub fn on_suggestions(self, suggestions: Suggestions) -> (step: Step)
        ensures
            step@ == after_suggestions(self@, suggestions@),
    {
        match suggestions {
            Suggestions::Unanswered { error } => {
                let lines = one_line(error.message(Operation::Completion));
                self.finish(lines)
            },
            Suggestions::Unreadable { cause } => {
                let message = cause.message();
                self.abort(message)
            },
            Suggestions::Songs { songs } => {
                let Run { settings, count, pending: _, access_token, songs: _, next: _, uris: _ } =
                    self;
                let uris: Vec<String> = Vec::new();
                assert(views(uris@) =~= Seq::<Seq<char>>::empty());
                Self::resolve_from(settings, count, access_token, songs, 0, uris, no_lines())
            },
        }
    }

    /// Takes the outcome of the search for the song that was looked for.
    pub fn on_search(self, result: Result<String, ApiError>) -> (step: Step)
        requires
            self@.pending == Some(Operation::Search),
        ensures
            step@ == after_search(self@, outcome(result)),
    {
        proof {
            use_type_invariant(&self);
            assert(self.next < self.songs.len());
        }
        let Run { settings, count, pending: _, access_token, songs, next, uris } = self;
        let mut uris = uris;
        match result {
            Ok(uri) => {
                let ghost before = views(uris@);
                uris.push(uri);
                assert(views(uris@) =~= before.push(uri@));
                Self::resolve_from(settings, count, access_token, songs, next + 1, uris, no_lines())
            },
            Err(error) => {
                let lines = one_line(miss_text(&songs[next], &error));
                Self::resolve_from(settings, count, access_token, songs, next + 1, uris, lines)
            },
        }
    }

    /// Takes the outcome of adding the tracks.
    pub fn on_added(self, result: Result<(), ApiError>) -> (step: Step)
        ensures
            step@ == after_add(self@, outcome(result)),
    {
        match result {
            Ok(_) => {
                let lines = one_line(owned("Successfully added songs to the playlist."));
                self.finish(lines)
            },
            Err(error) => {
                let lines = one_line(error.message(Operation::AddTracks));
                self.finish(lines)
            },
        }
    }

    /// Takes the reply to the request that the last step named, and says
    /// what comes next.
    pub fn advance(self, reply: &HttpReply) -> (step: Step)
        ensures
            step@ == after_reply(self@, reply@),
    {
        match self.pending {
            Some(Operation::Token) => {
                let result = read_access_token(reply);
                self.on_token(result)
            },
            Some(Operation::Playlist) => {
                let result = read_playlist(reply);
                self.on_playlist(result)
            },
            Some(Operation::Completion) => {
                let suggestions = read_suggestions(reply);
                self.on_suggestions(suggestions)
            },
            Some(Operation::Search) => {
                let result = read_search(reply);
                self.on_search(result)
            },
            Some(Operation::AddTracks) => {
                let result = read_add_tracks(reply);
                self.on_added(result)
            },
            None => self.finish(no_lines()),
        }
    }
}

} // verus!
