//! Requests and replies as plain data, and the ways in which a call to one of
//! the services can fail. Nothing here touches the network: a caller sends
//! an [`HttpRequest`] and hands back an [`HttpReply`].

use crate::json::{decode_json, json_decoding, FromJson, JsonValue};
use crate::views::{outcome, views};
use vstd::prelude::*;

verus! {

/// The method of a request.
#[derive(Clone, Copy, Debug, PartialEq, Eq)]
pub enum Method {
    Get,
    Post,
}

/// One field of a form.
#[derive(Debug, PartialEq, Eq)]
pub struct FormField {
    pub name: String,
    pub value: String,
}

/// The mathematical value of a [`FormField`].
pub struct FormFieldView {
    pub name: Seq<char>,
    pub value: Seq<char>,
}

impl View for FormField {
    type V = FormFieldView;

    open spec fn view(&self) -> FormFieldView {
        FormFieldView { name: self.name@, value: self.value@ }
    }
}

/// How a request says who sends it.
#[derive(Debug, PartialEq, Eq)]
pub enum Credentials {
    Anonymous,
    /// An `Authorization` header with a bearer token.
    Bearer { token: String },
    /// HTTP basic authentication.
    Basic { user: String, password: String },
}

/// The mathematical value of [`Credentials`].
pub enum CredentialsView {
    Anonymous,
    Bearer { token: Seq<char> },
    Basic { user: Seq<char>, password: Seq<char> },
}

impl View for Credentials {
    type V = CredentialsView;

    open spec fn view(&self) -> CredentialsView {
        match self {
            Credentials::Anonymous => CredentialsView::Anonymous,
            Credentials::Bearer { token } => CredentialsView::Bearer { token: token@ },
            Credentials::Basic { user, password } => CredentialsView::Basic {
                user: user@,
                password: password@,
            },
        }
    }
}

/// What a request carries.
#[derive(Debug, PartialEq, Eq)]
pub enum Payload {
    Empty,
    /// A form, sent URL-encoded.
    Form { fields: Vec<FormField> },
    /// A JSON document, sent as it stands with the content type of JSON.
    Json { text: String },
}

/// The mathematical value of a [`Payload`].
pub enum PayloadView {
    Empty,
    Form { fields: Seq<FormFieldView> },
    Json { text: Seq<char> },
}

impl View for Payload {
    type V = PayloadView;

    open spec fn view(&self) -> PayloadView {
        match self {
            Payload::Empty => PayloadView::Empty,
            Payload::Form { fields } => PayloadView::Form { fields: views(fields@) },
            Payload::Json { text } => PayloadView::Json { text: text@ },
        }
    }
}

/// A request that is ready to be sent.
#[derive(Debug, PartialEq, Eq)]
pub struct HttpRequest {
    pub method: Method,
    pub url: String,
    pub credentials: Credentials,
    pub payload: Payload,
}

/// The mathematical value of an [`HttpRequest`].
pub struct HttpRequestView {
    pub method: Method,
    pub url: Seq<char>,
    pub credentials: CredentialsView,
    pub payload: PayloadView,
}

impl View for HttpRequest {
    type V = HttpRequestView;

    open spec fn view(&self) -> HttpRequestView {
        HttpRequestView {
            method: self.method,
            url: self.url@,
            credentials: self.credentials@,
            payload: self.payload@,
        }
    }
}

/// What came of sending a request.
#[derive(Debug, PartialEq, Eq)]
pub enum HttpReply {
    /// No answer arrived, or it could not be read to its end.
    Failed { message: String },
    /// The service answered. `status_text` is the status as it is shown to
    /// a person, such as `404 Not Found`.
    Answered { status: u16, status_text: String, body: String },
}

/// The mathematical value of an [`HttpReply`].
pub enum HttpReplyView {
    Failed { message: Seq<char> },
    Answered { status: u16, status_text: Seq<char>, body: Seq<char> },
}

impl View for HttpReply {
    type V = HttpReplyView;

    open spec fn view(&self) -> HttpReplyView {
        match self {
            HttpReply::Failed { message } => HttpReplyView::Failed { message: message@ },
            HttpReply::Answered { status, status_text, body } => HttpReplyView::Answered {
                status: *status,
                status_text: status_text@,
                body: body@,
            },
        }
    }
}

/// Whether `status` is one of the success codes, 200 to 299.
pub open spec fn is_success(status: u16) -> bool {
    200 <= status < 300
}

/// Whether `status` is one of the success codes, 200 to 299.
pub fn status_is_success(status: u16) -> (r: bool)
    ensures
        r == is_success(status),
{
    200 <= status && status < 300
}

/// Why a text is not the document that was expected.
#[derive(Debug, PartialEq, Eq)]
pub enum DecodeError {
    /// The text is no JSON document; `message` is the decoder's.
    Syntax { message: String },
    /// The text is a JSON document of another shape.
    Shape,
}

/// The mathematical value of a [`DecodeError`].
pub enum DecodeErrorView {
    Syntax { message: Seq<char> },
    Shape,
}

impl View for DecodeError {
    type V = DecodeErrorView;

    open spec fn view(&self) -> DecodeErrorView {
        match self {
            DecodeError::Syntax { message } => DecodeErrorView::Syntax { message: message@ },
            DecodeError::Shape => DecodeErrorView::Shape,
        }
    }
}

impl DecodeError {
    /// What is shown for `error`.
    pub open spec fn text(error: DecodeErrorView) -> Seq<char> {
        match error {
            DecodeErrorView::Syntax { message } => message,
            DecodeErrorView::Shape => "unexpected shape of the JSON document"@,
        }
    }

    /// What is shown for this error.
    pub fn message(&self) -> (r: String)
        ensures
            r@ == Self::text(self@),
    {
        match self {
            DecodeError::Syntax { message } => message.clone(),
            DecodeError::Shape => String::from_str("unexpected shape of the JSON document"),
        }
    }
}

/// What a decoding holds for the type `T`.
pub open spec fn decoded_document<T: FromJson>(decoding: Result<JsonValue, Seq<char>>) -> Result<
    T::V,
    DecodeErrorView,
> {
    match decoding {
        Ok(value) => match T::decoded(value) {
            Some(read) => Ok(read),
            None => Err(DecodeErrorView::Shape),
        },
        Err(message) => Err(DecodeErrorView::Syntax { message }),
    }
}

/// Reads `text` as a JSON document that holds a `T`.
pub fn decode_document<T: FromJson>(text: &str) -> (r: Result<T, DecodeError>)
    ensures
        outcome(r) == decoded_document::<T>(json_decoding(text@)),
{
    match decode_json(text) {
        Ok(json) => match T::from_json(&json) {
            Some(read) => Ok(read),
            None => Err(DecodeError::Shape),
        },
        Err(message) => Err(DecodeError::Syntax { message }),
    }
}

/// A call to one of the services.
#[derive(Clone, Copy, Debug, PartialEq, Eq)]
pub enum Operation {
    /// The exchange that yields an access token.
    Token,
    /// Reading the playlist.
    Playlist,
    /// Asking the model for suggestions.
    Completion,
    /// Searching the catalogue for one suggestion.
    Search,
    /// Adding the tracks found to the playlist.
    AddTracks,
}

impl Operation {
    /// Whether the answer to this call is read beyond its status: always
    /// for a token, under status 200 for a playlist and a search, under a
    /// success status for a completion, never for adding tracks.
    pub open spec fn reads_body(self, status: u16) -> bool {
        match self {
            Operation::Token => true,
            Operation::Playlist => status == 200,
            Operation::Completion => is_success(status),
            Operation::Search => status == 200,
            Operation::AddTracks => false,
        }
    }

    /// Whether the body of an answer with `status` is needed to read the
    /// result of this call. A caller may leave the body of any other answer
    /// unread and hand it on as empty.
    pub fn wants_body(&self, status: u16) -> (r: bool)
        ensures
            r == self.reads_body(status),
    {
        match self {
            Operation::Token => true,
            Operation::Playlist => status == 200,
            Operation::Completion => status_is_success(status),
            Operation::Search => status == 200,
            Operation::AddTracks => false,
        }
    }
}

/// Why a call gave no result.
#[derive(Debug, PartialEq, Eq)]
pub enum ApiError {
    /// Nothing came back; `message` is the transport's.
    Transport { message: String },
    /// The service knows no such playlist, or no track that matches.
    NotFound,
    /// The service answered with a status that the call does not take.
    Status { status: u16, status_text: String },
    /// The answer is not the document that was expected.
    Decode { error: DecodeError },
    /// The model answered without a single choice.
    NoChoices,
}

/// The mathematical value of an [`ApiError`].
pub enum ApiErrorView {
    Transport { message: Seq<char> },
    NotFound,
    Status { status: u16, status_text: Seq<char> },
    Decode { error: DecodeErrorView },
    NoChoices,
}

impl View for ApiError {
    type V = ApiErrorView;

    open spec fn view(&self) -> ApiErrorView {
        match self {
            ApiError::Transport { message } => ApiErrorView::Transport { message: message@ },
            ApiError::NotFound => ApiErrorView::NotFound,
            ApiError::Status { status, status_text } => ApiErrorView::Status {
                status: *status,
                status_text: status_text@,
            },
            ApiError::Decode { error } => ApiErrorView::Decode { error: error@ },
            ApiError::NoChoices => ApiErrorView::NoChoices,
        }
    }
}

impl ApiError {
    /// What is shown for `error` when it came of `operation`.
    pub open spec fn text(error: ApiErrorView, operation: Operation) -> Seq<char> {
        match error {
            ApiErrorView::Transport { message } => message,
            ApiErrorView::NotFound => if operation == Operation::Playlist {
                "Invalid Playlist ID: The playlist could not be found."@
            } else {
                "No results found for the specified artist and track."@
            },
            ApiErrorView::Status { status, status_text } => if operation == Operation::Playlist {
                "Error fetching playlist: "@ + status_text
            } else if operation == Operation::AddTracks {
                "Failed to add tracks to playlist: "@ + status_text
            } else {
                status_text
            },
            ApiErrorView::Decode { error } => if operation == Operation::Completion {
                "Failed to parse response: "@ + DecodeError::text(error)
            } else {
                DecodeError::text(error)
            },
            ApiErrorView::NoChoices => "No response choices available"@,
        }
    }

    /// What is shown for this error when it came of `operation`.
    pub fn message(&self, operation: Operation) -> (r: String)
        ensures
            r@ == Self::text(self@, operation),
    {
        match self {
            ApiError::Transport { message } => message.clone(),
            ApiError::NotFound => match operation {
                Operation::Playlist => String::from_str(
                    "Invalid Playlist ID: The playlist could not be found.",
                ),
                _ => String::from_str("No results found for the specified artist and track."),
            },
            ApiError::Status { status: _, status_text } => match operation {
                Operation::Playlist => {
                    let mut out = String::from_str("Error fetching playlist: ");
                    out.append(status_text.as_str());
                    out
                },
                Operation::AddTracks => {
                    let mut out = String::from_str("Failed to add tracks to playlist: ");
                    out.append(status_text.as_str());
                    out
                },
                _ => status_text.clone(),
            },
            ApiError::Decode { error } => match operation {
                Operation::Completion => {
                    let mut out = String::from_str("Failed to parse response: ");
                    out.append(error.message().as_str());
                    out
                },
                _ => error.message(),
            },
            ApiError::NoChoices => String::from_str("No response choices available"),
        }
    }
}

} // verus!
