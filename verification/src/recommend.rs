//! Asking the model for songs that go with a playlist.

use crate::http::{
    decoded_document, decode_document, is_success, status_is_success, ApiError, ApiErrorView,
    Credentials, CredentialsView, HttpReply, HttpReplyView, HttpRequest, HttpRequestView, Method,
    Payload, PayloadView,
};
use crate::json::json_decoding;
use crate::models::{LlmRequest, LlmRequestView, LlmResponse, Message, MessageView};
use crate::text::{decimal, decimal_text, owned};
use crate::views::outcome;
use vstd::prelude::*;

verus! {

/// The instruction that asks for `count` songs and lays down the form of
/// the answer: a JSON object with the key `songs`, each song with the keys
/// `name` and `artist`, and no song that the playlist already has. The
/// playlist follows it.
pub open spec fn instruction(count: int) -> Seq<char> {
    "I will give you a playlist, give me "@ + decimal(count)
        + " songs that are similar to the songs in the playlist, no songs that you give me should be the same as the songs in the playlist. Your goal is to give me songs that fit the vibe of the playlist. You are only allowed to give me the songs nothing more. The format of your answer will be a JSON object with the key 'songs' and the value being a list of song objects. Each song object should have the keys 'name' and 'artist'. Here is the playlist: "@
}

/// The whole prompt: the instruction, then the playlist as it was rendered.
pub open spec fn prompt(count: int, playlist_text: Seq<char>) -> Seq<char> {
    instruction(count) + playlist_text
}

/// The prompt that asks for `count` songs like those of `playlist_text`.
pub fn build_prompt(count: i32, playlist_text: &str) -> (r: String)
    ensures
        r@ == prompt(count as int, playlist_text@),
{
    let mut out = String::from_str("I will give you a playlist, give me ");
    out.append(decimal_text(count).as_str());
    out.append(
        " songs that are similar to the songs in the playlist, no songs that you give me should be the same as the songs in the playlist. Your goal is to give me songs that fit the vibe of the playlist. You are only allowed to give me the songs nothing more. The format of your answer will be a JSON object with the key 'songs' and the value being a list of song objects. Each song object should have the keys 'name' and 'artist'. Here is the playlist: ",
    );
    out.append(playlist_text);
    out
}

/// The chat that holds `content` as the one message of the user, for the
/// model that this library asks.
pub open spec fn chat(content: Seq<char>) -> LlmRequestView {
    LlmRequestView {
        model: "nvidia/llama-3.1-nemotron-70b-instruct"@,
        messages: seq![MessageView { role: "user"@, content }],
    }
}

/// The request that puts `content` to the model.
pub open spec fn completion_request_model(api_key: Seq<char>, content: Seq<char>) -> HttpRequestView {
    HttpRequestView {
        method: Method::Post,
        url: "https://integrate.api.nvidia.com/v1/chat/completions"@,
        credentials: CredentialsView::Bearer { token: api_key },
        payload: PayloadView::Json { text: LlmRequest::json_text(chat(content)) },
    }
}

/// The request that puts `content` to the model, as the one message of a
/// chat.
pub fn completion_request(api_key: &str, content: &str) -> (r: HttpRequest)
    ensures
        r@ == completion_request_model(api_key@, content@),
{
    let mut messages: Vec<Message> = Vec::new();
    messages.push(Message { role: owned("user"), content: owned(content) });
    let chat_request = LlmRequest {
        model: owned("nvidia/llama-3.1-nemotron-70b-instruct"),
        messages,
    };
    assert(chat_request@.messages =~= chat(content@).messages);
    HttpRequest {
        method: Method::Post,
        url: owned("https://integrate.api.nvidia.com/v1/chat/completions"),
        credentials: Credentials::Bearer { token: owned(api_key) },
        payload: Payload::Json { text: chat_request.to_json() },
    }
}

/// The request that asks the model for `count` songs like those of
/// `playlist_text`.
pub fn recommendation_request(api_key: &str, playlist_text: &str, count: i32) -> (r: HttpRequest)
    ensures
        r@ == completion_request_model(api_key@, prompt(count as int, playlist_text@)),
{
    let content = build_prompt(count, playlist_text);
    completion_request(api_key, content.as_str())
}

/// What the answer to a completion request holds: under a success status
/// the content of the first choice, as it came; any other status as it
/// came.
pub open spec fn completion_outcome(reply: HttpReplyView) -> Result<Seq<char>, ApiErrorView> {
    match reply {
        HttpReplyView::Failed { message } => Err(ApiErrorView::Transport { message }),
        HttpReplyView::Answered { status, status_text, body } => if is_success(status) {
            match decoded_document::<LlmResponse>(json_decoding(body)) {
                Ok(choices) => if choices.len() == 0 {
                    Err(ApiErrorView::NoChoices)
                } else {
                    Ok(choices[0])
                },
                Err(error) => Err(ApiErrorView::Decode { error }),
            }
        } else {
            Err(ApiErrorView::Status { status, status_text })
        },
    }
}

/// Reads the model's text out of the answer to a completion request.
pub fn read_completion(reply: &HttpReply) -> (r: Result<String, ApiError>)
    ensures
        outcome(r) == completion_outcome(reply@),
{
    match reply {
        HttpReply::Failed { message } => Err(ApiError::Transport { message: message.clone() }),
        HttpReply::Answered { status, status_text, body } => {
            if status_is_success(*status) {
                match decode_document::<LlmResponse>(body.as_str()) {
                    Ok(completion) => {
                        if completion.choices.len() == 0 {
                            Err(ApiError::NoChoices)
                        } else {
                            Ok(completion.choices[0].message.content.clone())
                        }
                    },
                    Err(error) => Err(ApiError::Decode { error }),
                }
            } else {
                Err(ApiError::Status { status: *status, status_text: status_text.clone() })
            }
        },
    }
}

/// The prompt for a playlist without tracks is the instruction alone.
pub proof fn law_prompt_of_empty_text(count: int)
    ensures
        prompt(count, Seq::<char>::empty()) == instruction(count),
{
    assert(instruction(count) + Seq::<char>::empty() =~= instruction(count));
}

} // verus!
