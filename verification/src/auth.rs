//! Getting an access token: the page where a person grants access, the
//! request that trades a grant for a token, and the reading of its answer.

use crate::http::{
    decoded_document, decode_document, ApiError, ApiErrorView, Credentials, CredentialsView,
    FormField, FormFieldView, HttpReply, HttpReplyView, HttpRequest, HttpRequestView, Method,
    Payload, PayloadView,
};
use crate::json::json_decoding;
use crate::models::SpotifyAuthResponse;
use crate::text::owned;
use crate::views::outcome;
use vstd::prelude::*;

verus! {

/// The address of the page where a person grants this client access to
/// their playlists: the fixed scopes of changing public and private
/// playlists, and the two arguments as they stand.
pub open spec fn authorization_url(client_id: Seq<char>, redirect_uri: Seq<char>) -> Seq<char> {
    "https://accounts.spotify.com/authorize?response_type=code&client_id="@ + client_id
        + "&scope="@ + "playlist-modify-public playlist-modify-private"@ + "&redirect_uri="@
        + redirect_uri
}

/// The address of the page where a person grants this client access. No
/// request is made, and `redirect_uri` is not examined.
pub fn get_authorization_url(client_id: &str, redirect_uri: &str) -> (r: String)
    ensures
        r@ == authorization_url(client_id@, redirect_uri@),
{
    let mut out = String::from_str(
        "https://accounts.spotify.com/authorize?response_type=code&client_id=",
    );
    out.append(client_id);
    out.append("&scope=");
    out.append("playlist-modify-public playlist-modify-private");
    out.append("&redirect_uri=");
    out.append(redirect_uri);
    out
}

/// What is traded for an access token.
#[derive(Debug, PartialEq, Eq)]
pub enum Grant {
    /// The code that the service handed to a person who granted access,
    /// with the address it was sent to.
    AuthorizationCode { code: String, redirect_uri: String },
    /// The client's own credentials, with no person involved.
    ClientCredentials,
}

/// The mathematical value of a [`Grant`].
pub enum GrantView {
    AuthorizationCode { code: Seq<char>, redirect_uri: Seq<char> },
    ClientCredentials,
}

impl View for Grant {
    type V = GrantView;

    open spec fn view(&self) -> GrantView {
        match self {
            Grant::AuthorizationCode { code, redirect_uri } => GrantView::AuthorizationCode {
                code: code@,
                redirect_uri: redirect_uri@,
            },
            Grant::ClientCredentials => GrantView::ClientCredentials,
        }
    }
}

/// A form field as a value.
pub open spec fn field(name: Seq<char>, value: Seq<char>) -> FormFieldView {
    FormFieldView { name, value }
}

/// The request that trades `grant` for an access token. A code goes with the
/// client's identifier and secret in the form; the client's own credentials
/// go as HTTP basic authentication.
pub open spec fn token_request_model(
    client_id: Seq<char>,
    client_secret: Seq<char>,
    grant: GrantView,
) -> HttpRequestView {
    match grant {
        GrantView::AuthorizationCode { code, redirect_uri } => HttpRequestView {
            method: Method::Post,
            url: "https://accounts.spotify.com/api/token"@,
            credentials: CredentialsView::Anonymous,
            payload: PayloadView::Form {
                fields: seq![
                    field("grant_type"@, "authorization_code"@),
                    field("code"@, code),
                    field("redirect_uri"@, redirect_uri),
                    field("client_id"@, client_id),
                    field("client_secret"@, client_secret),
                ],
            },
        },
        GrantView::ClientCredentials => HttpRequestView {
            method: Method::Post,
            url: "https://accounts.spotify.com/api/token"@,
            credentials: CredentialsView::Basic { user: client_id, password: client_secret },
            payload: PayloadView::Form {
                fields: seq![field("grant_type"@, "client_credentials"@)],
            },
        },
    }
}

fn form_field(name: &str, value: &str) -> (r: FormField)
    ensures
        r@ == field(name@, value@),
{
    FormField { name: owned(name), value: owned(value) }
}

/// The request that trades `grant` for an access token.
pub fn token_request(client_id: &str, client_secret: &str, grant: &Grant) -> (r: HttpRequest)
    ensures
        r@ == token_request_model(client_id@, client_secret@, grant@),
{
    let mut fields: Vec<FormField> = Vec::new();
    match grant {
        Grant::AuthorizationCode { code, redirect_uri } => {
            fields.push(form_field("grant_type", "authorization_code"));
            fields.push(form_field("code", code.as_str()));
            fields.push(form_field("redirect_uri", redirect_uri.as_str()));
            fields.push(form_field("client_id", client_id));
            fields.push(form_field("client_secret", client_secret));
            let r = HttpRequest {
                method: Method::Post,
                url: owned("https://accounts.spotify.com/api/token"),
                credentials: Credentials::Anonymous,
                payload: Payload::Form { fields },
            };
            assert(r@.payload->Form_fields =~= token_request_model(
                client_id@,
                client_secret@,
                grant@,
            ).payload->Form_fields);
            r
        },
        Grant::ClientCredentials => {
            fields.push(form_field("grant_type", "client_credentials"));
            let r = HttpRequest {
                method: Method::Post,
                url: owned("https://accounts.spotify.com/api/token"),
                credentials: Credentials::Basic {
                    user: owned(client_id),
                    password: owned(client_secret),
                },
                payload: Payload::Form { fields },
            };
            assert(r@.payload->Form_fields =~= token_request_model(
                client_id@,
                client_secret@,
                grant@,
            ).payload->Form_fields);
            r
        },
    }
}

/// What the answer to a token request holds. The status is not looked at:
/// whatever body arrived is read as `{"access_token": ...}`.
pub open spec fn token_outcome(reply: HttpReplyView) -> Result<Seq<char>, ApiErrorView> {
    match reply {
        HttpReplyView::Failed { message } => Err(ApiErrorView::Transport { message }),
        HttpReplyView::Answered { status, status_text, body } => match decoded_document::<
            SpotifyAuthResponse,
        >(json_decoding(body)) {
            Ok(token) => Ok(token),
            Err(error) => Err(ApiErrorView::Decode { error }),
        },
    }
}

/// Reads the access token out of the answer to a token request.
pub fn read_access_token(reply: &HttpReply) -> (r: Result<String, ApiError>)
    ensures
        outcome(r) == token_outcome(reply@),
{
    match reply {
        HttpReply::Failed { message } => Err(ApiError::Transport { message: message.clone() }),
        HttpReply::Answered { status: _, status_text: _, body } => {
            match decode_document::<SpotifyAuthResponse>(body.as_str()) {
                Ok(read) => Ok(read.access_token),
                Err(error) => Err(ApiError::Decode { error }),
            }
        },
    }
}

} // verus!
