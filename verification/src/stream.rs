//! The address of the camera's live video stream.

use crate::discovery::CameraEndpoint;
use crate::encoder::{append_dotted_quad, dotted_quad, Credentials, CredentialsView};
use crate::text::{append_decimal, decimal};
use vstd::prelude::*;
use vstd::string::*;

verus! {

/// `url::Url`, a parsed absolute URL. Nothing is known of its content here.
#[verifier::external_type_specification]
#[verifier::external_body]
pub struct ExUrl(url::Url);

/// `url::ParseError`, the reason `url::Url::parse` rejected a text.
#[verifier::external_type_specification]
#[verifier::external_body]
pub struct ExParseError(url::ParseError);

/// What `url::Url::parse` returns for `text`.
pub uninterp spec fn parsed_url(text: Seq<char>) -> Result<url::Url, url::ParseError>;

/// Calls `url::Url::parse`. The parser reads nothing but its argument, so
/// its result is a function of the text; that function is `parsed_url`, and
/// nothing more is claimed of it.
#[verifier::external_body]
fn parse_url(text: &str) -> (r: Result<url::Url, url::ParseError>)
    ensures
        r == parsed_url(text@),
{
    url::Url::parse(text)
}

/// TCP port of the camera's RTSP listener.
pub const STREAM_PORT: u16 = 10554;

/// Why there is no stream address.
#[derive(Clone, Copy, Debug, PartialEq, Eq, Structural)]
pub enum StreamUrlError {
    /// The text is not an absolute URL; a user name or password with
    /// reserved characters in it can cause this.
    Rejected,
}

/// `rtsp://{user}:{pass}@{ip}:10554/udp/av0_0`
pub open spec fn stream_text(ip: Seq<u8>, credentials: CredentialsView) -> Seq<char> {
    "rtsp://"@ + credentials.username + ":"@ + credentials.password + "@"@ + dotted_quad(ip)
        + ":"@ + decimal(STREAM_PORT as nat) + "/udp/av0_0"@
}

/// The parser's verdict in the library's terms: the URL where there is one.
pub open spec fn accepted(parsed: Result<url::Url, url::ParseError>) -> Result<
    url::Url,
    StreamUrlError,
> {
    match parsed {
        Ok(url) => Ok(url),
        Err(_) => Err(StreamUrlError::Rejected),
    }
}

/// The stream address as text. Only the endpoint's address is used: the
/// stream has a port of its own.
pub fn stream_url_text(endpoint: &CameraEndpoint, credentials: &Credentials) -> (text: String)
    ensures
        text@ == stream_text(endpoint.ip@, credentials@),
{
    let mut text = String::new();
    text.append("rtsp://");
    text.append(credentials.username.as_str());
    text.append(":");
    text.append(credentials.password.as_str());
    text.append("@");
    append_dotted_quad(&mut text, &endpoint.ip);
    text.append(":");
    append_decimal(&mut text, STREAM_PORT);
    text.append("/udp/av0_0");
    assert(text@ =~= stream_text(endpoint.ip@, credentials@));
    text
}

/// Turns the parser's verdict into the library's.
pub fn accept(parsed: Result<url::Url, url::ParseError>) -> (r: Result<url::Url, StreamUrlError>)
    ensures
        r == accepted(parsed),
{
    match parsed {
        Ok(url) => Ok(url),
        Err(_) => Err(StreamUrlError::Rejected),
    }
}

/// The stream address of the camera at `endpoint`, parsed.
pub fn stream_url(endpoint: &CameraEndpoint, credentials: &Credentials) -> (r: Result<
    url::Url,
    StreamUrlError,
>)
    ensures
        r == accepted(parsed_url(stream_text(endpoint.ip@, credentials@))),
{
    let text = stream_url_text(endpoint, credentials);
    accept(parse_url(text.as_str()))
}

} // verus!
