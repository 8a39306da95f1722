//! Rendering of camera commands into HTTP control requests.

use crate::command::CameraCmd;
use crate::discovery::CameraEndpoint;
use crate::text::{append_decimal, decimal};
use vstd::prelude::*;
use vstd::string::*;

verus! {

/// The account a control request logs in with.
#[derive(Clone, Debug, PartialEq, Eq)]
pub struct Credentials {
    pub username: String,
    pub password: String,
}

/// Mathematical content of [`Credentials`].
pub struct CredentialsView {
    pub username: Seq<char>,
    pub password: Seq<char>,
}

impl View for Credentials {
    type V = CredentialsView;

    open spec fn view(&self) -> CredentialsView {
        CredentialsView { username: self.username@, password: self.password@ }
    }
}

impl Credentials {
    pub fn new(username: &str, password: &str) -> (c: Credentials)
        ensures
            c@ == (CredentialsView { username: username@, password: password@ }),
    {
        Credentials { username: username.to_owned(), password: password.to_owned() }
    }

    /// An independent copy with the same content.
    pub fn duplicate(&self) -> (c: Credentials)
        ensures
            c == *self,
    {
        Credentials { username: self.username.clone(), password: self.password.clone() }
    }
}

/// Descriptor of one HTTP GET to the camera's control script: the target
/// and the four query parameters, named as they appear on the wire.
#[derive(Clone, Debug, PartialEq, Eq)]
pub struct ControlRequest {
    pub target: String,
    pub loginuse: String,
    pub loginpas: String,
    pub command: u8,
    pub onestep: u8,
}

/// Mathematical content of a [`ControlRequest`].
pub struct ControlRequestView {
    pub target: Seq<char>,
    pub loginuse: Seq<char>,
    pub loginpas: Seq<char>,
    pub command: u8,
    pub onestep: u8,
}

impl View for ControlRequest {
    type V = ControlRequestView;

    open spec fn view(&self) -> ControlRequestView {
        ControlRequestView {
            target: self.target@,
            loginuse: self.loginuse@,
            loginpas: self.loginpas@,
            command: self.command,
            onestep: self.onestep,
        }
    }
}

/// An IPv4 address in dotted-decimal notation.
pub open spec fn dotted_quad(ip: Seq<u8>) -> Seq<char>
    recommends
        ip.len() == 4,
{
    decimal(ip[0] as nat) + "."@ + decimal(ip[1] as nat) + "."@ + decimal(ip[2] as nat) + "."@
        + decimal(ip[3] as nat)
}

/// `http://{ip}:{port}/decoder_control.cgi`
pub open spec fn target_text(endpoint: CameraEndpoint) -> Seq<char> {
    "http://"@ + dotted_quad(endpoint.ip@) + ":"@ + decimal(endpoint.port as nat)
        + "/decoder_control.cgi"@
}

/// The request that carries `command` to `endpoint`. `onestep` is always 0:
/// motion is held until the matching stop command arrives.
pub open spec fn encoded(
    endpoint: CameraEndpoint,
    command: CameraCmd,
    credentials: CredentialsView,
) -> ControlRequestView {
    ControlRequestView {
        target: target_text(endpoint),
        loginuse: credentials.username,
        loginpas: credentials.password,
        command: command.spec_value(),
        onestep: 0,
    }
}

/// `{target}?loginuse={user}&loginpas={pass}&command={code}&onestep={onestep}`
pub open spec fn url_text(request: ControlRequestView) -> Seq<char> {
    request.target + "?loginuse="@ + request.loginuse + "&loginpas="@ + request.loginpas
        + "&command="@ + decimal(request.command as nat) + "&onestep="@ + decimal(
        request.onestep as nat,
    )
}

/// Encoding is a function of its inputs: two requests encoded from the same
/// endpoint, command and credentials agree in every field and render the
/// same URL.
pub proof fn lemma_encode_deterministic(
    endpoint: CameraEndpoint,
    command: CameraCmd,
    credentials: CredentialsView,
    first: ControlRequest,
    second: ControlRequest,
)
    requires
        first@ == encoded(endpoint, command, credentials),
        second@ == encoded(endpoint, command, credentials),
    ensures
        first@ == second@,
        url_text(first@) == url_text(second@),
{
}

/// Switching infrared on and switching it off render the same request, with
/// code 94: the wire format does not tell the two apart.
pub proof fn lemma_infrared_requests_alias(endpoint: CameraEndpoint, credentials: CredentialsView)
    ensures
        encoded(endpoint, CameraCmd::IrOn, credentials) == encoded(
            endpoint,
            CameraCmd::IrOff,
            credentials,
        ),
        encoded(endpoint, CameraCmd::IrOn, credentials).command == 94,
{
}

/// The URL of an encoded request, written out.
pub proof fn lemma_encoded_url(
    endpoint: CameraEndpoint,
    command: CameraCmd,
    credentials: CredentialsView,
)
    ensures
        url_text(encoded(endpoint, command, credentials)) == "http://"@ + dotted_quad(endpoint.ip@)
            + ":"@ + decimal(endpoint.port as nat) + "/decoder_control.cgi?loginuse="@
            + credentials.username + "&loginpas="@ + credentials.password + "&command="@ + decimal(
            command.spec_value() as nat,
        ) + "&onestep=0"@,
{
    reveal_strlit("/decoder_control.cgi?loginuse=");
    reveal_strlit("/decoder_control.cgi");
    reveal_strlit("?loginuse=");
    reveal_strlit("&onestep=0");
    reveal_strlit("&onestep=");
    let head = "http://"@ + dotted_quad(endpoint.ip@) + ":"@ + decimal(endpoint.port as nat);
    assert(head + "/decoder_control.cgi"@ + "?loginuse="@ =~= head
        + "/decoder_control.cgi?loginuse="@);
    let body = head + "/decoder_control.cgi?loginuse="@ + credentials.username + "&loginpas="@
        + credentials.password + "&command="@ + decimal(command.spec_value() as nat);
    assert(decimal(0) =~= seq!['0']);
    assert(body + "&onestep="@ + decimal(0) =~= body + "&onestep=0"@);
}

/// Appends `ip` in dotted-decimal notation to `out`.
pub fn append_dotted_quad(out: &mut String, ip: &[u8; 4])
    ensures
        final(out)@ == old(out)@ + dotted_quad(ip@),
{
    append_decimal(out, ip[0] as u16);
    out.append(".");
    append_decimal(out, ip[1] as u16);
    out.append(".");
    append_decimal(out, ip[2] as u16);
    out.append(".");
    append_decimal(out, ip[3] as u16);
    assert(out@ =~= old(out)@ + dotted_quad(ip@));
}

/// Maps a camera command to the request that carries it.
pub struct CommandEncoder;

impl CommandEncoder {
    /// Encodes `command` for the camera at `endpoint`. Every command has a
    /// code, so there is no failure.
    pub fn encode(endpoint: &CameraEndpoint, command: CameraCmd, credentials: &Credentials) -> (r:
        ControlRequest)
        ensures
            r@ == encoded(*endpoint, command, credentials@),
    {
        let mut target = String::new();
        target.append("http://");
        append_dotted_quad(&mut target, &endpoint.ip);
        target.append(":");
        append_decimal(&mut target, endpoint.port);
        target.append("/decoder_control.cgi");
        assert(target@ =~= target_text(*endpoint));
        ControlRequest {
            target,
            loginuse: credentials.username.clone(),
            loginpas: credentials.password.clone(),
            command: command.value(),
            onestep: 0,
        }
    }
}

impl ControlRequest {
    /// The full URL to GET.
    pub fn url(&self) -> (r: String)
        ensures
            r@ == url_text(self@),
    {
        let mut s = self.target.clone();
        s.append("?loginuse=");
        s.append(self.loginuse.as_str());
        s.append("&loginpas=");
        s.append(self.loginpas.as_str());
        s.append("&command=");
        append_decimal(&mut s, self.command as u16);
        s.append("&onestep=");
        append_decimal(&mut s, self.onestep as u16);
        s
    }
}

} // verus!
