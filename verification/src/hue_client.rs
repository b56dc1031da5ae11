//! The data model of the Hue bridge's REST API, the client's endpoints, and
//! the reading of the bridge's answer to an authorization request.

use vstd::prelude::*;
use vstd::string::*;
use crate::text::{
    decimal, digits_value, law_decimal_is_standard, push_decimal, push_signed_decimal, signed_decimal,
};

verus! {

/// A sensor as the bridge describes it under `/api/<token>/sensors`.
#[derive(Debug, Clone, PartialEq, Eq)]
pub struct Sensor {
    /// The bridge's `type` field, such as `ZLLTemperature`.
    pub device_type: String,
    pub name: String,
    pub state: SensorState,
    pub config: SensorConfig,
}

/// The `state` object of a sensor.
#[derive(Debug, Clone, PartialEq, Eq)]
pub struct SensorState {
    pub lastupdated: String,
    pub daylight: Option<bool>,
    pub flag: Option<bool>,
    pub presence: Option<bool>,
    pub dark: Option<bool>,
    pub status: Option<i64>,
    pub buttonevent: Option<i64>,
    /// Hundredths of a degree Celsius.
    pub temperature: Option<i64>,
    pub lightlevel: Option<i64>,
}

/// The `config` object of a sensor.
#[derive(Debug, Clone, PartialEq, Eq)]
pub struct SensorConfig {
    pub on: bool,
    pub configured: Option<bool>,
    pub sunriseoffset: Option<i64>,
    pub sunsetoffset: Option<i64>,
    pub reachable: Option<bool>,
    pub battery: Option<i64>,
    pub alert: Option<String>,
    pub ledindication: Option<bool>,
    pub usertest: Option<bool>,
    pub sensitivity: Option<i64>,
    pub sensitivitymax: Option<i64>,
    pub tholddark: Option<i64>,
    pub tholdoffset: Option<i64>,
}

/// A light as the bridge describes it under `/api/<token>/lights`.
/// (The `config` object of a light only holds strings and is not modelled.)
#[derive(Debug, Clone, PartialEq, Eq)]
pub struct Light {
    /// The bridge's `type` field, such as `Extended color light`.
    pub device_type: String,
    pub name: String,
    pub state: LightState,
}

/// The `state` object of a light.
#[derive(Debug, Clone, PartialEq, Eq)]
pub struct LightState {
    pub reachable: bool,
    pub on: bool,
    pub bri: Option<i64>,
    pub hue: Option<i64>,
    pub sat: Option<i64>,
    pub ct: Option<i64>,
}

/// One element of the bridge's answer to an authorization request.
#[derive(Debug, Clone, PartialEq, Eq)]
pub struct AuthResponse {
    pub error: Option<AuthResponseError>,
    pub success: Option<AuthResponseSuccess>,
}

/// The `error` object of an authorization answer.
#[derive(Debug, Clone, PartialEq, Eq)]
pub struct AuthResponseError {
    /// The bridge's `type` field: the error code.
    pub error_type: i64,
    pub description: String,
}

/// The `success` object of an authorization answer.
#[derive(Debug, Clone, PartialEq, Eq)]
pub struct AuthResponseSuccess {
    pub username: String,
}

/// The error code with which the bridge refuses an authorization request
/// until its link button has been pressed.
pub const LINK_BUTTON_NOT_PRESSED: i64 = 101;

/// The `devicetype` under which the exporter asks the bridge for a token.
pub open spec fn spec_device_type() -> Seq<char> {
    "hue_exporter"@
}

/// Why an authorization request did not give a token.
#[derive(Debug, Clone, PartialEq, Eq)]
pub enum AuthError {
    /// The answer did not hold exactly one element; it held this many.
    UnexpectedLength(usize),
    /// The bridge waits for its link button to be pressed.
    LinkButtonNotPressed,
    /// The bridge answered with another error.
    Bridge { error_type: i64, description: String },
    /// The answer held neither an error nor a success.
    NoSuccess,
}

/// The mathematical value of an [`AuthError`].
pub enum AuthErrorView {
    UnexpectedLength(nat),
    LinkButtonNotPressed,
    Bridge { error_type: int, description: Seq<char> },
    NoSuccess,
}

impl View for AuthError {
    type V = AuthErrorView;

    open spec fn view(&self) -> AuthErrorView {
        match self {
            AuthError::UnexpectedLength(n) => AuthErrorView::UnexpectedLength(*n as nat),
            AuthError::LinkButtonNotPressed => AuthErrorView::LinkButtonNotPressed,
            AuthError::Bridge { error_type, description } => AuthErrorView::Bridge {
                error_type: *error_type as int,
                description: description@,
            },
            AuthError::NoSuccess => AuthErrorView::NoSuccess,
        }
    }
}

/// The text that describes an authorization error to the user.
pub open spec fn spec_auth_error_message(e: AuthErrorView) -> Seq<char> {
    match e {
        AuthErrorView::UnexpectedLength(n) => "expected response with one element, got "@ + decimal(
            n,
        ),
        AuthErrorView::LinkButtonNotPressed => "You now need to push the link button on your Hue bridge."@,
        AuthErrorView::Bridge { error_type, description } => "received response "@
            + signed_decimal(error_type) + " ("@ + description + ")"@,
        AuthErrorView::NoSuccess => "somehow received no response????"@,
    }
}

impl AuthError {
    /// The text that describes this error to the user.
    pub fn message(&self) -> (msg: String)
        ensures
            msg@ == spec_auth_error_message(self@),
    {
        match self {
            AuthError::UnexpectedLength(n) => {
                let mut msg = String::from_str("expected response with one element, got ");
                push_decimal(&mut msg, *n as u64);
                msg
            },
            AuthError::LinkButtonNotPressed => String::from_str(
                "You now need to push the link button on your Hue bridge.",
            ),
            AuthError::Bridge { error_type, description } => {
                let mut msg = String::from_str("received response ");
                push_signed_decimal(&mut msg, *error_type);
                msg.append(" (");
                msg.append(description.as_str());
                msg.append(")");
                msg
            },
            AuthError::NoSuccess => String::from_str("somehow received no response????"),
        }
    }
}

/// What an authorization request gives, read from the bridge's answer `rs`:
/// the token, or why there is none.
pub open spec fn spec_authorization_outcome(rs: Seq<AuthResponse>) -> Result<Seq<char>, AuthErrorView> {
    if rs.len() != 1 {
        Err(AuthErrorView::UnexpectedLength(rs.len()))
    } else {
        match rs[0].error {
            Some(e) => if e.error_type == LINK_BUTTON_NOT_PRESSED {
                Err(AuthErrorView::LinkButtonNotPressed)
            } else {
                Err(
                    AuthErrorView::Bridge {
                        error_type: e.error_type as int,
                        description: e.description@,
                    },
                )
            },
            None => match rs[0].success {
                Some(s) => Ok(s.username@),
                None => Err(AuthErrorView::NoSuccess),
            },
        }
    }
}

/// The bridge grants a token only through an answer of exactly one element
/// that holds a success and no error, and the token is that success's user
/// name; an error in a one-element answer is always reported, the
/// link-button error apart from every other.
pub proof fn law_token_only_from_single_success(rs: Seq<AuthResponse>)
    ensures
        spec_authorization_outcome(rs) is Ok <==> (rs.len() == 1 && rs[0].error is None
            && rs[0].success is Some),
        spec_authorization_outcome(rs) is Ok ==> spec_authorization_outcome(rs)->Ok_0
            == rs[0].success->0.username@,
        rs.len() == 1 && rs[0].error is Some ==> (spec_authorization_outcome(rs)
            == Err::<Seq<char>, AuthErrorView>(AuthErrorView::LinkButtonNotPressed) <==> rs[0].error->0.error_type
            == 101),
        rs.len() == 1 && rs[0].error is Some && rs[0].error->0.error_type != 101
            ==> spec_authorization_outcome(rs) == Err::<Seq<char>, AuthErrorView>(
            AuthErrorView::Bridge {
                error_type: rs[0].error->0.error_type as int,
                description: rs[0].error->0.description@,
            },
        ),
        rs.len() != 1 ==> spec_authorization_outcome(rs) == Err::<Seq<char>, AuthErrorView>(
            AuthErrorView::UnexpectedLength(rs.len()),
        ),
        rs.len() == 1 && rs[0].error is None && rs[0].success is None
            ==> spec_authorization_outcome(rs) == Err::<Seq<char>, AuthErrorView>(
            AuthErrorView::NoSuccess,
        ),
{
}

/// The text of each refusal: a wrong-length answer names its length in
/// decimal after a fixed sentence, so that the number reads back from the
/// text; a bridge error shows its code (with a `-` when negative) and then
/// its description in brackets; the link-button and empty-answer cases have
/// fixed sentences.
pub proof fn law_auth_error_messages(n: nat, code: int, description: Seq<char>)
    ensures
        ({
            let msg = spec_auth_error_message(AuthErrorView::UnexpectedLength(n));
            let lead = "expected response with one element, got "@;
            &&& msg.take(lead.len() as int) == lead
            &&& digits_value(msg.skip(lead.len() as int)) == n
        }),
        spec_auth_error_message(AuthErrorView::Bridge { error_type: code, description })
            == "received response "@ + (if code < 0 {
            seq!['-']
        } else {
            Seq::<char>::empty()
        }) + decimal(if code < 0 {
            (-code) as nat
        } else {
            code as nat
        }) + " ("@ + description + ")"@,
        spec_auth_error_message(AuthErrorView::LinkButtonNotPressed)
            == "You now need to push the link button on your Hue bridge."@,
        spec_auth_error_message(AuthErrorView::NoSuccess) == "somehow received no response????"@,
{
    let lead = "expected response with one element, got "@;
    let msg = spec_auth_error_message(AuthErrorView::UnexpectedLength(n));
    assert(msg.take(lead.len() as int) =~= lead);
    assert(msg.skip(lead.len() as int) =~= decimal(n));
    law_decimal_is_standard(n);
    if code >= 0 {
        assert(Seq::<char>::empty() + decimal(code as nat) =~= decimal(code as nat));
    }
}

/// A client asks the bridge for its sensors at `<bridge>/api/<token>/sensors`,
/// for its lights at `<bridge>/api/<token>/lights`, and for a token at
/// `<bridge>/api`, under the device type `hue_exporter`.
pub proof fn law_endpoints(hue_url: Seq<char>, token: Seq<char>)
    ensures
        spec_resource_url(hue_url, token, "sensors"@) == hue_url + "/api/"@ + token + "/sensors"@,
        spec_resource_url(hue_url, token, "lights"@) == hue_url + "/api/"@ + token + "/lights"@,
        spec_api_url(hue_url) == hue_url + "/api"@,
        spec_device_type() == "hue_exporter"@,
{
    reveal_strlit("/api");
    reveal_strlit("/");
    reveal_strlit("/api/");
    reveal_strlit("sensors");
    reveal_strlit("/sensors");
    reveal_strlit("lights");
    reveal_strlit("/lights");
    assert(spec_resource_url(hue_url, token, "sensors"@) =~= hue_url + "/api/"@ + token + "/sensors"@);
    assert(spec_resource_url(hue_url, token, "lights"@) =~= hue_url + "/api/"@ + token + "/lights"@);
}

/// The mathematical value of the result of an authorization.
pub open spec fn outcome_view(r: Result<String, AuthError>) -> Result<Seq<char>, AuthErrorView> {
    match r {
        Ok(token) => Ok(token@),
        Err(e) => Err(e@),
    }
}

/// A client of one Hue bridge, holding the bridge's URL and the token
/// (user name) that the bridge granted.
#[derive(Clone, Debug)]
pub struct HueClient {
    token: String,
    hue_url: String,
}

/// The mathematical value of a [`HueClient`].
pub struct HueClientView {
    pub token: Seq<char>,
    pub hue_url: Seq<char>,
}

impl View for HueClient {
    type V = HueClientView;

    closed spec fn view(&self) -> HueClientView {
        HueClientView { token: self.token@, hue_url: self.hue_url@ }
    }
}

/// The URL of the bridge's API root, to which authorization requests go.
pub open spec fn spec_api_url(hue_url: Seq<char>) -> Seq<char> {
    hue_url + "/api"@
}

/// The URL of the resource list `resource` that the bridge serves to the
/// holder of `token`.
pub open spec fn spec_resource_url(hue_url: Seq<char>, token: Seq<char>, resource: Seq<char>) -> Seq<
    char,
> {
    spec_api_url(hue_url) + "/"@ + token + "/"@ + resource
}

impl HueClient {
    /// A client of the bridge at `hue_url` that authenticates with `token`.
    pub fn new(token: String, hue_url: String) -> (client: Self)
        ensures
            client@.token == token@,
            client@.hue_url == hue_url@,
    {
        HueClient { token, hue_url }
    }

    /// The URL from which the bridge serves its sensors.
    pub fn sensors_url(&self) -> (url: String)
        ensures
            url@ == spec_resource_url(self@.hue_url, self@.token, "sensors"@),
    {
        let mut url = self.hue_url.clone();
        url.append("/api");
        url.append("/");
        url.append(self.token.as_str());
        url.append("/");
        url.append("sensors");
        url
    }

    /// The URL from which the bridge serves its lights.
    pub fn lights_url(&self) -> (url: String)
        ensures
            url@ == spec_resource_url(self@.hue_url, self@.token, "lights"@),
    {
        let mut url = self.hue_url.clone();
        url.append("/api");
        url.append("/");
        url.append(self.token.as_str());
        url.append("/");
        url.append("lights");
        url
    }

    /// The URL to which an authorization request for the bridge at
    /// `hue_url` goes.
    pub fn authorize_url(hue_url: &str) -> (url: String)
        ensures
            url@ == spec_api_url(hue_url@),
    {
        let mut url = String::from_str(hue_url);
        url.append("/api");
        url
    }

    /// The `devicetype` under which the exporter asks for a token.
    pub fn device_type() -> (name: String)
        ensures
            name@ == spec_device_type(),
    {
        String::from_str("hue_exporter")
    }

    /// Reads the bridge's answer to an authorization request: the token when
    /// the answer is a single success, and otherwise why there is none.
    pub fn authorization_outcome(responses: &Vec<AuthResponse>) -> (res: Result<String, AuthError>)
        ensures
            outcome_view(res) == spec_authorization_outcome(responses@),
    {
        if responses.len() != 1 {
            return Err(AuthError::UnexpectedLength(responses.len()));
        }
        let first = &responses[0];
        match &first.error {
            Some(err) => {
                if err.error_type == LINK_BUTTON_NOT_PRESSED {
                    Err(AuthError::LinkButtonNotPressed)
                } else {
                    Err(
                        AuthError::Bridge {
                            error_type: err.error_type,
                            description: err.description.clone(),
                        },
                    )
                }
            },
            None => match &first.success {
                Some(success) => Ok(success.username.clone()),
                None => Err(AuthError::NoSuccess),
            },
        }
    }
}

} // verus!
