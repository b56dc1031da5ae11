//! The exporter's settings and the texts it serves or prints.

use vstd::prelude::*;
use vstd::string::*;

verus! {

/// The bridge URL used when `HUE_BRIDGE_URL` is not set.
pub open spec fn spec_default_bridge_url() -> Seq<char> {
    "http://hue-bridge.local"@
}

/// The address the exporter listens on when `BIND_ADDR` is not set.
pub open spec fn spec_default_bind_addr() -> Seq<char> {
    "127.0.0.1:9369"@
}

/// The content type of the index page.
pub const INDEX_CONTENT_TYPE: &'static str = "text/html; charset=utf-8";

/// The content type of the metrics page.
pub const METRICS_CONTENT_TYPE: &'static str = "text/plain; charset=utf-8";

/// The exporter's settings, read from the environment variables
/// `HUE_TOKEN`, `HUE_BRIDGE_URL` and `BIND_ADDR`.
#[derive(Debug, Clone, PartialEq, Eq)]
pub struct Config {
    /// The token the bridge granted; without one the exporter first asks the
    /// bridge for a token.
    pub token: Option<String>,
    pub bridge_url: String,
    pub bind_addr: String,
}

/// The value of an optional setting: the given value, or the default.
pub open spec fn setting_or(value: Option<String>, default: Seq<char>) -> Seq<char> {
    match value {
        Some(v) => v@,
        None => default,
    }
}

fn or_default(value: Option<String>, default: &str) -> (res: String)
    ensures
        res@ == setting_or(value, default@),
{
    match value {
        Some(v) => v,
        None => String::from_str(default),
    }
}

impl Config {
    /// The settings given the values of `HUE_TOKEN`, `HUE_BRIDGE_URL` and
    /// `BIND_ADDR` (`None` for a variable that is not set): the bridge URL
    /// and the address default when their variable is not set.
    pub fn from_env_values(
        token: Option<String>,
        bridge_url: Option<String>,
        bind_addr: Option<String>,
    ) -> (c: Config)
        ensures
            c.token == token,
            c.bridge_url@ == setting_or(bridge_url, spec_default_bridge_url()),
            c.bind_addr@ == setting_or(bind_addr, spec_default_bind_addr()),
    {
        Config {
            token,
            bridge_url: or_default(bridge_url, "http://hue-bridge.local"),
            bind_addr: or_default(bind_addr, "127.0.0.1:9369"),
        }
    }
}

/// The index page, naming the exporter and linking to its metrics and its
/// source code.
pub open spec fn spec_index_page(name: Seq<char>, version: Seq<char>, homepage: Seq<char>) -> Seq<
    char,
> {
    "<h1>"@ + name + " "@ + version + "</h1>\n<ul>\n<li><a href='/metrics'>Metrics</a></li>\n<li><a href=\""@
        + homepage + "\">Source code</a></li>\n</ul>\n"@
}

/// The index page of the exporter `name` at `version`, whose source code
/// is at `homepage`.
pub fn index_page(name: &str, version: &str, homepage: &str) -> (page: String)
    ensures
        page@ == spec_index_page(name@, version@, homepage@),
{
    let mut page = String::from_str("<h1>");
    page.append(name);
    page.append(" ");
    page.append(version);
    page.append("</h1>\n<ul>\n<li><a href='/metrics'>Metrics</a></li>\n<li><a href=\"");
    page.append(homepage);
    page.append("\">Source code</a></li>\n</ul>\n");
    page
}

/// The lines the exporter prints when the bridge granted `token`.
pub open spec fn spec_token_instructions(token: Seq<char>) -> Seq<Seq<char>> {
    seq![
        "Received a token!  Please set the following environment variable:"@,
        "\tHUE_TOKEN="@ + token,
        "and restart the hue_exporter."@,
    ]
}

/// The lines that tell the user how to use the token the bridge granted.
pub fn token_instructions(token: &str) -> (lines: Vec<String>)
    ensures
        lines@.map_values(|l: String| l@) == spec_token_instructions(token@),
{
    let mut setting = String::from_str("\tHUE_TOKEN=");
    setting.append(token);
    let mut lines: Vec<String> = Vec::new();
    lines.push(String::from_str("Received a token!  Please set the following environment variable:"));
    lines.push(setting);
    lines.push(String::from_str("and restart the hue_exporter."));
    assert(lines@.map_values(|l: String| l@) =~= spec_token_instructions(token@));
    lines
}

/// The line printed when the exporter starts without a token.
pub const NO_TOKEN_NOTICE: &'static str = "HUE_TOKEN is not set, starting authorization flow...";

/// What the authorization flow does after one request to the bridge.
#[derive(Debug, Clone, PartialEq, Eq)]
pub enum AuthFlowStep {
    /// Print these lines and stop: the bridge granted a token.
    Finish(Vec<String>),
    /// Print these lines, wait for the user to press ENTER, and ask again.
    Retry(Vec<String>),
}

/// What the authorization flow does after a request that gave `outcome`:
/// the token, or the text of the error.
pub open spec fn spec_auth_flow_step(outcome: Result<Seq<char>, Seq<char>>) -> (bool, Seq<Seq<char>>) {
    match outcome {
        Ok(token) => (true, spec_token_instructions(token)),
        Err(message) => (false, seq![message, "Press [ENTER] to try again..."@]),
    }
}

/// Whether a step stops the flow, and the lines it prints.
pub open spec fn auth_flow_step_view(step: AuthFlowStep) -> (bool, Seq<Seq<char>>) {
    match step {
        AuthFlowStep::Finish(lines) => (true, lines@.map_values(|l: String| l@)),
        AuthFlowStep::Retry(lines) => (false, lines@.map_values(|l: String| l@)),
    }
}

/// The mathematical value of a request's outcome: the token or the error text.
pub open spec fn outcome_text_view(outcome: &Result<String, String>) -> Result<Seq<char>, Seq<char>> {
    match outcome {
        Ok(token) => Ok(token@),
        Err(message) => Err(message@),
    }
}

/// Decides the next step of the authorization flow from the outcome of the
/// last request: the token (stop, after telling the user how to use it),
/// or the text of the error (show it, and ask again once the user is ready).
pub fn auth_flow_step(outcome: &Result<String, String>) -> (step: AuthFlowStep)
    ensures
        auth_flow_step_view(step) == spec_auth_flow_step(outcome_text_view(outcome)),
{
    match outcome {
        Ok(token) => AuthFlowStep::Finish(token_instructions(token.as_str())),
        Err(message) => {
            let mut lines: Vec<String> = Vec::new();
            lines.push(message.clone());
            lines.push(String::from_str("Press [ENTER] to try again..."));
            assert(lines@.map_values(|l: String| l@) =~= seq![message@, "Press [ENTER] to try again..."@]);
            AuthFlowStep::Retry(lines)
        },
    }
}

/// A setting given in the environment is used as it is; one that is not
/// given is `http://hue-bridge.local` for the bridge and `127.0.0.1:9369`
/// for the listening address.
pub proof fn law_settings(value: String)
    ensures
        setting_or(Some(value), spec_default_bridge_url()) == value@,
        setting_or(Some(value), spec_default_bind_addr()) == value@,
        setting_or(None, spec_default_bridge_url()) == "http://hue-bridge.local"@,
        setting_or(None, spec_default_bind_addr()) == "127.0.0.1:9369"@,
{
}

/// The authorization flow stops exactly when the bridge granted a token,
/// and then tells the user to set `HUE_TOKEN` to that very token; after a
/// failed request it shows the error text unchanged, then asks the user to
/// press ENTER.
pub proof fn law_auth_flow(outcome: Result<Seq<char>, Seq<char>>)
    ensures
        spec_auth_flow_step(outcome).0 <==> outcome is Ok,
        outcome is Ok ==> spec_auth_flow_step(outcome).1.len() == 3
            && spec_auth_flow_step(outcome).1[1] == "\tHUE_TOKEN="@ + outcome->Ok_0,
        outcome is Err ==> spec_auth_flow_step(outcome).1 == seq![
            outcome->Err_0,
            "Press [ENTER] to try again..."@,
        ],
{
}

/// The index page names the program and its version in its heading, links
/// the metrics page, and links the source code.
pub proof fn law_index_page(name: Seq<char>, version: Seq<char>, homepage: Seq<char>)
    ensures
        spec_index_page(name, version, homepage) == "<h1>"@ + name + " "@ + version
            + "</h1>\n<ul>\n<li><a href='/metrics'>Metrics</a></li>\n<li><a href=\""@ + homepage
            + "\">Source code</a></li>\n</ul>\n"@,
{
}

} // verus!
