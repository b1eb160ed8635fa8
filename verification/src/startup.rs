//! How a run begins: which credentials it takes, and whether it must ask for
//! authorization before it can fetch anything.

use crate::client::TickTickClient;
use crate::config::{default_redirect_uri, default_redirect_uri_text, Config, TickTickConfig};
use crate::error::ClientError;
use crate::types::Project;
use vstd::prelude::*;
use vstd::string::*;

verus! {

/// The four environment variables that replace the configuration file, each
/// as the environment holds it.
#[derive(Clone, Debug, PartialEq, Eq)]
pub struct EnvCredentials {
    pub client_id: Option<String>,
    pub client_secret: Option<String>,
    pub redirect_uri: Option<String>,
    pub access_token: Option<String>,
}

/// How a run begins.
#[derive(Clone, Debug, PartialEq, Eq)]
pub enum Start {
    /// All four variables are set: use them, and ask for nothing.
    FromEnvironment(TickTickClient),
    /// The configuration holds a token: try it on the project list first.
    VerifyStored(TickTickClient),
    /// The configuration holds no token: authorize.
    Authorize(TickTickClient),
    /// There is no configuration: ask the user for the credentials.
    Interactive,
}

/// What follows the trial of a stored token.
#[derive(Clone, Debug, PartialEq, Eq)]
pub enum AfterTrial {
    /// The token works.
    Proceed(TickTickClient),
    /// The token was refused: this client, which has the same credentials
    /// and no token, is to be authorized afresh.
    Reauthorize(TickTickClient),
}

impl EnvCredentials {
    /// Whether the environment replaces the configuration: all four
    /// variables are set.
    pub open spec fn complete(&self) -> bool {
        &&& self.client_id is Some
        &&& self.client_secret is Some
        &&& self.redirect_uri is Some
        &&& self.access_token is Some
    }
}

/// Text without the white space at its two ends.
pub uninterp spec fn trimmed(text: Seq<char>) -> Seq<char>;

/// Text with every letter in lower case.
pub uninterp spec fn lowercased(text: Seq<char>) -> Seq<char>;

/// `str::trim`: the text without leading and trailing white space.
#[verifier::external_body]
fn trim_text(text: &str) -> (inner: &str)
    ensures
        inner@ == trimmed(text@),
{
    text.trim()
}

/// `str::to_lowercase`: the text in lower case.
#[verifier::external_body]
fn lowercase_text(text: &str) -> (lower: String)
    ensures
        lower@ == lowercased(text@),
{
    text.to_lowercase()
}

/// Whether a normalized answer says yes: it is `y` or `yes`.
pub fn is_yes(normalized: &str) -> (yes: bool)
    ensures
        yes == (normalized@ == "y"@ || normalized@ == "yes"@),
{
    let answer = String::from_str(normalized);
    answer == String::from_str("y") || answer == String::from_str("yes")
}

/// Whether a line that the user typed says yes, in any case and with any
/// white space around it.
pub fn answers_yes(line: &str) -> (yes: bool)
    ensures
        yes == (lowercased(trimmed(line@)) == "y"@ || lowercased(trimmed(line@)) == "yes"@),
{
    let normalized = lowercase_text(trim_text(line));
    is_yes(normalized.as_str())
}

/// The configuration for credentials that the user typed: each line without
/// the white space around it, the default redirect URI, and no token.
pub fn config_from_answers(client_id_line: &str, client_secret_line: &str) -> (config: Config)
    ensures
        config.ticktick.client_id@ == trimmed(client_id_line@),
        config.ticktick.client_secret@ == trimmed(client_secret_line@),
        config.ticktick.redirect_uri@ == default_redirect_uri_text(),
        config.ticktick.access_token is None,
{
    Config {
        ticktick: TickTickConfig {
            client_id: String::from_str(trim_text(client_id_line)),
            client_secret: String::from_str(trim_text(client_secret_line)),
            redirect_uri: default_redirect_uri(),
            access_token: None,
        },
    }
}

/// Decides how the run begins. The environment wins where all four of its
/// variables are set; else the configuration, with or without a token; else
/// the user is asked.
pub fn plan_start(env: EnvCredentials, config: Option<&Config>) -> (start: Start)
    ensures
        match start {
            Start::FromEnvironment(client) => {
                &&& env.complete()
                &&& client.id() == env.client_id->0@
                &&& client.secret() == env.client_secret->0@
                &&& client.redirect() == env.redirect_uri->0@
                &&& client.access_token == env.access_token
            },
            Start::VerifyStored(client) => {
                &&& !env.complete()
                &&& config matches Some(c)
                &&& c.ticktick.access_token matches Some(token)
                &&& client.id() == c.ticktick.client_id@
                &&& client.secret() == c.ticktick.client_secret@
                &&& client.redirect() == c.ticktick.redirect_uri@
                &&& client.access_token == Some(token)
            },
            Start::Authorize(client) => {
                &&& !env.complete()
                &&& config matches Some(c)
                &&& c.ticktick.access_token is None
                &&& client.id() == c.ticktick.client_id@
                &&& client.secret() == c.ticktick.client_secret@
                &&& client.redirect() == c.ticktick.redirect_uri@
                &&& client.access_token is None
            },
            Start::Interactive => !env.complete() && config is None,
        },
{
    match (env.client_id, env.client_secret, env.redirect_uri, env.access_token) {
        (Some(id), Some(secret), Some(uri), Some(token)) => {
            return Start::FromEnvironment(TickTickClient::new(id, secret, uri).with_token(token));
        },
        _ => {},
    }
    match config {
        Some(c) => {
            let client = TickTickClient::from_config(c);
            if c.ticktick.access_token.is_some() {
                Start::VerifyStored(client)
            } else {
                Start::Authorize(client)
            }
        },
        None => Start::Interactive,
    }
}

/// Decides what follows the trial of a stored token on the project list. A
/// token that was refused, for whatever reason, is given up, and a client
/// with the same credentials and no token is to be authorized afresh: the
/// refusal itself is not an error of the run. Nothing of the caller's is
/// changed.
pub fn after_trial(client: TickTickClient, trial: &Result<Vec<Project>, ClientError>) -> (next:
    AfterTrial)
    ensures
        match trial {
            Ok(_) => next == AfterTrial::Proceed(client),
            Err(_) => next == AfterTrial::Reauthorize(
                TickTickClient {
                    access_token: None,
                    client_id: client.client_id,
                    client_secret: client.client_secret,
                    redirect_uri: client.redirect_uri,
                },
            ),
        },
{
    match trial {
        Ok(_) => AfterTrial::Proceed(client),
        Err(_) => AfterTrial::Reauthorize(
            TickTickClient {
                access_token: None,
                client_id: client.client_id,
                client_secret: client.client_secret,
                redirect_uri: client.redirect_uri,
            },
        ),
    }
}

} // verus!
