//! Credentials as the configuration collaborator supplies them.

use vstd::prelude::*;
use vstd::string::*;

verus! {

/// The credentials of one application registered with the service.
#[derive(Clone, Debug, PartialEq, Eq)]
pub struct TickTickConfig {
    pub client_id: String,
    pub client_secret: String,
    pub redirect_uri: String,
    pub access_token: Option<String>,
}

/// The configuration file's content: one table of credentials.
#[derive(Clone, Debug, PartialEq, Eq)]
pub struct Config {
    pub ticktick: TickTickConfig,
}

/// The text of the redirect URI that is used where none is configured.
pub open spec fn default_redirect_uri_text() -> Seq<char> {
    "http://localhost:8080/callback"@
}

/// The redirect URI that is used where the configuration names none.
pub fn default_redirect_uri() -> (uri: String)
    ensures
        uri@ == default_redirect_uri_text(),
{
    String::from_str("http://localhost:8080/callback")
}

} // verus!
