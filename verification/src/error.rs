//! What can go wrong between the authorization and the last task fetched.

use vstd::prelude::*;
use vstd::string::*;

verus! {

/// A failure of the authorization or of a call to the service.
#[derive(Clone, Debug, PartialEq, Eq)]
pub enum ClientError {
    /// A request that needs the bearer token was asked for before any was set.
    Unauthenticated,
    /// The user or the provider refused: the callback carried this error.
    AuthDenied(String),
    /// The listener went away before any callback arrived.
    AuthCancelled,
    /// No callback arrived in time.
    AuthTimeout,
    /// The token endpoint refused the code: the body of its answer.
    ExchangeFailed(String),
    /// The project list was refused: the body of the answer.
    ProjectsFailed(String),
    /// The data of one project was refused: the body of the answer.
    ProjectDataFailed(String),
    /// An answer was accepted but its body is not what was asked for: the
    /// decoder's reason.
    Decode(String),
    /// A request could not be sent, or its answer not read: the reason.
    Transport(String),
    /// The token was obtained but could not be saved: the reason.
    SaveFailed(String),
    /// The credentials are too long to be written as a Basic header on this
    /// machine.
    CredentialsTooLong,
}

impl ClientError {
    /// The error as one line of readable text.
    pub open spec fn message_text(&self) -> Seq<char> {
        match self {
            ClientError::Unauthenticated =>
                "No access token available. Please authenticate first."@,
            ClientError::AuthDenied(reason) => "Authorization error: "@ + reason@,
            ClientError::AuthCancelled => "Failed to receive authorization code"@,
            ClientError::AuthTimeout => "Timed out waiting for the authorization callback"@,
            ClientError::ExchangeFailed(body) => "Failed to exchange code for token: "@ + body@,
            ClientError::ProjectsFailed(body) => "Failed to get projects: "@ + body@,
            ClientError::ProjectDataFailed(body) => "Failed to get project data: "@ + body@,
            ClientError::Decode(reason) => reason@,
            ClientError::Transport(reason) => reason@,
            ClientError::SaveFailed(reason) => "Failed to save the access token: "@ + reason@,
            ClientError::CredentialsTooLong => "The client credentials are too long to encode"@,
        }
    }

    /// The error as one line of readable text.
    pub fn message(&self) -> (text: String)
        ensures
            text@ == self.message_text(),
    {
        match self {
            ClientError::Unauthenticated => String::from_str(
                "No access token available. Please authenticate first.",
            ),
            ClientError::AuthDenied(reason) => String::from_str("Authorization error: ").concat(
                reason.as_str(),
            ),
            ClientError::AuthCancelled => String::from_str("Failed to receive authorization code"),
            ClientError::AuthTimeout => String::from_str(
                "Timed out waiting for the authorization callback",
            ),
            ClientError::ExchangeFailed(body) => String::from_str(
                "Failed to exchange code for token: ",
            ).concat(body.as_str()),
            ClientError::ProjectsFailed(body) => String::from_str("Failed to get projects: ").concat(
                body.as_str(),
            ),
            ClientError::ProjectDataFailed(body) => String::from_str(
                "Failed to get project data: ",
            ).concat(body.as_str()),
            ClientError::Decode(reason) => reason.clone(),
            ClientError::Transport(reason) => reason.clone(),
            ClientError::SaveFailed(reason) => String::from_str(
                "Failed to save the access token: ",
            ).concat(reason.as_str()),
            ClientError::CredentialsTooLong => String::from_str(
                "The client credentials are too long to encode",
            ),
        }
    }
}

/// The message of a refused code exchange ends with the body that the token
/// endpoint sent, unchanged.
pub proof fn refused_exchange_quotes_the_body(body: String)
    ensures
        ClientError::ExchangeFailed(body).message_text().len() >= body@.len(),
        ClientError::ExchangeFailed(body).message_text().subrange(
            ClientError::ExchangeFailed(body).message_text().len() - body@.len(),
            ClientError::ExchangeFailed(body).message_text().len() as int,
        ) == body@,
{
    let text = ClientError::ExchangeFailed(body).message_text();
    assert(text.subrange(text.len() - body@.len(), text.len() as int) =~= body@);
}

} // verus!
