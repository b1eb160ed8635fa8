//! The client of the service: the requests it sends and what it makes of the
//! answers. Nothing here touches the network: a request is a value to send,
//! and an answer is a value that came back.

use crate::config::Config;
use crate::encoding::{
    base64_encode, base64_fits, base64_text, encode_pairs, pairs_view, query_text,
};
use crate::error::ClientError;
use crate::http::{is_success, status_is_success, Answer, HttpRequest, Method};
use crate::date::current_local_date;
use crate::date::LocalDate;
use crate::sweep::{
    gather_todays_tasks, is_task_due_on, swept, task_is_due, ProjectFetch, TodaysTasks,
};
use crate::types::{Project, ProjectData, Task, TokenResponse};
use vstd::prelude::*;
use vstd::string::*;

verus! {

/// The credentials of the application and, once authorized, the bearer
/// token. The client is a plain record: nothing in the library changes one,
/// and a client with a token is made from one without by `with_token`.
#[derive(Clone, Debug, PartialEq, Eq)]
pub struct TickTickClient {
    pub access_token: Option<String>,
    pub client_id: String,
    pub client_secret: String,
    pub redirect_uri: String,
}

/// The address of the authorization page with its query: the client, the
/// scope `tasks:read`, the caller's state, the redirect URI, and the response
/// type `code`, in this order.
pub open spec fn authorization_url_text(
    client_id: Seq<char>,
    redirect_uri: Seq<char>,
    state: Seq<char>,
) -> Seq<char> {
    "https://ticktick.com/oauth/authorize?"@ + query_text(
        seq![
            ("client_id"@, client_id),
            ("scope"@, "tasks:read"@),
            ("state"@, state),
            ("redirect_uri"@, redirect_uri),
            ("response_type"@, "code"@),
        ],
    )
}

/// The form body of the code exchange.
pub open spec fn token_form_text(
    client_id: Seq<char>,
    client_secret: Seq<char>,
    redirect_uri: Seq<char>,
    code: Seq<char>,
) -> Seq<char> {
    query_text(
        seq![
            ("client_id"@, client_id),
            ("client_secret"@, client_secret),
            ("code"@, code),
            ("grant_type"@, "authorization_code"@),
            ("scope"@, "tasks:read"@),
            ("redirect_uri"@, redirect_uri),
        ],
    )
}

/// The text that HTTP Basic authentication encodes: `id:secret`.
pub open spec fn basic_credentials_text(client_id: Seq<char>, client_secret: Seq<char>) -> Seq<
    char,
> {
    client_id + seq![':'] + client_secret
}

/// The address of one project's data.
pub open spec fn project_data_url_text(project_id: Seq<char>) -> Seq<char> {
    "https://api.ticktick.com/open/v1/project/"@ + project_id + "/data"@
}

/// What an answer amounts to: the decoded value where the status is one of
/// success and the body decoded; the decoder's reason where it did not; and
/// the body, wrapped by `refused`, for any other status.
pub open spec fn reading<T>(
    answer: Answer<T>,
    refused: spec_fn(String) -> ClientError,
) -> Result<T, ClientError> {
    if status_is_success(answer.status) {
        match answer.decoded {
            Ok(value) => Ok(value),
            Err(reason) => Err(ClientError::Decode(reason)),
        }
    } else {
        Err(refused(answer.body))
    }
}

/// The request for the data of one project, and the project it is for.
#[derive(Clone, Debug, PartialEq, Eq)]
pub struct DataRequest {
    pub project: Project,
    pub request: HttpRequest,
}

/// The `Authorization` value of HTTP Basic authentication for credentials
/// that are encoded already.
pub fn basic_header_for(encoded: &str) -> (header: String)
    ensures
        header@ == "Basic "@ + encoded@,
{
    String::from_str("Basic ").concat(encoded)
}

/// The `Authorization` value that carries a bearer token.
pub fn bearer_header_for(token: &str) -> (header: String)
    ensures
        header@ == "Bearer "@ + token@,
{
    String::from_str("Bearer ").concat(token)
}

impl TickTickClient {
    /// The application's identifier.
    pub open spec fn id(&self) -> Seq<char> {
        self.client_id@
    }

    /// The application's secret.
    pub open spec fn secret(&self) -> Seq<char> {
        self.client_secret@
    }

    /// The address that the provider redirects the browser to.
    pub open spec fn redirect(&self) -> Seq<char> {
        self.redirect_uri@
    }

    /// Whether the credentials can be written as a Basic header on this
    /// machine.
    pub open spec fn credentials_fit(&self) -> bool {
        base64_fits(basic_credentials_text(self.id(), self.secret()))
    }

    /// Whether `request` is the one that exchanges `code` for a token: a POST
    /// to the token endpoint with the credentials as Basic authentication
    /// and the form as its body.
    pub open spec fn is_token_request(&self, request: HttpRequest, code: Seq<char>) -> bool {
        &&& request.method == Method::Post
        &&& request.url@ == "https://ticktick.com/oauth/token"@
        &&& request.authorization@ == "Basic "@ + base64_text(
            basic_credentials_text(self.id(), self.secret()),
        )
        &&& request.content_type matches Some(t) && t@ == "application/x-www-form-urlencoded"@
        &&& request.body matches Some(b) && b@ == token_form_text(
            self.id(),
            self.secret(),
            self.redirect(),
            code,
        )
    }

    /// Whether `request` is the one for the data of a project, sent with
    /// the bearer token `token`.
    pub open spec fn is_data_request(
        request: HttpRequest,
        project_id: Seq<char>,
        token: Seq<char>,
    ) -> bool {
        &&& request.method == Method::Get
        &&& request.url@ == project_data_url_text(project_id)
        &&& request.authorization@ == "Bearer "@ + token
        &&& request.content_type is None
        &&& request.body is None
    }

    /// A client without a token.
    pub fn new(client_id: String, client_secret: String, redirect_uri: String) -> (client: Self)
        ensures
            client.id() == client_id@,
            client.secret() == client_secret@,
            client.redirect() == redirect_uri@,
            client.access_token is None,
    {
        TickTickClient { access_token: None, client_id, client_secret, redirect_uri }
    }

    /// A client for the credentials of a configuration, with the token that
    /// the configuration holds, if it holds one.
    pub fn from_config(config: &Config) -> (client: Self)
        ensures
            client.id() == config.ticktick.client_id@,
            client.secret() == config.ticktick.client_secret@,
            client.redirect() == config.ticktick.redirect_uri@,
            client.access_token == config.ticktick.access_token,
    {
        let access_token = match &config.ticktick.access_token {
            Some(token) => Some(token.clone()),
            None => None,
        };
        TickTickClient {
            access_token,
            client_id: config.ticktick.client_id.clone(),
            client_secret: config.ticktick.client_secret.clone(),
            redirect_uri: config.ticktick.redirect_uri.clone(),
        }
    }

    /// The same client with `token` as its bearer token.
    pub fn with_token(self, token: String) -> (client: Self)
        ensures
            client.id() == self.id(),
            client.secret() == self.secret(),
            client.redirect() == self.redirect(),
            client.access_token == Some(token),
    {
        TickTickClient {
            access_token: Some(token),
            client_id: self.client_id,
            client_secret: self.client_secret,
            redirect_uri: self.redirect_uri,
        }
    }

    /// The address to open in a browser to ask the user for authorization.
    /// Every value is form-encoded; the same arguments give the same address.
    pub fn get_authorization_url(&self, state: &str) -> (url: String)
        ensures
            url@ == authorization_url_text(self.id(), self.redirect(), state@),
    {
        let pairs = vec![
            ("client_id", self.client_id.as_str()),
            ("scope", "tasks:read"),
            ("state", state),
            ("redirect_uri", self.redirect_uri.as_str()),
            ("response_type", "code"),
        ];
        let query = encode_pairs(&pairs);
        assert(pairs_view(pairs@) =~= seq![
            ("client_id"@, self.id()),
            ("scope"@, "tasks:read"@),
            ("state"@, state@),
            ("redirect_uri"@, self.redirect()),
            ("response_type"@, "code"@),
        ]);
        String::from_str("https://ticktick.com/oauth/authorize?").concat(query.as_str())
    }

    /// The text `id:secret`.
    fn basic_credentials(&self) -> (credentials: String)
        ensures
            credentials@ == basic_credentials_text(self.id(), self.secret()),
    {
        let mut credentials = self.client_id.clone();
        credentials.append(":");
        proof {
            reveal_strlit(":");
            assert(":"@ =~= seq![':']);
        }
        credentials.append(self.client_secret.as_str());
        credentials
    }

    /// Whether the credentials can be written as a Basic header on this
    /// machine.
    pub fn can_encode_credentials(&self) -> (fits: bool)
        ensures
            fits == self.credentials_fit(),
    {
        let credentials = self.basic_credentials();
        let bytes = credentials.as_str().as_bytes().len();
        bytes / 3 <= (usize::MAX - 4) / 4
    }

    /// The `Authorization` value of the code exchange: `Basic` and the base64
    /// form of `id:secret`.
    pub fn basic_auth_header(&self) -> (header: String)
        requires
            self.credentials_fit(),
        ensures
            header@ == "Basic "@ + base64_text(basic_credentials_text(self.id(), self.secret())),
    {
        let credentials = self.basic_credentials();
        let encoded = base64_encode(credentials.as_str());
        basic_header_for(encoded.as_str())
    }

    /// The request that exchanges an authorization code for a token: a POST
    /// of a form, authenticated with the application's credentials.
    pub fn token_request(&self, code: &str) -> (request: HttpRequest)
        requires
            self.credentials_fit(),
        ensures
            self.is_token_request(request, code@),
    {
        let pairs = vec![
            ("client_id", self.client_id.as_str()),
            ("client_secret", self.client_secret.as_str()),
            ("code", code),
            ("grant_type", "authorization_code"),
            ("scope", "tasks:read"),
            ("redirect_uri", self.redirect_uri.as_str()),
        ];
        let body = encode_pairs(&pairs);
        assert(pairs_view(pairs@) =~= seq![
            ("client_id"@, self.id()),
            ("client_secret"@, self.secret()),
            ("code"@, code@),
            ("grant_type"@, "authorization_code"@),
            ("scope"@, "tasks:read"@),
            ("redirect_uri"@, self.redirect()),
        ]);
        HttpRequest {
            method: Method::Post,
            url: String::from_str("https://ticktick.com/oauth/token"),
            authorization: self.basic_auth_header(),
            content_type: Some(String::from_str("application/x-www-form-urlencoded")),
            body: Some(body),
        }
    }

    /// The request that exchanges an authorization code for a token, or the
    /// reason why it cannot be written: the credentials are too long.
    pub fn try_token_request(&self, code: &str) -> (request: Result<HttpRequest, ClientError>)
        ensures
            match request {
                Ok(r) => self.credentials_fit() && self.is_token_request(r, code@),
                Err(e) => !self.credentials_fit() && e == ClientError::CredentialsTooLong,
            },
    {
        if self.can_encode_credentials() {
            Ok(self.token_request(code))
        } else {
            Err(ClientError::CredentialsTooLong)
        }
    }

    /// The `Authorization` value of a call to the service: `Bearer` and the
    /// token. Fails where no token is set.
    pub fn get_auth_header(&self) -> (header: Result<String, ClientError>)
        ensures
            match self.access_token {
                Some(token) => header matches Ok(h) && h@ == "Bearer "@ + token@,
                None => header == Err::<String, ClientError>(ClientError::Unauthenticated),
            },
    {
        match &self.access_token {
            Some(token) => Ok(bearer_header_for(token.as_str())),
            None => Err(ClientError::Unauthenticated),
        }
    }

    /// Takes the token endpoint's answer to the code exchange and hands the
    /// token out, or says why there is none. Neither the client nor any
    /// configuration is changed: the caller keeps the token, saves it, and
    /// makes the client that carries it.
    pub fn exchange_code_for_token(&self, answer: Answer<TokenResponse>) -> (token: Result<
        TokenResponse,
        ClientError,
    >)
        ensures
            token == reading(answer, |body: String| ClientError::ExchangeFailed(body)),
    {
        if is_success(answer.status) {
            match answer.decoded {
                Ok(token) => Ok(token),
                Err(reason) => Err(ClientError::Decode(reason)),
            }
        } else {
            Err(ClientError::ExchangeFailed(answer.body))
        }
    }

    /// The request for the list of projects. Fails, before anything is sent,
    /// where no token is set.
    pub fn projects_request(&self) -> (request: Result<HttpRequest, ClientError>)
        ensures
            match self.access_token {
                Some(token) => {
                    &&& request matches Ok(r)
                    &&& r.method == Method::Get
                    &&& r.url@ == "https://api.ticktick.com/open/v1/project"@
                    &&& r.authorization@ == "Bearer "@ + token@
                    &&& r.content_type is None
                    &&& r.body is None
                },
                None => request == Err::<HttpRequest, ClientError>(ClientError::Unauthenticated),
            },
    {
        match self.get_auth_header() {
            Ok(authorization) => Ok(
                HttpRequest {
                    method: Method::Get,
                    url: String::from_str("https://api.ticktick.com/open/v1/project"),
                    authorization,
                    content_type: None,
                    body: None,
                },
            ),
            Err(e) => Err(e),
        }
    }

    /// Takes the answer to the request for the list of projects.
    pub fn get_projects(&self, answer: Answer<Vec<Project>>) -> (projects: Result<
        Vec<Project>,
        ClientError,
    >)
        ensures
            projects == if self.access_token is None {
                Err(ClientError::Unauthenticated)
            } else {
                reading(answer, |body: String| ClientError::ProjectsFailed(body))
            },
    {
        if self.access_token.is_none() {
            return Err(ClientError::Unauthenticated);
        }
        if is_success(answer.status) {
            match answer.decoded {
                Ok(projects) => Ok(projects),
                Err(reason) => Err(ClientError::Decode(reason)),
            }
        } else {
            Err(ClientError::ProjectsFailed(answer.body))
        }
    }

    /// The request for the data of one project. Fails, before anything is
    /// sent, where no token is set.
    pub fn project_data_request(&self, project_id: &str) -> (request: Result<
        HttpRequest,
        ClientError,
    >)
        ensures
            match self.access_token {
                Some(token) => request matches Ok(r) && Self::is_data_request(
                    r,
                    project_id@,
                    token@,
                ),
                None => request == Err::<HttpRequest, ClientError>(ClientError::Unauthenticated),
            },
    {
        match self.get_auth_header() {
            Ok(authorization) => {
                let url = String::from_str("https://api.ticktick.com/open/v1/project/").concat(
                    project_id,
                ).concat("/data");
                Ok(
                    HttpRequest {
                        method: Method::Get,
                        url,
                        authorization,
                        content_type: None,
                        body: None,
                    },
                )
            },
            Err(e) => Err(e),
        }
    }

    /// Takes the answer to the request for the data of one project.
    pub fn get_project_data(&self, answer: Answer<ProjectData>) -> (data: Result<
        ProjectData,
        ClientError,
    >)
        ensures
            data == if self.access_token is None {
                Err(ClientError::Unauthenticated)
            } else {
                reading(answer, |body: String| ClientError::ProjectDataFailed(body))
            },
    {
        if self.access_token.is_none() {
            return Err(ClientError::Unauthenticated);
        }
        if is_success(answer.status) {
            match answer.decoded {
                Ok(data) => Ok(data),
                Err(reason) => Err(ClientError::Decode(reason)),
            }
        } else {
            Err(ClientError::ProjectDataFailed(answer.body))
        }
    }

    /// Decides what follows the request for the project list. Where the
    /// list failed, for whatever reason, nothing is fetched and the run ends
    /// with that error; so it does where no token is set. Else the data of
    /// every project is asked for, in the order of the list.
    pub fn plan_fetches(&self, listed: Result<Vec<Project>, ClientError>) -> (plan: Result<
        Vec<DataRequest>,
        ClientError,
    >)
        ensures
            match listed {
                Err(e) => plan == Err::<Vec<DataRequest>, ClientError>(e),
                Ok(projects) => match self.access_token {
                    None => plan == Err::<Vec<DataRequest>, ClientError>(
                        ClientError::Unauthenticated,
                    ),
                    Some(token) => {
                        &&& plan matches Ok(requests)
                        &&& requests@.len() == projects@.len()
                        &&& forall|i: int|
                            0 <= i < projects@.len() ==> (#[trigger] requests@[i]).project
                                == projects@[i] && Self::is_data_request(
                                requests@[i].request,
                                projects@[i].id@,
                                token@,
                            )
                    },
                },
            },
    {
        let projects = match listed {
            Ok(projects) => projects,
            Err(e) => {
                return Err(e);
            },
        };
        if self.access_token.is_none() {
            return Err(ClientError::Unauthenticated);
        }
        let ghost all = projects@;
        let total = projects.len();
        let mut requests: Vec<DataRequest> = Vec::new();
        let mut i: usize = 0;
        for project in it: projects
            invariant
                i == it.index(),
                it.seq() == all,
                all.len() == total,
                self.access_token is Some,
                requests@.len() == i,
                forall|j: int|
                    0 <= j < i ==> (#[trigger] requests@[j]).project == all[j]
                        && Self::is_data_request(
                        requests@[j].request,
                        all[j].id@,
                        self.access_token->0@,
                    ),
        {
            match self.project_data_request(project.id.as_str()) {
                Ok(request) => {
                    requests.push(DataRequest { project, request });
                },
                Err(e) => {
                    return Err(e);
                },
            }
            i += 1;
        }
        Ok(requests)
    }

    /// Whether the due date or the start date of a task falls on the current
    /// local date. A task without a date that parses is never due.
    pub fn is_task_due_today(&self, task: &Task) -> (due_today: bool)
        ensures
            exists|today: LocalDate|
                today.valid() && due_today == #[trigger] task_is_due(*task, today),
    {
        is_task_due_on(task, current_local_date())
    }

    /// Gathers today's tasks from what was fetched for each project: the open
    /// tasks that are due on the current local date of every project whose
    /// data came back, and a failure record for every project whose data did
    /// not. No failure ends the sweep.
    pub fn get_todays_tasks(&self, fetches: Vec<ProjectFetch>) -> (gathered: TodaysTasks)
        ensures
            exists|today: LocalDate| today.valid() && #[trigger] swept(fetches@, today, gathered),
    {
        gather_todays_tasks(fetches, current_local_date())
    }
}

} // verus!
