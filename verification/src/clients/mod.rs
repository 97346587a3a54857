//! The client and its configuration: how long to wait, how to identify and
//! how to authenticate, and the resource clients that share these options.

use vstd::prelude::*;
use crate::clients::organizations::OrganizationsClient;
use crate::clients::repositories::RepositoriesClient;
use crate::text::push_text;

pub mod organizations;
pub mod repositories;
pub mod root;

pub use crate::clients::root::{RootClientEx, RootDocument};

verus! {

/// The seconds to wait for an answer when the configuration names none.
pub const DEFAULT_TIMEOUT_IN_SECS: u64 = 10;

/// The root of the API.
pub open spec fn root_url() -> Seq<char> {
    "https://api.github.com"@
}

/// The root of the API.
pub fn get_root_url() -> (url: &'static str)
    ensures
        url@ == root_url(),
{
    "https://api.github.com"
}

/// How requests are authenticated.
pub enum Credentials {
    /// No authentication.
    Anonymous,
    /// A personal access OAuth token, sent under the `token` scheme.
    Token(String),
    /// A bearer token, sent under the `Bearer` scheme.
    Bearer(String),
    /// A user name and a password, sent under the `Basic` scheme.
    Basic { username: String, password: String },
}

/// Mathematical value of [`Credentials`].
pub enum CredentialsView {
    Anonymous,
    Token(Seq<char>),
    Bearer(Seq<char>),
    Basic { username: Seq<char>, password: Seq<char> },
}

impl View for Credentials {
    type V = CredentialsView;

    open spec fn view(&self) -> CredentialsView {
        match self {
            Credentials::Anonymous => CredentialsView::Anonymous,
            Credentials::Token(token) => CredentialsView::Token(token@),
            Credentials::Bearer(token) => CredentialsView::Bearer(token@),
            Credentials::Basic { username, password } => CredentialsView::Basic {
                username: username@,
                password: password@,
            },
        }
    }
}

impl Clone for Credentials {
    fn clone(&self) -> (copy: Credentials)
        ensures
            copy@ == self@,
    {
        match self {
            Credentials::Anonymous => Credentials::Anonymous,
            Credentials::Token(token) => Credentials::Token(token.clone()),
            Credentials::Bearer(token) => Credentials::Bearer(token.clone()),
            Credentials::Basic { username, password } => Credentials::Basic {
                username: username.clone(),
                password: password.clone(),
            },
        }
    }
}

/// What every request of a client is made with.
pub struct GitHubClientOptions {
    timeout_in_secs: Option<u64>,
    user_agent_string: String,
    credentials: Credentials,
}

/// Mathematical value of [`GitHubClientOptions`].
pub struct Options {
    pub timeout_in_secs: Option<u64>,
    pub user_agent: Seq<char>,
    pub credentials: CredentialsView,
}

impl Options {
    /// The options of a builder that nothing was set on.
    pub open spec fn initial() -> Options {
        Options {
            timeout_in_secs: None,
            user_agent: Seq::empty(),
            credentials: CredentialsView::Anonymous,
        }
    }

    /// The seconds to wait for an answer.
    pub open spec fn timeout(self) -> u64 {
        match self.timeout_in_secs {
            Some(seconds) => seconds,
            None => DEFAULT_TIMEOUT_IN_SECS,
        }
    }

    /// The value of the `Authorization` header that the library writes: the
    /// token after its scheme. Anonymous requests carry none, and basic
    /// credentials are encoded by the transport.
    pub open spec fn authorization(self) -> Option<Seq<char>> {
        match self.credentials {
            CredentialsView::Token(token) => Some("token "@ + token),
            CredentialsView::Bearer(token) => Some("Bearer "@ + token),
            _ => None,
        }
    }
}

impl View for GitHubClientOptions {
    type V = Options;

    closed spec fn view(&self) -> Options {
        Options {
            timeout_in_secs: self.timeout_in_secs,
            user_agent: self.user_agent_string@,
            credentials: self.credentials@,
        }
    }
}

impl Clone for GitHubClientOptions {
    fn clone(&self) -> (copy: GitHubClientOptions)
        ensures
            copy@ == self@,
    {
        GitHubClientOptions {
            timeout_in_secs: self.timeout_in_secs,
            user_agent_string: self.user_agent_string.clone(),
            credentials: self.credentials.clone(),
        }
    }
}

impl GitHubClientOptions {
    /// The seconds to wait for an answer: those configured, or 10.
    pub fn timeout_in_secs(&self) -> (seconds: u64)
        ensures
            seconds == self@.timeout(),
    {
        match self.timeout_in_secs {
            Some(seconds) => seconds,
            None => DEFAULT_TIMEOUT_IN_SECS,
        }
    }

    /// The value of the `User-Agent` header.
    pub fn user_agent(&self) -> (agent: &str)
        ensures
            agent@ == self@.user_agent,
    {
        self.user_agent_string.as_str()
    }

    /// How requests are authenticated.
    pub fn credentials(&self) -> (credentials: &Credentials)
        ensures
            credentials@ == self@.credentials,
    {
        &self.credentials
    }

    /// The value of the `Authorization` header for token credentials.
    pub fn authorization(&self) -> (header: Option<String>)
        ensures
            match self@.authorization() {
                Some(value) => header is Some && header->0@ == value,
                None => header is None,
            },
    {
        match &self.credentials {
            Credentials::Token(token) => {
                let mut value = String::new();
                push_text(&mut value, "token ");
                push_text(&mut value, token.as_str());
                assert(value@ =~= "token "@ + token@);
                Some(value)
            },
            Credentials::Bearer(token) => {
                let mut value = String::new();
                push_text(&mut value, "Bearer ");
                push_text(&mut value, token.as_str());
                assert(value@ =~= "Bearer "@ + token@);
                Some(value)
            },
            _ => None,
        }
    }
}

/// Configures a [`GitHubClient`].
pub struct GitHubClientBuilder {
    options: GitHubClientOptions,
}

impl View for GitHubClientBuilder {
    type V = Options;

    closed spec fn view(&self) -> Options {
        self.options@
    }
}

impl GitHubClientBuilder {
    /// A builder with nothing set: the default timeout, an empty user
    /// agent, no authentication.
    pub fn new() -> (builder: GitHubClientBuilder)
        ensures
            builder@ == Options::initial(),
    {
        GitHubClientBuilder {
            options: GitHubClientOptions {
                timeout_in_secs: None,
                user_agent_string: String::new(),
                credentials: Credentials::Anonymous,
            },
        }
    }

    /// Sets the timeout for HTTP requests, in seconds.
    pub fn with_timeout(&mut self, timeout_in_seconds: u64) -> (builder: &mut GitHubClientBuilder)
        ensures
            builder@ == (Options { timeout_in_secs: Some(timeout_in_seconds), ..old(self)@ }),
            *final(self) == *final(builder),
    {
        self.options.timeout_in_secs = Some(timeout_in_seconds);
        self
    }

    /// Sets the user agent by which every request identifies the caller.
    pub fn for_user_agent(&mut self, user_agent_string: &str) -> (builder: &mut GitHubClientBuilder)
        ensures
            builder@ == (Options { user_agent: user_agent_string@, ..old(self)@ }),
            *final(self) == *final(builder),
    {
        self.options.user_agent_string = user_agent_string.to_owned();
        self
    }

    /// Authenticates with a personal access OAuth token.
    pub fn with_oauth_token(&mut self, oauth_token: &str) -> (builder: &mut GitHubClientBuilder)
        ensures
            builder@ == (Options {
                credentials: CredentialsView::Token(oauth_token@),
                ..old(self)@
            }),
            *final(self) == *final(builder),
    {
        self.options.credentials = Credentials::Token(oauth_token.to_owned());
        self
    }

    /// Authenticates with a bearer token.
    pub fn with_bearer_token(&mut self, token: &str) -> (builder: &mut GitHubClientBuilder)
        ensures
            builder@ == (Options { credentials: CredentialsView::Bearer(token@), ..old(self)@ }),
            *final(self) == *final(builder),
    {
        self.options.credentials = Credentials::Bearer(token.to_owned());
        self
    }

    /// Authenticates with a user name and a password.
    pub fn with_basic_auth(&mut self, username: &str, password: &str) -> (builder:
        &mut GitHubClientBuilder)
        ensures
            builder@ == (Options {
                credentials: CredentialsView::Basic { username: username@, password: password@ },
                ..old(self)@
            }),
            *final(self) == *final(builder),
    {
        self.options.credentials = Credentials::Basic {
            username: username.to_owned(),
            password: password.to_owned(),
        };
        self
    }

    /// Builds the client: each resource client gets a copy of the options.
    pub fn build(&self) -> (client: GitHubClient)
        ensures
            client.organizations.options@ == self@,
            client.repositories.options@ == self@,
    {
        GitHubClient {
            repositories: RepositoriesClient { options: self.options.clone() },
            organizations: OrganizationsClient { options: self.options.clone() },
        }
    }
}

/// A client of the API: one resource client for each kind of resource.
pub struct GitHubClient {
    pub organizations: OrganizationsClient,
    pub repositories: RepositoriesClient,
}

} // verus!
