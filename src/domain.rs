//! The plain records that the transport and storage collaborators exchange
//! with the runtime: users, namespaces, workflow metadata, credentials and
//! configuration.

use vstd::prelude::*;

verus! {

/// Why a request could not be authenticated.
#[derive(Debug, Clone, Copy, PartialEq, Eq, Structural)]
pub enum AuthError {
    WrongCredentials,
    MissingCredentials,
    TokenCreation,
    InvalidToken,
}

/// The HTTP status that reports an authentication error.
pub open spec fn auth_status(e: AuthError) -> u16 {
    match e {
        AuthError::WrongCredentials => 401,
        AuthError::MissingCredentials => 400,
        AuthError::TokenCreation => 500,
        AuthError::InvalidToken => 400,
    }
}

impl AuthError {
    /// The HTTP status this error is answered with.
    pub fn status_code(&self) -> (r: u16)
        ensures
            r == auth_status(*self),
    {
        match self {
            AuthError::WrongCredentials => 401,
            AuthError::MissingCredentials => 400,
            AuthError::TokenCreation => 500,
            AuthError::InvalidToken => 400,
        }
    }

    /// The message this error is answered with.
    pub fn message(&self) -> (r: &'static str)
        ensures
            *self == AuthError::WrongCredentials ==> r@ == "Wrong credentials"@,
            *self == AuthError::MissingCredentials ==> r@ == "Missing credentials"@,
            *self == AuthError::TokenCreation ==> r@ == "Token creation error"@,
            *self == AuthError::InvalidToken ==> r@ == "Invalid token"@,
    {
        match self {
            AuthError::WrongCredentials => "Wrong credentials",
            AuthError::MissingCredentials => "Missing credentials",
            AuthError::TokenCreation => "Token creation error",
            AuthError::InvalidToken => "Invalid token",
        }
    }
}

/// An issued access token.
#[derive(Debug, Clone, PartialEq, Eq)]
pub struct AuthBody {
    pub access_token: String,
    pub token_type: String,
}

impl AuthBody {
    /// A bearer token.
    pub fn new(access_token: String) -> (r: Self)
        ensures
            r.access_token == access_token,
            r.token_type@ == "Bearer"@,
    {
        AuthBody { access_token, token_type: String::from_str("Bearer") }
    }
}

/// A member's role in a namespace.
#[derive(Debug, Clone, Copy, PartialEq, Eq, Structural)]
pub enum NamespaceRole {
    Owner,
    Admin,
    Editor,
    Viewer,
}

/// A request to create a namespace.
#[derive(Debug, Clone, PartialEq, Eq)]
pub struct NewNamespace {
    pub slug: String,
}

/// A request to sign up.
#[derive(Debug, Clone, PartialEq, Eq)]
pub struct NewUser {
    pub email: String,
}

/// The answer to a sign-up: the token the user signs in with.
#[derive(Debug, Clone, PartialEq, Eq)]
pub struct NewUserResponse {
    pub password: String,
}

/// A request to sign in.
#[derive(Debug, Clone, PartialEq, Eq)]
pub struct UserAuth {
    pub email: String,
    pub password: String,
}

/// The id of a workflow run.
#[derive(Debug, Clone, Copy, PartialEq, Eq, Structural)]
pub struct RunId(pub u64);

/// One recorded step of a workflow run.
pub struct Step<'a, T> {
    pub name: &'a str,
    pub value: T,
}

/// The recorded steps of a workflow run.
pub struct History<'a, T> {
    pub steps: Vec<Step<'a, T>>,
}

/// The metadata of a workflow to register.
#[derive(Debug, Clone, PartialEq, Eq)]
pub struct NewWorkflowParams {
    pub key: String,
    pub display_name: String,
    pub description: Option<String>,
}

/// The process configuration.
#[derive(Debug, Clone, PartialEq, Eq)]
pub struct AppConfig {
    pub database_url: String,
    pub workflows_default_path: String,
    pub port: u16,
    pub log_level: String,
    pub environment: String,
    pub space_key: String,
    pub space_secret: String,
    pub bucket_name: String,
    pub space_endpoint: String,
}

} // verus!
