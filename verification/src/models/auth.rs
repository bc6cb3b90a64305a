//! How a user authenticates against a server.
use vstd::prelude::*;

verus! {

/// The kind of credential a profile uses.
#[derive(Debug, Clone, Copy, PartialEq, Eq, Structural)]
pub enum AuthKind {
    Password,
    ApiKey,
}

/// A credential as entered by the user.
#[derive(Debug, Clone, PartialEq, Eq)]
pub enum AuthInput {
    Password { username: String, password: String },
    ApiKey { api_key: String },
}

impl AuthInput {
    /// The kind of this credential.
    pub fn auth_kind(&self) -> (k: AuthKind)
        ensures
            k == (match self {
                AuthInput::Password { .. } => AuthKind::Password,
                AuthInput::ApiKey { .. } => AuthKind::ApiKey,
            }),
    {
        match self {
            AuthInput::Password { .. } => AuthKind::Password,
            AuthInput::ApiKey { .. } => AuthKind::ApiKey,
        }
    }

    /// The secret part of this credential: the password or the API key.
    pub fn secret(&self) -> (s: &str)
        ensures
            s@ == (match self {
                AuthInput::Password { password, .. } => password@,
                AuthInput::ApiKey { api_key } => api_key@,
            }),
    {
        match self {
            AuthInput::Password { password, .. } => password.as_str(),
            AuthInput::ApiKey { api_key } => api_key.as_str(),
        }
    }

    /// The credential rebuilt from its stored kind, user name and secret.
    pub fn restored(auth_kind: AuthKind, username: String, secret: String) -> (r: Self)
        ensures
            r == (match auth_kind {
                AuthKind::Password => AuthInput::Password { username, password: secret },
                AuthKind::ApiKey => AuthInput::ApiKey { api_key: secret },
            }),
    {
        match auth_kind {
            AuthKind::Password => AuthInput::Password { username, password: secret },
            AuthKind::ApiKey => AuthInput::ApiKey { api_key: secret },
        }
    }
}

} // verus!
