//! Client configuration, device identity and login credentials.

use crate::agent::TalkApiAgent;
use vstd::prelude::*;
use vstd::string::StringExecFns;

verus! {

/// What identifies the physical or virtual device to the server.
#[derive(Debug, Clone)]
pub struct AuthDeviceConfig {
    pub name: String,
    pub model: Option<String>,
    /// Stable across calls from one installation.
    pub uuid_string_base64: String,
}

impl AuthDeviceConfig {
    pub fn new(name: String, model: Option<String>, uuid: String) -> (r: Self)
        ensures
            r.name == name,
            r.model == model,
            r.uuid_string_base64 == uuid,
    {
        Self { name, uuid_string_base64: uuid, model }
    }

    /// A device without a model string, as the desktop client sends it.
    pub fn new_pc(name: String, uuid: String) -> (r: Self)
        ensures
            r.name == name,
            r.model is None,
            r.uuid_string_base64 == uuid,
    {
        Self { name, uuid_string_base64: uuid, model: None }
    }

    pub fn new_const_pc(name: &str, uuid: &str) -> (r: Self)
        ensures
            r.name@ == name@,
            r.model is None,
            r.uuid_string_base64@ == uuid@,
    {
        Self {
            name: String::from_str(name),
            uuid_string_base64: String::from_str(uuid),
            model: None,
        }
    }
}

/// Everything a client sends about itself; fixed for the client's lifetime.
#[derive(Debug, Clone)]
pub struct AuthClientConfig {
    pub device: AuthDeviceConfig,
    pub language: String,
    pub version: String,
    pub agent: TalkApiAgent,
}

impl AuthClientConfig {
    pub fn new_const(
        device: AuthDeviceConfig,
        language: &str,
        version: &str,
        agent: TalkApiAgent,
    ) -> (r: Self)
        ensures
            r.device == device,
            r.language@ == language@,
            r.version@ == version@,
            r.agent == agent,
    {
        Self {
            device,
            language: String::from_str(language),
            version: String::from_str(version),
            agent,
        }
    }
}

/// Email and password.
#[derive(Debug, Clone)]
pub struct AccountLoginForm {
    pub email: String,
    pub password: String,
}

impl AccountLoginForm {
    pub fn new_const(email: &str, password: &str) -> (r: Self)
        ensures
            r.email@ == email@,
            r.password@ == password@,
    {
        Self { email: String::from_str(email), password: String::from_str(password) }
    }
}

/// Email and an automatic login token.
#[derive(Debug, Clone)]
pub struct TokenLoginForm {
    pub email: String,
    pub auto_login_token: String,
    pub locked: bool,
}

impl TokenLoginForm {
    pub fn new_const(email: &str, auto_login_token: &str, locked: bool) -> (r: Self)
        ensures
            r.email@ == email@,
            r.auto_login_token@ == auto_login_token@,
            r.locked == locked,
    {
        Self {
            email: String::from_str(email),
            auto_login_token: String::from_str(auto_login_token),
            locked,
        }
    }
}

/// The credential a login call presents.
#[derive(Debug, Clone)]
pub enum LoginMethod {
    Account(AccountLoginForm),
    Token(TokenLoginForm),
}

impl LoginMethod {
    /// The email of either credential.
    pub open spec fn spec_email(&self) -> Seq<char> {
        match self {
            LoginMethod::Account(f) => f.email@,
            LoginMethod::Token(f) => f.email@,
        }
    }

    /// The password, or the token that stands in its place.
    pub open spec fn spec_secret(&self) -> Seq<char> {
        match self {
            LoginMethod::Account(f) => f.password@,
            LoginMethod::Token(f) => f.auto_login_token@,
        }
    }
}

} // verus!
