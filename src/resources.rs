//! Records that the account API hands back.

use vstd::prelude::*;

verus! {

/// The credential a successful login issues.
#[derive(Debug, Clone)]
pub struct TalkAuthCredential {
    pub access_token: String,
    pub refresh_token: String,
}

/// What a successful login returns beside its status.
#[derive(Debug, Clone)]
pub struct LoginData {
    pub user_id: i64,
    pub country_iso: String,
    pub country_code: String,
    pub account_id: i64,
    pub server_time: i64,
    pub reset_user_data: bool,
    pub story_url: Option<String>,
    pub credential: TalkAuthCredential,
    pub token_type: String,
    pub auto_login_account_id: String,
    pub display_account_id: String,
    pub main_device_agent_name: String,
    pub main_device_app_version: String,
}

} // verus!
