use talk_api_client::agent::TalkApiAgent;
use talk_api_client::auth::{AccountLoginForm, AuthClientConfig, AuthDeviceConfig, LoginMethod};
use talk_api_client::client::TalkAuthClient;
use talk_api_client::url::ApiURL;
use talk_api_client::xvc::{AndroidSubXVCHasher, Win32XVCHasher, XVCHasher};

fn config() -> AuthClientConfig {
    AuthClientConfig::new_const(
        AuthDeviceConfig::new_const_pc("PC", "UUID=="),
        "ko",
        "9.0.0",
        TalkApiAgent::Win32("10.0".to_string()),
    )
}

fn to_hex(bytes: &[u8]) -> String {
    bytes.iter().map(|b| format!("{:02x}", b)).collect()
}

#[test]
fn user_agent_text() {
    let agent = TalkApiAgent::Win32("10.0".to_string());
    assert_eq!(agent.agent(), "win32");
    assert_eq!(agent.get_user_agent("9.0.0", "ko"), "KT/9.0.0 Wd/10.0 ko");
    let android = TalkApiAgent::Android("11".to_string());
    assert_eq!(android.agent(), "android");
    assert_eq!(android.get_user_agent("9.0.0", "en"), "KT/9.0.0 An/11 en");
}

#[test]
fn xvc_header_is_hex_of_first_eight_bytes() {
    let hasher = Win32XVCHasher::new_const("S1", "S2");
    let client = TalkAuthClient::new(config(), hasher.clone()).unwrap();
    let header = client.hash_auth_xvc("KT/9.0.0 Wd/10.0 ko", "x@y.com");
    let full = hasher.full_xvc_hash("UUID==", "KT/9.0.0 Wd/10.0 ko", "x@y.com");
    assert_eq!(header, to_hex(&full[..8]));
    assert_eq!(header, "db5e94fe9b159e81");
    assert_eq!(header.len(), 16);
}

#[test]
fn xvc_header_with_android_sub_hasher() {
    let hasher = AndroidSubXVCHasher::new_const("S1", "S2", "S3");
    let client = TalkAuthClient::new(config(), hasher).unwrap();
    assert_eq!(client.hash_auth_xvc("KT/9.0.0 Wd/10.0 ko", "x@y.com"), "b6a0513872bdaa09");
}

#[test]
fn headers_of_a_request() {
    let client = TalkAuthClient::new(config(), Win32XVCHasher::new_const("S1", "S2")).unwrap();
    let headers = client.build_auth_headers("x@y.com");
    let got: Vec<(&str, &str)> = headers.iter().map(|(n, v)| (n.as_str(), v.as_str())).collect();
    assert_eq!(
        got,
        vec![
            ("User-Agent", "KT/9.0.0 Wd/10.0 ko"),
            ("A", "win32/9.0.0/ko"),
            ("Accept", "*/*"),
            ("Accept-Language", "ko"),
            ("X-VC", "db5e94fe9b159e81"),
            ("Host", "katalk.kakao.com"),
        ]
    );
}

#[test]
fn login_request_end_to_end() {
    let client = TalkAuthClient::new(config(), Win32XVCHasher::new_const("S1", "S2")).unwrap();
    let method = LoginMethod::Account(AccountLoginForm::new_const("x@y.com", "p"));
    let req = client.login_request(&method, false).unwrap();
    assert!(req.url.ends_with("/account/login.json"));
    assert_eq!(req.url, "https://katalk.kakao.com/win32/account/login.json");
    let names: Vec<&str> = req.form.iter().map(|(n, _)| n.as_str()).collect();
    assert_eq!(names, vec!["email", "password", "device_uuid", "device_name", "forced"]);
    assert!(req.headers.iter().any(|(n, v)| n == "X-VC" && v == "db5e94fe9b159e81"));
}

#[test]
fn passcode_and_register_urls() {
    let url = ApiURL::new("https", "example.com").unwrap();
    assert_eq!(url.as_str(), "https://example.com/");
    let client = TalkAuthClient::new_with_url(config(), url, Win32XVCHasher::new_const("S1", "S2"));
    let account = AccountLoginForm::new_const("x@y.com", "p");
    let req = client.request_passcode_request(&account).unwrap();
    assert_eq!(req.url, "https://example.com/win32/account/request_passcode.json");
    assert_eq!(req.form.len(), 4);
    let req = client.register_device_request("1234", &account, true).unwrap();
    assert_eq!(req.url, "https://example.com/win32/account/register_device.json");
    assert_eq!(req.form[5], ("permanent".to_string(), "true".to_string()));
    assert_eq!(client.build_url("x").unwrap(), "https://example.com/win32/x");
}

#[test]
fn malformed_base_url_is_refused() {
    assert!(ApiURL::new("https", "").is_none());
    assert!(ApiURL::new("", "example.com").is_none());
}
