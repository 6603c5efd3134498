use talk_api_client::auth::{AccountLoginForm, AuthDeviceConfig, LoginMethod, TokenLoginForm};
use talk_api_client::form::{
    build_auth_form, build_login_form, build_passcode_form, build_register_form,
};

fn pairs(fields: &[(String, String)]) -> Vec<(&str, &str)> {
    fields.iter().map(|(n, v)| (n.as_str(), v.as_str())).collect()
}

#[test]
fn auth_form_omits_unset_model() {
    let device = AuthDeviceConfig::new_const_pc("PC", "UUID==");
    let form = build_auth_form("a@b.com", "pw", &device);
    assert_eq!(
        pairs(&form),
        vec![
            ("email", "a@b.com"),
            ("password", "pw"),
            ("device_uuid", "UUID=="),
            ("device_name", "PC"),
        ]
    );
    assert!(form.iter().all(|(n, _)| n != "model_name"));
}

#[test]
fn auth_form_keeps_set_model() {
    let device = AuthDeviceConfig::new(
        "Phone".to_string(),
        Some("SM-G950".to_string()),
        "UUID==".to_string(),
    );
    let form = build_auth_form("a@b.com", "pw", &device);
    assert_eq!(form.len(), 5);
    assert_eq!(pairs(&form)[4], ("model_name", "SM-G950"));
}

#[test]
fn account_login_form_fields() {
    let device = AuthDeviceConfig::new_pc("PC".to_string(), "UUID==".to_string());
    let method = LoginMethod::Account(AccountLoginForm::new_const("x@y.com", "p"));
    let form = build_login_form(&method, false, &device);
    assert_eq!(
        pairs(&form),
        vec![
            ("email", "x@y.com"),
            ("password", "p"),
            ("device_uuid", "UUID=="),
            ("device_name", "PC"),
            ("forced", "false"),
        ]
    );
}

#[test]
fn token_login_form_fields() {
    let device = AuthDeviceConfig::new_const_pc("PC", "UUID==");
    let method = LoginMethod::Token(TokenLoginForm::new_const("x@y.com", "tok", true));
    let form = build_login_form(&method, true, &device);
    assert_eq!(
        pairs(&form),
        vec![
            ("email", "x@y.com"),
            ("password", "tok"),
            ("device_uuid", "UUID=="),
            ("device_name", "PC"),
            ("auto_login", "true"),
            ("autowithlock", "true"),
            ("forced", "true"),
        ]
    );
}

#[test]
fn passcode_and_register_forms() {
    let device = AuthDeviceConfig::new_const_pc("PC", "UUID==");
    let account = AccountLoginForm::new_const("x@y.com", "p");
    let passcode = build_passcode_form(&account, &device);
    assert_eq!(passcode.len(), 4);
    let register = build_register_form("1234", &account, &device, false);
    assert_eq!(
        pairs(&register)[4..].to_vec(),
        vec![("passcode", "1234"), ("permanent", "false")]
    );
}
