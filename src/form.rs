//! Form bodies of the account operations, as ordered name/value pairs.

use crate::auth::{AccountLoginForm, AuthDeviceConfig, LoginMethod};
use vstd::prelude::*;
use vstd::string::StringExecFns;

verus! {

/// One name/value pair of a form or of a header set.
pub type Field = (String, String);

/// The text of a field list.
pub open spec fn fields_view(fields: Seq<Field>) -> Seq<(Seq<char>, Seq<char>)> {
    fields.map_values(|f: Field| (f.0@, f.1@))
}

/// Whether some field carries `name`.
pub open spec fn has_field(fields: Seq<(Seq<char>, Seq<char>)>, name: Seq<char>) -> bool {
    exists|i: int| 0 <= i < fields.len() && #[trigger] fields[i].0 == name
}

/// How a flag is written in a form body.
pub open spec fn bool_text(b: bool) -> Seq<char> {
    if b {
        "true"@
    } else {
        "false"@
    }
}

/// The fields every account operation sends: `email`, `password`,
/// `device_uuid`, `device_name`, and `model_name` only where the device has a
/// model.
pub open spec fn spec_auth_form(
    email: Seq<char>,
    password: Seq<char>,
    device: AuthDeviceConfig,
) -> Seq<(Seq<char>, Seq<char>)> {
    let base = seq![
        ("email"@, email),
        ("password"@, password),
        ("device_uuid"@, device.uuid_string_base64@),
        ("device_name"@, device.name@),
    ];
    match device.model {
        Some(m) => base.push(("model_name"@, m@)),
        None => base,
    }
}

/// The login form: the shared fields, then `auto_login` and `autowithlock`
/// for a token, then `forced`.
pub open spec fn spec_login_form(
    method: LoginMethod,
    forced: bool,
    device: AuthDeviceConfig,
) -> Seq<(Seq<char>, Seq<char>)> {
    let auth = spec_auth_form(method.spec_email(), method.spec_secret(), device);
    match method {
        LoginMethod::Account(_) => auth.push(("forced"@, bool_text(forced))),
        LoginMethod::Token(t) => auth.push(("auto_login"@, bool_text(true))).push(
            ("autowithlock"@, bool_text(t.locked)),
        ).push(("forced"@, bool_text(forced))),
    }
}

/// The passcode request form: the shared fields alone.
pub open spec fn spec_passcode_form(
    form: AccountLoginForm,
    device: AuthDeviceConfig,
) -> Seq<(Seq<char>, Seq<char>)> {
    spec_auth_form(form.email@, form.password@, device)
}

/// The device registration form: the shared fields, `passcode`, `permanent`.
pub open spec fn spec_register_form(
    passcode: Seq<char>,
    form: AccountLoginForm,
    device: AuthDeviceConfig,
    permanent: bool,
) -> Seq<(Seq<char>, Seq<char>)> {
    spec_auth_form(form.email@, form.password@, device).push(("passcode"@, passcode)).push(
        ("permanent"@, bool_text(permanent)),
    )
}

/// Appends one field.
pub(crate) fn push_field(fields: &mut Vec<Field>, name: &str, value: &str)
    ensures
        fields_view(final(fields)@) == fields_view(old(fields)@).push((name@, value@)),
{
    fields.push((String::from_str(name), String::from_str(value)));
    assert(fields_view(final(fields)@) =~= fields_view(old(fields)@).push((name@, value@)));
}

fn bool_str(b: bool) -> (r: &'static str)
    ensures
        r@ == bool_text(b),
{
    if b {
        "true"
    } else {
        "false"
    }
}

/// Appends one flag.
fn push_flag(fields: &mut Vec<Field>, name: &str, value: bool)
    ensures
        fields_view(final(fields)@) == fields_view(old(fields)@).push((name@, bool_text(value))),
{
    push_field(fields, name, bool_str(value));
}

/// The fields shared by every account operation.
pub fn build_auth_form(email: &str, password: &str, device: &AuthDeviceConfig) -> (r: Vec<Field>)
    ensures
        fields_view(r@) == spec_auth_form(email@, password@, *device),
        has_field(fields_view(r@), "model_name"@) <==> device.model is Some,
{
    let mut fields: Vec<Field> = Vec::new();
    push_field(&mut fields, "email", email);
    push_field(&mut fields, "password", password);
    push_field(&mut fields, "device_uuid", device.uuid_string_base64.as_str());
    push_field(&mut fields, "device_name", device.name.as_str());
    match &device.model {
        Some(m) => push_field(&mut fields, "model_name", m.as_str()),
        None => {},
    }
    assert(fields_view(fields@) =~= spec_auth_form(email@, password@, *device));
    proof {
        lemma_model_name_only_if_set(email@, password@, *device);
    }
    fields
}

proof fn lemma_model_name_only_if_set(
    email: Seq<char>,
    password: Seq<char>,
    device: AuthDeviceConfig,
)
    ensures
        has_field(spec_auth_form(email, password, device), "model_name"@) <==> device.model is Some,
{
    reveal_strlit("email");
    reveal_strlit("password");
    reveal_strlit("device_uuid");
    reveal_strlit("device_name");
    reveal_strlit("model_name");
    let f = spec_auth_form(email, password, device);
    if device.model is Some {
        assert(f[4].0 == "model_name"@);
    } else {
        assert forall|i: int| 0 <= i < f.len() implies #[trigger] f[i].0 != "model_name"@ by {
            assert(f[i].0.len() != "model_name"@.len() || f[i].0[0] != 'm');
        }
    }
}

/// The login form for `method`.
pub fn build_login_form(method: &LoginMethod, forced: bool, device: &AuthDeviceConfig) -> (r: Vec<
    Field,
>)
    ensures
        fields_view(r@) == spec_login_form(*method, forced, *device),
{
    match method {
        LoginMethod::Account(f) => {
            let mut fields = build_auth_form(f.email.as_str(), f.password.as_str(), device);
            push_flag(&mut fields, "forced", forced);
            fields
        },
        LoginMethod::Token(t) => {
            let mut fields = build_auth_form(t.email.as_str(), t.auto_login_token.as_str(), device);
            push_flag(&mut fields, "auto_login", true);
            push_flag(&mut fields, "autowithlock", t.locked);
            push_flag(&mut fields, "forced", forced);
            fields
        },
    }
}

/// The passcode request form.
pub fn build_passcode_form(form: &AccountLoginForm, device: &AuthDeviceConfig) -> (r: Vec<Field>)
    ensures
        fields_view(r@) == spec_passcode_form(*form, *device),
{
    build_auth_form(form.email.as_str(), form.password.as_str(), device)
}

/// The device registration form.
pub fn build_register_form(
    passcode: &str,
    form: &AccountLoginForm,
    device: &AuthDeviceConfig,
    permanent: bool,
) -> (r: Vec<Field>)
    ensures
        fields_view(r@) == spec_register_form(passcode@, *form, *device, permanent),
{
    let mut fields = build_auth_form(form.email.as_str(), form.password.as_str(), device);
    push_field(&mut fields, "passcode", passcode);
    push_flag(&mut fields, "permanent", permanent);
    fields
}

} // verus!
