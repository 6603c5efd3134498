//! Requests of the account API: target URL, signed headers and form body.

use crate::auth::{AccountLoginForm, AuthClientConfig, LoginMethod};
use crate::digest::{hex_encode, hex_lower};
use crate::form::{
    build_login_form, build_passcode_form, build_register_form, fields_view, push_field,
    spec_login_form, spec_passcode_form, spec_register_form, Field,
};
use crate::url::{base_url_text, url_host_of, url_join_of, url_parse_of, ApiURL};
use crate::xvc::XVCHasher;
use vstd::prelude::*;
use vstd::string::StringExecFns;

verus! {

/// A request ready to be sent as a form-encoded POST.
#[derive(Debug, Clone)]
pub struct AuthRequest {
    pub url: String,
    pub headers: Vec<Field>,
    pub form: Vec<Field>,
}

/// The `A` header: `{agent}/{version}/{language}`.
pub open spec fn spec_a_header(config: AuthClientConfig) -> Seq<char> {
    config.agent.spec_agent() + "/"@ + config.version@ + "/"@ + config.language@
}

/// The user agent that a configuration announces.
pub open spec fn spec_config_user_agent(config: AuthClientConfig) -> Seq<char> {
    config.agent.spec_user_agent(config.version@, config.language@)
}

/// The headers of every request: `User-Agent`, `A`, `Accept`,
/// `Accept-Language`, `X-VC`, and `Host` where the base URL has a host.
pub open spec fn spec_auth_headers(
    config: AuthClientConfig,
    base_url: Seq<char>,
    xvc: Seq<char>,
) -> Seq<(Seq<char>, Seq<char>)> {
    let headers = seq![
        ("User-Agent"@, spec_config_user_agent(config)),
        ("A"@, spec_a_header(config)),
        ("Accept"@, "*/*"@),
        ("Accept-Language"@, config.language@),
        ("X-VC"@, xvc),
    ];
    match url_host_of(base_url) {
        Some(host) => headers.push(("Host"@, host)),
        None => headers,
    }
}

/// The path of an endpoint under the agent's prefix.
pub open spec fn spec_endpoint_path(config: AuthClientConfig, end_point: Seq<char>) -> Seq<char> {
    config.agent.spec_agent() + "/"@ + end_point
}

/// Builds the requests of the account API for one device and platform.
#[derive(Debug, Clone)]
pub struct TalkAuthClient<Xvc> {
    pub config: AuthClientConfig,
    url: ApiURL,
    xvc_hasher: Xvc,
}

impl<Xvc: XVCHasher> TalkAuthClient<Xvc> {
    /// The serialized base URL.
    pub closed spec fn spec_base_url(&self) -> Seq<char> {
        self.url.spec_url()
    }

    /// The configuration.
    pub closed spec fn spec_config(&self) -> AuthClientConfig {
        self.config
    }

    /// The hasher that signs the requests.
    pub closed spec fn spec_hasher(&self) -> Xvc {
        self.xvc_hasher
    }

    /// The `X-VC` header for a user agent and an email: the first 8 bytes of
    /// the full digest, in lowercase hex.
    pub open spec fn spec_xvc_header(&self, user_agent: Seq<char>, email: Seq<char>) -> Seq<char> {
        hex_lower(
            self.spec_hasher().spec_full_xvc_hash(
                self.spec_config().device.uuid_string_base64@,
                user_agent,
                email,
            ).subrange(0, 8),
        )
    }

    /// The headers of a request made for `email`.
    pub open spec fn spec_headers(&self, email: Seq<char>) -> Seq<(Seq<char>, Seq<char>)> {
        spec_auth_headers(
            self.spec_config(),
            self.spec_base_url(),
            self.spec_xvc_header(spec_config_user_agent(self.spec_config()), email),
        )
    }

    /// The URL of an endpoint, where it resolves.
    pub open spec fn spec_endpoint_url(&self, end_point: Seq<char>) -> Option<Seq<char>> {
        url_join_of(self.spec_base_url(), spec_endpoint_path(self.spec_config(), end_point))
    }

    /// Whether `r` is the request to `end_point` for `email` with `form`, or
    /// nothing where the endpoint URL does not resolve.
    pub open spec fn is_request(
        &self,
        r: Option<AuthRequest>,
        end_point: Seq<char>,
        email: Seq<char>,
        form: Seq<(Seq<char>, Seq<char>)>,
    ) -> bool {
        match r {
            Some(req) => {
                &&& self.spec_endpoint_url(end_point) == Some(req.url@)
                &&& fields_view(req.headers@) == self.spec_headers(email)
                &&& fields_view(req.form@) == form
            },
            None => self.spec_endpoint_url(end_point) is None,
        }
    }

    /// A client of the service's own host; nothing only where its URL does
    /// not parse.
    pub fn new(config: AuthClientConfig, xvc_hasher: Xvc) -> (r: Option<Self>)
        ensures
            r is None <==> url_parse_of(base_url_text("https"@, "katalk.kakao.com"@)) is None,
            r matches Some(c) ==> {
                &&& c.spec_config() == config
                &&& c.spec_hasher() == xvc_hasher
                &&& Some(c.spec_base_url()) == url_parse_of(
                    base_url_text("https"@, "katalk.kakao.com"@),
                )
            },
    {
        match ApiURL::new("https", "katalk.kakao.com") {
            Some(url) => Some(Self::new_with_url(config, url, xvc_hasher)),
            None => None,
        }
    }

    pub fn new_with_url(config: AuthClientConfig, url: ApiURL, xvc_hasher: Xvc) -> (r: Self)
        ensures
            r.spec_config() == config,
            r.spec_base_url() == url.spec_url(),
            r.spec_hasher() == xvc_hasher,
    {
        Self { config, url, xvc_hasher }
    }

    /// The `X-VC` header value.
    pub fn hash_auth_xvc(&self, user_agent: &str, email: &str) -> (r: String)
        ensures
            r@ == self.spec_xvc_header(user_agent@, email@),
    {
        let full_hash = self.xvc_hasher.full_xvc_hash(
            self.config.device.uuid_string_base64.as_str(),
            user_agent,
            email,
        );
        let mut head: Vec<u8> = Vec::new();
        let mut i: usize = 0;
        while i < 8
            invariant
                i <= 8,
                full_hash@.len() == 64,
                head@ == full_hash@.subrange(0, i as int),
            decreases 8 - i,
        {
            head.push(full_hash[i]);
            i = i + 1;
            assert(head@ =~= full_hash@.subrange(0, i as int));
        }
        hex_encode(head.as_slice())
    }

    /// The headers of a request made for `email`.
    pub fn build_auth_headers(&self, email: &str) -> (r: Vec<Field>)
        ensures
            fields_view(r@) == self.spec_headers(email@),
    {
        let config = &self.config;
        let user_agent = config.agent.get_user_agent(
            config.version.as_str(),
            config.language.as_str(),
        );
        let mut a = String::from_str(config.agent.agent());
        a.append("/");
        a.append(config.version.as_str());
        a.append("/");
        a.append(config.language.as_str());
        assert(a@ =~= spec_a_header(self.spec_config()));
        let xvc = self.hash_auth_xvc(user_agent.as_str(), email);
        let mut headers: Vec<Field> = Vec::new();
        push_field(&mut headers, "User-Agent", user_agent.as_str());
        push_field(&mut headers, "A", a.as_str());
        push_field(&mut headers, "Accept", "*/*");
        push_field(&mut headers, "Accept-Language", config.language.as_str());
        push_field(&mut headers, "X-VC", xvc.as_str());
        match self.url.host_str() {
            Some(host) => push_field(&mut headers, "Host", host.as_str()),
            None => {},
        }
        assert(fields_view(headers@) =~= self.spec_headers(email@));
        headers
    }

    /// The URL of an endpoint under the agent's prefix.
    pub fn build_url(&self, end_point: &str) -> (r: Option<String>)
        ensures
            match r {
                Some(u) => self.spec_endpoint_url(end_point@) == Some(u@),
                None => self.spec_endpoint_url(end_point@) is None,
            },
    {
        let mut path = String::from_str(self.config.agent.agent());
        path.append("/");
        path.append(end_point);
        assert(path@ =~= spec_endpoint_path(self.spec_config(), end_point@));
        let r = self.url.join(path.as_str());
        r
    }

    fn build_auth_request(&self, end_point: &str, email: &str, form: Vec<Field>) -> (r: Option<
        AuthRequest,
    >)
        ensures
            self.is_request(r, end_point@, email@, fields_view(form@)),
    {
        match self.build_url(end_point) {
            Some(url) => Some(AuthRequest { url, headers: self.build_auth_headers(email), form }),
            None => None,
        }
    }

    /// The login request: `{agent}/account/login.json`.
    pub fn login_request(&self, method: &LoginMethod, forced: bool) -> (r: Option<AuthRequest>)
        ensures
            self.is_request(
                r,
                "account/login.json"@,
                method.spec_email(),
                spec_login_form(*method, forced, self.spec_config().device),
            ),
    {
        let form = build_login_form(method, forced, &self.config.device);
        let email = match method {
            LoginMethod::Account(f) => f.email.as_str(),
            LoginMethod::Token(t) => t.email.as_str(),
        };
        self.build_auth_request("account/login.json", email, form)
    }

    /// The passcode request: `{agent}/account/request_passcode.json`.
    pub fn request_passcode_request(&self, account_form: &AccountLoginForm) -> (r: Option<
        AuthRequest,
    >)
        ensures
            self.is_request(
                r,
                "account/request_passcode.json"@,
                account_form.email@,
                spec_passcode_form(*account_form, self.spec_config().device),
            ),
    {
        let form = build_passcode_form(account_form, &self.config.device);
        self.build_auth_request("account/request_passcode.json", account_form.email.as_str(), form)
    }

    /// The device registration request: `{agent}/account/register_device.json`.
    pub fn register_device_request(
        &self,
        passcode: &str,
        account_form: &AccountLoginForm,
        permanent: bool,
    ) -> (r: Option<AuthRequest>)
        ensures
            self.is_request(
                r,
                "account/register_device.json"@,
                account_form.email@,
                spec_register_form(passcode@, *account_form, self.spec_config().device, permanent),
            ),
    {
        let form = build_register_form(passcode, account_form, &self.config.device, permanent);
        self.build_auth_request("account/register_device.json", account_form.email.as_str(), form)
    }
}

} // verus!
