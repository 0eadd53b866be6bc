use crate::notifications::types::copy_text;
use crate::text::{begins_with, chars_of, find_char, first_index, has_prefix, is_first_index,
    lemma_first_index_unique, range_equals, text_of};
use vstd::prelude::*;
use vstd::string::*;
use vstd::utf8::{decode_utf8, valid_utf8};

verus! {

/// The error of the `base64` crate's decoders. Nothing is read from it.
#[verifier::external_type_specification]
#[verifier::external_body]
pub struct ExDecodeError(base64::DecodeError);

/// The bytes that `input` stands for in standard base64 with padding, as
/// the `base64` crate's `STANDARD` engine decodes it; nothing where the
/// engine refuses `input`.
pub uninterp spec fn base64_standard_decode(input: Seq<char>) -> Option<Seq<u8>>;

/// Calls `Engine::decode` of the `base64` crate on its `STANDARD` engine.
/// The outcome is a function of the input's text alone: the decoded bytes,
/// or an error for text that is not padded standard base64.
#[verifier::external_body]
fn decode_base64(input: &str) -> (decoded: Result<Vec<u8>, base64::DecodeError>)
    ensures
        match decoded {
            Ok(bytes) => base64_standard_decode(input@) == Some(bytes@),
            Err(_) => base64_standard_decode(input@) is None,
        },
{
    base64::Engine::decode(&base64::engine::general_purpose::STANDARD, input)
}

/// The credentials that the server asks for, where it asks for any.
#[derive(Debug, Clone)]
pub struct AuthConfig {
    pub username: Option<String>,
    pub password: Option<String>,
}

/// Mathematical content of an [`AuthConfig`].
pub struct AuthConfigView {
    pub username: Option<Seq<char>>,
    pub password: Option<Seq<char>>,
}

impl AuthConfigView {
    /// Credentials are asked for exactly where both a user name and a
    /// password are configured.
    pub open spec fn is_auth_required(self) -> bool {
        self.username is Some && self.password is Some
    }
}

impl View for AuthConfig {
    type V = AuthConfigView;

    open spec fn view(&self) -> AuthConfigView {
        AuthConfigView {
            username: self.username.deep_view(),
            password: self.password.deep_view(),
        }
    }
}

/// The `Authorization` header of a request.
#[derive(Debug, Clone, PartialEq, Eq)]
pub enum AuthHeader {
    /// The request has no such header.
    Missing,
    /// The header's value is not text.
    Unreadable,
    /// The header's value.
    Text(String),
}

/// Mathematical content of an [`AuthHeader`].
pub enum AuthHeaderView {
    Missing,
    Unreadable,
    Text(Seq<char>),
}

impl View for AuthHeader {
    type V = AuthHeaderView;

    open spec fn view(&self) -> AuthHeaderView {
        match self {
            AuthHeader::Missing => AuthHeaderView::Missing,
            AuthHeader::Unreadable => AuthHeaderView::Unreadable,
            AuthHeader::Text(value) => AuthHeaderView::Text(value@),
        }
    }
}

/// What the guard reads of a request.
#[derive(Debug, Clone, PartialEq, Eq)]
pub struct AuthRequest {
    /// The address of the client as the server resolved it, if it could.
    pub remote_addr: Option<String>,
    pub authorization: AuthHeader,
}

/// Mathematical content of an [`AuthRequest`].
pub struct AuthRequestView {
    pub remote_addr: Option<Seq<char>>,
    pub authorization: AuthHeaderView,
}

impl View for AuthRequest {
    type V = AuthRequestView;

    open spec fn view(&self) -> AuthRequestView {
        AuthRequestView {
            remote_addr: self.remote_addr.deep_view(),
            authorization: self.authorization@,
        }
    }
}

/// Why a request was turned away.
#[derive(Debug, Clone, Copy, PartialEq, Eq, Structural)]
pub enum AuthError {
    /// No `Authorization` header.
    MissingHeader,
    /// The header is not text, or what follows the scheme is not base64 of
    /// a UTF-8 text.
    InvalidHeader,
    /// The header does not begin with `Basic `.
    InvalidScheme,
    /// The decoded credentials hold no colon.
    InvalidFormat,
    /// User name or password differ from the configured ones.
    InvalidCredentials,
}

impl AuthError {
    /// The text that goes with the refusal.
    pub open spec fn spec_message(self) -> Seq<char> {
        match self {
            AuthError::MissingHeader => "Missing authorization header"@,
            AuthError::InvalidHeader => "Invalid authorization header"@,
            AuthError::InvalidScheme => "Invalid authorization type"@,
            AuthError::InvalidFormat => "Invalid credentials format"@,
            AuthError::InvalidCredentials => "Invalid credentials"@,
        }
    }

    /// The text that goes with the refusal.
    pub fn message(self) -> (text: String)
        ensures
            text@ == self.spec_message(),
    {
        let text = match self {
            AuthError::MissingHeader => "Missing authorization header",
            AuthError::InvalidHeader => "Invalid authorization header",
            AuthError::InvalidScheme => "Invalid authorization type",
            AuthError::InvalidFormat => "Invalid credentials format",
            AuthError::InvalidCredentials => "Invalid credentials",
        };
        String::from_str(text)
    }
}

/// The text is a port number: one or more digits.
pub open spec fn is_port(text: Seq<char>) -> bool {
    &&& text.len() > 0
    &&& forall|i: int| 0 <= i < text.len() ==> '0' <= #[trigger] text[i] && text[i] <= '9'
}

/// The address names the host `host`: it is `host` itself, or `host`, a
/// colon and a port number.
pub open spec fn names_host(addr: Seq<char>, host: Seq<char>) -> bool {
    &&& has_prefix(addr, host)
    &&& addr.len() == host.len() || (addr[host.len() as int] == ':' && is_port(
        addr.skip(host.len() as int + 1),
    ))
}

/// The address is one of this machine: its host is `127.0.0.1`, `::1` or
/// `localhost`. A port may follow the host; the IPv6 address stands in
/// square brackets where one does. A text that only begins with one of the
/// three names is no address of this machine.
pub open spec fn is_loopback(addr: Option<Seq<char>>) -> bool {
    addr matches Some(a) && (names_host(a, "127.0.0.1"@) || names_host(a, "localhost"@) || a
        == "::1"@ || names_host(a, "[::1]"@))
}

/// The verdict on decoded credentials: they must be UTF-8 text with a
/// colon, and what stands before the first colon must be the user name and
/// what stands after it the password.
pub open spec fn credentials_outcome(config: AuthConfigView, decoded: Option<Seq<u8>>) -> Result<
    bool,
    AuthError,
> {
    match decoded {
        None => Err(AuthError::InvalidHeader),
        Some(bytes) => if !valid_utf8(bytes) {
            Err(AuthError::InvalidHeader)
        } else {
            let text = decode_utf8(bytes);
            match first_index(text, ':') {
                None => Err(AuthError::InvalidFormat),
                Some(colon) => if Some(text.take(colon)) == config.username && Some(
                    text.skip(colon + 1),
                ) == config.password {
                    Ok(true)
                } else {
                    Err(AuthError::InvalidCredentials)
                },
            }
        },
    }
}

/// The verdict on an `Authorization` header where credentials are asked
/// for.
pub open spec fn header_outcome(config: AuthConfigView, header: AuthHeaderView) -> Result<
    bool,
    AuthError,
> {
    match header {
        AuthHeaderView::Missing => Err(AuthError::MissingHeader),
        AuthHeaderView::Unreadable => Err(AuthError::InvalidHeader),
        AuthHeaderView::Text(value) => if !has_prefix(value, "Basic "@) {
            Err(AuthError::InvalidScheme)
        } else {
            credentials_outcome(config, base64_standard_decode(value.skip(6)))
        },
    }
}

/// The verdict of the guard on a request.
pub open spec fn auth_outcome(config: AuthConfigView, request: AuthRequestView) -> Result<
    bool,
    AuthError,
> {
    if is_loopback(request.remote_addr) {
        Ok(true)
    } else if !config.is_auth_required() {
        Ok(true)
    } else {
        header_outcome(config, request.authorization)
    }
}

/// The header carries the pair `username:password` as Basic credentials.
pub open spec fn presents_credentials(
    header: AuthHeaderView,
    username: Seq<char>,
    password: Seq<char>,
) -> bool {
    &&& header matches AuthHeaderView::Text(value)
    &&& has_prefix(value, "Basic "@)
    &&& base64_standard_decode(value.skip(6)) matches Some(bytes)
    &&& valid_utf8(bytes)
    &&& decode_utf8(bytes) == username + seq![':'] + password
    &&& !username.contains(':')
}

/// Whether the address names the host `host`, with or without a port.
pub fn address_names_host(addr: &Vec<char>, host: &str) -> (named: bool)
    ensures
        named == names_host(addr@, host@),
{
    if !begins_with(addr, host) {
        return false;
    }
    let host_len = chars_of(host).len();
    if addr.len() == host_len {
        return true;
    }
    if addr[host_len] != ':' {
        return false;
    }
    let ghost port = addr@.skip(host_len + 1);
    let mut i: usize = host_len + 1;
    if i == addr.len() {
        return false;
    }
    while i < addr.len()
        invariant
            host_len + 1 <= i <= addr.len(),
            host_len == host@.len(),
            has_prefix(addr@, host@),
            addr@[host_len as int] == ':',
            port == addr@.skip(host_len + 1),
            forall|j: int| 0 <= j < i - host_len - 1 ==> '0' <= #[trigger] port[j] && port[j] <= '9',
        decreases addr.len() - i,
    {
        let c = addr[i];
        if !('0' <= c && c <= '9') {
            assert(port[i - host_len - 1] == c);
            return false;
        }
        assert(port[i - host_len - 1] == c);
        i += 1;
    }
    true
}

/// Whether the address is one of this machine.
pub fn is_localhost(addr: Option<&str>) -> (local: bool)
    ensures
        local == is_loopback(addr.deep_view()),
{
    match addr {
        Some(a) => {
            let chars = chars_of(a);
            assert(chars@.subrange(0, chars@.len() as int) =~= a@);
            address_names_host(&chars, "127.0.0.1") || address_names_host(&chars, "localhost")
                || range_equals(&chars, 0, chars.len(), "::1") || address_names_host(
                &chars,
                "[::1]",
            )
        },
        None => false,
    }
}

impl AuthConfig {
    /// A configuration with the given user name and password, either of
    /// which may be absent.
    pub fn new(username: Option<String>, password: Option<String>) -> (config: Self)
        ensures
            config.username == username,
            config.password == password,
    {
        Self { username, password }
    }

    /// Credentials are asked for exactly where both a user name and a
    /// password are configured.
    pub fn is_auth_required(&self) -> (required: bool)
        ensures
            required == self@.is_auth_required(),
    {
        self.username.is_some() && self.password.is_some()
    }

    /// A copy of this configuration.
    pub fn duplicate(&self) -> (copy: Self)
        ensures
            copy@ == self@,
    {
        AuthConfig { username: copy_text(&self.username), password: copy_text(&self.password) }
    }

    /// Holds decoded credentials against the configured ones, which must
    /// both be there: the bytes must be UTF-8 text with a colon, and what
    /// stands before the first colon must equal the user name and what
    /// stands after it the password.
    pub fn check_credentials(&self, decoded: Vec<u8>) -> (verdict: Result<bool, AuthError>)
        requires
            self@.is_auth_required(),
        ensures
            verdict == credentials_outcome(self@, Some(decoded@)),
    {
        let text = match String::from_utf8(decoded) {
            Ok(text) => text,
            Err(_) => {
                return Err(AuthError::InvalidHeader);
            },
        };
        let chars = chars_of(text.as_str());
        let username = match &self.username {
            Some(u) => u,
            None => {
                return Err(AuthError::InvalidCredentials);
            },
        };
        let password = match &self.password {
            Some(p) => p,
            None => {
                return Err(AuthError::InvalidCredentials);
            },
        };
        match find_char(&chars, ':') {
            None => Err(AuthError::InvalidFormat),
            Some(colon) => {
                if range_equals(&chars, 0, colon, username.as_str()) && range_equals(
                    &chars,
                    colon + 1,
                    chars.len(),
                    password.as_str(),
                ) {
                    Ok(true)
                } else {
                    Err(AuthError::InvalidCredentials)
                }
            },
        }
    }

    /// Decides whether a request may pass.
    ///
    /// A request from this machine passes, whatever is configured. So does
    /// every request where no credentials are configured. Any other request
    /// must carry the configured user name and password as Basic
    /// credentials, and is turned away with the reason where it does not.
    /// The verdict is never `Ok(false)`.
    pub fn validate_auth_header(&self, req: &AuthRequest) -> (verdict: Result<bool, AuthError>)
        ensures
            verdict == auth_outcome(self@, req@),
            is_loopback(req@.remote_addr) ==> verdict == Ok::<bool, AuthError>(true),
            verdict is Ok ==> verdict == Ok::<bool, AuthError>(true),
    {
        let addr = match &req.remote_addr {
            Some(a) => Some(a.as_str()),
            None => None,
        };
        if is_localhost(addr) {
            return Ok(true);
        }
        if !self.is_auth_required() {
            return Ok(true);
        }
        let value = match &req.authorization {
            AuthHeader::Missing => {
                return Err(AuthError::MissingHeader);
            },
            AuthHeader::Unreadable => {
                return Err(AuthError::InvalidHeader);
            },
            AuthHeader::Text(value) => value,
        };
        let chars = chars_of(value.as_str());
        if !begins_with(&chars, "Basic ") {
            return Err(AuthError::InvalidScheme);
        }
        proof {
            reveal_strlit("Basic ");
        }
        let payload = text_of(&chars, 6, chars.len());
        match decode_base64(payload.as_str()) {
            Ok(decoded) => self.check_credentials(decoded),
            Err(_) => Err(AuthError::InvalidHeader),
        }
    }
}

/// A request passes the guard exactly if it comes from this machine, or no
/// credentials are configured, or it carries the configured pair as Basic
/// credentials. So every request from this machine passes whatever is
/// configured, and where credentials are configured every other request
/// without them is turned away.
pub proof fn lemma_access_rule(config: AuthConfigView, request: AuthRequestView)
    ensures
        auth_outcome(config, request) is Ok <==> is_loopback(request.remote_addr)
            || !config.is_auth_required() || presents_credentials(
            request.authorization,
            config.username->0,
            config.password->0,
        ),
        is_loopback(request.remote_addr) ==> auth_outcome(config, request) == Ok::<
            bool,
            AuthError,
        >(true),
{
    if !is_loopback(request.remote_addr) && config.is_auth_required() {
        let username = config.username->0;
        let password = config.password->0;
        if let AuthHeaderView::Text(value) = request.authorization {
            if has_prefix(value, "Basic "@) {
                if let Some(bytes) = base64_standard_decode(value.skip(6)) {
                    if valid_utf8(bytes) {
                        let text = decode_utf8(bytes);
                        lemma_split_at_first_colon(text, username, password);
                    }
                }
            }
        }
    }
}

/// A text is `username`, a colon and `password`, with no colon in
/// `username`, exactly if it holds a colon and its first colon parts it
/// into `username` and `password`.
pub proof fn lemma_split_at_first_colon(text: Seq<char>, username: Seq<char>, password: Seq<char>)
    ensures
        (text == username + seq![':'] + password && !username.contains(':')) <==> (first_index(
            text,
            ':',
        ) matches Some(colon) && text.take(colon) == username && text.skip(colon + 1)
            == password),
{
    if text == username + seq![':'] + password && !username.contains(':') {
        let at = username.len() as int;
        assert forall|j: int| 0 <= j < at implies text[j] != ':' by {
            assert(text[j] == username[j]);
        }
        assert(is_first_index(text, ':', at));
        lemma_first_index_unique(text, ':', at, first_index(text, ':')->0);
        assert(text.take(at) =~= username);
        assert(text.skip(at + 1) =~= password);
    }
    if let Some(colon) = first_index(text, ':') {
        if text.take(colon) == username && text.skip(colon + 1) == password {
            assert(is_first_index(text, ':', colon));
            assert(text =~= username + seq![':'] + password);
            if username.contains(':') {
                let j = choose|j: int| 0 <= j < username.len() && username[j] == ':';
                assert(text[j] == username[j]);
            }
        }
    }
}

/// Puts the guard in front of a service.
pub struct AuthMiddleware {
    auth_config: AuthConfig,
}

impl AuthMiddleware {
    /// The configuration that the guard goes by.
    pub closed spec fn config(&self) -> AuthConfigView {
        self.auth_config@
    }

    /// A guard that goes by the given configuration.
    pub fn new(auth_config: AuthConfig) -> (middleware: Self)
        ensures
            middleware.config() == auth_config@,
    {
        Self { auth_config }
    }

    /// The given service behind a guard with this configuration.
    pub fn new_transform<S>(&self, service: S) -> (guarded: AuthMiddlewareService<S>)
        ensures
            guarded.config() == self.config(),
            guarded.inner() == service,
    {
        AuthMiddlewareService { service, auth_config: self.auth_config.duplicate() }
    }
}

/// A service behind the guard.
pub struct AuthMiddlewareService<S> {
    service: S,
    auth_config: AuthConfig,
}

impl<S> AuthMiddlewareService<S> {
    /// The configuration that the guard goes by.
    pub closed spec fn config(&self) -> AuthConfigView {
        self.auth_config@
    }

    /// The service behind the guard.
    pub closed spec fn inner(&self) -> S {
        self.service
    }

    /// The service behind the guard.
    pub fn service(&self) -> (service: &S)
        ensures
            *service == self.inner(),
    {
        &self.service
    }

    /// The guard's verdict on a request, which says whether the request may
    /// go on to the service.
    pub fn authorize(&self, req: &AuthRequest) -> (verdict: Result<bool, AuthError>)
        ensures
            verdict == auth_outcome(self.config(), req@),
    {
        self.auth_config.validate_auth_header(req)
    }
}

} // verus!
