//! The token-acquisition protocol: the request body of the API-key grant
//! and the classification of the identity service's response into a token
//! record or a typed authentication error.
//!
//! The network round trip itself is left to the caller: it sends a POST
//! built from [`token_request_body`] to [`AUTH_URL`] and hands the
//! resulting status code and body to [`IamAuthenticator::from_exchange`],
//! or the description of the transport failure to [`transport_failure`].
use crate::json::{
    spec_parse_scalar, spec_parse_string_body, spec_skip_ws, JsonScalar, ScalarView, parse_scalar,
    parse_string_body, skip_ws,
};
use vstd::prelude::*;
use vstd::string::*;

verus! {

/// The fixed identity endpoint that a token exchange is addressed to.
pub const AUTH_URL: &'static str = "https://iam.cloud.ibm.com/identity/token";

/// Errors that may be returned when exchanging an API key for a token.
#[derive(Debug)]
pub enum AuthenticationError {
    /// The identity service rejected the API key or the grant parameters.
    ParameterValidationFailed,
    /// No response was received; the payload describes the transport
    /// failure.
    ConnectionError(String),
    /// The identity service answered with a status code outside the
    /// documented set; the payload is the raw code.
    UnexpectedStatus(u16),
    /// The identity service answered 200 but the body was not a
    /// well-formed token record.
    DeserializationFailed,
}

/// The mathematical value of a token record.
pub struct TokenView {
    pub access_token: Seq<char>,
    pub refresh_token: Seq<char>,
    pub delegated_refresh_token: Option<Seq<char>>,
    pub token_type: Seq<char>,
    pub expires_in: int,
    pub expiration: int,
    pub scope: Option<Seq<char>>,
}

impl TokenView {
    /// A record never exists with an empty access or refresh token.
    pub open spec fn wf(&self) -> bool {
        self.access_token.len() > 0 && self.refresh_token.len() > 0
    }
}

/// One issued credential grant, immutable after construction.
#[derive(Debug, Clone)]
pub struct TokenResponse {
    access_token: String,
    refresh_token: String,
    delegated_refresh_token: Option<String>,
    token_type: String,
    expires_in: i64,
    expiration: i64,
    scope: Option<String>,
}

impl View for TokenResponse {
    type V = TokenView;

    closed spec fn view(&self) -> TokenView {
        TokenView {
            access_token: self.access_token@,
            refresh_token: self.refresh_token@,
            delegated_refresh_token: match self.delegated_refresh_token {
                Some(v) => Some(v@),
                None => None,
            },
            token_type: self.token_type@,
            expires_in: self.expires_in as int,
            expiration: self.expiration as int,
            scope: match self.scope {
                Some(v) => Some(v@),
                None => None,
            },
        }
    }
}

impl TokenResponse {
    /// The opaque bearer credential.
    pub fn access_token(&self) -> (r: &str)
        ensures
            r@ == self@.access_token,
    {
        self.access_token.as_str()
    }

    /// The companion refresh token.
    pub fn refresh_token(&self) -> (r: &str)
        ensures
            r@ == self@.refresh_token,
    {
        self.refresh_token.as_str()
    }

    /// The token's type, e.g. "Bearer".
    pub fn token_type(&self) -> (r: &str)
        ensures
            r@ == self@.token_type,
    {
        self.token_type.as_str()
    }

    /// Validity duration in seconds from issuance.
    pub fn expires_in(&self) -> (r: i64)
        ensures
            r as int == self@.expires_in,
    {
        self.expires_in
    }

    /// Absolute Unix timestamp at which the token becomes invalid.
    pub fn expiration(&self) -> (r: i64)
        ensures
            r as int == self@.expiration,
    {
        self.expiration
    }

    /// The grant's scope, when the service reported one.
    pub fn scope(&self) -> (r: Option<&String>)
        ensures
            match r {
                Some(v) => self@.scope == Some(v@),
                None => self@.scope is None,
            },
    {
        match &self.scope {
            Some(v) => Some(v),
            None => None,
        }
    }

    /// The delegated refresh token, present only for certain grant
    /// configurations.
    pub fn delegated_refresh_token(&self) -> (r: Option<&String>)
        ensures
            match r {
                Some(v) => self@.delegated_refresh_token == Some(v@),
                None => self@.delegated_refresh_token is None,
            },
    {
        match &self.delegated_refresh_token {
            Some(v) => Some(v),
            None => None,
        }
    }
}

/// The fields of a token record collected so far while walking the
/// members of the response object. The `seen` flags distinguish an
/// optional field set to `null` from one that never occurred.
pub struct PartialTokenView {
    pub access_token: Option<Seq<char>>,
    pub refresh_token: Option<Seq<char>>,
    pub delegated_seen: bool,
    pub delegated_refresh_token: Option<Seq<char>>,
    pub token_type: Option<Seq<char>>,
    pub expires_in: Option<int>,
    pub expiration: Option<int>,
    pub scope_seen: bool,
    pub scope: Option<Seq<char>>,
}

struct PartialToken {
    access_token: Option<String>,
    refresh_token: Option<String>,
    delegated_seen: bool,
    delegated_refresh_token: Option<String>,
    token_type: Option<String>,
    expires_in: Option<i64>,
    expiration: Option<i64>,
    scope_seen: bool,
    scope: Option<String>,
}

impl View for PartialToken {
    type V = PartialTokenView;

    closed spec fn view(&self) -> PartialTokenView {
        PartialTokenView {
            access_token: match self.access_token {
                Some(v) => Some(v@),
                None => None,
            },
            refresh_token: match self.refresh_token {
                Some(v) => Some(v@),
                None => None,
            },
            delegated_seen: self.delegated_seen,
            delegated_refresh_token: match self.delegated_refresh_token {
                Some(v) => Some(v@),
                None => None,
            },
            token_type: match self.token_type {
                Some(v) => Some(v@),
                None => None,
            },
            expires_in: match self.expires_in {
                Some(v) => Some(v as int),
                None => None,
            },
            expiration: match self.expiration {
                Some(v) => Some(v as int),
                None => None,
            },
            scope_seen: self.scope_seen,
            scope: match self.scope {
                Some(v) => Some(v@),
                None => None,
            },
        }
    }
}

/// The state before any member has been read.
pub open spec fn spec_empty_partial() -> PartialTokenView {
    PartialTokenView {
        access_token: None,
        refresh_token: None,
        delegated_seen: false,
        delegated_refresh_token: None,
        token_type: None,
        expires_in: None,
        expiration: None,
        scope_seen: false,
        scope: None,
    }
}

/// How one `key: value` member updates the collected fields. A known key
/// demands the field's type and must not repeat; the two optional fields
/// also accept `null`; an unknown key is skipped, whatever its scalar
/// value.
pub open spec fn spec_apply_member(
    p: PartialTokenView,
    key: Seq<char>,
    value: ScalarView,
) -> Option<PartialTokenView> {
    if key == "access_token"@ {
        match value {
            ScalarView::Str(v) => if p.access_token is None {
                Some(PartialTokenView { access_token: Some(v), ..p })
            } else {
                None
            },
            _ => None,
        }
    } else if key == "refresh_token"@ {
        match value {
            ScalarView::Str(v) => if p.refresh_token is None {
                Some(PartialTokenView { refresh_token: Some(v), ..p })
            } else {
                None
            },
            _ => None,
        }
    } else if key == "delegated_refresh_token"@ {
        if p.delegated_seen {
            None
        } else {
            match value {
                ScalarView::Str(v) => Some(
                    PartialTokenView {
                        delegated_seen: true,
                        delegated_refresh_token: Some(v),
                        ..p
                    },
                ),
                ScalarView::Null => Some(
                    PartialTokenView { delegated_seen: true, delegated_refresh_token: None, ..p },
                ),
                _ => None,
            }
        }
    } else if key == "token_type"@ {
        match value {
            ScalarView::Str(v) => if p.token_type is None {
                Some(PartialTokenView { token_type: Some(v), ..p })
            } else {
                None
            },
            _ => None,
        }
    } else if key == "expires_in"@ {
        match value {
            ScalarView::Int(v) => if p.expires_in is None {
                Some(PartialTokenView { expires_in: Some(v), ..p })
            } else {
                None
            },
            _ => None,
        }
    } else if key == "expiration"@ {
        match value {
            ScalarView::Int(v) => if p.expiration is None {
                Some(PartialTokenView { expiration: Some(v), ..p })
            } else {
                None
            },
            _ => None,
        }
    } else if key == "scope"@ {
        if p.scope_seen {
            None
        } else {
            match value {
                ScalarView::Str(v) => Some(
                    PartialTokenView { scope_seen: true, scope: Some(v), ..p },
                ),
                ScalarView::Null => Some(PartialTokenView { scope_seen: true, scope: None, ..p }),
                _ => None,
            }
        }
    } else {
        Some(p)
    }
}

/// The record the collected fields make: `None` when a required field is
/// missing or the access or refresh token is empty.
pub open spec fn spec_finalize(p: PartialTokenView) -> Option<TokenView> {
    if p.access_token is Some && p.refresh_token is Some && p.token_type is Some && p.expires_in
        is Some && p.expiration is Some && p.access_token.unwrap().len() > 0
        && p.refresh_token.unwrap().len() > 0 {
        Some(
            TokenView {
                access_token: p.access_token.unwrap(),
                refresh_token: p.refresh_token.unwrap(),
                delegated_refresh_token: p.delegated_refresh_token,
                token_type: p.token_type.unwrap(),
                expires_in: p.expires_in.unwrap(),
                expiration: p.expiration.unwrap(),
                scope: p.scope,
            },
        )
    } else {
        None
    }
}

/// The members of the response object from position `i` (which must hold
/// the opening quote of a key) up to and including the closing brace:
/// the collected fields and the position just after the brace.
pub open spec fn spec_parse_members(
    s: Seq<char>,
    i: int,
    p: PartialTokenView,
) -> Option<(PartialTokenView, int)>
    decreases s.len() - i,
{
    if !(0 <= i < s.len() && s[i] == '"') {
        None
    } else {
        match spec_parse_string_body(s, i + 1) {
            None => None,
            Some(kp) => {
                let colon = spec_skip_ws(s, kp.1);
                if !(colon < s.len() && s[colon] == ':') {
                    None
                } else {
                    match spec_parse_scalar(s, spec_skip_ws(s, colon + 1)) {
                        None => None,
                        Some(vp) => match spec_apply_member(p, kp.0, vp.0) {
                            None => None,
                            Some(p2) => {
                                let sep = spec_skip_ws(s, vp.1);
                                if sep < s.len() && s[sep] == ',' {
                                    let next = spec_skip_ws(s, sep + 1);
                                    // parsing positions only advance, so this
                                    // bound always holds; it makes termination
                                    // of the recursion evident
                                    if i < next <= s.len() {
                                        spec_parse_members(s, next, p2)
                                    } else {
                                        None
                                    }
                                } else if sep < s.len() && s[sep] == '}' {
                                    Some((p2, sep + 1))
                                } else {
                                    None
                                }
                            },
                        },
                    }
                }
            },
        }
    }
}

/// The token-record grammar: one object whose members fill the record,
/// with nothing but whitespace around it.
pub open spec fn spec_parse_token(s: Seq<char>) -> Option<TokenView> {
    let i = spec_skip_ws(s, 0);
    if !(i < s.len() && s[i] == '{') {
        None
    } else {
        let j = spec_skip_ws(s, i + 1);
        if j < s.len() && s[j] == '}' {
            if spec_skip_ws(s, j + 1) == s.len() {
                spec_finalize(spec_empty_partial())
            } else {
                None
            }
        } else {
            match spec_parse_members(s, j, spec_empty_partial()) {
                None => None,
                Some(pr) => if spec_skip_ws(s, pr.1) == s.len() {
                    spec_finalize(pr.0)
                } else {
                    None
                },
            }
        }
    }
}

spec fn partial_opt_view(r: Option<PartialToken>) -> Option<PartialTokenView> {
    match r {
        Some(p) => Some(p@),
        None => None,
    }
}

fn apply_member(p: PartialToken, key: &String, value: JsonScalar) -> (r: Option<PartialToken>)
    ensures
        partial_opt_view(r) == spec_apply_member(p@, key@, value@),
{
    if key.eq(&String::from_str("access_token")) {
        match value {
            JsonScalar::Str(v) => if p.access_token.is_none() {
                Some(PartialToken { access_token: Some(v), ..p })
            } else {
                None
            },
            _ => None,
        }
    } else if key.eq(&String::from_str("refresh_token")) {
        match value {
            JsonScalar::Str(v) => if p.refresh_token.is_none() {
                Some(PartialToken { refresh_token: Some(v), ..p })
            } else {
                None
            },
            _ => None,
        }
    } else if key.eq(&String::from_str("delegated_refresh_token")) {
        if p.delegated_seen {
            None
        } else {
            match value {
                JsonScalar::Str(v) => Some(
                    PartialToken { delegated_seen: true, delegated_refresh_token: Some(v), ..p },
                ),
                JsonScalar::Null => Some(
                    PartialToken { delegated_seen: true, delegated_refresh_token: None, ..p },
                ),
                _ => None,
            }
        }
    } else if key.eq(&String::from_str("token_type")) {
        match value {
            JsonScalar::Str(v) => if p.token_type.is_none() {
                Some(PartialToken { token_type: Some(v), ..p })
            } else {
                None
            },
            _ => None,
        }
    } else if key.eq(&String::from_str("expires_in")) {
        match value {
            JsonScalar::Int(v) => if p.expires_in.is_none() {
                Some(PartialToken { expires_in: Some(v), ..p })
            } else {
                None
            },
            _ => None,
        }
    } else if key.eq(&String::from_str("expiration")) {
        match value {
            JsonScalar::Int(v) => if p.expiration.is_none() {
                Some(PartialToken { expiration: Some(v), ..p })
            } else {
                None
            },
            _ => None,
        }
    } else if key.eq(&String::from_str("scope")) {
        if p.scope_seen {
            None
        } else {
            match value {
                JsonScalar::Str(v) => Some(PartialToken { scope_seen: true, scope: Some(v), ..p }),
                JsonScalar::Null => Some(PartialToken { scope_seen: true, scope: None, ..p }),
                _ => None,
            }
        }
    } else {
        Some(p)
    }
}

fn parse_members(s: &str, start: usize, p0: PartialToken) -> (r: Option<(PartialToken, usize)>)
    requires
        start <= s@.len(),
    ensures
        match r {
            Some(pr) => spec_parse_members(s@, start as int, p0@) == Some((pr.0@, pr.1 as int))
                && pr.1 <= s@.len(),
            None => spec_parse_members(s@, start as int, p0@) is None,
        },
{
    let n = s.unicode_len();
    let mut i = start;
    let mut p = p0;
    loop
        invariant
            i <= s@.len(),
            n == s@.len(),
            spec_parse_members(s@, start as int, p0@) == spec_parse_members(s@, i as int, p@),
        decreases s@.len() - i,
    {
        if i >= n {
            return None;
        }
        if s.get_char(i) != '"' {
            return None;
        }
        let (key, after_key) = match parse_string_body(s, i + 1) {
            Some(kp) => kp,
            None => {
                return None;
            },
        };
        let colon = skip_ws(s, after_key);
        if colon >= n {
            return None;
        }
        if s.get_char(colon) != ':' {
            return None;
        }
        let value_start = skip_ws(s, colon + 1);
        let (value, after_value) = match parse_scalar(s, value_start) {
            Some(vp) => vp,
            None => {
                return None;
            },
        };
        let p2 = match apply_member(p, &key, value) {
            Some(q) => q,
            None => {
                return None;
            },
        };
        let sep = skip_ws(s, after_value);
        if sep < n && s.get_char(sep) == ',' {
            let next = skip_ws(s, sep + 1);
            i = next;
            p = p2;
        } else if sep < n && s.get_char(sep) == '}' {
            return Some((p2, sep + 1));
        } else {
            return None;
        }
    }
}

fn empty_partial() -> (r: PartialToken)
    ensures
        r@ == spec_empty_partial(),
{
    PartialToken {
        access_token: None,
        refresh_token: None,
        delegated_seen: false,
        delegated_refresh_token: None,
        token_type: None,
        expires_in: None,
        expiration: None,
        scope_seen: false,
        scope: None,
    }
}

spec fn token_opt_view(r: Option<TokenResponse>) -> Option<TokenView> {
    match r {
        Some(t) => Some(t@),
        None => None,
    }
}

fn finalize(p: PartialToken) -> (r: Option<TokenResponse>)
    ensures
        token_opt_view(r) == spec_finalize(p@),
{
    match (p.access_token, p.refresh_token, p.token_type, p.expires_in, p.expiration) {
        (Some(access_token), Some(refresh_token), Some(token_type), Some(expires_in), Some(
            expiration,
        )) => {
            if access_token.as_str().is_empty() || refresh_token.as_str().is_empty() {
                None
            } else {
                Some(
                    TokenResponse {
                        access_token,
                        refresh_token,
                        delegated_refresh_token: p.delegated_refresh_token,
                        token_type,
                        expires_in,
                        expiration,
                        scope: p.scope,
                    },
                )
            }
        },
        _ => None,
    }
}

/// Parse the body of a successful token exchange. The result is exactly
/// what the token-record grammar assigns to the text; in particular a
/// returned record carries every field the body spelled out, verbatim.
pub fn parse_token_body(s: &str) -> (r: Option<TokenResponse>)
    ensures
        match r {
            Some(t) => spec_parse_token(s@) == Some(t@) && t@.wf(),
            None => spec_parse_token(s@) is None,
        },
{
    let n = s.unicode_len();
    let i = skip_ws(s, 0);
    if i >= n {
        return None;
    }
    if s.get_char(i) != '{' {
        return None;
    }
    let j = skip_ws(s, i + 1);
    if j < n && s.get_char(j) == '}' {
        if skip_ws(s, j + 1) == n {
            finalize(empty_partial())
        } else {
            None
        }
    } else {
        match parse_members(s, j, empty_partial()) {
            None => None,
            Some((p, end)) => {
                if skip_ws(s, end) == n {
                    finalize(p)
                } else {
                    None
                }
            },
        }
    }
}

/// Map a transport failure (no response received) to its error: the
/// description of the underlying failure is carried verbatim.
pub fn transport_failure(description: String) -> (r: AuthenticationError)
    ensures
        r == AuthenticationError::ConnectionError(description),
{
    AuthenticationError::ConnectionError(description)
}

/// Classify a token-exchange response. A 200 whose body the token-record
/// grammar accepts yields that record; a 200 with any other body fails as
/// a deserialization error; 400 signals that the grant parameters were
/// rejected; every other status is reported, never swallowed, with its
/// raw code.
pub fn token_exchange_outcome(status: u16, body: &str) -> (r: Result<
    TokenResponse,
    AuthenticationError,
>)
    ensures
        status == 200 ==> match spec_parse_token(body@) {
            Some(v) => r matches Ok(t) && t@ == v,
            None => r == Err::<TokenResponse, _>(AuthenticationError::DeserializationFailed),
        },
        status == 400 ==> r == Err::<TokenResponse, _>(
            AuthenticationError::ParameterValidationFailed,
        ),
        status != 200 && status != 400 ==> r == Err::<TokenResponse, _>(
            AuthenticationError::UnexpectedStatus(status),
        ),
        r matches Ok(t) ==> status == 200 && t@.wf(),
{
    if status == 200 {
        match parse_token_body(body) {
            Some(t) => Ok(t),
            None => Err(AuthenticationError::DeserializationFailed),
        }
    } else if status == 400 {
        Err(AuthenticationError::ParameterValidationFailed)
    } else {
        Err(AuthenticationError::UnexpectedStatus(status))
    }
}

/// Holds the access token obtained from an API key: the sole owner of
/// the one record a successful exchange produced.
#[derive(Debug)]
pub struct IamAuthenticator {
    access_token: TokenResponse,
}

impl View for IamAuthenticator {
    type V = TokenView;

    closed spec fn view(&self) -> TokenView {
        self.access_token@
    }
}

impl IamAuthenticator {
    /// Build an authenticator from the status code and body that the
    /// identity endpoint answered a token exchange with. The
    /// classification is that of [`token_exchange_outcome`].
    pub fn from_exchange(status: u16, body: &str) -> (r: Result<
        IamAuthenticator,
        AuthenticationError,
    >)
        ensures
            status == 200 ==> match spec_parse_token(body@) {
                Some(v) => r matches Ok(a) && a@ == v,
                None => r == Err::<IamAuthenticator, _>(AuthenticationError::DeserializationFailed),
            },
            status == 400 ==> r == Err::<IamAuthenticator, _>(
                AuthenticationError::ParameterValidationFailed,
            ),
            status != 200 && status != 400 ==> r == Err::<IamAuthenticator, _>(
                AuthenticationError::UnexpectedStatus(status),
            ),
            r matches Ok(a) ==> status == 200 && a@.wf(),
    {
        match token_exchange_outcome(status, body) {
            Ok(t) => Ok(IamAuthenticator { access_token: t }),
            Err(e) => Err(e),
        }
    }

    /// The record obtained by the exchange.
    pub fn token_response(&self) -> (r: &TokenResponse)
        ensures
            r@ == self@,
    {
        &self.access_token
    }
}

/// A byte the form encoding leaves as it is: an ASCII letter or digit,
/// or one of `-` `.` `_` `~`.
pub open spec fn is_form_unreserved(b: u8) -> bool {
    (48 <= b && b <= 57) || (65 <= b && b <= 90) || (97 <= b && b <= 122) || b == 45 || b == 46
        || b == 95 || b == 126
}

/// The upper-case hexadecimal digit of a value below 16, as a byte.
pub open spec fn spec_upper_hex_digit(d: int) -> u8 {
    if d < 10 {
        (48 + d) as u8
    } else {
        (55 + d) as u8
    }
}

/// How the form encoding renders one byte: unreserved bytes stand as
/// they are, every other byte becomes `%` and two upper-case hex digits.
pub open spec fn spec_form_encoded_byte(b: u8) -> Seq<u8> {
    if is_form_unreserved(b) {
        seq![b]
    } else {
        seq![37u8, spec_upper_hex_digit(b as int / 16), spec_upper_hex_digit(b as int % 16)]
    }
}

/// The form encoding of a byte sequence.
pub open spec fn spec_form_encoded(s: Seq<u8>) -> Seq<u8>
    decreases s.len(),
{
    if s.len() == 0 {
        Seq::empty()
    } else {
        spec_form_encoded_byte(s[0]) + spec_form_encoded(s.drop_first())
    }
}

proof fn lemma_form_encoded_push(s: Seq<u8>, b: u8)
    ensures
        spec_form_encoded(s.push(b)) == spec_form_encoded(s) + spec_form_encoded_byte(b),
    decreases s.len(),
{
    if s.len() == 0 {
        assert(s.push(b).drop_first() =~= Seq::<u8>::empty());
        assert(s.push(b)[0] == b);
        assert(spec_form_encoded(s.push(b)) == spec_form_encoded_byte(b) + spec_form_encoded(
            Seq::<u8>::empty(),
        ));
        assert(spec_form_encoded_byte(b) + Seq::<u8>::empty() =~= spec_form_encoded_byte(b));
        assert(spec_form_encoded(s) =~= Seq::<u8>::empty());
        assert(Seq::<u8>::empty() + spec_form_encoded_byte(b) =~= spec_form_encoded_byte(b));
    } else {
        assert(s.push(b).drop_first() =~= s.drop_first().push(b));
        lemma_form_encoded_push(s.drop_first(), b);
        assert(s.push(b)[0] == s[0]);
        assert(spec_form_encoded(s.push(b)) == spec_form_encoded_byte(s[0]) + (spec_form_encoded(
            s.drop_first(),
        ) + spec_form_encoded_byte(b)));
        assert(spec_form_encoded_byte(s[0]) + (spec_form_encoded(s.drop_first())
            + spec_form_encoded_byte(b)) =~= (spec_form_encoded_byte(s[0]) + spec_form_encoded(
            s.drop_first(),
        )) + spec_form_encoded_byte(b));
    }
}

/// The fixed part of the grant body: everything up to and including
/// `apikey=`.
pub open spec fn spec_grant_prefix() -> Seq<u8> {
    "grant_type=urn:ibm:params:oauth:grant-type:apikey&apikey=".spec_bytes()
}

fn upper_hex_digit(d: u8) -> (r: u8)
    requires
        d < 16,
    ensures
        r == spec_upper_hex_digit(d as int),
{
    if d < 10 {
        48 + d
    } else {
        55 + d
    }
}

/// The body of the token-exchange POST for the given API key: the fixed
/// grant parameters followed by the form-encoded key, so that a key
/// holding reserved characters such as `&`, `=` or `%` cannot corrupt
/// the request.
pub fn token_request_body(api_key: &str) -> (r: Vec<u8>)
    ensures
        r@ == spec_grant_prefix() + spec_form_encoded(api_key.spec_bytes()),
{
    let mut out = "grant_type=urn:ibm:params:oauth:grant-type:apikey&apikey=".as_bytes_vec();
    let key = api_key.as_bytes();
    let mut idx: usize = 0;
    proof {
        assert(key@.subrange(0, 0) =~= Seq::<u8>::empty());
        assert(out@ =~= spec_grant_prefix() + spec_form_encoded(key@.subrange(0, 0)));
    }
    while idx < key.len()
        invariant
            idx <= key@.len(),
            key@ == api_key.spec_bytes(),
            out@ == spec_grant_prefix() + spec_form_encoded(key@.subrange(0, idx as int)),
        decreases key@.len() - idx,
    {
        let b = key[idx];
        if (48 <= b && b <= 57) || (65 <= b && b <= 90) || (97 <= b && b <= 122) || b == 45 || b
            == 46 || b == 95 || b == 126 {
            out.push(b);
        } else {
            out.push(37);
            out.push(upper_hex_digit(b / 16));
            out.push(upper_hex_digit(b % 16));
        }
        proof {
            lemma_form_encoded_push(key@.subrange(0, idx as int), key@[idx as int]);
            assert(key@.subrange(0, idx as int + 1) =~= key@.subrange(0, idx as int).push(
                key@[idx as int],
            ));
            assert(out@ =~= spec_grant_prefix() + spec_form_encoded(
                key@.subrange(0, idx as int + 1),
            ));
        }
        idx += 1;
    }
    proof {
        assert(key@.subrange(0, key@.len() as int) =~= key@);
    }
    out
}

/// The character of a decimal digit value.
pub open spec fn spec_dec_digit_char(d: int) -> char {
    if d == 0 {
        '0'
    } else if d == 1 {
        '1'
    } else if d == 2 {
        '2'
    } else if d == 3 {
        '3'
    } else if d == 4 {
        '4'
    } else if d == 5 {
        '5'
    } else if d == 6 {
        '6'
    } else if d == 7 {
        '7'
    } else if d == 8 {
        '8'
    } else {
        '9'
    }
}

/// The decimal rendering of a status code, most significant digit first.
pub open spec fn spec_u16_decimal(n: int) -> Seq<char>
    decreases n,
{
    if n < 10 {
        seq![spec_dec_digit_char(n)]
    } else {
        spec_u16_decimal(n / 10) + seq![spec_dec_digit_char(n % 10)]
    }
}

fn dec_digit_str(d: u16) -> (r: &'static str)
    requires
        d < 10,
    ensures
        r@ == seq![spec_dec_digit_char(d as int)],
{
    proof {
        reveal_strlit("0");
        reveal_strlit("1");
        reveal_strlit("2");
        reveal_strlit("3");
        reveal_strlit("4");
        reveal_strlit("5");
        reveal_strlit("6");
        reveal_strlit("7");
        reveal_strlit("8");
        reveal_strlit("9");
    }
    if d == 0 {
        "0"
    } else if d == 1 {
        "1"
    } else if d == 2 {
        "2"
    } else if d == 3 {
        "3"
    } else if d == 4 {
        "4"
    } else if d == 5 {
        "5"
    } else if d == 6 {
        "6"
    } else if d == 7 {
        "7"
    } else if d == 8 {
        "8"
    } else {
        "9"
    }
}

fn u16_decimal(n: u16) -> (r: String)
    ensures
        r@ == spec_u16_decimal(n as int),
    decreases n,
{
    if n < 10 {
        String::from_str(dec_digit_str(n))
    } else {
        let mut out = u16_decimal(n / 10);
        out.append(dec_digit_str(n % 10));
        out
    }
}

impl AuthenticationError {
    /// The fixed human-readable message of each variant; a transport
    /// failure reports the underlying description itself, and an
    /// unexpected status interpolates its raw code.
    pub open spec fn spec_message(&self) -> Seq<char> {
        match self {
            AuthenticationError::ParameterValidationFailed => "The identity service rejected the API key or the grant parameters"@,
            AuthenticationError::ConnectionError(description) => description@,
            AuthenticationError::UnexpectedStatus(code) => "The token exchange returned an unexpected status code: "@
                + spec_u16_decimal(*code as int),
            AuthenticationError::DeserializationFailed => "The token exchange succeeded but its response body is not a well-formed token record"@,
        }
    }

    /// Render the variant's message.
    pub fn message(&self) -> (r: String)
        ensures
            r@ == self.spec_message(),
    {
        match self {
            AuthenticationError::ParameterValidationFailed => String::from_str(
                "The identity service rejected the API key or the grant parameters",
            ),
            AuthenticationError::ConnectionError(description) => description.clone(),
            AuthenticationError::UnexpectedStatus(code) => {
                let digits = u16_decimal(*code);
                String::from_str("The token exchange returned an unexpected status code: ").concat(
                    digits.as_str(),
                )
            },
            AuthenticationError::DeserializationFailed => String::from_str(
                "The token exchange succeeded but its response body is not a well-formed token record",
            ),
        }
    }
}

impl PartialEq for AuthenticationError {
    fn eq(&self, other: &AuthenticationError) -> (r: bool) {
        match (self, other) {
            (
                AuthenticationError::ParameterValidationFailed,
                AuthenticationError::ParameterValidationFailed,
            ) => true,
            (
                AuthenticationError::ConnectionError(a),
                AuthenticationError::ConnectionError(b),
            ) => a.eq(b),
            (
                AuthenticationError::UnexpectedStatus(a),
                AuthenticationError::UnexpectedStatus(b),
            ) => a == b,
            (
                AuthenticationError::DeserializationFailed,
                AuthenticationError::DeserializationFailed,
            ) => true,
            _ => false,
        }
    }
}

impl vstd::std_specs::cmp::PartialEqSpecImpl for AuthenticationError {
    open spec fn obeys_eq_spec() -> bool {
        true
    }

    open spec fn eq_spec(&self, other: &AuthenticationError) -> bool {
        match (self, other) {
            (
                AuthenticationError::ParameterValidationFailed,
                AuthenticationError::ParameterValidationFailed,
            ) => true,
            (
                AuthenticationError::ConnectionError(a),
                AuthenticationError::ConnectionError(b),
            ) => a@ == b@,
            (
                AuthenticationError::UnexpectedStatus(a),
                AuthenticationError::UnexpectedStatus(b),
            ) => a == b,
            (
                AuthenticationError::DeserializationFailed,
                AuthenticationError::DeserializationFailed,
            ) => true,
            _ => false,
        }
    }
}

} // verus!
