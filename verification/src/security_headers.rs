//! Common HTTP security headers, applied to every response.
//!
//! The default policy is intentionally conservative and does not include
//! `Strict-Transport-Security` or `Content-Security-Policy`, because those are
//! deployment/application-specific. Enable them explicitly once your TLS and
//! asset policy are known.
use vstd::prelude::*;

use crate::response::{header_lookup, header_set, Response};

verus! {

/// Default value for `X-Content-Type-Options`.
pub const DEFAULT_CONTENT_TYPE_OPTIONS: &'static str = "nosniff";

/// Default value for `X-Frame-Options`.
pub const DEFAULT_FRAME_OPTIONS: &'static str = "DENY";

/// Default value for `Referrer-Policy`.
pub const DEFAULT_REFERRER_POLICY: &'static str = "no-referrer";

/// Conservative default `Permissions-Policy` that disables common browser APIs.
pub const DEFAULT_PERMISSIONS_POLICY: &'static str = "camera=(), microphone=(), geolocation=()";

/// Configuration for [`SecurityHeadersMiddleware`].
#[derive(Clone, Debug, PartialEq, Eq)]
pub struct SecurityHeadersConfig {
    pub content_type_options: Option<String>,
    pub frame_options: Option<String>,
    pub referrer_policy: Option<String>,
    pub permissions_policy: Option<String>,
    pub content_security_policy: Option<String>,
    pub strict_transport_security: Option<String>,
    /// When false, existing response headers are preserved. Default: false.
    pub override_existing: bool,
}

/// The text of an optional string.
pub open spec fn opt_text(o: Option<String>) -> Option<Seq<char>> {
    match o {
        Some(s) => Some(s@),
        None => None,
    }
}

/// One header rule: the header's name and the value to give it, if any.
pub type HeaderRule = (Seq<char>, Option<Seq<char>>);

/// The rules a configuration stands for, in the order they are applied.
pub open spec fn header_rules(c: SecurityHeadersConfig) -> Seq<HeaderRule> {
    seq![
        ("x-content-type-options"@, opt_text(c.content_type_options)),
        ("x-frame-options"@, opt_text(c.frame_options)),
        ("referrer-policy"@, opt_text(c.referrer_policy)),
        ("permissions-policy"@, opt_text(c.permissions_policy)),
        ("content-security-policy"@, opt_text(c.content_security_policy)),
        ("strict-transport-security"@, opt_text(c.strict_transport_security)),
    ]
}

/// One rule on a header map: no value leaves the map alone; a header that is
/// already present is left alone unless `override_existing`; otherwise the
/// header is set.
pub open spec fn apply_rule(
    map: Map<Seq<char>, Seq<char>>,
    rule: HeaderRule,
    override_existing: bool,
) -> Map<Seq<char>, Seq<char>> {
    match rule.1 {
        None => map,
        Some(v) => if !override_existing && header_lookup(map, rule.0) is Some {
            map
        } else {
            header_set(map, rule.0, v)
        },
    }
}

/// The rules applied one after the other.
pub open spec fn apply_rules(
    map: Map<Seq<char>, Seq<char>>,
    rules: Seq<HeaderRule>,
    override_existing: bool,
) -> Map<Seq<char>, Seq<char>>
    decreases rules.len(),
{
    if rules.len() == 0 {
        map
    } else {
        apply_rules(apply_rule(map, rules[0], override_existing), rules.drop_first(), override_existing)
    }
}

/// The headers a response ends with under a configuration.
pub open spec fn secured_headers(map: Map<Seq<char>, Seq<char>>, c: SecurityHeadersConfig) -> Map<
    Seq<char>,
    Seq<char>,
> {
    apply_rules(map, header_rules(c), c.override_existing)
}

/// The default policy: `nosniff`, `DENY`, `no-referrer` and a permissions policy
/// that disables camera, microphone and geolocation; no CSP, no HSTS, and existing
/// headers are kept.
pub open spec fn is_default_config(c: SecurityHeadersConfig) -> bool {
    &&& opt_text(c.content_type_options) == Some("nosniff"@)
    &&& opt_text(c.frame_options) == Some("DENY"@)
    &&& opt_text(c.referrer_policy) == Some("no-referrer"@)
    &&& opt_text(c.permissions_policy) == Some("camera=(), microphone=(), geolocation=()"@)
    &&& c.content_security_policy is None
    &&& c.strict_transport_security is None
    &&& !c.override_existing
}

fn some_text(s: &str) -> (r: Option<String>)
    ensures
        opt_text(r) == Some(s@),
{
    Some(crate::text::to_string(s))
}

impl Default for SecurityHeadersConfig {
    fn default() -> (c: Self)
        ensures
            is_default_config(c),
    {
        SecurityHeadersConfig {
            content_type_options: some_text(DEFAULT_CONTENT_TYPE_OPTIONS),
            frame_options: some_text(DEFAULT_FRAME_OPTIONS),
            referrer_policy: some_text(DEFAULT_REFERRER_POLICY),
            permissions_policy: some_text(DEFAULT_PERMISSIONS_POLICY),
            content_security_policy: None,
            strict_transport_security: None,
            override_existing: false,
        }
    }
}

impl SecurityHeadersConfig {
    /// The default policy.
    pub fn new() -> (c: Self)
        ensures
            is_default_config(c),
    {
        Self::default()
    }

    /// Set `X-Content-Type-Options`.
    pub fn content_type_options(self, value: &str) -> (c: Self)
        ensures
            c == (SecurityHeadersConfig { content_type_options: c.content_type_options, ..self }),
            opt_text(c.content_type_options) == Some(value@),
    {
        SecurityHeadersConfig { content_type_options: some_text(value), ..self }
    }

    /// Do not send `X-Content-Type-Options`.
    pub fn without_content_type_options(self) -> (c: Self)
        ensures
            c == (SecurityHeadersConfig { content_type_options: None, ..self }),
    {
        SecurityHeadersConfig { content_type_options: None, ..self }
    }

    /// Set `X-Frame-Options`.
    pub fn frame_options(self, value: &str) -> (c: Self)
        ensures
            c == (SecurityHeadersConfig { frame_options: c.frame_options, ..self }),
            opt_text(c.frame_options) == Some(value@),
    {
        SecurityHeadersConfig { frame_options: some_text(value), ..self }
    }

    /// Do not send `X-Frame-Options`.
    pub fn without_frame_options(self) -> (c: Self)
        ensures
            c == (SecurityHeadersConfig { frame_options: None, ..self }),
    {
        SecurityHeadersConfig { frame_options: None, ..self }
    }

    /// Set `Referrer-Policy`.
    pub fn referrer_policy(self, value: &str) -> (c: Self)
        ensures
            c == (SecurityHeadersConfig { referrer_policy: c.referrer_policy, ..self }),
            opt_text(c.referrer_policy) == Some(value@),
    {
        SecurityHeadersConfig { referrer_policy: some_text(value), ..self }
    }

    /// Do not send `Referrer-Policy`.
    pub fn without_referrer_policy(self) -> (c: Self)
        ensures
            c == (SecurityHeadersConfig { referrer_policy: None, ..self }),
    {
        SecurityHeadersConfig { referrer_policy: None, ..self }
    }

    /// Set `Permissions-Policy`.
    pub fn permissions_policy(self, value: &str) -> (c: Self)
        ensures
            c == (SecurityHeadersConfig { permissions_policy: c.permissions_policy, ..self }),
            opt_text(c.permissions_policy) == Some(value@),
    {
        SecurityHeadersConfig { permissions_policy: some_text(value), ..self }
    }

    /// Do not send `Permissions-Policy`.
    pub fn without_permissions_policy(self) -> (c: Self)
        ensures
            c == (SecurityHeadersConfig { permissions_policy: None, ..self }),
    {
        SecurityHeadersConfig { permissions_policy: None, ..self }
    }

    /// Set `Content-Security-Policy`.
    pub fn content_security_policy(self, value: &str) -> (c: Self)
        ensures
            c == (SecurityHeadersConfig { content_security_policy: c.content_security_policy, ..self }),
            opt_text(c.content_security_policy) == Some(value@),
    {
        SecurityHeadersConfig { content_security_policy: some_text(value), ..self }
    }

    /// Do not send `Content-Security-Policy`.
    pub fn without_content_security_policy(self) -> (c: Self)
        ensures
            c == (SecurityHeadersConfig { content_security_policy: None, ..self }),
    {
        SecurityHeadersConfig { content_security_policy: None, ..self }
    }

    /// Set `Strict-Transport-Security`.
    pub fn strict_transport_security(self, value: &str) -> (c: Self)
        ensures
            c == (SecurityHeadersConfig {
                strict_transport_security: c.strict_transport_security,
                ..self
            }),
            opt_text(c.strict_transport_security) == Some(value@),
    {
        SecurityHeadersConfig { strict_transport_security: some_text(value), ..self }
    }

    /// Do not send `Strict-Transport-Security`.
    pub fn without_strict_transport_security(self) -> (c: Self)
        ensures
            c == (SecurityHeadersConfig { strict_transport_security: None, ..self }),
    {
        SecurityHeadersConfig { strict_transport_security: None, ..self }
    }

    /// Whether configured headers replace values already on the response.
    pub fn override_existing(self, yes: bool) -> (c: Self)
        ensures
            c == (SecurityHeadersConfig { override_existing: yes, ..self }),
    {
        SecurityHeadersConfig { override_existing: yes, ..self }
    }
}

/// Middleware that applies common HTTP security headers to every response.
pub struct SecurityHeadersMiddleware {
    config: SecurityHeadersConfig,
}

/// Return middleware that applies common HTTP security headers.
pub fn security_headers_middleware(config: SecurityHeadersConfig) -> (m: SecurityHeadersMiddleware)
    ensures
        m.config() == config,
{
    SecurityHeadersMiddleware { config }
}

impl SecurityHeadersMiddleware {
    /// The configuration the middleware applies.
    pub closed spec fn config(self) -> SecurityHeadersConfig {
        self.config
    }

    /// What the middleware does to the response of the rest of the chain.
    pub fn apply(&self, resp: Response) -> (r: Response)
        ensures
            r.status_of() == resp.status_of(),
            r.body_of() == resp.body_of(),
            r.headers_of() == secured_headers(resp.headers_of(), self.config()),
    {
        apply_security_headers(resp, &self.config)
    }
}

/// Apply every configured header, in the fixed order of [`header_rules`].
fn apply_security_headers(resp: Response, config: &SecurityHeadersConfig) -> (r: Response)
    ensures
        r.status_of() == resp.status_of(),
        r.body_of() == resp.body_of(),
        r.headers_of() == secured_headers(resp.headers_of(), *config),
{
    let ghost rules = header_rules(*config);
    let ghost ov = config.override_existing;
    let ghost m0 = resp.headers_of();
    let ov_exec = config.override_existing;
    let r1 = set_header(resp, "x-content-type-options", as_text(&config.content_type_options), ov_exec);
    let r2 = set_header(r1, "x-frame-options", as_text(&config.frame_options), ov_exec);
    let r3 = set_header(r2, "referrer-policy", as_text(&config.referrer_policy), ov_exec);
    let r4 = set_header(r3, "permissions-policy", as_text(&config.permissions_policy), ov_exec);
    let r5 = set_header(
        r4,
        "content-security-policy",
        as_text(&config.content_security_policy),
        ov_exec,
    );
    let r6 = set_header(
        r5,
        "strict-transport-security",
        as_text(&config.strict_transport_security),
        ov_exec,
    );
    proof {
        reveal_with_fuel(apply_rules, 7);
        let m1 = apply_rule(m0, rules[0], ov);
        let m2 = apply_rule(m1, rules[1], ov);
        let m3 = apply_rule(m2, rules[2], ov);
        let m4 = apply_rule(m3, rules[3], ov);
        let m5 = apply_rule(m4, rules[4], ov);
        let m6 = apply_rule(m5, rules[5], ov);
        assert(rules.drop_first().drop_first().drop_first().drop_first().drop_first().drop_first()
            =~= Seq::<HeaderRule>::empty());
        assert(apply_rules(m5, rules.drop_first().drop_first().drop_first().drop_first().drop_first(), ov) == m6);
        assert(apply_rules(m4, rules.drop_first().drop_first().drop_first().drop_first(), ov) == m6);
        assert(apply_rules(m3, rules.drop_first().drop_first().drop_first(), ov) == m6);
        assert(apply_rules(m2, rules.drop_first().drop_first(), ov) == m6);
        assert(apply_rules(m1, rules.drop_first(), ov) == m6);
        assert(apply_rules(m0, rules, ov) == m6);
    }
    r6
}

/// The text of an optional configured value.
fn as_text(o: &Option<String>) -> (r: Option<&str>)
    ensures
        match r {
            Some(s) => opt_text(*o) == Some(s@),
            None => o is None,
        },
{
    match o {
        Some(s) => Some(s.as_str()),
        None => None,
    }
}

/// Apply one header rule to a response.
fn set_header(resp: Response, name: &str, value: Option<&str>, override_existing: bool) -> (r:
    Response)
    ensures
        r.status_of() == resp.status_of(),
        r.body_of() == resp.body_of(),
        r.headers_of() == apply_rule(
            resp.headers_of(),
            (name@, match value {
                Some(v) => Some(v@),
                None => None,
            }),
            override_existing,
        ),
{
    let value = match value {
        Some(v) => v,
        None => return resp,
    };
    if !override_existing && resp.headers().contains_key(name) {
        return resp;
    }
    resp.header(name, value)
}

/// Headers already on a response are kept when `override_existing` is off,
/// whatever the configuration.
pub proof fn lemma_existing_headers_preserved(
    map: Map<Seq<char>, Seq<char>>,
    rules: Seq<HeaderRule>,
    key: Seq<char>,
)
    requires
        map.contains_key(key),
    ensures
        apply_rules(map, rules, false).contains_key(key),
        apply_rules(map, rules, false)[key] == map[key],
    decreases rules.len(),
{
    if rules.len() > 0 {
        let next = apply_rule(map, rules[0], false);
        assert(next.contains_key(key) && next[key] == map[key]);
        lemma_existing_headers_preserved(next, rules.drop_first(), key);
    }
}

/// The key a rule would write, if it has a value and its name is accepted.
pub open spec fn rule_key(rule: HeaderRule) -> Option<Seq<char>> {
    match rule.1 {
        Some(_) => crate::response::parsed_header_name(rule.0),
        None => None,
    }
}

/// Only the headers the configuration names are touched: any other header is
/// present afterwards exactly when it was before, with the same value.
pub proof fn lemma_other_headers_untouched(
    map: Map<Seq<char>, Seq<char>>,
    rules: Seq<HeaderRule>,
    override_existing: bool,
    key: Seq<char>,
)
    requires
        forall|i: int| 0 <= i < rules.len() ==> rule_key(#[trigger] rules[i]) != Some(key),
    ensures
        apply_rules(map, rules, override_existing).contains_key(key) == map.contains_key(key),
        map.contains_key(key) ==> apply_rules(map, rules, override_existing)[key] == map[key],
    decreases rules.len(),
{
    if rules.len() > 0 {
        let next = apply_rule(map, rules[0], override_existing);
        assert(rule_key(rules[0]) != Some(key));
        assert(next.contains_key(key) == map.contains_key(key));
        assert(map.contains_key(key) ==> next[key] == map[key]);
        assert forall|i: int| 0 <= i < rules.drop_first().len() implies rule_key(
            #[trigger] rules.drop_first()[i],
        ) != Some(key) by {
            assert(rules.drop_first()[i] == rules[i + 1]);
        }
        lemma_other_headers_untouched(next, rules.drop_first(), override_existing, key);
    }
}

/// A configured header with an accepted name and value ends up on the response with
/// the configured value, when it overrides or the response did not have it; this needs
/// no other rule to write the same header.
pub proof fn lemma_configured_header_set(
    map: Map<Seq<char>, Seq<char>>,
    rules: Seq<HeaderRule>,
    override_existing: bool,
    i: int,
    key: Seq<char>,
    value: Seq<char>,
)
    requires
        0 <= i < rules.len(),
        rules[i].1 == Some(value),
        crate::response::parsed_header_name(rules[i].0) == Some(key),
        crate::response::header_value_valid(value),
        override_existing || !map.contains_key(key),
        forall|j: int| 0 <= j < rules.len() && j != i ==> rule_key(#[trigger] rules[j]) != Some(key),
    ensures
        apply_rules(map, rules, override_existing).contains_key(key),
        apply_rules(map, rules, override_existing)[key] == value,
    decreases rules.len(),
{
    let next = apply_rule(map, rules[0], override_existing);
    let rest = rules.drop_first();
    if i == 0 {
        assert(next == map.insert(key, value));
        if override_existing {
            assert forall|j: int| 0 <= j < rest.len() implies rule_key(#[trigger] rest[j]) != Some(
                key,
            ) by {
                assert(rest[j] == rules[j + 1]);
            }
            lemma_writes_elsewhere_keep_key(next, rest, override_existing, key);
        } else {
            lemma_existing_headers_preserved(next, rest, key);
        }
    } else {
        assert(rule_key(rules[0]) != Some(key));
        assert(next.contains_key(key) == map.contains_key(key));
        assert forall|j: int| 0 <= j < rest.len() && j != i - 1 implies rule_key(
            #[trigger] rest[j],
        ) != Some(key) by {
            assert(rest[j] == rules[j + 1]);
        }
        assert(rest[i - 1] == rules[i]);
        lemma_configured_header_set(next, rest, override_existing, i - 1, key, value);
    }
}

/// Rules that write other keys keep a key's value.
proof fn lemma_writes_elsewhere_keep_key(
    map: Map<Seq<char>, Seq<char>>,
    rules: Seq<HeaderRule>,
    override_existing: bool,
    key: Seq<char>,
)
    requires
        map.contains_key(key),
        forall|j: int| 0 <= j < rules.len() ==> rule_key(#[trigger] rules[j]) != Some(key),
    ensures
        apply_rules(map, rules, override_existing).contains_key(key),
        apply_rules(map, rules, override_existing)[key] == map[key],
{
    lemma_other_headers_untouched(map, rules, override_existing, key);
}

} // verus!
