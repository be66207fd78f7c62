//! # HTTP Runtime
//!
//! What the streamable HTTP transport lets in, what it says of a request, and what it
//! tells clients about authentication.

use vstd::prelude::*;
use vstd::string::*;

use crate::config;
use crate::error;
use crate::http_config;
use crate::http_config::{ClientIp, HttpSettings};
use crate::json;
use crate::json::{Json, Object, Tree};
use crate::text;

verus! {

// ---------------------------------------------------------------------------
// Headers.
// ---------------------------------------------------------------------------

/// A header of a request: its name, and its value where that is text.
#[derive(Debug)]
pub struct HeaderLine {
    pub name: String,
    pub value: Option<String>,
}

/// Where the first header with a name stands, or their number. The case of a name does not
/// matter.
pub open spec fn header_place(headers: Seq<HeaderLine>, name: Seq<char>) -> nat
    decreases headers.len(),
{
    if headers.len() == 0 || http_config::same_ignoring_case(headers[0].name@, name) {
        0
    } else {
        1 + header_place(headers.skip(1), name)
    }
}

/// Whether there is a header with a name.
pub open spec fn has_header(headers: Seq<HeaderLine>, name: Seq<char>) -> bool {
    header_place(headers, name) < headers.len()
}

/// The text of the first header with a name, where it is not blank.
pub open spec fn text_of_header(headers: Seq<HeaderLine>, name: Seq<char>) -> Option<Seq<char>> {
    let at = header_place(headers, name);
    if at < headers.len() {
        config::cleaned(text::opt_text(headers[at as int].value))
    } else {
        None
    }
}

proof fn lemma_header_place(headers: Seq<HeaderLine>, name: Seq<char>, n: int)
    requires
        0 <= n <= headers.len(),
        forall|j: int|
            0 <= j < n ==> !http_config::same_ignoring_case((#[trigger] headers[j]).name@, name),
        n < headers.len() ==> http_config::same_ignoring_case(headers[n].name@, name),
    ensures
        header_place(headers, name) == n,
    decreases headers.len(),
{
    if n > 0 {
        assert(!http_config::same_ignoring_case(headers[0].name@, name));
        assert forall|j: int| 0 <= j < n - 1 implies !http_config::same_ignoring_case(
            (#[trigger] headers.skip(1)[j]).name@,
            name,
        ) by {
            assert(headers.skip(1)[j] == headers[j + 1]);
        }
        lemma_header_place(headers.skip(1), name, n - 1);
    }
}

fn same_header(a: &str, b: &str) -> (r: bool)
    ensures
        r == http_config::same_ignoring_case(a@, b@),
{
    text::same_text(text::to_lower(a).as_str(), text::to_lower(b).as_str())
}

fn find_header(headers: &[HeaderLine], name: &str) -> (r: Option<usize>)
    ensures
        match r {
            Some(at) => at == header_place(headers@, name@) && at < headers@.len(),
            None => !has_header(headers@, name@),
        },
{
    for i in 0..headers.len()
        invariant
            forall|j: int|
                0 <= j < i ==> !http_config::same_ignoring_case(
                    (#[trigger] headers@[j]).name@,
                    name@,
                ),
    {
        if same_header(headers[i].name.as_str(), name) {
            proof {
                lemma_header_place(headers@, name@, i as int);
            }
            return Some(i);
        }
    }
    proof {
        lemma_header_place(headers@, name@, headers@.len() as int);
    }
    None
}

/// The text of the first header with a name, where it is not blank.
pub fn header_text(headers: &[HeaderLine], name: &str) -> (r: Option<String>)
    ensures
        text::opt_text(r) == text_of_header(headers@, name@),
{
    match find_header(headers, name) {
        Some(at) => config::trim_optional(text::clone_opt(&headers[at].value)),
        None => None,
    }
}

// ---------------------------------------------------------------------------
// Guards.
// ---------------------------------------------------------------------------

/// Whether a path leads to the MCP service.
pub open spec fn leads_to_mcp(path: Seq<char>) -> bool {
    path == "/mcp"@ || text::begins(path, "/mcp/"@)
}

/// Whether a path leads to the MCP service.
pub fn request_targets_mcp(path: &str) -> (r: bool)
    ensures
        r == leads_to_mcp(path@),
{
    text::same_text(path, "/mcp") || text::starts_with(path, "/mcp/")
}

/// Whether a request brings credentials.
pub open spec fn brings_auth(headers: Seq<HeaderLine>) -> bool {
    has_header(headers, "authorization"@) || has_header(headers, "proxy-authorization"@)
}

/// Whether a request brings credentials.
pub fn request_has_inbound_auth(headers: &[HeaderLine]) -> (r: bool)
    ensures
        r == brings_auth(headers@),
{
    find_header(headers, "authorization").is_some() || find_header(
        headers,
        "proxy-authorization",
    ).is_some()
}

/// Whether a request brings credentials in another header than the one for upstream
/// tokens.
pub open spec fn brings_other_auth(headers: Seq<HeaderLine>, token_header: Seq<char>) -> bool {
    ||| has_header(headers, "authorization"@) && !http_config::same_ignoring_case(
        token_header,
        "authorization"@,
    )
    ||| has_header(headers, "proxy-authorization"@) && !http_config::same_ignoring_case(
        token_header,
        "proxy-authorization"@,
    )
}

/// Whether a request brings credentials in another header than the one for upstream
/// tokens.
pub fn request_has_disallowed_inbound_auth(
    headers: &[HeaderLine],
    upstream_token_header: &str,
) -> (r: bool)
    ensures
        r == brings_other_auth(headers@, upstream_token_header@),
{
    (find_header(headers, "authorization").is_some() && !same_header(
        upstream_token_header,
        "authorization",
    )) || (find_header(headers, "proxy-authorization").is_some() && !same_header(
        upstream_token_header,
        "proxy-authorization",
    ))
}

/// An answer that keeps a request out.
#[derive(Debug, Clone, Copy)]
pub struct Refusal {
    pub status: u16,
    pub message: &'static str,
}

/// Whether the credentials of a request keep it out. A server that authenticates requests
/// looks at them itself.
pub open spec fn auth_keeps_out(
    auth_enabled: bool,
    accepts_tokens: bool,
    token_header: Seq<char>,
    path: Seq<char>,
    headers: Seq<HeaderLine>,
) -> bool {
    &&& !auth_enabled
    &&& leads_to_mcp(path)
    &&& brings_auth(headers)
    &&& !accepts_tokens || brings_other_auth(headers, token_header)
}

/// The answer to a request whose credentials keep it out.
pub fn inbound_auth_refusal(
    auth_enabled: bool,
    accepts_upstream_request_tokens: bool,
    upstream_token_header: &str,
    path: &str,
    headers: &[HeaderLine],
) -> (r: Option<Refusal>)
    ensures
        r is Some == auth_keeps_out(
            auth_enabled,
            accepts_upstream_request_tokens,
            upstream_token_header@,
            path@,
            headers@,
        ),
        r matches Some(refusal) ==> refusal.status == 400 && refusal.message@
            == "Authorization headers are not accepted on /mcp unless request-header upstream token mode explicitly uses that header"@,
{
    if !auth_enabled && request_targets_mcp(path) && request_has_inbound_auth(headers) && (
    !accepts_upstream_request_tokens || request_has_disallowed_inbound_auth(
        headers,
        upstream_token_header,
    )) {
        return Some(
            Refusal {
                status: 400,
                message: "Authorization headers are not accepted on /mcp unless request-header upstream token mode explicitly uses that header",
            },
        );
    }
    None
}

/// The answer to a request whose address keeps it out.
pub fn client_ip_refusal(settings: &HttpSettings, client_ip: Option<ClientIp>) -> (r: Option<
    Refusal,
>)
    ensures
        match client_ip {
            None => r matches Some(refusal) && refusal.status == 500 && refusal.message@
                == "Missing client address metadata"@,
            Some(ip) => if settings.admits(ip) {
                r is None
            } else {
                r matches Some(refusal) && refusal.status == 403 && refusal.message@
                    == "Client IP is not in the allowed CIDR set"@
            },
        },
{
    match client_ip {
        None => Some(Refusal { status: 500, message: "Missing client address metadata" }),
        Some(ip) => {
            if settings.client_ip_allowed(ip) {
                None
            } else {
                Some(
                    Refusal { status: 403, message: "Client IP is not in the allowed CIDR set" },
                )
            }
        },
    }
}

// ---------------------------------------------------------------------------
// What is said of a request.
// ---------------------------------------------------------------------------

/// How serious an event is.
#[derive(Debug, Clone, Copy, PartialEq, Eq, Structural)]
pub enum EventLevel {
    Info,
    Warn,
    Failure,
}

/// A field of an event.
#[derive(Debug)]
pub struct EventField {
    pub name: &'static str,
    pub value: String,
}

/// The fields of an event.
pub open spec fn fields_view(fields: Seq<EventField>) -> Seq<(Seq<char>, Seq<char>)> {
    Seq::new(fields.len(), |i: int| (fields[i].name@, fields[i].value@))
}

/// Adds a field to an event.
pub fn add_field(fields: &mut Vec<EventField>, name: &'static str, value: &str)
    ensures
        fields_view(final(fields)@) == fields_view(old(fields)@).push((name@, value@)),
{
    fields.push(EventField { name, value: value.to_owned() });
    assert(fields_view(fields@) =~= fields_view(old(fields)@).push((name@, value@)));
}

/// An event before its first field.
pub open spec fn no_fields() -> Seq<(Seq<char>, Seq<char>)> {
    Seq::<(Seq<char>, Seq<char>)>::empty()
}

/// How serious an answer is.
pub open spec fn level_of(status: u16) -> EventLevel {
    if 500 <= status <= 599 {
        EventLevel::Failure
    } else if 400 <= status <= 499 {
        EventLevel::Warn
    } else {
        EventLevel::Info
    }
}

/// A truth value in words.
pub open spec fn true_or_false(value: bool) -> Seq<char> {
    if value {
        "true"@
    } else {
        "false"@
    }
}

/// A truth value in words.
pub fn truth(value: bool) -> (r: &'static str)
    ensures
        r@ == true_or_false(value),
{
    if value {
        "true"
    } else {
        "false"
    }
}

/// `fields` with one more, where there is a value for it.
pub open spec fn with_field(
    fields: Seq<(Seq<char>, Seq<char>)>,
    name: Seq<char>,
    value: Option<Seq<char>>,
) -> Seq<(Seq<char>, Seq<char>)> {
    match value {
        Some(held) => fields.push((name, held)),
        None => fields,
    }
}

fn add_some(fields: &mut Vec<EventField>, name: &'static str, value: &Option<String>)
    ensures
        fields_view(final(fields)@) == with_field(
            fields_view(old(fields)@),
            name@,
            text::opt_text(*value),
        ),
{
    match value {
        Some(held) => {
            add_field(fields, name, held.as_str());
        },
        None => {},
    }
}

/// A request and its answer.
#[derive(Debug)]
pub struct AuditedRequest {
    pub method: String,
    pub path: String,
    pub status: u16,
    pub auth_enabled: bool,
    pub host: Option<String>,
    pub remote_addr: Option<String>,
    pub headers: Vec<HeaderLine>,
}

/// What is noted of a request.
pub open spec fn audit_fields_of(request: AuditedRequest) -> Seq<(Seq<char>, Seq<char>)> {
    let headers = request.headers@;
    let start = no_fields()
        .push(("method"@, request.method@))
        .push(("path"@, request.path@))
        .push(("status"@, text::decimal(request.status as nat)))
        .push(("auth_enabled"@, true_or_false(request.auth_enabled)));
    let host = with_field(start, "host"@, text::opt_text(request.host));
    let ray = with_field(host, "cf_ray"@, text_of_header(headers, "cf-ray"@));
    let connecting = with_field(
        ray,
        "cf_connecting_ip"@,
        text_of_header(headers, "cf-connecting-ip"@),
    );
    let client = with_field(
        connecting,
        "true_client_ip"@,
        text_of_header(headers, "true-client-ip"@),
    );
    let agent = with_field(client, "user_agent"@, text_of_header(headers, "user-agent"@));
    with_field(agent, "remote_addr"@, text::opt_text(request.remote_addr))
}

/// What is noted of a request.
pub fn audit_fields(request: &AuditedRequest) -> (r: (EventLevel, Vec<EventField>))
    ensures
        r.0 == level_of(request.status),
        fields_view(r.1@) == audit_fields_of(*request),
{
    let level: EventLevel = if 500 <= request.status && request.status <= 599 {
        EventLevel::Failure
    } else if 400 <= request.status && request.status <= 499 {
        EventLevel::Warn
    } else {
        EventLevel::Info
    };
    let headers: &[HeaderLine] = request.headers.as_slice();
    let mut fields: Vec<EventField> = Vec::new();
    assert(fields_view(fields@) =~= no_fields());
    add_field(&mut fields, "method", request.method.as_str());
    add_field(&mut fields, "path", request.path.as_str());
    add_field(&mut fields, "status", text::decimal_text(request.status as u64).as_str());
    add_field(&mut fields, "auth_enabled", truth(request.auth_enabled));
    add_some(&mut fields, "host", &request.host);
    add_some(&mut fields, "cf_ray", &header_text(headers, "cf-ray"));
    add_some(&mut fields, "cf_connecting_ip", &header_text(headers, "cf-connecting-ip"));
    add_some(&mut fields, "true_client_ip", &header_text(headers, "true-client-ip"));
    add_some(&mut fields, "user_agent", &header_text(headers, "user-agent"));
    add_some(&mut fields, "remote_addr", &request.remote_addr);
    (level, fields)
}

/// The host that is noted of a request: that of its host header, else that of its target.
pub fn request_host_for_log(header_host: Option<String>, target_host: Option<String>) -> (r: Option<
    String,
>)
    ensures
        r == (if header_host is Some {
            header_host
        } else {
            target_host
        }),
{
    match header_host {
        Some(host) => Some(host),
        None => target_host,
    }
}

/// What is noted when the server starts.
pub fn startup_fields(settings: &HttpSettings) -> (r: Vec<EventField>)
    ensures
        fields_view(r@) == no_fields()
            .push(("transport"@, "streamable_http"@))
            .push(("bind_addr"@, settings.bind_addr@))
            .push(("allow_non_loopback"@, true_or_false(settings.allow_non_loopback)))
            .push(("tls_enabled"@, true_or_false(settings.has_tls())))
            .push(("auth_enabled"@, true_or_false(settings.auth.enabled))),
{
    let mut fields: Vec<EventField> = Vec::new();
    assert(fields_view(fields@) =~= no_fields());
    add_field(&mut fields, "transport", "streamable_http");
    add_field(&mut fields, "bind_addr", settings.bind_addr.as_str());
    add_field(&mut fields, "allow_non_loopback", truth(settings.allow_non_loopback));
    add_field(&mut fields, "tls_enabled", truth(settings.tls_files().is_some()));
    add_field(&mut fields, "auth_enabled", truth(settings.auth.enabled));
    fields
}

/// What the server says of its health.
pub fn health_payload(settings: &HttpSettings) -> (r: Json)
    ensures
        r@ == Tree::Dict(
            json::fields()
                .push(("status"@, Tree::Text("ok"@)))
                .push(("transport"@, Tree::Text("streamable_http"@)))
                .push(("bind_addr"@, Tree::Text(settings.bind_addr@)))
                .push(
                    (
                        "cidr_allowlist_entries"@,
                        Tree::Whole(settings.allowed_cidrs@.len() as int),
                    ),
                )
                .push(
                    (
                        "host_allowlist_entries"@,
                        Tree::Whole(settings.allowed_hosts@.len() as int),
                    ),
                )
                .push(("auth_enabled"@, Tree::Bool(settings.auth.enabled))),
        ),
{
    let mut object = Object::new();
    object.put("status", json::string("ok"));
    object.put("transport", json::string("streamable_http"));
    object.put("bind_addr", json::string(settings.bind_addr.as_str()));
    object.put("cidr_allowlist_entries", json::size(settings.allowed_cidrs.len()));
    object.put("host_allowlist_entries", json::size(settings.allowed_hosts.len()));
    object.put("auth_enabled", json::boolean(settings.auth.enabled));
    json::dict(object)
}

// ---------------------------------------------------------------------------
// The authentication surface.
// ---------------------------------------------------------------------------

/// The URL of the server, from the address that it listens on.
pub open spec fn own_url(settings: HttpSettings) -> Seq<char> {
    (if settings.has_tls() {
        "https"@
    } else {
        "http"@
    }) + "://"@ + settings.bind_addr@
}

/// The URL of the server, from the address that it listens on.
pub fn public_base_url(settings: &HttpSettings) -> (r: String)
    ensures
        r@ == own_url(*settings),
{
    let mut r: String = if settings.tls_files().is_some() {
        "https".to_owned()
    } else {
        "http".to_owned()
    };
    r.append("://");
    r.append(settings.bind_addr.as_str());
    r
}

/// The URL of the server, from the URL of its MCP service.
pub open spec fn base_of_resource(resource_url: Seq<char>) -> Option<Seq<char>> {
    let trimmed = config::without_end_slashes(text::trim(resource_url));
    if !text::ends(trimmed, "/mcp"@) {
        None
    } else {
        let base = config::without_end_slashes(
            trimmed.subrange(0, trimmed.len() - "/mcp"@.len()),
        );
        if base.len() == 0 {
            None
        } else {
            Some(base)
        }
    }
}

/// The URL of the server, from the URL of its MCP service.
pub fn public_base_url_from_resource_url(resource_url: &str) -> (r: Option<String>)
    ensures
        text::opt_text(r) == base_of_resource(resource_url@),
{
    let trimmed: String = config::strip_end_slashes(text::trimmed(resource_url).as_str());
    match text::strip_suffix(trimmed.as_str(), "/mcp") {
        Some(prefix) => {
            let base: String = config::strip_end_slashes(prefix.as_str());
            if base.as_str().is_empty() {
                None
            } else {
                Some(base)
            }
        },
        None => None,
    }
}

/// The endpoints of an issuer that does not name them.
pub open spec fn default_endpoints(issuer: Seq<char>) -> (Seq<char>, Seq<char>) {
    let base = config::without_end_slashes(issuer);
    if text::holds(base, "/realms/"@) {
        (base + "/protocol/openid-connect/auth"@, base + "/protocol/openid-connect/token"@)
    } else {
        (base + "/oauth/authorize"@, base + "/oauth/token"@)
    }
}

/// The endpoints of an issuer that does not name them.
pub fn fallback_oauth_endpoints(issuer: &str) -> (r: (String, String))
    ensures
        (r.0@, r.1@) == default_endpoints(issuer@),
{
    let base: String = config::strip_end_slashes(issuer);
    if text::contains(base.as_str(), "/realms/") {
        (
            error::labelled(base.as_str(), "/protocol/openid-connect/auth"),
            error::labelled(base.as_str(), "/protocol/openid-connect/token"),
        )
    } else {
        (
            error::labelled(base.as_str(), "/oauth/authorize"),
            error::labelled(base.as_str(), "/oauth/token"),
        )
    }
}

/// What an issuer says of itself.
#[derive(Debug)]
pub struct IssuerMetadata {
    pub authorization_endpoint: Option<String>,
    pub token_endpoint: Option<String>,
    pub registration_endpoint: Option<String>,
    pub jwks_uri: String,
    pub introspection_endpoint: Option<String>,
    pub device_authorization_endpoint: Option<String>,
    pub grant_types_supported: Option<Vec<String>>,
    pub client_id_metadata_document_supported: Option<bool>,
    pub token_endpoint_auth_methods_supported: Option<Vec<String>>,
    pub code_challenge_methods_supported: Option<Vec<String>>,
}

/// What clients are told about authentication.
#[derive(Debug)]
pub struct AuthSurface {
    pub base_url: String,
    pub resource_path: String,
    pub issuer: String,
    pub authorization_endpoint: String,
    pub token_endpoint: String,
    pub registration_endpoint: Option<String>,
    pub jwks_uri: Option<String>,
    pub introspection_endpoint: Option<String>,
    pub device_authorization_endpoint: Option<String>,
    pub grant_types_supported: Option<Vec<String>>,
    pub client_id_metadata_document_supported: Option<bool>,
    pub token_endpoint_auth_methods_supported: Option<Vec<String>>,
    pub code_challenge_methods_supported: Option<Vec<String>>,
    pub realm: String,
    pub scopes_supported: Vec<String>,
    pub allowed_client_ids: Vec<String>,
    pub resource_url_override: Option<String>,
    pub allow_insecure_http: bool,
}

/// The URL of the server that clients are told.
pub open spec fn surface_base(settings: HttpSettings) -> Seq<char> {
    match settings.auth.resource_url {
        Some(resource_url) => match base_of_resource(resource_url@) {
            Some(derived) => derived,
            None => own_url(settings),
        },
        None => own_url(settings),
    }
}

/// The issuer that clients are told: the one of the settings, else the server itself.
pub open spec fn surface_issuer(settings: HttpSettings) -> Seq<char> {
    match config::cleaned(text::opt_text(settings.auth.issuer)) {
        Some(issuer) => issuer,
        None => surface_base(settings),
    }
}

/// The first of two texts that is there.
pub open spec fn first_of(a: Option<Seq<char>>, b: Option<Seq<char>>) -> Option<Seq<char>> {
    match a {
        Some(_) => a,
        None => b,
    }
}

/// Whether a URL is not an encrypted one.
pub open spec fn is_insecure(url: Seq<char>) -> bool {
    text::begins(text::trim(url), "http://"@)
}

/// Whether a URL that may be set is not an encrypted one.
pub open spec fn some_insecure(url: Option<String>) -> bool {
    url matches Some(held) && is_insecure(held@)
}

/// Whether a URL is not an encrypted one.
pub fn url_uses_insecure_http(value: &str) -> (r: bool)
    ensures
        r == is_insecure(value@),
{
    text::starts_with(text::trimmed(value).as_str(), "http://")
}

fn some_url_insecure(value: &Option<String>) -> (r: bool)
    ensures
        r == some_insecure(*value),
{
    match value {
        Some(held) => url_uses_insecure_http(held.as_str()),
        None => false,
    }
}

impl AuthSurface {
    /// Whether one of the URLs that clients are told is not an encrypted one.
    pub open spec fn shows_insecure(self) -> bool {
        ||| is_insecure(self.base_url@)
        ||| is_insecure(self.issuer@)
        ||| is_insecure(self.authorization_endpoint@)
        ||| is_insecure(self.token_endpoint@)
        ||| some_insecure(self.jwks_uri)
        ||| some_insecure(self.introspection_endpoint)
        ||| some_insecure(self.resource_url_override)
    }

    /// Whether one of the URLs that clients are told is not an encrypted one.
    pub fn auth_surface_allow_insecure_http(&self) -> (r: bool)
        ensures
            r == self.shows_insecure(),
    {
        url_uses_insecure_http(self.base_url.as_str()) || url_uses_insecure_http(
            self.issuer.as_str(),
        ) || url_uses_insecure_http(self.authorization_endpoint.as_str())
            || url_uses_insecure_http(self.token_endpoint.as_str()) || some_url_insecure(
            &self.jwks_uri,
        ) || some_url_insecure(&self.introspection_endpoint) || some_url_insecure(
            &self.resource_url_override,
        )
    }

    /// Whether this is what clients are told, given what the issuer says of itself.
    pub open spec fn tells(self, settings: HttpSettings, metadata: Option<IssuerMetadata>) -> bool {
        let defaults = default_endpoints(surface_issuer(settings));
        let config = settings.auth.auth_config;
        &&& self.base_url@ == surface_base(settings)
        &&& self.resource_path@ == "/mcp"@
        &&& self.issuer@ == surface_issuer(settings)
        &&& self.realm@ == settings.auth.realm@
        &&& text::texts(self.scopes_supported@) == text::texts(settings.auth.scopes_supported@)
        &&& text::texts(self.allowed_client_ids@) == text::texts(settings.auth.allowed_client_ids@)
        &&& text::opt_text(self.resource_url_override) == text::opt_text(settings.auth.resource_url)
        &&& self.allow_insecure_http == self.shows_insecure()
        &&& match metadata {
            Some(found) => {
                &&& self.authorization_endpoint@ == (match found.authorization_endpoint {
                    Some(endpoint) => endpoint@,
                    None => defaults.0,
                })
                &&& self.token_endpoint@ == (match found.token_endpoint {
                    Some(endpoint) => endpoint@,
                    None => defaults.1,
                })
                &&& self.registration_endpoint == found.registration_endpoint
                &&& text::opt_text(self.jwks_uri) == first_of(
                    text::opt_text(config.jwks_url),
                    Some(found.jwks_uri@),
                )
                &&& text::opt_text(self.introspection_endpoint) == first_of(
                    text::opt_text(config.introspection_url),
                    text::opt_text(found.introspection_endpoint),
                )
                &&& self.device_authorization_endpoint == found.device_authorization_endpoint
                &&& self.grant_types_supported == found.grant_types_supported
                &&& self.client_id_metadata_document_supported
                    == found.client_id_metadata_document_supported
                &&& self.token_endpoint_auth_methods_supported
                    == found.token_endpoint_auth_methods_supported
                &&& self.code_challenge_methods_supported == found.code_challenge_methods_supported
            },
            None => {
                &&& self.authorization_endpoint@ == defaults.0
                &&& self.token_endpoint@ == defaults.1
                &&& self.registration_endpoint is None
                &&& text::opt_text(self.jwks_uri) == text::opt_text(config.jwks_url)
                &&& text::opt_text(self.introspection_endpoint) == text::opt_text(
                    config.introspection_url,
                )
                &&& self.device_authorization_endpoint is None
                &&& self.grant_types_supported is None
                &&& self.client_id_metadata_document_supported is None
                &&& self.token_endpoint_auth_methods_supported is None
                &&& self.code_challenge_methods_supported is None
            },
        }
    }
}

/// What the authentication surface is built from: its base URL and its issuer, and
/// whether the issuer is asked about itself.
#[derive(Debug)]
pub struct SurfacePlan {
    pub base_url: String,
    pub issuer: String,
    pub asks_issuer: bool,
    pub ignores_resource_url: bool,
}

/// What the authentication surface is built from, where requests are authenticated.
pub fn plan_auth_surface(settings: &HttpSettings) -> (r: Option<SurfacePlan>)
    ensures
        r is Some == settings.auth.enabled,
        r matches Some(plan) ==> plan.base_url@ == surface_base(*settings) && plan.issuer@
            == surface_issuer(*settings) && plan.asks_issuer == settings.auth.issuer is Some
            && plan.ignores_resource_url == (settings.auth.resource_url matches Some(url)
            && base_of_resource(url@) is None),
{
    if !settings.auth.enabled {
        return None;
    }
    let mut ignores_resource_url: bool = false;
    let base_url: String = match &settings.auth.resource_url {
        Some(resource_url) => match public_base_url_from_resource_url(resource_url.as_str()) {
            Some(derived) => derived,
            None => {
                ignores_resource_url = true;
                public_base_url(settings)
            },
        },
        None => public_base_url(settings),
    };
    let issuer: String = match config::trim_optional(text::clone_opt(&settings.auth.issuer)) {
        Some(issuer) => issuer,
        None => base_url.clone(),
    };
    Some(
        SurfacePlan {
            base_url,
            issuer,
            asks_issuer: settings.auth.issuer.is_some(),
            ignores_resource_url,
        },
    )
}

fn first_text(a: &Option<String>, b: Option<String>) -> (r: Option<String>)
    ensures
        text::opt_text(r) == first_of(text::opt_text(*a), text::opt_text(b)),
{
    match a {
        Some(held) => Some(held.clone()),
        None => b,
    }
}

fn named_surface(settings: &HttpSettings, plan: SurfacePlan) -> (r: AuthSurface)
    requires
        plan.base_url@ == surface_base(*settings),
        plan.issuer@ == surface_issuer(*settings),
    ensures
        r.tells(*settings, None),
{
    let (authorization_endpoint, token_endpoint): (String, String) = fallback_oauth_endpoints(
        plan.issuer.as_str(),
    );
    let mut surface = AuthSurface {
        base_url: plan.base_url,
        resource_path: "/mcp".to_owned(),
        issuer: plan.issuer,
        authorization_endpoint,
        token_endpoint,
        registration_endpoint: None,
        jwks_uri: text::clone_opt(&settings.auth.auth_config.jwks_url),
        introspection_endpoint: text::clone_opt(&settings.auth.auth_config.introspection_url),
        device_authorization_endpoint: None,
        grant_types_supported: None,
        client_id_metadata_document_supported: None,
        token_endpoint_auth_methods_supported: None,
        code_challenge_methods_supported: None,
        realm: settings.auth.realm.clone(),
        scopes_supported: text::clone_texts(settings.auth.scopes_supported.as_slice()),
        allowed_client_ids: text::clone_texts(settings.auth.allowed_client_ids.as_slice()),
        resource_url_override: text::clone_opt(&settings.auth.resource_url),
        allow_insecure_http: false,
    };
    surface.allow_insecure_http = surface.auth_surface_allow_insecure_http();
    surface
}

/// What clients are told about authentication, given what the issuer says of itself.
/// Where it was not asked or did not answer, the endpoints are those that issuers of its
/// kind have.
pub fn build_auth_surface(
    settings: &HttpSettings,
    plan: SurfacePlan,
    metadata: Option<IssuerMetadata>,
) -> (r: AuthSurface)
    requires
        plan.base_url@ == surface_base(*settings),
        plan.issuer@ == surface_issuer(*settings),
    ensures
        r.tells(*settings, metadata),
{
    let named: AuthSurface = named_surface(settings, plan);
    match metadata {
        None => named,
        Some(found) => {
            let mut surface = AuthSurface {
                authorization_endpoint: match found.authorization_endpoint {
                    Some(endpoint) => endpoint,
                    None => named.authorization_endpoint,
                },
                token_endpoint: match found.token_endpoint {
                    Some(endpoint) => endpoint,
                    None => named.token_endpoint,
                },
                registration_endpoint: found.registration_endpoint,
                jwks_uri: first_text(&named.jwks_uri, Some(found.jwks_uri)),
                introspection_endpoint: first_text(
                    &named.introspection_endpoint,
                    found.introspection_endpoint,
                ),
                device_authorization_endpoint: found.device_authorization_endpoint,
                grant_types_supported: found.grant_types_supported,
                client_id_metadata_document_supported: found.client_id_metadata_document_supported,
                token_endpoint_auth_methods_supported: found.token_endpoint_auth_methods_supported,
                code_challenge_methods_supported: found.code_challenge_methods_supported,
                base_url: named.base_url,
                resource_path: named.resource_path,
                issuer: named.issuer,
                realm: named.realm,
                scopes_supported: named.scopes_supported,
                allowed_client_ids: named.allowed_client_ids,
                resource_url_override: named.resource_url_override,
                allow_insecure_http: false,
            };
            surface.allow_insecure_http = surface.auth_surface_allow_insecure_http();
            surface
        },
    }
}

// ---------------------------------------------------------------------------
// Laws.
// ---------------------------------------------------------------------------

/// A server that neither authenticates requests nor takes tokens from them lets no
/// request with credentials through to the MCP service.
pub proof fn law_stray_credentials_are_refused(
    token_header: Seq<char>,
    path: Seq<char>,
    headers: Seq<HeaderLine>,
)
    requires
        leads_to_mcp(path),
        brings_auth(headers),
    ensures
        auth_keeps_out(false, false, token_header, path, headers),
{
}

/// Whatever header carries the upstream tokens, a request whose credentials are in another
/// one is kept out, and one without credentials is not.
pub proof fn law_only_the_token_header_is_open(
    token_header: Seq<char>,
    path: Seq<char>,
    headers: Seq<HeaderLine>,
)
    requires
        leads_to_mcp(path),
    ensures
        auth_keeps_out(false, true, token_header, path, headers) <==> brings_other_auth(
            headers,
            token_header,
        ),
        !brings_auth(headers) ==> !auth_keeps_out(false, true, token_header, path, headers),
{
}

/// What clients are told is marked as insecure exactly where one of its URLs is.
pub proof fn law_insecure_surfaces_say_so(
    surface: AuthSurface,
    settings: HttpSettings,
    metadata: Option<IssuerMetadata>,
)
    requires
        surface.tells(settings, metadata),
    ensures
        surface.allow_insecure_http <==> is_insecure(surface.base_url@) || is_insecure(surface.issuer@) || is_insecure(
            surface.authorization_endpoint@,
        ) || is_insecure(surface.token_endpoint@) || some_insecure(surface.jwks_uri)
            || some_insecure(surface.introspection_endpoint) || some_insecure(
            surface.resource_url_override,
        ),
{
}

/// A header is there exactly where a line has its name, in any case; and its text is that of
/// the first such line.
pub proof fn law_headers_are_found_by_name(headers: Seq<HeaderLine>, name: Seq<char>)
    ensures
        header_place(headers, name) <= headers.len(),
        has_header(headers, name) <==> exists|i: int|
            0 <= i < headers.len() && text::lowered((#[trigger] headers[i]).name@)
                == text::lowered(name),
        has_header(headers, name) ==> text::lowered(
            headers[header_place(headers, name) as int].name@,
        ) == text::lowered(name) && text_of_header(headers, name) == config::cleaned(
            text::opt_text(headers[header_place(headers, name) as int].value),
        ),
        forall|i: int|
            0 <= i < header_place(headers, name) ==> text::lowered((#[trigger] headers[i]).name@)
                != text::lowered(name),
        !has_header(headers, name) ==> text_of_header(headers, name) is None,
    decreases headers.len(),
{
    if headers.len() > 0 {
        if http_config::same_ignoring_case(headers[0].name@, name) {
            assert(text::lowered(headers[0].name@) == text::lowered(name));
        } else {
            let rest = headers.skip(1);
            law_headers_are_found_by_name(rest, name);
            assert(text::lowered(headers[0].name@) != text::lowered(name));
            assert forall|i: int| 0 <= i < header_place(headers, name) implies text::lowered(
                (#[trigger] headers[i]).name@,
            ) != text::lowered(name) by {
                if i > 0 {
                    assert(rest[i - 1] == headers[i]);
                }
            }
            if has_header(rest, name) {
                let k = header_place(rest, name) as int;
                assert(rest[k] == headers[k + 1]);
                assert(text::lowered(headers[k + 1].name@) == text::lowered(name));
            }
            if exists|i: int|
                0 <= i < headers.len() && text::lowered((#[trigger] headers[i]).name@)
                    == text::lowered(name) {
                let i = choose|i: int|
                    0 <= i < headers.len() && text::lowered((#[trigger] headers[i]).name@)
                        == text::lowered(name);
                assert(i > 0);
                assert(rest[i - 1] == headers[i]);
            }
        }
    }
}

/// A request is for the tools where its path is theirs or leads below it.
pub proof fn law_paths_of_tools(path: Seq<char>)
    ensures
        leads_to_mcp(path) <==> path == "/mcp"@ || text::stands_at(path, "/mcp/"@, 0),
{
    assert("/mcp/"@.len() <= path.len() ==> path.subrange(0, "/mcp/"@.len() as int) =~= path.take(
        "/mcp/"@.len() as int,
    ));
}

/// Where nobody signs in, a request for the tools may bring credentials in the header for tokens
/// only, and only where tokens are taken; where people sign in, nothing is kept out here.
pub proof fn law_credentials_are_kept_out(
    accepts_tokens: bool,
    token_header: Seq<char>,
    path: Seq<char>,
    headers: Seq<HeaderLine>,
)
    ensures
        !auth_keeps_out(true, accepts_tokens, token_header, path, headers),
        !leads_to_mcp(path) ==> !auth_keeps_out(false, accepts_tokens, token_header, path, headers),
        leads_to_mcp(path) ==> (auth_keeps_out(
            false,
            accepts_tokens,
            token_header,
            path,
            headers,
        ) <==> (has_header(headers, "authorization"@) && (!accepts_tokens || text::lowered(
            token_header,
        ) != text::lowered("authorization"@))) || (has_header(headers, "proxy-authorization"@) && (
        !accepts_tokens || text::lowered(token_header) != text::lowered(
            "proxy-authorization"@,
        )))),
{
}

/// An answer is noted as a failure from five hundred on, and as a warning from four hundred on.
pub proof fn law_levels_go_by_status(status: u16)
    ensures
        level_of(status) == EventLevel::Failure <==> 500 <= status < 600,
        level_of(status) == EventLevel::Warn <==> 400 <= status < 500,
{
}

/// The address of a server says whether it has a certificate.
pub proof fn law_addresses_say_whether_they_are_secure(settings: HttpSettings)
    ensures
        settings.tls_cert_path is Some && settings.tls_key_path is Some ==> own_url(settings)
            == "https://"@ + settings.bind_addr@,
        settings.tls_cert_path is None || settings.tls_key_path is None ==> own_url(settings)
            == "http://"@ + settings.bind_addr@,
{
    reveal_strlit("https");
    reveal_strlit("http");
    reveal_strlit("://");
    reveal_strlit("https://");
    reveal_strlit("http://");
    assert("https"@ + "://"@ =~= "https://"@);
    assert("http"@ + "://"@ =~= "http://"@);
}

/// The base of a server is what stands before the path of its tools.
pub proof fn law_bases_stand_before_the_path(base: Seq<char>, url: Seq<char>)
    requires
        base.len() > 0,
        !text::is_space(base[0]),
        base.last() != '/',
    ensures
        base_of_resource(base + "/mcp"@) == Some(base),
        base_of_resource(base + "/mcp/"@) == Some(base),
        base_of_resource(url) is Some ==> text::ends(
            config::without_end_slashes(text::trim(url)),
            "/mcp"@,
        ),
{
    reveal_strlit("/mcp");
    reveal_strlit("/mcp/");
    let plain = base + "/mcp"@;
    let ended = base + "/mcp/"@;
    assert(plain.last() == 'p');
    assert(ended.last() == '/');
    assert(plain[0] == base[0] && ended[0] == base[0]);
    text::law_tight_texts_are_not_trimmed(plain);
    text::law_tight_texts_are_not_trimmed(ended);
    config::law_slashes_at_the_end_go(plain);
    assert(ended =~= plain.push('/'));
    assert(plain.skip(plain.len() - 4) =~= "/mcp"@);
    assert(plain.subrange(0, plain.len() - 4) =~= base);
    config::law_slashes_at_the_end_go(base);
}

/// Where an issuer does not say where people sign in, it is at the usual place below it: one for
/// realms, and another for all others.
pub proof fn law_usual_places_to_sign_in(issuer: Seq<char>)
    ensures
        text::holds(config::without_end_slashes(issuer), "/realms/"@)
            ==> default_endpoints(issuer).0
            == config::without_end_slashes(issuer) + "/protocol/openid-connect/auth"@
            && default_endpoints(issuer).1 == config::without_end_slashes(issuer)
            + "/protocol/openid-connect/token"@,
        !text::holds(config::without_end_slashes(issuer), "/realms/"@) ==> default_endpoints(
            issuer,
        ).0 == config::without_end_slashes(issuer) + "/oauth/authorize"@ && default_endpoints(
            issuer,
        ).1 == config::without_end_slashes(issuer) + "/oauth/token"@,
{
}

/// What a server tells of its sign-in: what its settings say comes before what the issuer says,
/// and the usual places come last.
pub proof fn law_surfaces_tell_the_sign_in(
    surface: AuthSurface,
    settings: HttpSettings,
    metadata: Option<IssuerMetadata>,
)
    requires
        surface.tells(settings, metadata),
    ensures
        surface.resource_path@ == "/mcp"@,
        surface.realm@ == settings.auth.realm@,
        surface.base_url@ == surface_base(settings),
        surface.issuer@ == surface_issuer(settings),
        text::texts(surface.scopes_supported@) == text::texts(settings.auth.scopes_supported@),
        text::texts(surface.allowed_client_ids@) == text::texts(settings.auth.allowed_client_ids@),
        settings.auth.auth_config.jwks_url matches Some(url) ==> text::opt_text(surface.jwks_uri)
            == Some(url@),
        settings.auth.auth_config.introspection_url matches Some(url) ==> text::opt_text(
            surface.introspection_endpoint,
        ) == Some(url@),
        metadata matches Some(found) ==> (found.authorization_endpoint matches Some(endpoint)
            ==> surface.authorization_endpoint@ == endpoint@) && (
        found.token_endpoint matches Some(endpoint) ==> surface.token_endpoint@ == endpoint@) && (
        settings.auth.auth_config.jwks_url is None ==> text::opt_text(surface.jwks_uri) == Some(
            found.jwks_uri@,
        )) && surface.registration_endpoint == found.registration_endpoint
            && surface.device_authorization_endpoint == found.device_authorization_endpoint
            && surface.grant_types_supported == found.grant_types_supported,
        metadata is None ==> surface.authorization_endpoint@ == default_endpoints(
            surface_issuer(settings),
        ).0 && surface.token_endpoint@ == default_endpoints(surface_issuer(settings)).1
            && surface.registration_endpoint is None,
{
}

/// The issuer is the one that is set, or else the server itself; and its base comes from the
/// address of the resource, or else is its own.
pub proof fn law_issuers_and_bases(settings: HttpSettings)
    ensures
        settings.auth.issuer is None ==> surface_issuer(settings) == surface_base(settings),
        settings.auth.issuer matches Some(issuer) && text::trim(issuer@).len() > 0
            ==> surface_issuer(settings) == text::trim(settings.auth.issuer->0@),
        settings.auth.resource_url is None ==> surface_base(settings) == own_url(settings),
        settings.auth.resource_url matches Some(url) ==> surface_base(settings) == (
        match base_of_resource(url@) {
            Some(base) => base,
            None => own_url(settings),
        }),
{
}

/// What is noted of a request: how it came, and how it went.
pub proof fn law_requests_are_noted(request: AuditedRequest)
    ensures
        audit_fields_of(request).len() >= 4,
        audit_fields_of(request)[0] == ("method"@, request.method@),
        audit_fields_of(request)[1] == ("path"@, request.path@),
        audit_fields_of(request)[2] == ("status"@, text::decimal(request.status as nat)),
        audit_fields_of(request)[3] == (
            "auth_enabled"@,
            if request.auth_enabled {
                "true"@
            } else {
                "false"@
            },
        ),
        request.host matches Some(host) ==> audit_fields_of(request).contains(("host"@, host@)),
        request.remote_addr matches Some(addr) ==> audit_fields_of(request).contains(
            ("remote_addr"@, addr@),
        ),
        text_of_header(request.headers@, "cf-ray"@) matches Some(held) ==> audit_fields_of(
            request,
        ).contains(("cf_ray"@, held)),
        text_of_header(request.headers@, "cf-connecting-ip"@) matches Some(held)
            ==> audit_fields_of(request).contains(("cf_connecting_ip"@, held)),
        text_of_header(request.headers@, "true-client-ip"@) matches Some(held) ==> audit_fields_of(
            request,
        ).contains(("true_client_ip"@, held)),
        text_of_header(request.headers@, "user-agent"@) matches Some(held) ==> audit_fields_of(
            request,
        ).contains(("user_agent"@, held)),
{
    let headers = request.headers@;
    let start = no_fields()
        .push(("method"@, request.method@))
        .push(("path"@, request.path@))
        .push(("status"@, text::decimal(request.status as nat)))
        .push(("auth_enabled"@, true_or_false(request.auth_enabled)));
    let host = with_field(start, "host"@, text::opt_text(request.host));
    let ray = with_field(host, "cf_ray"@, text_of_header(headers, "cf-ray"@));
    let connecting = with_field(
        ray,
        "cf_connecting_ip"@,
        text_of_header(headers, "cf-connecting-ip"@),
    );
    let client = with_field(
        connecting,
        "true_client_ip"@,
        text_of_header(headers, "true-client-ip"@),
    );
    let agent = with_field(client, "user_agent"@, text_of_header(headers, "user-agent"@));
    let all = audit_fields_of(request);
    lemma_kept_fields(start, "host"@, text::opt_text(request.host));
    lemma_kept_fields(host, "cf_ray"@, text_of_header(headers, "cf-ray"@));
    lemma_kept_fields(ray, "cf_connecting_ip"@, text_of_header(headers, "cf-connecting-ip"@));
    lemma_kept_fields(connecting, "true_client_ip"@, text_of_header(headers, "true-client-ip"@));
    lemma_kept_fields(client, "user_agent"@, text_of_header(headers, "user-agent"@));
    lemma_kept_fields(agent, "remote_addr"@, text::opt_text(request.remote_addr));
}

proof fn lemma_kept_fields(
    fields: Seq<(Seq<char>, Seq<char>)>,
    name: Seq<char>,
    value: Option<Seq<char>>,
)
    ensures
        with_field(fields, name, value).len() >= fields.len(),
        forall|i: int|
            0 <= i < fields.len() ==> #[trigger] with_field(fields, name, value)[i] == fields[i],
        forall|field: (Seq<char>, Seq<char>)|
            fields.contains(field) ==> #[trigger] with_field(fields, name, value).contains(field),
        value matches Some(held) ==> with_field(fields, name, value).contains((name, held)),
{
    let more = with_field(fields, name, value);
    assert forall|field: (Seq<char>, Seq<char>)| fields.contains(
        field,
    ) implies #[trigger] more.contains(field) by {
        let i = choose|i: int| 0 <= i < fields.len() && fields[i] == field;
        assert(more[i] == field);
    }
    match value {
        Some(held) => {
            assert(more[fields.len() as int] == (name, held));
        },
        None => {},
    }
}

} // verus!
