//! What the API client knows, the calls that it makes, and the reading of paged answers.

use vstd::prelude::*;
use vstd::string::*;

use crate::config::{Settings, UpstreamTokenSource};
use crate::error;
use crate::error::{AnalyticsError, Problem};
use crate::ga_client;
use crate::ga_client::{AccountId, PropertyId};
use crate::ga_payload;
use crate::ga_payload::{
    BatchRunReportsRequest, RunAccessReportRequest, RunConversionsReportRequest,
    RunFunnelReportRequest, RunPivotReportRequest, RunRealtimeReportRequest, RunReportRequest,
};
use crate::json;
use crate::json::{Json, Object, Tree};
use crate::json_text;
use crate::text;

verus! {

// ---------------------------------------------------------------------------
// URLs.
// ---------------------------------------------------------------------------

/// The parts of a URL that the library looks at.
#[derive(Debug)]
pub struct UrlParts {
    pub scheme: String,
    pub host: Option<String>,
    pub path: String,
}

/// What the parts of a URL say.
pub struct UrlView {
    pub scheme: Seq<char>,
    pub host: Option<Seq<char>>,
    pub path: Seq<char>,
}

impl View for UrlParts {
    type V = UrlView;

    open spec fn view(&self) -> UrlView {
        UrlView { scheme: self.scheme@, host: text::opt_text(self.host), path: self.path@ }
    }
}

/// What `reqwest::Url::parse` makes of a text: the parts of the URL, or its message.
pub uninterp spec fn url_of(raw: Seq<char>) -> Result<UrlView, Seq<char>>;

/// What the parts of a URL, or the message in their place, say.
pub open spec fn url_result(r: Result<UrlParts, String>) -> Result<UrlView, Seq<char>> {
    match r {
        Ok(parts) => Ok(parts@),
        Err(message) => Err(message@),
    }
}

/// `reqwest::Url::parse`, with `scheme`, `host_str` and `path` of its result and the
/// `Display` text of its error. The outcome depends on the text alone.
#[verifier::external_body]
fn parse_url(raw: &str) -> (r: Result<UrlParts, String>)
    ensures
        url_result(r) == url_of(raw@),
{
    match reqwest::Url::parse(raw) {
        Ok(url) => Ok(
            UrlParts {
                scheme: url.scheme().to_string(),
                host: url.host_str().map(|host| host.to_string()),
                path: url.path().to_string(),
            },
        ),
        Err(err) => Err(err.to_string()),
    }
}

/// What is wrong with an upstream URL, given what the URL parser made of it.
pub open spec fn upstream_url_problem(parsed: Result<UrlView, Seq<char>>) -> Option<Problem> {
    match parsed {
        Err(message) => Some(
            Problem::InvalidArgument("upstream_url"@, "invalid upstream URL: "@ + message),
        ),
        Ok(url) => if url.scheme != "https"@ {
            Some(
                Problem::InvalidArgument(
                    "upstream_url"@,
                    "upstream Google API URL must use https"@,
                ),
            )
        } else {
            None
        },
    }
}

/// Checks what the URL parser made of an upstream URL.
pub fn check_upstream_url(parsed: Result<UrlParts, String>) -> (r: Result<
    UrlParts,
    AnalyticsError,
>)
    ensures
        match r {
            Ok(parts) => upstream_url_problem(url_result(parsed)) is None && parsed == Ok::<
                UrlParts,
                String,
            >(parts),
            Err(err) => upstream_url_problem(url_result(parsed)) == Some(err@),
        },
{
    match parsed {
        Err(message) => Err(
            AnalyticsError::invalid(
                "upstream_url",
                error::labelled("invalid upstream URL: ", message.as_str()).as_str(),
            ),
        ),
        Ok(parts) => {
            if !text::same_text(parts.scheme.as_str(), "https") {
                return Err(
                    AnalyticsError::invalid(
                        "upstream_url",
                        "upstream Google API URL must use https",
                    ),
                );
            }
            Ok(parts)
        },
    }
}

/// The parts of an upstream URL, which must be an `https` one.
pub fn parse_https_upstream_url(raw: &str) -> (r: Result<UrlParts, AnalyticsError>)
    ensures
        match r {
            Ok(parts) => upstream_url_problem(url_of(raw@)) is None && url_of(raw@) == Ok::<
                UrlView,
                Seq<char>,
            >(parts@),
            Err(err) => upstream_url_problem(url_of(raw@)) == Some(err@),
        },
{
    check_upstream_url(parse_url(raw))
}

// ---------------------------------------------------------------------------
// Credentials.
// ---------------------------------------------------------------------------

/// How the server gets its own access tokens.
#[derive(Debug)]
pub enum UpstreamAuthMode {
    RequestHeaderOnly,
    Adc,
    /// The authorized-user credentials file at that path.
    AuthorizedUserAdcFile(String),
    OAuthRefresh(OAuthRefreshConfig),
}

#[derive(Debug, Clone, Copy, PartialEq, Eq, Structural)]
pub enum AuthSource {
    RequestHeader,
    GoogleDefaultProviderChain,
    GoogleAuthorizedUserAdcFile,
    OAuthRefreshToken,
}

impl AuthSource {
    /// The name of the source.
    pub open spec fn name(self) -> Seq<char> {
        match self {
            AuthSource::RequestHeader => "request_header"@,
            AuthSource::GoogleDefaultProviderChain => "google_default_provider_chain"@,
            AuthSource::GoogleAuthorizedUserAdcFile => "google_authorized_user_adc_file"@,
            AuthSource::OAuthRefreshToken => "oauth_refresh_token"@,
        }
    }

    /// The name of the source.
    pub fn as_str(self) -> (r: &'static str)
        ensures
            r@ == self.name(),
    {
        match self {
            AuthSource::RequestHeader => "request_header",
            AuthSource::GoogleDefaultProviderChain => "google_default_provider_chain",
            AuthSource::GoogleAuthorizedUserAdcFile => "google_authorized_user_adc_file",
            AuthSource::OAuthRefreshToken => "oauth_refresh_token",
        }
    }
}

impl UpstreamAuthMode {
    /// The source of the tokens.
    pub open spec fn source(self) -> AuthSource {
        match self {
            UpstreamAuthMode::RequestHeaderOnly => AuthSource::RequestHeader,
            UpstreamAuthMode::Adc => AuthSource::GoogleDefaultProviderChain,
            UpstreamAuthMode::AuthorizedUserAdcFile(_) => AuthSource::GoogleAuthorizedUserAdcFile,
            UpstreamAuthMode::OAuthRefresh(_) => AuthSource::OAuthRefreshToken,
        }
    }
}

/// A Google OAuth client-secret file, as far as it is read.
#[derive(Debug)]
pub struct OAuthClientSecretFile {
    pub installed: Option<OAuthClientConfig>,
    pub web: Option<OAuthClientConfig>,
}

/// An OAuth client of a client-secret file.
#[derive(Debug)]
pub struct OAuthClientConfig {
    pub client_id: String,
    pub client_secret: String,
    pub token_uri: Option<String>,
}

/// What is needed to exchange a refresh token for access tokens.
#[derive(Debug)]
pub struct OAuthRefreshConfig {
    pub token_uri: String,
    pub client_id: String,
    pub client_secret: String,
    pub refresh_token: String,
}

/// Whether a path names `wanted`, but for slashes at its end.
pub open spec fn same_path(path: Seq<char>, wanted: Seq<char>) -> bool {
    crate::config::without_end_slashes(path) == wanted
}

/// Whether a token endpoint is one of Google's.
pub open spec fn google_token_endpoint(url: UrlView) -> bool {
    let host = match url.host {
        Some(host) => host,
        None => ""@,
    };
    ||| host == "oauth2.googleapis.com"@ && same_path(url.path, "/token"@)
    ||| host == "accounts.google.com"@ && same_path(url.path, "/o/oauth2/token"@)
}

/// What is wrong with a token endpoint, given what the URL parser made of it.
pub open spec fn token_uri_problem(
    token_uri: Seq<char>,
    parsed: Result<UrlView, Seq<char>>,
) -> Option<Problem> {
    match parsed {
        Err(message) => Some(
            Problem::AuthBootstrap(
                "invalid OAuth token_uri '"@ + token_uri
                    + "' in GOOGLE_ANALYTICS_MCP_OAUTH_CLIENT_SECRET_JSON: "@ + message,
            ),
        ),
        Ok(url) => if url.scheme != "https"@ {
            Some(Problem::AuthBootstrap("OAuth token_uri '"@ + token_uri + "' must use https"@))
        } else if !google_token_endpoint(url) {
            Some(
                Problem::AuthBootstrap(
                    "OAuth token_uri '"@ + token_uri
                        + "' must be one of https://oauth2.googleapis.com/token or https://accounts.google.com/o/oauth2/token"@,
                ),
            )
        } else {
            None
        },
    }
}

/// Checks what the URL parser made of a token endpoint.
pub fn check_token_uri(token_uri: &str, parsed: &Result<UrlParts, String>) -> (r: Result<
    (),
    AnalyticsError,
>)
    ensures
        error::outcome(r) == token_uri_problem(token_uri@, url_result(*parsed)),
{
    match parsed {
        Err(message) => Err(
            AnalyticsError::AuthBootstrap(
                error::described(
                    "invalid OAuth token_uri '",
                    token_uri,
                    "' in GOOGLE_ANALYTICS_MCP_OAUTH_CLIENT_SECRET_JSON: ",
                    message.as_str(),
                ),
            ),
        ),
        Ok(url) => {
            if !text::same_text(url.scheme.as_str(), "https") {
                let mut message: String = error::labelled("OAuth token_uri '", token_uri);
                message.append("' must use https");
                return Err(AnalyticsError::AuthBootstrap(message));
            }
            let host: String = match &url.host {
                Some(host) => host.clone(),
                None => "".to_owned(),
            };
            let path: String = crate::config::strip_end_slashes(url.path.as_str());
            let allowed: bool = (text::same_text(host.as_str(), "oauth2.googleapis.com")
                && text::same_text(path.as_str(), "/token")) || (text::same_text(
                host.as_str(),
                "accounts.google.com",
            ) && text::same_text(path.as_str(), "/o/oauth2/token"));
            if !allowed {
                let mut message: String = error::labelled("OAuth token_uri '", token_uri);
                message.append(
                    "' must be one of https://oauth2.googleapis.com/token or https://accounts.google.com/o/oauth2/token",
                );
                return Err(AnalyticsError::AuthBootstrap(message));
            }
            Ok(())
        },
    }
}

/// Checks that a token endpoint is one of Google's, over `https`.
pub fn validate_oauth_token_uri(token_uri: &str) -> (r: Result<(), AnalyticsError>)
    ensures
        error::outcome(r) == token_uri_problem(token_uri@, url_of(token_uri@)),
{
    check_token_uri(token_uri, &parse_url(token_uri))
}

/// The client of a client-secret file: an installed one before a web one.
pub open spec fn client_of(file: OAuthClientSecretFile) -> Option<OAuthClientConfig> {
    match file.installed {
        Some(client) => Some(client),
        None => file.web,
    }
}

/// The token endpoint of a client.
pub open spec fn client_token_uri(client: OAuthClientConfig) -> Seq<char> {
    match crate::config::cleaned(text::opt_text(client.token_uri)) {
        Some(uri) => uri,
        None => "https://oauth2.googleapis.com/token"@,
    }
}

/// What is wrong with a client-secret file.
pub open spec fn client_secret_problem(file: OAuthClientSecretFile) -> Option<Problem> {
    match client_of(file) {
        None => Some(
            Problem::AuthBootstrap(
                "OAuth client secret JSON must contain either 'installed' or 'web' object"@,
            ),
        ),
        Some(client) => if text::is_blank(client.client_id@) {
            Some(Problem::AuthBootstrap("OAuth client secret JSON is missing client_id"@))
        } else if text::is_blank(client.client_secret@) {
            Some(Problem::AuthBootstrap("OAuth client secret JSON is missing client_secret"@))
        } else {
            token_uri_problem(client_token_uri(client), url_of(client_token_uri(client)))
        },
    }
}

/// The refresh configuration of a client-secret file that was read.
pub fn parse_oauth_refresh_config(parsed: OAuthClientSecretFile, refresh_token: &str) -> (r: Result<
    OAuthRefreshConfig,
    AnalyticsError,
>)
    ensures
        match r {
            Ok(config) => client_secret_problem(parsed) is None && (match client_of(parsed) {
                Some(client) => config.token_uri@ == client_token_uri(client)
                    && config.client_id@ == text::trim(client.client_id@)
                    && config.client_secret@ == text::trim(client.client_secret@),
                None => false,
            }) && config.refresh_token@ == refresh_token@,
            Err(err) => client_secret_problem(parsed) == Some(err@),
        },
{
    let found: Option<OAuthClientConfig> = match parsed.installed {
        Some(client) => Some(client),
        None => parsed.web,
    };
    let client: OAuthClientConfig = match found {
        Some(client) => client,
        None => {
            return Err(
                AnalyticsError::AuthBootstrap(
                    "OAuth client secret JSON must contain either 'installed' or 'web' object".to_owned(),
                ),
            );
        },
    };
    let client_id: String = text::trimmed(client.client_id.as_str());
    if client_id.as_str().is_empty() {
        return Err(
            AnalyticsError::AuthBootstrap(
                "OAuth client secret JSON is missing client_id".to_owned(),
            ),
        );
    }
    let client_secret: String = text::trimmed(client.client_secret.as_str());
    if client_secret.as_str().is_empty() {
        return Err(
            AnalyticsError::AuthBootstrap(
                "OAuth client secret JSON is missing client_secret".to_owned(),
            ),
        );
    }
    let token_uri: String = match crate::config::trim_optional(client.token_uri) {
        Some(uri) => uri,
        None => "https://oauth2.googleapis.com/token".to_owned(),
    };
    match validate_oauth_token_uri(token_uri.as_str()) {
        Ok(()) => {},
        Err(err) => {
            return Err(err);
        },
    }
    Ok(
        OAuthRefreshConfig {
            token_uri,
            client_id,
            client_secret,
            refresh_token: refresh_token.to_owned(),
        },
    )
}

/// What has to be done to get the server's credentials.
#[derive(Debug)]
pub enum AuthPlan {
    /// The mode is settled.
    Mode(UpstreamAuthMode),
    /// The client-secret file at `path` has to be read for the refresh token.
    ReadClientSecret { path: String, refresh_token: String },
}

/// Decides how the server gets its own access tokens, given whether the environment names
/// application credentials and where the server's own credentials file is.
pub fn select_auth_mode(
    settings: &Settings,
    application_credentials_set: bool,
    server_adc_path: Option<String>,
) -> (r: Result<AuthPlan, AnalyticsError>)
    ensures
        if settings.upstream_token_source == UpstreamTokenSource::RequestHeader {
            r matches Ok(AuthPlan::Mode(UpstreamAuthMode::RequestHeaderOnly))
        } else if settings.oauth_client_secret_json is Some && settings.oauth_refresh_token is Some {
            r matches Ok(AuthPlan::ReadClientSecret { path, refresh_token }) && path@
                == settings.oauth_client_secret_json->0@ && refresh_token@
                == settings.oauth_refresh_token->0@
        } else if settings.oauth_client_secret_json is Some || settings.oauth_refresh_token is Some {
            r matches Err(err) && err@ == Problem::AuthBootstrap(
                "GOOGLE_ANALYTICS_MCP_OAUTH_CLIENT_SECRET_JSON and GOOGLE_ANALYTICS_MCP_OAUTH_REFRESH_TOKEN must both be set or both be unset; refusing to fall back to ADC with partial OAuth configuration"@,
            )
        } else if application_credentials_set || settings.shared_adc {
            r matches Ok(AuthPlan::Mode(UpstreamAuthMode::Adc))
        } else if server_adc_path is Some {
            r matches Ok(AuthPlan::Mode(UpstreamAuthMode::AuthorizedUserAdcFile(path))) && Some(
                path,
            ) == server_adc_path
        } else {
            r matches Err(err) && err@ == Problem::AuthBootstrap(
                "failed to determine the GA4-specific ADC path; set HOME/XDG_CONFIG_HOME on Unix or APPDATA on Windows, or set GOOGLE_ANALYTICS_MCP_SHARED_ADC=true to intentionally use conventional shared ADC"@,
            )
        },
{
    if settings.upstream_token_source == UpstreamTokenSource::RequestHeader {
        return Ok(AuthPlan::Mode(UpstreamAuthMode::RequestHeaderOnly));
    }
    match (&settings.oauth_client_secret_json, &settings.oauth_refresh_token) {
        (Some(path), Some(refresh_token)) => {
            return Ok(
                AuthPlan::ReadClientSecret {
                    path: path.clone(),
                    refresh_token: refresh_token.clone(),
                },
            );
        },
        (None, None) => {},
        _ => {
            return Err(
                AnalyticsError::AuthBootstrap(
                    "GOOGLE_ANALYTICS_MCP_OAUTH_CLIENT_SECRET_JSON and GOOGLE_ANALYTICS_MCP_OAUTH_REFRESH_TOKEN must both be set or both be unset; refusing to fall back to ADC with partial OAuth configuration".to_owned(),
                ),
            );
        },
    }
    if application_credentials_set || settings.shared_adc {
        return Ok(AuthPlan::Mode(UpstreamAuthMode::Adc));
    }
    match server_adc_path {
        Some(path) => Ok(AuthPlan::Mode(UpstreamAuthMode::AuthorizedUserAdcFile(path))),
        None => Err(
            AnalyticsError::AuthBootstrap(
                "failed to determine the GA4-specific ADC path; set HOME/XDG_CONFIG_HOME on Unix or APPDATA on Windows, or set GOOGLE_ANALYTICS_MCP_SHARED_ADC=true to intentionally use conventional shared ADC".to_owned(),
            ),
        ),
    }
}

/// The seconds after which an access token is renewed, given its lifetime: a minute before
/// it ends, but not at once.
pub open spec fn renewal(expires_in: Option<u64>) -> int {
    let lifetime: int = match expires_in {
        Some(n) => n as int,
        None => 3600,
    };
    if lifetime > 61 {
        lifetime - 60
    } else {
        1
    }
}

/// The seconds after which an access token is renewed, given its lifetime: a minute before
/// it ends, but not at once.
pub fn refresh_in(expires_in: Option<u64>) -> (r: u64)
    ensures
        r == renewal(expires_in),
{
    let lifetime: u64 = match expires_in {
        Some(n) => n,
        None => 3600,
    };
    if lifetime > 61 {
        lifetime - 60
    } else {
        1
    }
}

/// The error of a refused refresh-token exchange, given its answer.
pub open spec fn refusal_of(
    status: u16,
    error_code: Option<String>,
    error_description: Option<String>,
    body: Seq<char>,
) -> Problem {
    Problem::AuthBootstrap(
        "oauth refresh exchange failed with status "@ + text::decimal(status as nat) + " ("@
            + (match error_code {
            Some(code) => code@,
            None => "unknown_error"@,
        }) + "): "@ + (match crate::config::cleaned(text::opt_text(error_description)) {
            Some(description) => description,
            None => ga_client::clipped(text::trim(body)),
        }),
    )
}

/// The error of a refused refresh-token exchange, given its answer.
pub fn refresh_failure(
    status: u16,
    error_code: Option<String>,
    error_description: Option<String>,
    body: &str,
) -> (r: AnalyticsError)
    ensures
        r@ == refusal_of(status, error_code, error_description, body@),
{
    let code: String = match error_code {
        Some(code) => code,
        None => "unknown_error".to_owned(),
    };
    let detail: String = match crate::config::trim_optional(error_description) {
        Some(description) => description,
        None => ga_client::clip_message(text::trimmed(body)),
    };
    let mut message: String = error::described(
        "oauth refresh exchange failed with status ",
        text::decimal_text(status as u64).as_str(),
        " (",
        code.as_str(),
    );
    message.append("): ");
    message.append(detail.as_str());
    AnalyticsError::AuthBootstrap(message)
}

/// The answer to a refresh-token exchange, as far as it is read.
#[derive(Debug)]
pub struct OAuthRefreshResponse {
    pub access_token: Option<String>,
    pub expires_in: Option<u64>,
    pub error_code: Option<String>,
    pub error_description: Option<String>,
}

/// An access token, and the seconds after which it is renewed.
#[derive(Debug)]
pub struct FreshToken {
    pub value: String,
    pub refresh_in: u64,
}

/// The access token of a refresh-token exchange, given its answer.
pub fn read_refresh_response(
    success: bool,
    status: u16,
    parsed: OAuthRefreshResponse,
    body: &str,
) -> (r: Result<FreshToken, AnalyticsError>)
    ensures
        if !success {
            r matches Err(err) && err@ == refusal_of(
                status,
                parsed.error_code,
                parsed.error_description,
                body@,
            )
        } else {
            match parsed.access_token {
                Some(token) => r matches Ok(fresh) && fresh.value == token && fresh.refresh_in
                    == renewal(parsed.expires_in),
                None => r matches Err(err) && err@ == Problem::AuthBootstrap(
                    "oauth refresh exchange succeeded without access_token"@,
                ),
            }
        },
{
    if !success {
        return Err(refresh_failure(status, parsed.error_code, parsed.error_description, body));
    }
    match parsed.access_token {
        Some(value) => Ok(FreshToken { value, refresh_in: refresh_in(parsed.expires_in) }),
        None => Err(
            AnalyticsError::AuthBootstrap(
                "oauth refresh exchange succeeded without access_token".to_owned(),
            ),
        ),
    }
}

/// How the server's own access token is got.
#[derive(Debug)]
pub enum ConfiguredToken {
    /// From the provider chain.
    Provider,
    /// From the credentials file at that path.
    AdcFile(String),
    /// It is at hand.
    Cached,
    /// With the refresh token.
    Refresh,
}

impl AnalyticsApiClient {
    /// Decides how the server's own access token is got, given whether one is at hand that
    /// need not be renewed.
    pub fn configured_access_token(&self, cached_is_fresh: bool) -> (r: Result<
        ConfiguredToken,
        AnalyticsError,
    >)
        ensures
            match self.auth_mode {
                UpstreamAuthMode::RequestHeaderOnly => r matches Err(err) && err@
                    == Problem::AuthBootstrap(
                    "request_header mode requires the caller to supply a Google access token on each request"@,
                ),
                UpstreamAuthMode::Adc => r matches Ok(ConfiguredToken::Provider),
                UpstreamAuthMode::AuthorizedUserAdcFile(path) => r matches Ok(
                    ConfiguredToken::AdcFile(found),
                ) && found@ == path@,
                UpstreamAuthMode::OAuthRefresh(_) => if cached_is_fresh {
                    r matches Ok(ConfiguredToken::Cached)
                } else {
                    r matches Ok(ConfiguredToken::Refresh)
                },
            },
    {
        match &self.auth_mode {
            UpstreamAuthMode::RequestHeaderOnly => Err(
                AnalyticsError::AuthBootstrap(
                    "request_header mode requires the caller to supply a Google access token on each request".to_owned(),
                ),
            ),
            UpstreamAuthMode::Adc => Ok(ConfiguredToken::Provider),
            UpstreamAuthMode::AuthorizedUserAdcFile(path) => Ok(
                ConfiguredToken::AdcFile(path.clone()),
            ),
            UpstreamAuthMode::OAuthRefresh(_) => if cached_is_fresh {
                Ok(ConfiguredToken::Cached)
            } else {
                Ok(ConfiguredToken::Refresh)
            },
        }
    }
}

/// The error of a credentials file that is not there.
pub fn missing_adc_file(path: &str) -> (r: AnalyticsError)
    ensures
        r@ == Problem::AuthBootstrap(
            "server-specific GA4 ADC file was not found at '"@ + path@
                + "'; run `ga4-mcp auth login` or set GOOGLE_ANALYTICS_MCP_SHARED_ADC=true to intentionally use conventional shared ADC"@,
        ),
{
    let mut message: String = error::labelled(
        "server-specific GA4 ADC file was not found at '",
        path,
    );
    message.append(
        "'; run `ga4-mcp auth login` or set GOOGLE_ANALYTICS_MCP_SHARED_ADC=true to intentionally use conventional shared ADC",
    );
    AnalyticsError::AuthBootstrap(message)
}

/// The value of an upstream answer, given whether its body is empty, the text of the body and
/// what the JSON parser made of it: nothing for an empty body.
pub open spec fn reply_of(
    success: bool,
    status: u16,
    empty: bool,
    shown: Seq<char>,
    parsed: Result<Tree, Seq<char>>,
) -> Result<Tree, Problem> {
    if !success {
        Err(
            Problem::UpstreamApi(
                status,
                if text::is_blank(shown) {
                    "no upstream response body"@
                } else {
                    ga_client::clipped(text::trim(shown))
                },
            ),
        )
    } else if empty {
        Ok(Tree::Null)
    } else {
        match parsed {
            Ok(tree) => Ok(tree),
            Err(message) => Err(Problem::UpstreamJson(message)),
        }
    }
}

/// The value of an upstream answer, given whether its body is empty, the text of the body and
/// what the JSON parser made of it.
pub fn check_reply(
    success: bool,
    status: u16,
    empty: bool,
    shown: &str,
    parsed: Result<Json, String>,
) -> (r: Result<Json, AnalyticsError>)
    ensures
        reply_result(r) == reply_of(
            success,
            status,
            empty,
            shown@,
            json_text::json_result(parsed),
        ),
{
    if !success {
        return Err(ga_client::upstream_failure(status, shown));
    }
    if empty {
        return Ok(Json::Null);
    }
    match parsed {
        Ok(value) => Ok(value),
        Err(message) => Err(AnalyticsError::UpstreamJson(message)),
    }
}

/// What an answer, or the error in its place, says.
pub open spec fn reply_result(r: Result<Json, AnalyticsError>) -> Result<Tree, Problem> {
    match r {
        Ok(value) => Ok(value@),
        Err(err) => Err(err@),
    }
}

/// The value of an upstream answer.
pub fn read_reply(success: bool, status: u16, body: &[u8]) -> (r: Result<Json, AnalyticsError>)
    ensures
        reply_result(r) == reply_of(
            success,
            status,
            body@.len() == 0,
            json_text::lossy_of(body@),
            json_text::json_of_bytes(body@),
        ),
{
    check_reply(
        success,
        status,
        body.len() == 0,
        json_text::lossy_text(body).as_str(),
        json_text::parse_json_bytes(body),
    )
}

/// The quota project that a credentials file names, given the JSON that it holds.
pub open spec fn quota_project_in(file: Result<Tree, Seq<char>>) -> Option<Seq<char>> {
    match file {
        Ok(tree) => crate::config::cleaned(tree.text_field("quota_project_id"@)),
        Err(_) => None,
    }
}

/// The quota project that a credentials file names, given the JSON that it holds.
pub fn quota_project_of(file: &Result<Json, String>) -> (r: Option<String>)
    ensures
        text::opt_text(r) == quota_project_in(json_text::json_result(*file)),
{
    match file {
        Ok(value) => match value.text_at("quota_project_id") {
            Some(held) => crate::config::trim_optional(Some(held.to_owned())),
            None => None,
        },
        Err(_) => None,
    }
}

/// The quota project that the text of a credentials file names.
pub fn parse_adc_quota_project_id(raw: &str) -> (r: Option<String>)
    ensures
        text::opt_text(r) == quota_project_in(json_text::json_of(raw@)),
{
    quota_project_of(&json_text::parse_json(raw))
}

/// The path of the credentials file that may name a quota project.
pub fn adc_quota_project_file(
    auth_mode: &UpstreamAuthMode,
    shared_adc: bool,
    conventional_adc_path: Option<String>,
) -> (r: Option<String>)
    ensures
        text::opt_text(r) == (match *auth_mode {
            UpstreamAuthMode::AuthorizedUserAdcFile(path) => Some(path@),
            UpstreamAuthMode::Adc => if shared_adc {
                text::opt_text(conventional_adc_path)
            } else {
                None
            },
            UpstreamAuthMode::RequestHeaderOnly => None,
            UpstreamAuthMode::OAuthRefresh(_) => None,
        }),
{
    match auth_mode {
        UpstreamAuthMode::AuthorizedUserAdcFile(path) => Some(path.clone()),
        UpstreamAuthMode::Adc => if shared_adc {
            conventional_adc_path
        } else {
            None
        },
        UpstreamAuthMode::RequestHeaderOnly => None,
        UpstreamAuthMode::OAuthRefresh(_) => None,
    }
}

// ---------------------------------------------------------------------------
// Calls.
// ---------------------------------------------------------------------------

#[derive(Debug, Clone, Copy)]
pub struct PaginationOptions {
    pub page_size: Option<u32>,
    pub max_pages: Option<u32>,
}

/// A call of an API: its URL, and the payload where it is a `POST`.
#[derive(Debug)]
pub struct ApiCall {
    pub url: String,
    pub body: Option<Json>,
}

/// What a call says.
#[verifier::ext_equal]
pub struct Call {
    pub url: Seq<char>,
    pub body: Option<Tree>,
}

impl View for ApiCall {
    type V = Call;

    open spec fn view(&self) -> Call {
        Call { url: self.url@, body: json::opt_view(self.body) }
    }
}

/// What a planned call, or the error in its place, says.
pub open spec fn call_result(r: Result<ApiCall, AnalyticsError>) -> Result<Call, Problem> {
    match r {
        Ok(call) => Ok(call@),
        Err(err) => Err(err@),
    }
}

/// The call of `base` + `version` + resource + `action`, where the resource has a name.
pub open spec fn planned_call(
    resource: Result<Seq<char>, Problem>,
    base: Seq<char>,
    version: Seq<char>,
    action: Seq<char>,
    body: Option<Tree>,
) -> Result<Call, Problem> {
    match resource {
        Ok(name) => Ok(Call { url: base + version + name + action, body }),
        Err(problem) => Err(problem),
    }
}

/// The call of `base` + `version` + resource + `action`, where the resource has a name.
fn plan_call(
    resource: Result<String, AnalyticsError>,
    base: &str,
    version: &str,
    action: &str,
    body: Option<Json>,
) -> (r: Result<ApiCall, AnalyticsError>)
    ensures
        call_result(r) == planned_call(
            ga_client::text_result(resource),
            base@,
            version@,
            action@,
            json::opt_view(body),
        ),
{
    match resource {
        Ok(name) => Ok(
            ApiCall { url: error::described(base, version, name.as_str(), action), body },
        ),
        Err(err) => Err(err),
    }
}

/// What the API client knows.
#[derive(Debug)]
pub struct AnalyticsApiClient {
    pub auth_mode: UpstreamAuthMode,
    pub token_source: UpstreamTokenSource,
    pub token_header: String,
    pub analytics_scope: String,
    pub admin_base_url: String,
    pub data_base_url: String,
    pub quota_project: Option<String>,
    pub max_page_size: u32,
    pub default_max_pages: u32,
}

/// The part of `requested` that lies between one and `limit`; without a request, the limit.
pub open spec fn bounded(requested: Option<u32>, limit: u32) -> u32 {
    let top: u32 = if limit < 1 {
        1
    } else {
        limit
    };
    let asked = match requested {
        Some(n) => n,
        None => limit,
    };
    if asked < 1 {
        1
    } else if asked > top {
        top
    } else {
        asked
    }
}

fn bound(requested: Option<u32>, limit: u32) -> (r: u32)
    ensures
        r == bounded(requested, limit),
{
    let top: u32 = if limit < 1 {
        1
    } else {
        limit
    };
    let asked: u32 = match requested {
        Some(n) => n,
        None => limit,
    };
    if asked < 1 {
        1
    } else if asked > top {
        top
    } else {
        asked
    }
}

impl AnalyticsApiClient {
    /// The client for settings, with the credentials that were found; the quota project
    /// of the settings goes before that of the credentials file.
    pub fn from_settings(
        settings: &Settings,
        auth_mode: UpstreamAuthMode,
        adc_quota_project: Option<String>,
    ) -> (r: Self)
        ensures
            r.auth_mode == auth_mode,
            r.token_source == settings.upstream_token_source,
            r.token_header@ == settings.upstream_token_header@,
            r.analytics_scope@ == settings.analytics_scope@,
            r.admin_base_url@ == settings.admin_base_url@,
            r.data_base_url@ == settings.data_base_url@,
            text::opt_text(r.quota_project) == (match settings.quota_project {
                Some(project) => Some(project@),
                None => text::opt_text(adc_quota_project),
            }),
            r.max_page_size == settings.max_page_size,
            r.default_max_pages == settings.max_pages,
    {
        let quota_project: Option<String> = match &settings.quota_project {
            Some(project) => Some(project.clone()),
            None => adc_quota_project,
        };
        AnalyticsApiClient {
            auth_mode,
            token_source: settings.upstream_token_source,
            token_header: settings.upstream_token_header.clone(),
            analytics_scope: settings.analytics_scope.clone(),
            admin_base_url: settings.admin_base_url.clone(),
            data_base_url: settings.data_base_url.clone(),
            quota_project,
            max_page_size: settings.max_page_size,
            default_max_pages: settings.max_pages,
        }
    }

    /// The source of the server's own tokens.
    pub fn auth_source(&self) -> (r: AuthSource)
        ensures
            r == self.auth_mode.source(),
    {
        match &self.auth_mode {
            UpstreamAuthMode::RequestHeaderOnly => AuthSource::RequestHeader,
            UpstreamAuthMode::Adc => AuthSource::GoogleDefaultProviderChain,
            UpstreamAuthMode::AuthorizedUserAdcFile(_) => AuthSource::GoogleAuthorizedUserAdcFile,
            UpstreamAuthMode::OAuthRefresh(_) => AuthSource::OAuthRefreshToken,
        }
    }

    /// The scope that tokens are asked for.
    pub fn analytics_scope(&self) -> (r: &str)
        ensures
            r@ == self.analytics_scope@,
    {
        self.analytics_scope.as_str()
    }

    /// Where the tokens of upstream calls come from.
    pub fn upstream_token_source(&self) -> (r: UpstreamTokenSource)
        ensures
            r == self.token_source,
    {
        self.token_source
    }

    /// The header that carries request tokens.
    pub fn upstream_token_header(&self) -> (r: &str)
        ensures
            r@ == self.token_header@,
    {
        self.token_header.as_str()
    }

    /// Whether a quota project is known.
    pub fn quota_project_configured(&self) -> (r: bool)
        ensures
            r == self.quota_project is Some,
    {
        self.quota_project.is_some()
    }

    /// The quota project.
    pub fn quota_project(&self) -> (r: Option<&str>)
        ensures
            text::opt_str(r) == text::opt_text(self.quota_project),
    {
        match &self.quota_project {
            Some(project) => Some(project.as_str()),
            None => None,
        }
    }

    /// The page size of a paged call.
    pub fn normalized_page_size(&self, requested: Option<u32>) -> (r: u32)
        ensures
            r == bounded(requested, self.max_page_size),
    {
        bound(requested, self.max_page_size)
    }

    /// The number of pages that a paged call fetches at most.
    pub fn normalized_max_pages(&self, requested: Option<u32>) -> (r: u32)
        ensures
            r == bounded(requested, self.default_max_pages),
    {
        bound(requested, self.default_max_pages)
    }

    /// The call for the details of a property.
    pub fn get_property_details(
        &self,
        property_id: &PropertyId,
    ) -> (r: Result<ApiCall, AnalyticsError>)
        ensures
            call_result(r) == planned_call(
                property_id.named(),
                self.admin_base_url@,
                "/v1beta/"@,
                ""@,
                None,
            ),
    {
        plan_call(
            property_id.to_resource_name(),
            self.admin_base_url.as_str(),
            "/v1beta/",
            "",
            None,
        )
    }

    /// The call for the data sharing settings of an account.
    pub fn get_account_data_sharing_settings(
        &self,
        account_id: &AccountId,
    ) -> (r: Result<ApiCall, AnalyticsError>)
        ensures
            call_result(r) == planned_call(
                account_id.named(),
                self.admin_base_url@,
                "/v1beta/"@,
                "/dataSharingSettings"@,
                None,
            ),
    {
        plan_call(
            account_id.to_resource_name(),
            self.admin_base_url.as_str(),
            "/v1beta/",
            "/dataSharingSettings",
            None,
        )
    }

    /// The call for the data retention settings of a property.
    pub fn get_property_data_retention_settings(
        &self,
        property_id: &PropertyId,
    ) -> (r: Result<ApiCall, AnalyticsError>)
        ensures
            call_result(r) == planned_call(
                property_id.named(),
                self.admin_base_url@,
                "/v1beta/"@,
                "/dataRetentionSettings"@,
                None,
            ),
    {
        plan_call(
            property_id.to_resource_name(),
            self.admin_base_url.as_str(),
            "/v1beta/",
            "/dataRetentionSettings",
            None,
        )
    }

    /// The call for the metadata that names the custom dimensions and metrics.
    pub fn get_custom_dimensions_and_metrics(
        &self,
        property_id: &PropertyId,
    ) -> (r: Result<ApiCall, AnalyticsError>)
        ensures
            call_result(r) == planned_call(
                property_id.named(),
                self.data_base_url@,
                "/v1beta/"@,
                "/metadata"@,
                None,
            ),
    {
        plan_call(
            property_id.to_resource_name(),
            self.data_base_url.as_str(),
            "/v1beta/",
            "/metadata",
            None,
        )
    }

    /// The call of a core report.
    pub fn run_report(&self, request: &RunReportRequest) -> (r: Result<ApiCall, AnalyticsError>)
        ensures
            call_result(r) == planned_call(
                request.property_id.named(),
                self.data_base_url@,
                "/v1beta/"@,
                ":runReport"@,
                Some(request.payload_tree()),
            ),
    {
        plan_call(
            request.property_id.to_resource_name(),
            self.data_base_url.as_str(),
            "/v1beta/",
            ":runReport",
            Some(request.payload()),
        )
    }

    /// The call of a conversion report.
    pub fn run_conversions_report(&self, request: &RunConversionsReportRequest) -> (r: Result<
        ApiCall,
        AnalyticsError,
    >)
        ensures
            call_result(r) == planned_call(
                request.property_id.named(),
                self.data_base_url@,
                "/v1alpha/"@,
                ":runReport"@,
                Some(request.payload_tree()),
            ),
    {
        plan_call(
            request.property_id.to_resource_name(),
            self.data_base_url.as_str(),
            "/v1alpha/",
            ":runReport",
            Some(request.payload()),
        )
    }

    /// The call of a funnel report, with its steps in the form that they are sent in.
    pub fn run_funnel_report(&self, request: &RunFunnelReportRequest, steps: &[Json]) -> (r: Result<
        ApiCall,
        AnalyticsError,
    >)
        ensures
            call_result(r) == planned_call(
                request.property_id.named(),
                self.data_base_url@,
                "/v1alpha/"@,
                ":runFunnelReport"@,
                Some(request.payload_tree(steps@)),
            ),
    {
        plan_call(
            request.property_id.to_resource_name(),
            self.data_base_url.as_str(),
            "/v1alpha/",
            ":runFunnelReport",
            Some(request.payload(steps)),
        )
    }

    /// The call of a compatibility check.
    pub fn check_report_compatibility(
        &self,
        property_id: &PropertyId,
        dimensions: &[String],
        metrics: &[String],
    ) -> (r: Result<ApiCall, AnalyticsError>)
        ensures
            call_result(r) == planned_call(
                property_id.named(),
                self.data_base_url@,
                "/v1beta/"@,
                ":checkCompatibility"@,
                Some(ga_payload::compatibility_payload(dimensions@, metrics@)),
            ),
    {
        plan_call(
            property_id.to_resource_name(),
            self.data_base_url.as_str(),
            "/v1beta/",
            ":checkCompatibility",
            Some(ga_payload::build_compatibility_payload(dimensions, metrics)),
        )
    }

    /// The call of a realtime report.
    pub fn run_realtime_report(
        &self,
        request: &RunRealtimeReportRequest,
    ) -> (r: Result<ApiCall, AnalyticsError>)
        ensures
            call_result(r) == planned_call(
                request.property_id.named(),
                self.data_base_url@,
                "/v1beta/"@,
                ":runRealtimeReport"@,
                Some(request.payload_tree()),
            ),
    {
        plan_call(
            request.property_id.to_resource_name(),
            self.data_base_url.as_str(),
            "/v1beta/",
            ":runRealtimeReport",
            Some(request.payload()),
        )
    }

    /// The call of a pivot report.
    pub fn run_pivot_report(
        &self,
        request: &RunPivotReportRequest,
    ) -> (r: Result<ApiCall, AnalyticsError>)
        ensures
            call_result(r) == planned_call(
                request.property_id.named(),
                self.data_base_url@,
                "/v1beta/"@,
                ":runPivotReport"@,
                Some(request.payload_tree()),
            ),
    {
        plan_call(
            request.property_id.to_resource_name(),
            self.data_base_url.as_str(),
            "/v1beta/",
            ":runPivotReport",
            Some(request.payload()),
        )
    }

    /// The call of a batch of reports.
    pub fn batch_run_reports(
        &self,
        request: &BatchRunReportsRequest,
    ) -> (r: Result<ApiCall, AnalyticsError>)
        ensures
            call_result(r) == planned_call(
                request.property_id.named(),
                self.data_base_url@,
                "/v1beta/"@,
                ":batchRunReports"@,
                Some(request.payload_tree()),
            ),
    {
        plan_call(
            request.property_id.to_resource_name(),
            self.data_base_url.as_str(),
            "/v1beta/",
            ":batchRunReports",
            Some(request.payload()),
        )
    }

    /// The call of an access report for a property.
    pub fn run_property_access_report(
        &self,
        property_id: &PropertyId,
        request: &RunAccessReportRequest,
    ) -> (r: Result<ApiCall, AnalyticsError>)
        ensures
            call_result(r) == planned_call(
                property_id.named(),
                self.admin_base_url@,
                "/v1beta/"@,
                ":runAccessReport"@,
                Some(request.payload_tree()),
            ),
    {
        plan_call(
            property_id.to_resource_name(),
            self.admin_base_url.as_str(),
            "/v1beta/",
            ":runAccessReport",
            Some(ga_payload::build_access_report_payload(request)),
        )
    }

    /// The call of an access report for an account.
    pub fn run_account_access_report(
        &self,
        account_id: &AccountId,
        request: &RunAccessReportRequest,
    ) -> (r: Result<ApiCall, AnalyticsError>)
        ensures
            call_result(r) == planned_call(
                account_id.named(),
                self.admin_base_url@,
                "/v1beta/"@,
                ":runAccessReport"@,
                Some(request.payload_tree()),
            ),
    {
        plan_call(
            account_id.to_resource_name(),
            self.admin_base_url.as_str(),
            "/v1beta/",
            ":runAccessReport",
            Some(ga_payload::build_access_report_payload(request)),
        )
    }

    /// The reading of all account summaries.
    pub fn get_account_summaries(&self, pagination: PaginationOptions) -> (r: Pager)
        ensures
            r.begins(
                self.admin_base_url@ + "/v1beta/accountSummaries"@,
                "accountSummaries"@,
                "account_summaries"@,
                bounded(pagination.page_size, self.max_page_size),
                bounded(pagination.max_pages, self.default_max_pages),
            ),
    {
        Pager::new(
            error::labelled(self.admin_base_url.as_str(), "/v1beta/accountSummaries"),
            "accountSummaries",
            "account_summaries",
            self.normalized_page_size(pagination.page_size),
            self.normalized_max_pages(pagination.max_pages),
        )
    }

    /// The reading that checks the token of a call: one page with one account summary.
    pub fn verify_token(&self) -> (r: Pager)
        ensures
            r.begins(
                self.admin_base_url@ + "/v1beta/accountSummaries"@,
                "accountSummaries"@,
                "account_summaries"@,
                1,
                1,
            ),
    {
        self.get_account_summaries(PaginationOptions { page_size: Some(1), max_pages: Some(1) })
    }

    /// The call that checks the server's own token.
    pub fn verify_config_token(&self) -> (r: ApiCall)
        ensures
            r@.url == self.admin_base_url@ + "/v1beta/accountSummaries?pageSize=1"@,
            r@.body is None,
    {
        ApiCall {
            url: error::labelled(
                self.admin_base_url.as_str(),
                "/v1beta/accountSummaries?pageSize=1",
            ),
            body: None,
        }
    }

    /// The reading of all Google Ads links of a property.
    pub fn list_google_ads_links(
        &self,
        property_id: &PropertyId,
        pagination: PaginationOptions,
    ) -> (r: Result<Pager, AnalyticsError>)
        ensures
            match property_id.named() {
                Ok(name) => r matches Ok(pager) && pager.begins(
                    self.admin_base_url@ + "/v1beta/"@ + name + "/googleAdsLinks"@,
                    "googleAdsLinks"@,
                    "google_ads_links"@,
                    bounded(pagination.page_size, self.max_page_size),
                    bounded(pagination.max_pages, self.default_max_pages),
                ),
                Err(problem) => r matches Err(err) && err@ == problem,
            },
    {
        match property_id.to_resource_name() {
            Ok(name) => Ok(
                Pager::new(
                    error::described(
                        self.admin_base_url.as_str(),
                        "/v1beta/",
                        name.as_str(),
                        "/googleAdsLinks",
                    ),
                    "googleAdsLinks",
                    "google_ads_links",
                    self.normalized_page_size(pagination.page_size),
                    self.normalized_max_pages(pagination.max_pages),
                ),
            ),
            Err(err) => Err(err),
        }
    }

    /// The reading of all reporting data annotations of a property.
    pub fn list_property_annotations(
        &self,
        property_id: &PropertyId,
        pagination: PaginationOptions,
    ) -> (r: Result<Pager, AnalyticsError>)
        ensures
            match property_id.named() {
                Ok(name) => r matches Ok(pager) && pager.begins(
                    self.admin_base_url@ + "/v1alpha/"@ + name + "/reportingDataAnnotations"@,
                    "reportingDataAnnotations"@,
                    "reporting_data_annotations"@,
                    bounded(pagination.page_size, self.max_page_size),
                    bounded(pagination.max_pages, self.default_max_pages),
                ),
                Err(problem) => r matches Err(err) && err@ == problem,
            },
    {
        match property_id.to_resource_name() {
            Ok(name) => Ok(
                Pager::new(
                    error::described(
                        self.admin_base_url.as_str(),
                        "/v1alpha/",
                        name.as_str(),
                        "/reportingDataAnnotations",
                    ),
                    "reportingDataAnnotations",
                    "reporting_data_annotations",
                    self.normalized_page_size(pagination.page_size),
                    self.normalized_max_pages(pagination.max_pages),
                ),
            ),
            Err(err) => Err(err),
        }
    }
}

// ---------------------------------------------------------------------------
// Paged answers.
// ---------------------------------------------------------------------------

/// A reading of a paged answer: what was read so far, and how it goes on.
#[derive(Debug)]
pub struct Pager {
    pub url: String,
    pub array_key: String,
    pub result_key: String,
    pub page_size: u32,
    pub max_pages: u32,
    pub pages_fetched: u32,
    pub next_page_token: Option<String>,
    pub items: Vec<Json>,
}

/// The token of the next page that an answer names; a blank one counts as none.
pub open spec fn next_token(payload: Tree) -> Option<Seq<char>> {
    match payload.text_field("nextPageToken"@) {
        Some(token) => if text::is_blank(token) {
            None
        } else {
            Some(token)
        },
        None => None,
    }
}

/// The items of a page.
pub open spec fn page_items(payload: Tree, array_key: Seq<char>) -> Seq<Tree> {
    match payload.list_field(array_key) {
        Some(items) => items,
        None => Seq::<Tree>::empty(),
    }
}

impl Pager {
    /// Whether nothing was read yet.
    pub open spec fn begins(
        self,
        url: Seq<char>,
        array_key: Seq<char>,
        result_key: Seq<char>,
        page_size: u32,
        max_pages: u32,
    ) -> bool {
        &&& self.well_formed()
        &&& self.url@ == url
        &&& self.array_key@ == array_key
        &&& self.result_key@ == result_key
        &&& self.page_size == page_size
        &&& self.max_pages == max_pages
        &&& self.pages_fetched == 0
        &&& self.next_page_token is None
        &&& self.items@.len() == 0
    }

    /// A page at least is fetched, and never more pages than the limit.
    pub open spec fn well_formed(self) -> bool {
        1 <= self.max_pages && self.pages_fetched <= self.max_pages && 1 <= self.page_size
    }

    /// Whether the reading is over.
    pub open spec fn is_done(self) -> bool {
        self.pages_fetched > 0 && (self.next_page_token is None || self.pages_fetched
            >= self.max_pages)
    }

    /// The query of the next page.
    pub open spec fn query_pairs(self) -> Seq<(Seq<char>, Seq<char>)> {
        let first = Seq::<(Seq<char>, Seq<char>)>::empty().push(
            ("pageSize"@, text::decimal(self.page_size as nat)),
        );
        match self.next_page_token {
            Some(token) => first.push(("pageToken"@, token@)),
            None => first,
        }
    }

    /// A reading that begins.
    pub fn new(
        url: String,
        array_key: &str,
        result_key: &str,
        page_size: u32,
        max_pages: u32,
    ) -> (r: Self)
        requires
            1 <= page_size,
            1 <= max_pages,
        ensures
            r.begins(url@, array_key@, result_key@, page_size, max_pages),
    {
        Pager {
            url,
            array_key: array_key.to_owned(),
            result_key: result_key.to_owned(),
            page_size,
            max_pages,
            pages_fetched: 0,
            next_page_token: None,
            items: Vec::new(),
        }
    }

    /// The query of the next page.
    pub fn query(&self) -> (r: Vec<(String, String)>)
        ensures
            r@.len() == self.query_pairs().len(),
            forall|i: int|
                0 <= i < r@.len() ==> ((#[trigger] r@[i]).0@, r@[i].1@) == self.query_pairs()[i],
    {
        let mut r: Vec<(String, String)> = Vec::new();
        r.push(("pageSize".to_owned(), text::decimal_text(self.page_size as u64)));
        match &self.next_page_token {
            Some(token) => {
                r.push(("pageToken".to_owned(), token.clone()));
            },
            None => {},
        }
        r
    }

    /// Whether the reading is over.
    pub fn done(&self) -> (r: bool)
        ensures
            r == self.is_done(),
    {
        self.pages_fetched > 0 && (self.next_page_token.is_none() || self.pages_fetched
            >= self.max_pages)
    }

    /// Takes the answer for the next page.
    pub fn absorb(&mut self, payload: &Json)
        requires
            old(self).well_formed(),
            !old(self).is_done(),
        ensures
            final(self).well_formed(),
            final(self).url == old(self).url,
            final(self).array_key == old(self).array_key,
            final(self).result_key == old(self).result_key,
            final(self).page_size == old(self).page_size,
            final(self).max_pages == old(self).max_pages,
            final(self).pages_fetched == old(self).pages_fetched + 1,
            json::trees(final(self).items@) == json::trees(old(self).items@) + page_items(
                payload@,
                old(self).array_key@,
            ),
            text::opt_text(final(self).next_page_token) == next_token(payload@),
    {
        let ghost before = json::trees(self.items@);
        match payload.array_at(self.array_key.as_str()) {
            Some(rows) => {
                let ghost all = json::trees(rows@);
                assert(all.take(0) =~= Seq::<Tree>::empty());
                assert(json::trees(self.items@) =~= before + all.take(0));
                for i in 0..rows.len()
                    invariant
                        all == json::trees(rows@),
                        json::trees(self.items@) == before + all.take(i as int),
                        self.url == old(self).url,
                        self.array_key == old(self).array_key,
                        self.result_key == old(self).result_key,
                        self.page_size == old(self).page_size,
                        self.max_pages == old(self).max_pages,
                        self.pages_fetched == old(self).pages_fetched,
                        self.next_page_token == old(self).next_page_token,
                {
                    let ghost held = self.items@;
                    self.items.push(rows[i].clone());
                    assert(json::trees(self.items@) =~= json::trees(held).push(all[i as int]));
                    assert(before + all.take(i + 1) =~= (before + all.take(i as int)).push(
                        all[i as int],
                    ));
                }
                assert(all.take(rows@.len() as int) =~= all);
            },
            None => {
                assert(before + Seq::<Tree>::empty() =~= before);
            },
        }
        self.pages_fetched = self.pages_fetched + 1;
        self.next_page_token = match payload.text_at("nextPageToken") {
            Some(token) => if text::blank(token) {
                None
            } else {
                Some(token.to_owned())
            },
            None => None,
        };
    }

    /// The account of the reading.
    pub open spec fn meta_tree(self) -> Tree {
        Tree::Dict(
            json::fields()
                .push(("page_size"@, Tree::Whole(self.page_size as int)))
                .push(("pages_fetched"@, Tree::Whole(self.pages_fetched as int)))
                .push(("max_pages"@, Tree::Whole(self.max_pages as int)))
                .push(("next_page_token"@, json::opt_text(text::opt_text(self.next_page_token)))),
        )
    }

    /// What was read, under the key of the result, with the account of the reading.
    pub fn finish(self) -> (r: Json)
        ensures
            r@ == Tree::Dict(
                json::fields()
                    .push((self.result_key@, Tree::List(json::trees(self.items@))))
                    .push(("meta"@, self.meta_tree())),
            ),
    {
        let mut meta = Object::new();
        meta.put("page_size", json::whole(self.page_size as u64));
        meta.put("pages_fetched", json::whole(self.pages_fetched as u64));
        meta.put("max_pages", json::whole(self.max_pages as u64));
        meta.put("next_page_token", json::string_or_null(&self.next_page_token));
        let mut object = Object::new();
        object.put(self.result_key.as_str(), json::array(self.items));
        object.put("meta", json::dict(meta));
        json::dict(object)
    }
}

/// A reading is over at the latest when it has fetched as many pages as it may.
pub proof fn law_paging_ends(pager: Pager)
    requires
        pager.well_formed(),
        !pager.is_done(),
    ensures
        pager.pages_fetched < pager.max_pages,
{
}

/// A page size and a page limit that were asked for are kept within what the settings
/// allow.
pub proof fn law_page_bounds(requested: Option<u32>, limit: u32)
    requires
        limit > 0,
    ensures
        1 <= bounded(requested, limit) <= limit,
        requested matches Some(n) && 1 <= n <= limit ==> bounded(requested, limit) == requested->0,
{
}

// ---------------------------------------------------------------------------
// Custom definitions.
// ---------------------------------------------------------------------------

/// Whether an entry of the metadata is a custom definition.
pub open spec fn is_custom(entry: Tree) -> bool {
    entry.field("customDefinition"@) == Some(Tree::Bool(true))
}

/// The custom definitions among entries of the metadata, in their order.
pub open spec fn customs(entries: Seq<Tree>) -> Seq<Tree>
    decreases entries.len(),
{
    if entries.len() == 0 {
        entries
    } else {
        let before = customs(entries.drop_last());
        if is_custom(entries.last()) {
            before.push(entries.last())
        } else {
            before
        }
    }
}

/// The custom definitions under `key` of the metadata.
fn custom_entries(metadata: &Json, key: &str) -> (r: Json)
    ensures
        r@ == Tree::List(customs(page_items(metadata@, key@))),
{
    let mut kept: Vec<Json> = Vec::new();
    assert(json::trees(kept@) =~= Seq::<Tree>::empty());
    match metadata.array_at(key) {
        Some(entries) => {
            let ghost all = json::trees(entries@);
            assert(all.take(0) =~= Seq::<Tree>::empty());
            for i in 0..entries.len()
                invariant
                    all == json::trees(entries@),
                    json::trees(kept@) == customs(all.take(i as int)),
            {
                assert(all.take(i + 1).drop_last() =~= all.take(i as int));
                let custom: bool = match entries[i].get("customDefinition") {
                    Some(Json::Bool(b)) => *b,
                    _ => false,
                };
                if custom {
                    let ghost held = kept@;
                    kept.push(entries[i].clone());
                    assert(json::trees(kept@) =~= json::trees(held).push(all[i as int]));
                }
            }
            assert(all.take(entries@.len() as int) =~= all);
        },
        None => {},
    }
    json::array(kept)
}

/// The custom dimensions and custom metrics that the metadata of a property names.
pub fn custom_definitions(metadata: &Json) -> (r: Json)
    ensures
        r@ == Tree::Dict(
            json::fields()
                .push(
                    (
                        "custom_dimensions"@,
                        Tree::List(customs(page_items(metadata@, "dimensions"@))),
                    ),
                )
                .push(
                    ("custom_metrics"@, Tree::List(customs(page_items(metadata@, "metrics"@)))),
                ),
        ),
{
    let mut object = Object::new();
    object.put("custom_dimensions", custom_entries(metadata, "dimensions"));
    object.put("custom_metrics", custom_entries(metadata, "metrics"));
    json::dict(object)
}

/// A service is called under the base of its address, the version and the name of what is asked
/// about.
pub proof fn law_calls_go_to_their_resource(
    name: Seq<char>,
    problem: Problem,
    base: Seq<char>,
    version: Seq<char>,
    action: Seq<char>,
    body: Option<Tree>,
)
    ensures
        planned_call(Ok(name), base, version, action, body) matches Ok(call) && call.body == body
            && call.url == base + version + name + action,
        planned_call(Err(problem), base, version, action, body) == Err::<Call, Problem>(problem),
{
}

/// An address is accepted exactly where it can be read and is a secure one.
pub proof fn law_addresses_are_secure(parsed: Result<UrlView, Seq<char>>)
    ensures
        upstream_url_problem(parsed) is None <==> (parsed matches Ok(url) && url.scheme
            == "https"@),
        upstream_url_problem(parsed) matches Some(problem) ==> (
        problem matches Problem::InvalidArgument(field, said) && field == "upstream_url"@),
{
}

/// Tokens are fetched securely, and from two addresses only.
pub proof fn law_tokens_come_from_two_addresses(
    token_uri: Seq<char>,
    parsed: Result<UrlView, Seq<char>>,
)
    ensures
        token_uri_problem(token_uri, parsed) is None <==> (parsed matches Ok(url) && url.scheme
            == "https"@ && ((url.host == Some("oauth2.googleapis.com"@)
            && crate::config::without_end_slashes(url.path) == "/token"@) || (url.host == Some(
            "accounts.google.com"@,
        ) && crate::config::without_end_slashes(url.path) == "/o/oauth2/token"@))),
        token_uri_problem(token_uri, parsed) matches Some(problem) ==> problem is AuthBootstrap,
{
    reveal_strlit("");
    reveal_strlit("oauth2.googleapis.com");
    reveal_strlit("accounts.google.com");
    assert(""@.len() == 0);
    assert("oauth2.googleapis.com"@.len() == 21);
    assert("accounts.google.com"@.len() == 19);
}

/// The client of an installed program is taken before that of a page, and its tokens come from
/// where it says, or else from the usual address.
pub proof fn law_clients_of_programs_come_first(file: OAuthClientSecretFile)
    ensures
        file.installed is Some ==> client_of(file) == file.installed,
        file.installed is None ==> client_of(file) == file.web,
        client_of(file) is None ==> client_secret_problem(file) is Some,
        client_of(file) matches Some(client) ==> (text::trim(client.client_id@).len() == 0
            || text::trim(client.client_secret@).len() == 0 ==> client_secret_problem(file)
            is Some) && (client.token_uri is None ==> client_token_uri(client)
            == "https://oauth2.googleapis.com/token"@) && (client.token_uri matches Some(uri)
            && text::trim(uri@).len() > 0 ==> client_token_uri(client) == text::trim(
            client.token_uri->0@,
        )),
        client_secret_problem(file) matches Some(problem) ==> problem is AuthBootstrap,
{
}

/// A token is renewed a minute before it ends; one that does not say when it ends is taken to
/// last an hour.
pub proof fn law_tokens_are_renewed_in_time(expires_in: u64)
    ensures
        renewal(None) == 3540,
        expires_in >= 62 ==> renewal(Some(expires_in)) == expires_in - 60,
        expires_in <= 61 ==> renewal(Some(expires_in)) == 1,
{
}

/// A number of pages or of rows to a page is the one that is asked for, from one up to the
/// limit, and the limit where none is asked for.
pub proof fn law_pages_are_what_is_asked_for(n: u32, limit: u32)
    requires
        limit >= 1,
    ensures
        bounded(None, limit) == limit,
        bounded(Some(0), limit) == 1,
        1 <= n <= limit ==> bounded(Some(n), limit) == n,
        n > limit ==> bounded(Some(n), limit) == limit,
        bounded(Some(n), 0) == 1,
        bounded(None, 0) == 1,
{
}

/// A reply that reports a failure is an error with its status and what it says; one that
/// succeeds is what its body reads as, and nothing where the body is empty.
pub proof fn law_replies_are_what_they_say(
    status: u16,
    shown: Seq<char>,
    tree: Tree,
    message: Seq<char>,
    parsed: Result<Tree, Seq<char>>,
    empty: bool,
)
    ensures
        reply_of(true, status, false, shown, Ok(tree)) == Ok::<Tree, Problem>(tree),
        reply_of(true, status, false, shown, Err(message)) == Err::<Tree, Problem>(
            Problem::UpstreamJson(message),
        ),
        reply_of(true, status, true, shown, parsed) == Ok::<Tree, Problem>(Tree::Null),
        reply_of(false, status, empty, shown, parsed) matches Err(
            Problem::UpstreamApi(told, said),
        ) && told == status && (text::trim(shown).len() == 0 ==> said
            == "no upstream response body"@) && (text::trim(shown).len() > 0 && text::byte_len(
            text::trim(shown),
        ) <= 1024 ==> said == text::trim(shown)),
{
}

/// A token that could not be renewed is told with the status, the code and what is said of it.
pub proof fn law_refused_renewals_are_told(
    status: u16,
    code: String,
    description: String,
    body: Seq<char>,
)
    requires
        text::trim(description@).len() > 0,
    ensures
        refusal_of(status, Some(code), Some(description), body) == Problem::AuthBootstrap(
            "oauth refresh exchange failed with status "@ + text::decimal(status as nat) + " ("@
                + code@ + "): "@ + text::trim(description@),
        ),
        refusal_of(status, None, Some(description), body) == Problem::AuthBootstrap(
            "oauth refresh exchange failed with status "@ + text::decimal(status as nat) + " ("@
                + "unknown_error"@ + "): "@ + text::trim(description@),
        ),
{
}

/// The next page is asked for with the token that the last one gave; the first without one; and
/// there is no next page where no token is given.
pub proof fn law_pages_are_asked_for_by_token(pager: Pager, payload: Tree, token: Seq<char>)
    ensures
        pager.query_pairs().len() == (if pager.next_page_token is Some {
            2nat
        } else {
            1nat
        }),
        pager.query_pairs()[0] == ("pageSize"@, text::decimal(pager.page_size as nat)),
        pager.next_page_token matches Some(held) ==> pager.query_pairs()[1] == (
            "pageToken"@,
            held@,
        ),
        payload.field("nextPageToken"@) is None ==> next_token(payload) is None,
        payload.field("nextPageToken"@) == Some(Tree::Text(token)) ==> next_token(payload) == (
        if text::trim(token).len() > 0 {
            Some(token)
        } else {
            None
        }),
        pager.is_done() <==> pager.pages_fetched > 0 && (pager.next_page_token is None
            || pager.pages_fetched >= pager.max_pages),
{
}

/// The items of a page are those of the list that was asked for, and none where there is none.
pub proof fn law_pages_hold_their_items(payload: Tree, array_key: Seq<char>, items: Seq<Tree>)
    ensures
        payload.field(array_key) == Some(Tree::List(items)) ==> page_items(payload, array_key)
            == items,
        payload.field(array_key) is None ==> page_items(payload, array_key).len() == 0,
{
}

/// What is told of a paging: how it asked, how far it came, and the token to go on with.
pub proof fn law_pagings_are_told(pager: Pager)
    ensures
        pager.meta_tree().field("page_size"@) == Some(Tree::Whole(pager.page_size as int)),
        pager.meta_tree().field("pages_fetched"@) == Some(
            Tree::Whole(pager.pages_fetched as int),
        ),
        pager.meta_tree().field("max_pages"@) == Some(Tree::Whole(pager.max_pages as int)),
        pager.meta_tree().field("next_page_token"@) == Some(
            match pager.next_page_token {
                Some(token) => Tree::Text(token@),
                None => Tree::Null,
            },
        ),
{
    broadcast use json::group_found;

    reveal_strlit("page_size");
    assert("page_size"@.len() == 9);
    reveal_strlit("pages_fetched");
    assert("pages_fetched"@.len() == 13);
    reveal_strlit("max_pages");
    assert("max_pages"@.len() == 9);
    reveal_strlit("next_page_token");
    assert("next_page_token"@.len() == 15);
    assert("page_size"@[0] != "max_pages"@[0]);
}

/// Of the definitions of a property those count as its own that say so; they keep their order.
pub proof fn law_own_definitions_say_so(entries: Seq<Tree>, entry: Tree)
    ensures
        customs(Seq::<Tree>::empty()).len() == 0,
        entry.field("customDefinition"@) == Some(Tree::Bool(true)) ==> customs(entries.push(entry))
            == customs(entries).push(entry),
        entry.field("customDefinition"@) != Some(Tree::Bool(true)) ==> customs(entries.push(entry))
            == customs(entries),
{
    assert(entries.push(entry).drop_last() =~= entries);
}

/// The project that pays is the one that the credentials name, where they name one.
pub proof fn law_credentials_name_their_project(
    file: Tree,
    project: Seq<char>,
    message: Seq<char>,
)
    ensures
        file.field("quota_project_id"@) == Some(Tree::Text(project)) && text::trim(project).len()
            > 0 ==> quota_project_in(Ok(file)) == Some(text::trim(project)),
        file.field("quota_project_id"@) is None ==> quota_project_in(Ok(file)) is None,
        quota_project_in(Err(message)) is None,
{
}

} // verus!
