//! What is said of the credentials that were found, and what a user should do next.

use vstd::prelude::*;
use vstd::string::*;

use crate::auth_ux;
use crate::config::{Settings, UpstreamTokenSource, DEFAULT_ANALYTICS_SCOPE};
use crate::contract;
use crate::error;
use crate::error::AnalyticsError;
use crate::ga_calls::AuthSource;
use crate::json;
use crate::json::{Json, Object, Tree};
use crate::text;

verus! {

// ---------------------------------------------------------------------------
// Credentials.
// ---------------------------------------------------------------------------

/// What was found of credentials.
#[derive(Debug)]
pub struct CredentialDetection {
    pub gcloud_available: bool,
    pub gcloud_version: Option<String>,
    pub adc_file: FilePresence,
    pub env: EnvPresence,
}

/// A file that may be there.
#[derive(Debug)]
pub struct FilePresence {
    pub path: Option<String>,
    pub present: bool,
}

/// The variables that are set.
#[derive(Debug, Clone, Copy)]
pub struct EnvPresence {
    pub google_application_credentials: bool,
    pub oauth_client_secret_json: bool,
    pub oauth_refresh_token: bool,
    pub quota_project: bool,
    pub shared_adc: bool,
    pub cloudsdk_config: bool,
}

/// The quota project of calls, and where it comes from.
#[derive(Debug)]
pub struct QuotaProjectStatus {
    pub configured: bool,
    pub value: Option<String>,
    pub source: Option<String>,
}

/// What came of asking Google.
#[derive(Debug)]
pub enum VerificationReport {
    NotChecked,
    Verified,
    RequestHeaderRequired { header: String },
    Failed { error: String, hint: Option<String> },
    ConfigError { error: String },
}

/// What Google's answer says of a login that failed.
#[derive(Debug, Clone, Copy, PartialEq, Eq, Structural)]
pub enum ProviderFailure {
    MissingQuotaProject,
    ApiDisabled,
    OAuthAppBlocked,
    Unknown,
}

/// The commands that set up a Google project.
#[derive(Debug)]
pub struct ProviderSetup {
    pub quota_project_command: String,
    pub api_enable_command: Option<String>,
}

/// What is said of the credentials.
#[derive(Debug)]
pub struct AuthReport {
    pub capability_profile: String,
    pub requested_scope: String,
    pub upstream_token_source: String,
    pub upstream_token_header: String,
    pub auth_source: Option<String>,
    pub auth_source_candidate: Option<String>,
    pub config_valid: bool,
    pub credential_material_detected: bool,
    pub quota_project: QuotaProjectStatus,
    pub detected: CredentialDetection,
    pub verification: VerificationReport,
    pub ready: bool,
    pub next_steps: Vec<String>,
}

/// Whether credentials were found outside the settings.
pub open spec fn material_found(detection: CredentialDetection) -> bool {
    ||| detection.adc_file.present
    ||| detection.env.google_application_credentials
    ||| detection.env.oauth_client_secret_json && detection.env.oauth_refresh_token
}

/// Whether the settings hold credentials.
pub open spec fn material_in_settings(settings: Settings) -> bool {
    settings.oauth_client_secret_json is Some && settings.oauth_refresh_token is Some
}

/// Whether a user named credentials.
pub open spec fn credentials_named(settings: Settings, detection: CredentialDetection) -> bool {
    ||| detection.env.google_application_credentials
    ||| detection.env.oauth_client_secret_json
    ||| detection.env.oauth_refresh_token
    ||| settings.oauth_client_secret_json is Some
    ||| settings.oauth_refresh_token is Some
}

/// Whether the credentials that a user named are complete.
pub open spec fn named_material(settings: Settings, detection: CredentialDetection) -> bool {
    ||| detection.env.google_application_credentials
    ||| detection.env.oauth_client_secret_json && detection.env.oauth_refresh_token
    ||| material_in_settings(settings)
}

/// Whether a user named credentials that are not complete.
pub open spec fn needs_repair(settings: Settings, detection: CredentialDetection) -> bool {
    credentials_named(settings, detection) && !named_material(settings, detection)
}

/// Whether credentials were found outside the settings.
pub fn local_credential_material_detected(detection: &CredentialDetection) -> (r: bool)
    ensures
        r == material_found(*detection),
{
    detection.adc_file.present || detection.env.google_application_credentials || (
    detection.env.oauth_client_secret_json && detection.env.oauth_refresh_token)
}

/// Whether the settings hold credentials.
pub fn settings_credential_material_detected(settings: &Settings) -> (r: bool)
    ensures
        r == material_in_settings(*settings),
{
    settings.oauth_client_secret_json.is_some() && settings.oauth_refresh_token.is_some()
}

/// Whether a user named credentials.
pub fn explicit_credential_config_detected(
    settings: &Settings,
    detection: &CredentialDetection,
) -> (r: bool)
    ensures
        r == credentials_named(*settings, *detection),
{
    detection.env.google_application_credentials || detection.env.oauth_client_secret_json
        || detection.env.oauth_refresh_token || settings.oauth_client_secret_json.is_some()
        || settings.oauth_refresh_token.is_some()
}

/// Whether a user named credentials that are not complete.
pub fn explicit_credential_config_needs_repair(
    settings: &Settings,
    detection: &CredentialDetection,
) -> (r: bool)
    ensures
        r == needs_repair(*settings, *detection),
{
    explicit_credential_config_detected(settings, detection) && !(
    detection.env.google_application_credentials || (detection.env.oauth_client_secret_json
        && detection.env.oauth_refresh_token) || settings_credential_material_detected(settings))
}

/// The credential source that is shown: the provider chain only where there is something
/// in it or where it was seen to work.
pub open spec fn shown_source(
    source: Option<AuthSource>,
    material: bool,
    verification: VerificationReport,
) -> Option<Seq<char>> {
    match source {
        None => None,
        Some(found) => if found == AuthSource::GoogleDefaultProviderChain && !material
            && !(verification is Verified) {
            None
        } else {
            Some(found.name())
        },
    }
}

/// The credential source that is shown.
pub fn visible_auth_source(
    detected_auth_source: Option<AuthSource>,
    credential_material_detected: bool,
    verification: &VerificationReport,
) -> (r: Option<String>)
    ensures
        text::opt_text(r) == shown_source(
            detected_auth_source,
            credential_material_detected,
            *verification,
        ),
{
    let verified: bool = match verification {
        VerificationReport::Verified => true,
        _ => false,
    };
    match detected_auth_source {
        None => None,
        Some(found) => {
            if found == AuthSource::GoogleDefaultProviderChain && !credential_material_detected
                && !verified {
                None
            } else {
                Some(found.as_str().to_owned())
            }
        },
    }
}

/// Whether calls can be made.
pub open spec fn is_ready(
    settings: Settings,
    verification: VerificationReport,
    config_valid: bool,
) -> bool {
    config_valid && verification is Verified && auth_ux::allows_read(settings.analytics_scope@)
}

/// Whether calls can be made.
pub fn report_ready(
    settings: &Settings,
    verification: &VerificationReport,
    config_valid: bool,
) -> (r: bool)
    ensures
        r == is_ready(*settings, *verification, config_valid),
{
    let verified: bool = match verification {
        VerificationReport::Verified => true,
        _ => false,
    };
    config_valid && verified && auth_ux::scope_allows_analytics_read(
        settings.analytics_scope.as_str(),
    )
}

impl QuotaProjectStatus {
    /// Whether the status is that of the project of the settings, else of the project that
    /// was found.
    pub open spec fn tells(self, configured: Option<Seq<char>>, found: Option<Seq<char>>) -> bool {
        match configured {
            Some(project) => self.configured && text::opt_text(self.value) == Some(project)
                && text::opt_text(self.source) == Some(
                "GOOGLE_ANALYTICS_MCP_QUOTA_PROJECT_or_cli"@,
            ),
            None => match found {
                Some(project) => self.configured && text::opt_text(self.value) == Some(project)
                    && text::opt_text(self.source) == Some("adc_credentials_file"@),
                None => !self.configured && self.value is None && self.source is None,
            },
        }
    }
}

/// The quota project of calls: that of the settings, else the one that was found.
pub fn effective_quota_project(settings: &Settings, detected_quota_project: &Option<String>) -> (r:
    QuotaProjectStatus)
    ensures
        r.tells(text::opt_text(settings.quota_project), text::opt_text(*detected_quota_project)),
{
    match &settings.quota_project {
        Some(project) => QuotaProjectStatus {
            configured: true,
            value: Some(project.clone()),
            source: Some("GOOGLE_ANALYTICS_MCP_QUOTA_PROJECT_or_cli".to_owned()),
        },
        None => match detected_quota_project {
            Some(project) => QuotaProjectStatus {
                configured: true,
                value: Some(project.clone()),
                source: Some("adc_credentials_file".to_owned()),
            },
            None => QuotaProjectStatus { configured: false, value: None, source: None },
        },
    }
}

// ---------------------------------------------------------------------------
// Steps.
// ---------------------------------------------------------------------------

pub const FIX_CREDENTIALS_STEP: &'static str = "Fix or clear explicit credential configuration before browser login; it takes precedence over Application Default Credentials.";

pub const FIX_MALFORMED_STEP: &'static str = "Fix or clear malformed explicit credential configuration before browser login; it takes precedence over Application Default Credentials.";

pub const RESTART_STEP: &'static str = "Restart MCP clients that keep long-lived stdio or HTTP server processes.";

pub const VERIFY_STEP: &'static str = "Run `ga4-mcp auth status --verify-token` to prove Google API access.";

pub const LOCAL_FALLBACK_STEP: &'static str = "For the lowest-friction local/loopback service, set GOOGLE_ANALYTICS_MCP_UPSTREAM_TOKEN_SOURCE=request_header_or_config and GOOGLE_ANALYTICS_MCP_UPSTREAM_TOKEN_HEADER=x-google-access-token; keep request_header for hosted per-user services where every client supplies a Google token.";

pub const UNATTENDED_STEP: &'static str = "For unattended deployments, prefer GOOGLE_APPLICATION_CREDENTIALS or OAuth refresh-token env configuration.";

/// The step that makes the scope a reading one.
pub open spec fn read_scope() -> Seq<char> {
    "Set GOOGLE_ANALYTICS_MCP_SCOPE="@ + DEFAULT_ANALYTICS_SCOPE@
        + " or start the MCP server with `--analytics-scope "@ + DEFAULT_ANALYTICS_SCOPE@ + "`."@
}

/// The command of a login.
pub open spec fn login_with_scope(missing_scope: bool) -> Seq<char> {
    if missing_scope {
        "ga4-mcp --analytics-scope "@ + DEFAULT_ANALYTICS_SCOPE@ + " auth login"@
    } else {
        "ga4-mcp auth login"@
    }
}

/// The step that verifies credentials that every request brings.
pub open spec fn header_step(header: Seq<char>) -> Seq<char> {
    "Call ga4_auth_status with verify_token=true while sending "@ + header
        + ". For local or loopback fallback, switch GOOGLE_ANALYTICS_MCP_UPSTREAM_TOKEN_SOURCE=request_header_or_config and rerun `ga4-mcp auth status --verify-token`."@
}

/// The step that makes the scope a reading one.
pub fn read_scope_step() -> (r: String)
    ensures
        r@ == read_scope(),
{
    let mut r: String = "Set GOOGLE_ANALYTICS_MCP_SCOPE=".to_owned();
    r.append(DEFAULT_ANALYTICS_SCOPE);
    r.append(" or start the MCP server with `--analytics-scope ");
    r.append(DEFAULT_ANALYTICS_SCOPE);
    r.append("`.");
    r
}

/// The command of a login.
pub fn login_with_scope_text(missing_scope: bool) -> (r: String)
    ensures
        r@ == login_with_scope(missing_scope),
{
    if missing_scope {
        let mut r: String = "ga4-mcp --analytics-scope ".to_owned();
        r.append(DEFAULT_ANALYTICS_SCOPE);
        r.append(" auth login");
        r
    } else {
        "ga4-mcp auth login".to_owned()
    }
}

fn request_header_verification_step(header: &str) -> (r: String)
    ensures
        r@ == header_step(header@),
{
    let mut r: String = "Call ga4_auth_status with verify_token=true while sending ".to_owned();
    r.append(header);
    r.append(
        ". For local or loopback fallback, switch GOOGLE_ANALYTICS_MCP_UPSTREAM_TOKEN_SOURCE=request_header_or_config and rerun `ga4-mcp auth status --verify-token`.",
    );
    r
}

/// `steps` with one more, where it is called for.
pub open spec fn with_step(steps: Seq<Seq<char>>, needed: bool, step: Seq<char>) -> Seq<Seq<char>> {
    if needed {
        steps.push(step)
    } else {
        steps
    }
}

/// `steps` behind one more, where it is called for.
pub open spec fn after_step(steps: Seq<Seq<char>>, needed: bool, step: Seq<char>) -> Seq<Seq<char>> {
    if needed {
        steps.insert(0, step)
    } else {
        steps
    }
}

fn add_step(steps: &mut Vec<String>, needed: bool, step: &str)
    ensures
        text::texts(final(steps)@) == with_step(text::texts(old(steps)@), needed, step@),
{
    if needed {
        text::add_text(steps, step);
    }
}

/// Whether requests bring the tokens.
pub open spec fn header_only(settings: Settings) -> bool {
    settings.upstream_token_source == UpstreamTokenSource::RequestHeader
}

/// Whether the scope of the settings does not allow to read.
pub open spec fn lacks_scope(settings: Settings) -> bool {
    !auth_ux::allows_read(settings.analytics_scope@)
}

/// A list of steps before the first one.
pub open spec fn no_steps() -> Seq<Seq<char>> {
    Seq::<Seq<char>>::empty()
}

/// The steps after a check that passed.
pub open spec fn verified_steps(settings: Settings, detection: CredentialDetection) -> Seq<
    Seq<char>,
> {
    let fix = with_step(no_steps(), needs_repair(settings, detection), FIX_CREDENTIALS_STEP@);
    let scope = with_step(fix, lacks_scope(settings), read_scope());
    let local = with_step(scope, header_only(settings), LOCAL_FALLBACK_STEP@);
    local.push(RESTART_STEP@).push(
        "Call get_account_summaries to list accessible GA4 accounts and properties."@,
    )
}

/// The steps where credentials were found and not checked.
pub open spec fn found_steps(settings: Settings, detection: CredentialDetection) -> Seq<Seq<char>> {
    let fix = with_step(no_steps(), needs_repair(settings, detection), FIX_CREDENTIALS_STEP@);
    let scope = with_step(fix, lacks_scope(settings), read_scope());
    scope.push(
        if header_only(settings) {
            header_step(settings.upstream_token_header@)
        } else {
            VERIFY_STEP@
        },
    ).push("Then restart the MCP client and call get_account_summaries."@)
}

/// The steps where no credentials were found.
pub open spec fn missing_steps(settings: Settings, detection: CredentialDetection) -> Seq<
    Seq<char>,
> {
    let start = no_steps().push(
        "Run `"@ + login_with_scope(lacks_scope(settings)) + "` for browser login."@,
    ).push("Restart the MCP client and call get_account_summaries."@);
    let fix = after_step(start, credentials_named(settings, detection), FIX_CREDENTIALS_STEP@);
    let scope = after_step(fix, lacks_scope(settings), read_scope());
    scope.insert(
        1,
        if header_only(settings) {
            header_step(settings.upstream_token_header@)
        } else {
            "Then run `ga4-mcp auth status --verify-token` to prove Google API access."@
        },
    )
}

/// The steps where only a request can be checked.
pub open spec fn header_steps(settings: Settings, header: Seq<char>) -> Seq<Seq<char>> {
    with_step(no_steps(), lacks_scope(settings), read_scope()).push(header_step(header)).push(
        RESTART_STEP@,
    ).push(
        "Call get_account_summaries after runtime auth is verified to discover accessible GA4 accounts and properties."@,
    )
}

/// `steps` with those that mend what Google's answer says.
pub open spec fn with_repair(
    steps: Seq<Seq<char>>,
    login: Seq<char>,
    gcloud_available: bool,
    failure: ProviderFailure,
    setup: ProviderSetup,
) -> Seq<Seq<char>> {
    match failure {
        ProviderFailure::MissingQuotaProject | ProviderFailure::ApiDisabled => {
            let quota = steps.push(
                "Set an ADC quota project with `"@ + setup.quota_project_command@ + "`."@,
            );
            let enable = match setup.api_enable_command {
                Some(command) => quota.push(
                    "Enable the required Analytics APIs with `"@ + command@ + "`."@,
                ),
                None => quota,
            };
            enable.push("Then rerun `ga4-mcp auth status --verify-token`."@)
        },
        ProviderFailure::OAuthAppBlocked => steps.push(
            "Run `"@ + login
                + "` again with `--client-id-file /path/to/client_id.json` from a Desktop OAuth client."@,
        ),
        ProviderFailure::Unknown => if !gcloud_available {
            steps.push(
                "Install the Google Cloud SDK, or configure GOOGLE_APPLICATION_CREDENTIALS."@,
            )
        } else {
            steps.push("Run `"@ + login + "` for browser login."@).push(
                "If Google rejects the Analytics scope, rerun login with `--client-id-file /path/to/client_id.json` from a Desktop OAuth client."@,
            )
        },
    }
}

/// The steps after a check that failed.
pub open spec fn failed_steps(
    settings: Settings,
    detection: CredentialDetection,
    failure: ProviderFailure,
    setup: ProviderSetup,
) -> Seq<Seq<char>> {
    let scope = with_step(no_steps(), lacks_scope(settings), read_scope());
    let fix = with_step(scope, credentials_named(settings, detection), FIX_CREDENTIALS_STEP@);
    let repair = with_repair(
        fix,
        login_with_scope(lacks_scope(settings)),
        detection.gcloud_available,
        failure,
        setup,
    );
    with_step(repair, header_only(settings), LOCAL_FALLBACK_STEP@).push(UNATTENDED_STEP@)
}

/// The steps where the configuration cannot be used.
pub open spec fn invalid_steps(settings: Settings, detection: CredentialDetection) -> Seq<
    Seq<char>,
> {
    let scope = with_step(no_steps(), lacks_scope(settings), read_scope());
    let fix = with_step(scope, credentials_named(settings, detection), FIX_MALFORMED_STEP@);
    let login = fix.push(
        if !detection.gcloud_available {
            "Install the Google Cloud SDK for browser login, or configure a valid GOOGLE_APPLICATION_CREDENTIALS file."@
        } else {
            "Run `"@ + login_with_scope(lacks_scope(settings))
                + "` after explicit credential configuration is fixed or cleared."@
        },
    );
    with_step(login, header_only(settings), LOCAL_FALLBACK_STEP@).push(UNATTENDED_STEP@)
}

/// The steps where a check was asked for and not made.
pub open spec fn unchecked_steps(settings: Settings) -> Seq<Seq<char>> {
    no_steps().push(
        if header_only(settings) {
            header_step(settings.upstream_token_header@)
        } else {
            VERIFY_STEP@
        },
    )
}

/// What a user should do next.
pub open spec fn steps_after(
    settings: Settings,
    detection: CredentialDetection,
    verification: VerificationReport,
    verify_token: bool,
    failure: ProviderFailure,
    setup: ProviderSetup,
) -> Seq<Seq<char>> {
    match verification {
        VerificationReport::Verified => verified_steps(settings, detection),
        VerificationReport::NotChecked => if verify_token {
            unchecked_steps(settings)
        } else if material_found(detection) || material_in_settings(settings) {
            found_steps(settings, detection)
        } else {
            missing_steps(settings, detection)
        },
        VerificationReport::RequestHeaderRequired { header } => header_steps(settings, header@),
        VerificationReport::Failed { error, hint } => failed_steps(
            settings,
            detection,
            failure,
            setup,
        ),
        VerificationReport::ConfigError { error } => invalid_steps(settings, detection),
    }
}

fn is_header_only(settings: &Settings) -> (r: bool)
    ensures
        r == header_only(*settings),
{
    settings.upstream_token_source == UpstreamTokenSource::RequestHeader
}

fn steps_when_verified(settings: &Settings, detection: &CredentialDetection) -> (r: Vec<String>)
    ensures
        text::texts(r@) == verified_steps(*settings, *detection),
{
    let missing: bool = !auth_ux::scope_allows_analytics_read(settings.analytics_scope.as_str());
    let mut steps: Vec<String> = Vec::new();
    assert(text::texts(steps@) =~= no_steps());
    add_step(
        &mut steps,
        explicit_credential_config_needs_repair(settings, detection),
        FIX_CREDENTIALS_STEP,
    );
    add_step(&mut steps, missing, read_scope_step().as_str());
    add_step(&mut steps, is_header_only(settings), LOCAL_FALLBACK_STEP);
    text::add_text(&mut steps, RESTART_STEP);
    text::add_text(
        &mut steps,
        "Call get_account_summaries to list accessible GA4 accounts and properties.",
    );
    steps
}

fn steps_when_found(settings: &Settings, detection: &CredentialDetection) -> (r: Vec<String>)
    ensures
        text::texts(r@) == found_steps(*settings, *detection),
{
    let missing: bool = !auth_ux::scope_allows_analytics_read(settings.analytics_scope.as_str());
    let mut steps: Vec<String> = Vec::new();
    assert(text::texts(steps@) =~= no_steps());
    add_step(
        &mut steps,
        explicit_credential_config_needs_repair(settings, detection),
        FIX_CREDENTIALS_STEP,
    );
    add_step(&mut steps, missing, read_scope_step().as_str());
    if is_header_only(settings) {
        text::add_text(
            &mut steps,
            request_header_verification_step(settings.upstream_token_header.as_str()).as_str(),
        );
    } else {
        text::add_text(&mut steps, VERIFY_STEP);
    }
    text::add_text(&mut steps, "Then restart the MCP client and call get_account_summaries.");
    steps
}

fn steps_when_missing(settings: &Settings, detection: &CredentialDetection) -> (r: Vec<String>)
    ensures
        text::texts(r@) == missing_steps(*settings, *detection),
{
    let missing: bool = !auth_ux::scope_allows_analytics_read(settings.analytics_scope.as_str());
    let mut steps: Vec<String> = Vec::new();
    assert(text::texts(steps@) =~= no_steps());
    let mut login: String = error::labelled("Run `", login_with_scope_text(missing).as_str());
    login.append("` for browser login.");
    text::add_text(&mut steps, login.as_str());
    text::add_text(&mut steps, "Restart the MCP client and call get_account_summaries.");
    if explicit_credential_config_detected(settings, detection) {
        text::put_text(&mut steps, 0, FIX_CREDENTIALS_STEP);
    }
    if missing {
        text::put_text(&mut steps, 0, read_scope_step().as_str());
    }
    assert(text::texts(steps@).len() >= 2);
    if is_header_only(settings) {
        text::put_text(
            &mut steps,
            1,
            request_header_verification_step(settings.upstream_token_header.as_str()).as_str(),
        );
    } else {
        text::put_text(
            &mut steps,
            1,
            "Then run `ga4-mcp auth status --verify-token` to prove Google API access.",
        );
    }
    steps
}

fn steps_for_header(settings: &Settings, header: &str) -> (r: Vec<String>)
    ensures
        text::texts(r@) == header_steps(*settings, header@),
{
    let missing: bool = !auth_ux::scope_allows_analytics_read(settings.analytics_scope.as_str());
    let mut steps: Vec<String> = Vec::new();
    assert(text::texts(steps@) =~= no_steps());
    add_step(&mut steps, missing, read_scope_step().as_str());
    text::add_text(&mut steps, request_header_verification_step(header).as_str());
    text::add_text(&mut steps, RESTART_STEP);
    text::add_text(
        &mut steps,
        "Call get_account_summaries after runtime auth is verified to discover accessible GA4 accounts and properties.",
    );
    steps
}

fn add_repair(
    steps: &mut Vec<String>,
    login: &str,
    gcloud_available: bool,
    failure: ProviderFailure,
    setup: &ProviderSetup,
)
    ensures
        text::texts(final(steps)@) == with_repair(
            text::texts(old(steps)@),
            login@,
            gcloud_available,
            failure,
            *setup,
        ),
{
    match failure {
        ProviderFailure::MissingQuotaProject | ProviderFailure::ApiDisabled => {
            let mut quota: String = error::labelled(
                "Set an ADC quota project with `",
                setup.quota_project_command.as_str(),
            );
            quota.append("`.");
            text::add_text(steps, quota.as_str());
            match &setup.api_enable_command {
                Some(command) => {
                    let mut enable: String = error::labelled(
                        "Enable the required Analytics APIs with `",
                        command.as_str(),
                    );
                    enable.append("`.");
                    text::add_text(steps, enable.as_str());
                },
                None => {},
            }
            text::add_text(steps, "Then rerun `ga4-mcp auth status --verify-token`.");
        },
        ProviderFailure::OAuthAppBlocked => {
            let mut again: String = error::labelled("Run `", login);
            again.append(
                "` again with `--client-id-file /path/to/client_id.json` from a Desktop OAuth client.",
            );
            text::add_text(steps, again.as_str());
        },
        ProviderFailure::Unknown => {
            if !gcloud_available {
                text::add_text(
                    steps,
                    "Install the Google Cloud SDK, or configure GOOGLE_APPLICATION_CREDENTIALS.",
                );
            } else {
                let mut run: String = error::labelled("Run `", login);
                run.append("` for browser login.");
                text::add_text(steps, run.as_str());
                text::add_text(
                    steps,
                    "If Google rejects the Analytics scope, rerun login with `--client-id-file /path/to/client_id.json` from a Desktop OAuth client.",
                );
            }
        },
    }
}

fn steps_when_failed(
    settings: &Settings,
    detection: &CredentialDetection,
    failure: ProviderFailure,
    setup: &ProviderSetup,
) -> (r: Vec<String>)
    ensures
        text::texts(r@) == failed_steps(*settings, *detection, failure, *setup),
{
    let missing: bool = !auth_ux::scope_allows_analytics_read(settings.analytics_scope.as_str());
    let mut steps: Vec<String> = Vec::new();
    assert(text::texts(steps@) =~= no_steps());
    add_step(&mut steps, missing, read_scope_step().as_str());
    add_step(
        &mut steps,
        explicit_credential_config_detected(settings, detection),
        FIX_CREDENTIALS_STEP,
    );
    add_repair(
        &mut steps,
        login_with_scope_text(missing).as_str(),
        detection.gcloud_available,
        failure,
        setup,
    );
    add_step(&mut steps, is_header_only(settings), LOCAL_FALLBACK_STEP);
    text::add_text(&mut steps, UNATTENDED_STEP);
    steps
}

fn steps_when_invalid(settings: &Settings, detection: &CredentialDetection) -> (r: Vec<String>)
    ensures
        text::texts(r@) == invalid_steps(*settings, *detection),
{
    let missing: bool = !auth_ux::scope_allows_analytics_read(settings.analytics_scope.as_str());
    let mut steps: Vec<String> = Vec::new();
    assert(text::texts(steps@) =~= no_steps());
    add_step(&mut steps, missing, read_scope_step().as_str());
    add_step(
        &mut steps,
        explicit_credential_config_detected(settings, detection),
        FIX_MALFORMED_STEP,
    );
    if !detection.gcloud_available {
        text::add_text(
            &mut steps,
            "Install the Google Cloud SDK for browser login, or configure a valid GOOGLE_APPLICATION_CREDENTIALS file.",
        );
    } else {
        let mut run: String = error::labelled("Run `", login_with_scope_text(missing).as_str());
        run.append("` after explicit credential configuration is fixed or cleared.");
        text::add_text(&mut steps, run.as_str());
    }
    add_step(&mut steps, is_header_only(settings), LOCAL_FALLBACK_STEP);
    text::add_text(&mut steps, UNATTENDED_STEP);
    steps
}

/// What a user should do next. What Google's answer says of a failure, and the commands
/// that set up a Google project, are given.
pub fn next_steps(
    settings: &Settings,
    detection: &CredentialDetection,
    verification: &VerificationReport,
    verify_token: bool,
    failure: ProviderFailure,
    setup: &ProviderSetup,
) -> (r: Vec<String>)
    ensures
        text::texts(r@) == steps_after(
            *settings,
            *detection,
            *verification,
            verify_token,
            failure,
            *setup,
        ),
{
    match verification {
        VerificationReport::Verified => steps_when_verified(settings, detection),
        VerificationReport::NotChecked => {
            if verify_token {
                let mut steps: Vec<String> = Vec::new();
                assert(text::texts(steps@) =~= no_steps());
                if is_header_only(settings) {
                    text::add_text(
                        &mut steps,
                        request_header_verification_step(
                            settings.upstream_token_header.as_str(),
                        ).as_str(),
                    );
                } else {
                    text::add_text(&mut steps, VERIFY_STEP);
                }
                steps
            } else if local_credential_material_detected(detection)
                || settings_credential_material_detected(settings) {
                steps_when_found(settings, detection)
            } else {
                steps_when_missing(settings, detection)
            }
        },
        VerificationReport::RequestHeaderRequired { header } => steps_for_header(
            settings,
            header.as_str(),
        ),
        VerificationReport::Failed { .. } => steps_when_failed(settings, detection, failure, setup),
        VerificationReport::ConfigError { .. } => steps_when_invalid(settings, detection),
    }
}

/// Whether the environment names another scope than that of a login.
pub open spec fn scope_needs_repair(
    login_scope: Seq<char>,
    ambient_scope: Option<Seq<char>>,
) -> bool {
    match ambient_scope {
        Some(scope) => scope.len() > 0 && scope != login_scope,
        None => false,
    }
}

/// The steps after a login that make the server use it.
pub open spec fn runtime_steps(
    settings: Settings,
    login_scope: Seq<char>,
    ambient_scope: Option<Seq<char>>,
) -> Seq<Seq<char>> {
    with_step(
        with_step(
            no_steps(),
            scope_needs_repair(login_scope, ambient_scope),
            "Unset GOOGLE_ANALYTICS_MCP_SCOPE, set GOOGLE_ANALYTICS_MCP_SCOPE="@ + login_scope
                + ", or update any MCP launcher `--analytics-scope` argument before starting the MCP server; stale scope configuration overrides the login scope."@,
        ),
        header_only(settings),
        LOCAL_FALLBACK_STEP@,
    )
}

/// Whether the environment names another scope than that of a login.
pub fn runtime_scope_needs_repair(login_scope: &str, ambient_scope: Option<&str>) -> (r: bool)
    ensures
        r == scope_needs_repair(login_scope@, text::opt_str(ambient_scope)),
{
    match ambient_scope {
        Some(scope) => !scope.is_empty() && !text::same_text(scope, login_scope),
        None => false,
    }
}

/// The steps after a login that make the server use it.
pub fn post_login_runtime_steps(
    original_settings: &Settings,
    login_scope: &str,
    ambient_scope: Option<&str>,
) -> (r: Vec<String>)
    ensures
        text::texts(r@) == runtime_steps(
            *original_settings,
            login_scope@,
            text::opt_str(ambient_scope),
        ),
{
    let mut steps: Vec<String> = Vec::new();
    assert(text::texts(steps@) =~= no_steps());
    let scope_step: String = error::described(
        "Unset GOOGLE_ANALYTICS_MCP_SCOPE, set GOOGLE_ANALYTICS_MCP_SCOPE=",
        login_scope,
        ", or update any MCP launcher `--analytics-scope` argument before starting the MCP server; stale scope configuration overrides the login scope.",
        "",
    );
    proof {
        reveal_strlit("");
        assert(scope_step@
            =~= "Unset GOOGLE_ANALYTICS_MCP_SCOPE, set GOOGLE_ANALYTICS_MCP_SCOPE="@ + login_scope@
            + ", or update any MCP launcher `--analytics-scope` argument before starting the MCP server; stale scope configuration overrides the login scope."@);
    }
    add_step(
        &mut steps,
        runtime_scope_needs_repair(login_scope, ambient_scope),
        scope_step.as_str(),
    );
    add_step(&mut steps, is_header_only(original_settings), LOCAL_FALLBACK_STEP);
    steps
}

// ---------------------------------------------------------------------------
// The report.
// ---------------------------------------------------------------------------

/// What came of making a client: a client with its credential source and quota project
/// and the outcome of its token check, or why there is none.
#[derive(Debug)]
pub enum ClientOutcome {
    Unusable(AnalyticsError),
    Usable {
        source: AuthSource,
        quota_project: Option<String>,
        token_check: Result<(), AnalyticsError>,
    },
}

/// What came of asking Google.
pub enum Verification {
    NotChecked,
    Verified,
    RequestHeaderRequired(Seq<char>),
    Failed(Seq<char>, Option<Seq<char>>),
    ConfigError(Seq<char>),
}

impl View for VerificationReport {
    type V = Verification;

    open spec fn view(&self) -> Verification {
        match *self {
            VerificationReport::NotChecked => Verification::NotChecked,
            VerificationReport::Verified => Verification::Verified,
            VerificationReport::RequestHeaderRequired { header } =>
                Verification::RequestHeaderRequired(header@),
            VerificationReport::Failed { error, hint } => Verification::Failed(
                error@,
                text::opt_text(hint),
            ),
            VerificationReport::ConfigError { error } => Verification::ConfigError(error@),
        }
    }
}

/// What the outcome of making a client comes to. Only a token of the server's own is
/// checked, and only where a check was asked for.
pub open spec fn verification_of(
    settings: Settings,
    verify_token: bool,
    client: ClientOutcome,
) -> Verification {
    match client {
        ClientOutcome::Unusable(err) => Verification::ConfigError(
            contract::redacted(err@.message_text()),
        ),
        ClientOutcome::Usable { token_check, .. } => if !verify_token {
            Verification::NotChecked
        } else if header_only(settings) {
            Verification::RequestHeaderRequired(settings.upstream_token_header@)
        } else {
            match token_check {
                Ok(_) => Verification::Verified,
                Err(err) => Verification::Failed(
                    contract::redacted(err@.message_text()),
                    err@.hint_text(),
                ),
            }
        },
    }
}

/// What the outcome of making a client comes to.
pub fn verify_client(settings: &Settings, verify_token: bool, client: &ClientOutcome) -> (r:
    VerificationReport)
    ensures
        r@ == verification_of(*settings, verify_token, *client),
{
    match client {
        ClientOutcome::Unusable(err) => VerificationReport::ConfigError {
            error: contract::redact_secret_text(err.message().as_str()),
        },
        ClientOutcome::Usable { token_check, .. } => {
            if !verify_token {
                VerificationReport::NotChecked
            } else if is_header_only(settings) {
                VerificationReport::RequestHeaderRequired {
                    header: settings.upstream_token_header.clone(),
                }
            } else {
                match token_check {
                    Ok(_) => VerificationReport::Verified,
                    Err(err) => VerificationReport::Failed {
                        error: contract::redact_secret_text(err.message().as_str()),
                        hint: match err.hint() {
                            Some(hint) => Some(hint.to_owned()),
                            None => None,
                        },
                    },
                }
            }
        },
    }
}

impl AuthReport {
    /// Whether the report says what was found for settings.
    pub open spec fn tells(
        self,
        settings: Settings,
        verify_token: bool,
        detection: CredentialDetection,
        client: ClientOutcome,
        failure: ProviderFailure,
        setup: ProviderSetup,
    ) -> bool {
        let source = match client {
            ClientOutcome::Unusable(_) => None,
            ClientOutcome::Usable { source, .. } => Some(source),
        };
        let found_quota = match client {
            ClientOutcome::Unusable(_) => text::opt_text(settings.quota_project),
            ClientOutcome::Usable { quota_project, .. } => text::opt_text(quota_project),
        };
        &&& self.capability_profile@ == settings.capability_profile.name()
        &&& self.requested_scope@ == settings.analytics_scope@
        &&& self.upstream_token_source@ == settings.upstream_token_source.name()
        &&& self.upstream_token_header@ == settings.upstream_token_header@
        &&& self.credential_material_detected == (material_found(detection)
            || material_in_settings(settings))
        &&& self.verification@ == verification_of(settings, verify_token, client)
        &&& text::opt_text(self.auth_source) == shown_source(
            source,
            self.credential_material_detected,
            self.verification,
        )
        &&& text::opt_text(self.auth_source_candidate) == (match source {
            Some(found) => Some(found.name()),
            None => None,
        })
        &&& self.config_valid == (self.auth_source is Some && !needs_repair(settings, detection)
            && !(self.verification is ConfigError))
        &&& self.quota_project.tells(text::opt_text(settings.quota_project), found_quota)
        &&& self.detected == detection
        &&& self.ready == is_ready(settings, self.verification, self.config_valid)
        &&& text::texts(self.next_steps@) == steps_after(
            settings,
            detection,
            self.verification,
            verify_token,
            failure,
            setup,
        )
    }
}

/// The report on what was found for settings.
pub fn build_auth_report(
    settings: &Settings,
    verify_token: bool,
    detection: CredentialDetection,
    client: ClientOutcome,
    failure: ProviderFailure,
    setup: &ProviderSetup,
) -> (r: AuthReport)
    ensures
        r.tells(*settings, verify_token, detection, client, failure, *setup),
{
    let verification: VerificationReport = verify_client(settings, verify_token, &client);
    let credential_material_detected: bool = local_credential_material_detected(&detection)
        || settings_credential_material_detected(settings);
    let repair: bool = explicit_credential_config_needs_repair(settings, &detection);
    let found: Option<AuthSource> = match &client {
        ClientOutcome::Unusable(_) => None,
        ClientOutcome::Usable { source, .. } => Some(*source),
    };
    let found_quota: Option<String> = match &client {
        ClientOutcome::Unusable(_) => text::clone_opt(&settings.quota_project),
        ClientOutcome::Usable { quota_project, .. } => text::clone_opt(quota_project),
    };
    let auth_source: Option<String> = visible_auth_source(
        found,
        credential_material_detected,
        &verification,
    );
    let auth_source_candidate: Option<String> = match found {
        Some(source) => Some(source.as_str().to_owned()),
        None => None,
    };
    let broken: bool = match &verification {
        VerificationReport::ConfigError { .. } => true,
        _ => false,
    };
    let config_valid: bool = auth_source.is_some() && !repair && !broken;
    let ready: bool = report_ready(settings, &verification, config_valid);
    let steps: Vec<String> = next_steps(
        settings,
        &detection,
        &verification,
        verify_token,
        failure,
        setup,
    );
    AuthReport {
        capability_profile: settings.capability_profile.as_str().to_owned(),
        requested_scope: settings.analytics_scope.clone(),
        upstream_token_source: settings.upstream_token_source.as_str().to_owned(),
        upstream_token_header: settings.upstream_token_header.clone(),
        auth_source,
        auth_source_candidate,
        config_valid,
        credential_material_detected,
        quota_project: effective_quota_project(settings, &found_quota),
        detected: detection,
        verification,
        ready,
        next_steps: steps,
    }
}

/// Puts the steps that make the server use a login before the others. A report is not
/// ready while the environment names another scope, or while requests bring the tokens.
pub fn add_post_login_runtime_steps(
    original_settings: &Settings,
    login_scope: &str,
    ambient_scope: Option<&str>,
    report: AuthReport,
) -> (r: AuthReport)
    ensures
        r == (AuthReport { ready: r.ready, next_steps: r.next_steps, ..report }),
        r.ready == (report.ready && !scope_needs_repair(login_scope@, text::opt_str(ambient_scope))
            && !header_only(*original_settings)),
        text::texts(r.next_steps@) == runtime_steps(
            *original_settings,
            login_scope@,
            text::opt_str(ambient_scope),
        ) + text::texts(report.next_steps@),
{
    let mut steps: Vec<String> = post_login_runtime_steps(
        original_settings,
        login_scope,
        ambient_scope,
    );
    let ghost first = text::texts(steps@);
    let ghost rest = text::texts(report.next_steps@);
    assert(rest.take(0) =~= Seq::<Seq<char>>::empty());
    for i in 0..report.next_steps.len()
        invariant
            rest == text::texts(report.next_steps@),
            text::texts(steps@) == first + rest.take(i as int),
    {
        assert(rest[i as int] == report.next_steps@[i as int]@);
        text::add_text(&mut steps, report.next_steps[i].as_str());
        assert(first + rest.take(i + 1) =~= (first + rest.take(i as int)).push(rest[i as int]));
    }
    assert(rest.take(rest.len() as int) =~= rest);
    let ready: bool = report.ready && !runtime_scope_needs_repair(login_scope, ambient_scope)
        && !is_header_only(original_settings);
    AuthReport { ready, next_steps: steps, ..report }
}

/// Whether a login counts as failed.
pub fn verification_blocks_login_completion(report: &AuthReport) -> (r: bool)
    ensures
        r == (report.verification is Failed || report.verification is ConfigError),
{
    match &report.verification {
        VerificationReport::Failed { .. } => true,
        VerificationReport::ConfigError { .. } => true,
        _ => false,
    }
}

/// What came of asking Google, as a value.
pub open spec fn verification_tree(verification: Verification) -> Tree {
    match verification {
        Verification::NotChecked => Tree::Dict(
            json::fields().push(("status"@, Tree::Text("not_checked"@))),
        ),
        Verification::Verified => Tree::Dict(json::fields().push(("status"@, Tree::Text("ok"@)))),
        Verification::RequestHeaderRequired(header) => Tree::Dict(
            json::fields()
                .push(("status"@, Tree::Text("request_header_required"@)))
                .push(("header"@, Tree::Text(header))),
        ),
        Verification::Failed(error, hint) => Tree::Dict(
            json::fields()
                .push(("status"@, Tree::Text("failed"@)))
                .push(("error"@, Tree::Text(error)))
                .push(("hint"@, json::opt_text(hint))),
        ),
        Verification::ConfigError(error) => Tree::Dict(
            json::fields()
                .push(("status"@, Tree::Text("config_error"@)))
                .push(("error"@, Tree::Text(error))),
        ),
    }
}

fn verification_value(verification: &VerificationReport) -> (r: Json)
    ensures
        r@ == verification_tree(verification@),
{
    let mut object = Object::new();
    match verification {
        VerificationReport::NotChecked => {
            object.put("status", json::string("not_checked"));
        },
        VerificationReport::Verified => {
            object.put("status", json::string("ok"));
        },
        VerificationReport::RequestHeaderRequired { header } => {
            object.put("status", json::string("request_header_required"));
            object.put("header", json::string(header.as_str()));
        },
        VerificationReport::Failed { error, hint } => {
            object.put("status", json::string("failed"));
            object.put("error", json::string(error.as_str()));
            object.put("hint", json::string_or_null(hint));
        },
        VerificationReport::ConfigError { error } => {
            object.put("status", json::string("config_error"));
            object.put("error", json::string(error.as_str()));
        },
    }
    json::dict(object)
}

/// What was found of credentials, as a value.
pub open spec fn detection_tree(detection: CredentialDetection) -> Tree {
    Tree::Dict(
        json::fields()
            .push(("gcloud_available"@, Tree::Bool(detection.gcloud_available)))
            .push(("gcloud_version"@, json::opt_text(text::opt_text(detection.gcloud_version))))
            .push(
                (
                    "adc_file"@,
                    Tree::Dict(
                        json::fields()
                            .push(
                                ("path"@, json::opt_text(text::opt_text(detection.adc_file.path))),
                            )
                            .push(("present"@, Tree::Bool(detection.adc_file.present))),
                    ),
                ),
            )
            .push(
                (
                    "env"@,
                    Tree::Dict(
                        json::fields()
                            .push(
                                (
                                    "google_application_credentials"@,
                                    Tree::Bool(detection.env.google_application_credentials),
                                ),
                            )
                            .push(
                                (
                                    "oauth_client_secret_json"@,
                                    Tree::Bool(detection.env.oauth_client_secret_json),
                                ),
                            )
                            .push(
                                (
                                    "oauth_refresh_token"@,
                                    Tree::Bool(detection.env.oauth_refresh_token),
                                ),
                            )
                            .push(("quota_project"@, Tree::Bool(detection.env.quota_project)))
                            .push(("shared_adc"@, Tree::Bool(detection.env.shared_adc)))
                            .push(("cloudsdk_config"@, Tree::Bool(detection.env.cloudsdk_config))),
                    ),
                ),
            ),
    )
}

fn detection_value(detection: &CredentialDetection) -> (r: Json)
    ensures
        r@ == detection_tree(*detection),
{
    let mut file = Object::new();
    file.put("path", json::string_or_null(&detection.adc_file.path));
    file.put("present", json::boolean(detection.adc_file.present));
    let mut env = Object::new();
    env.put(
        "google_application_credentials",
        json::boolean(detection.env.google_application_credentials),
    );
    env.put("oauth_client_secret_json", json::boolean(detection.env.oauth_client_secret_json));
    env.put("oauth_refresh_token", json::boolean(detection.env.oauth_refresh_token));
    env.put("quota_project", json::boolean(detection.env.quota_project));
    env.put("shared_adc", json::boolean(detection.env.shared_adc));
    env.put("cloudsdk_config", json::boolean(detection.env.cloudsdk_config));
    let mut object = Object::new();
    object.put("gcloud_available", json::boolean(detection.gcloud_available));
    object.put("gcloud_version", json::string_or_null(&detection.gcloud_version));
    object.put("adc_file", json::dict(file));
    object.put("env", json::dict(env));
    json::dict(object)
}

/// A report as a value.
pub open spec fn report_tree(report: AuthReport) -> Tree {
    Tree::Dict(
        json::fields()
            .push(("server"@, Tree::Text("ga4-mcp"@)))
            .push(("capability_profile"@, Tree::Text(report.capability_profile@)))
            .push(("requested_scope"@, Tree::Text(report.requested_scope@)))
            .push(("upstream_token_source"@, Tree::Text(report.upstream_token_source@)))
            .push(("upstream_token_header"@, Tree::Text(report.upstream_token_header@)))
            .push(("auth_source"@, json::opt_text(text::opt_text(report.auth_source))))
            .push(
                (
                    "auth_source_candidate"@,
                    json::opt_text(text::opt_text(report.auth_source_candidate)),
                ),
            )
            .push(("config_valid"@, Tree::Bool(report.config_valid)))
            .push(
                (
                    "credential_material_detected"@,
                    Tree::Bool(report.credential_material_detected),
                ),
            )
            .push(
                (
                    "quota_project"@,
                    Tree::Dict(
                        json::fields()
                            .push(("configured"@, Tree::Bool(report.quota_project.configured)))
                            .push(
                                (
                                    "value"@,
                                    json::opt_text(text::opt_text(report.quota_project.value)),
                                ),
                            )
                            .push(
                                (
                                    "source"@,
                                    json::opt_text(text::opt_text(report.quota_project.source)),
                                ),
                            ),
                    ),
                ),
            )
            .push(("detected"@, detection_tree(report.detected)))
            .push(("verification"@, verification_tree(report.verification@)))
            .push(("ready"@, Tree::Bool(report.ready)))
            .push(("next_steps"@, json::text_list(text::texts(report.next_steps@)))),
    )
}

/// A report as a value.
pub fn report_value(report: &AuthReport) -> (r: Json)
    ensures
        r@ == report_tree(*report),
{
    let mut quota = Object::new();
    quota.put("configured", json::boolean(report.quota_project.configured));
    quota.put("value", json::string_or_null(&report.quota_project.value));
    quota.put("source", json::string_or_null(&report.quota_project.source));
    let mut object = Object::new();
    object.put("server", json::string("ga4-mcp"));
    object.put("capability_profile", json::string(report.capability_profile.as_str()));
    object.put("requested_scope", json::string(report.requested_scope.as_str()));
    object.put("upstream_token_source", json::string(report.upstream_token_source.as_str()));
    object.put("upstream_token_header", json::string(report.upstream_token_header.as_str()));
    object.put("auth_source", json::string_or_null(&report.auth_source));
    object.put("auth_source_candidate", json::string_or_null(&report.auth_source_candidate));
    object.put("config_valid", json::boolean(report.config_valid));
    object.put(
        "credential_material_detected",
        json::boolean(report.credential_material_detected),
    );
    object.put("quota_project", json::dict(quota));
    object.put("detected", detection_value(&report.detected));
    object.put("verification", verification_value(&report.verification));
    object.put("ready", json::boolean(report.ready));
    object.put("next_steps", json::strings(report.next_steps.as_slice()));
    json::dict(object)
}

/// A truth value in words.
pub open spec fn yes_or_no(value: bool) -> Seq<char> {
    if value {
        "yes"@
    } else {
        "no"@
    }
}

/// A truth value in words.
pub fn yes_no(value: bool) -> (r: &'static str)
    ensures
        r@ == yes_or_no(value),
{
    if value {
        "yes"
    } else {
        "no"
    }
}

/// `lines` with one more, made of a label and a text.
pub open spec fn line(lines: Seq<Seq<char>>, label: Seq<char>, held: Seq<char>) -> Seq<Seq<char>> {
    lines.push(label + held)
}

fn add_line(lines: &mut Vec<String>, label: &str, held: &str)
    ensures
        text::texts(final(lines)@) == line(text::texts(old(lines)@), label@, held@),
{
    text::add_text(lines, error::labelled(label, held).as_str());
}

/// The lines of a report on its settings and its credential source.
pub open spec fn source_lines(report: AuthReport, doctor: bool) -> Seq<Seq<char>> {
    let head = line(
        line(
            no_steps().push("Google Analytics MCP auth"@),
            "Profile: "@,
            report.capability_profile@,
        ),
        "Scope: "@,
        report.requested_scope@,
    );
    let tokens = if doctor {
        line(
            line(head, "Upstream token source: "@, report.upstream_token_source@),
            "Request token header: "@,
            report.upstream_token_header@,
        )
    } else {
        head
    };
    match report.auth_source {
        Some(source) => line(tokens, "Credential source: "@, source@),
        None => match report.auth_source_candidate {
            Some(candidate) => tokens.push(
                "Credential source: not verified (candidate: "@ + candidate@ + ")"@,
            ),
            None => tokens.push("Credential source: not configured"@),
        },
    }
}

/// The text for a quota project.
pub open spec fn quota_text(quota: QuotaProjectStatus) -> Seq<char> {
    match (quota.value, quota.source) {
        (Some(project), Some(source)) => project@ + " ("@ + source@ + ")"@,
        _ => "not configured"@,
    }
}

/// The text for gcloud.
pub open spec fn gcloud_text(detection: CredentialDetection) -> Seq<char> {
    match detection.gcloud_version {
        Some(version) => version@,
        None => if detection.gcloud_available {
            "available"@
        } else {
            "not found"@
        },
    }
}

/// The text for the credentials file.
pub open spec fn file_text(file: FilePresence) -> Seq<char> {
    match file.path {
        Some(path) => (if file.present {
            "present"@
        } else {
            "missing"@
        }) + " ("@ + path@ + ")"@,
        None => "unknown"@,
    }
}

/// The text for the variables that name credentials.
pub open spec fn env_text(env: EnvPresence) -> Seq<char> {
    "GOOGLE_APPLICATION_CREDENTIALS="@ + yes_or_no(env.google_application_credentials)
        + ", oauth-client="@ + yes_or_no(env.oauth_client_secret_json)
        + ", oauth-refresh-token="@ + yes_or_no(env.oauth_refresh_token) + ", quota-project="@
        + yes_or_no(env.quota_project) + ", shared-adc="@ + yes_or_no(env.shared_adc)
}

/// `lines` with those on what was found.
pub open spec fn with_found_lines(lines: Seq<Seq<char>>, report: AuthReport) -> Seq<Seq<char>> {
    let valid = line(lines, "Config valid: "@, yes_or_no(report.config_valid));
    let material = line(
        valid,
        "Credential material detected: "@,
        yes_or_no(report.credential_material_detected),
    );
    let quota = line(material, "Quota project: "@, quota_text(report.quota_project));
    let gcloud = line(quota, "gcloud: "@, gcloud_text(report.detected));
    let file = line(gcloud, "ADC file: "@, file_text(report.detected.adc_file));
    line(file, "Env credentials: "@, env_text(report.detected.env))
}

/// `lines` with those on what came of asking Google.
pub open spec fn with_verification_lines(
    lines: Seq<Seq<char>>,
    verification: Verification,
) -> Seq<Seq<char>> {
    match verification {
        Verification::NotChecked => lines.push("Verification: not checked"@),
        Verification::Verified => lines.push("Verification: ok"@),
        Verification::RequestHeaderRequired(header) => lines.push(
            "Verification: requires request header"@,
        ).push(
            "Hint: standalone CLI cannot verify request_header mode; call ga4_auth_status with verify_token=true while sending "@
                + header
                + ", or switch local loopback use to request_header_or_config and rerun `ga4-mcp auth status --verify-token`."@,
        ),
        Verification::Failed(error, hint) => {
            let failed = line(lines.push("Verification: failed"@), "Error: "@, error);
            match hint {
                Some(held) => line(failed, "Hint: "@, held),
                None => failed,
            }
        },
        Verification::ConfigError(error) => line(
            lines.push("Configuration: invalid"@),
            "Error: "@,
            error,
        ),
    }
}

/// The text on whether calls can be made.
pub open spec fn ready_text(report: AuthReport) -> Seq<char> {
    if report.verification is NotChecked || report.verification is RequestHeaderRequired {
        "not verified"@
    } else {
        yes_or_no(report.ready)
    }
}

/// `lines` with the first `n` of `steps`.
pub open spec fn with_step_lines(
    lines: Seq<Seq<char>>,
    steps: Seq<Seq<char>>,
    n: nat,
) -> Seq<Seq<char>>
    decreases n,
{
    if n == 0 {
        lines
    } else {
        line(with_step_lines(lines, steps, (n - 1) as nat), "- "@, steps[n - 1])
    }
}

/// A report in words.
pub open spec fn report_lines(report: AuthReport, doctor: bool) -> Seq<Seq<char>> {
    let found = with_found_lines(source_lines(report, doctor), report);
    let verified = with_verification_lines(found, report.verification@);
    let ready = line(verified, "Ready: "@, ready_text(report));
    let steps = text::texts(report.next_steps@);
    if doctor || !report.ready {
        with_step_lines(ready.push("Next steps:"@), steps, steps.len())
    } else {
        ready
    }
}

fn source_text_lines(report: &AuthReport, doctor: bool) -> (r: Vec<String>)
    ensures
        text::texts(r@) == source_lines(*report, doctor),
{
    let mut lines: Vec<String> = Vec::new();
    assert(text::texts(lines@) =~= no_steps());
    text::add_text(&mut lines, "Google Analytics MCP auth");
    add_line(&mut lines, "Profile: ", report.capability_profile.as_str());
    add_line(&mut lines, "Scope: ", report.requested_scope.as_str());
    if doctor {
        add_line(&mut lines, "Upstream token source: ", report.upstream_token_source.as_str());
        add_line(&mut lines, "Request token header: ", report.upstream_token_header.as_str());
    }
    match &report.auth_source {
        Some(source) => {
            add_line(&mut lines, "Credential source: ", source.as_str());
        },
        None => match &report.auth_source_candidate {
            Some(candidate) => {
                let mut shown: String = error::labelled(
                    "Credential source: not verified (candidate: ",
                    candidate.as_str(),
                );
                shown.append(")");
                text::add_text(&mut lines, shown.as_str());
            },
            None => {
                text::add_text(&mut lines, "Credential source: not configured");
            },
        },
    }
    lines
}

fn quota_words_of(quota: &QuotaProjectStatus) -> (r: String)
    ensures
        r@ == quota_text(*quota),
{
    match &quota.value {
        Some(project) => match &quota.source {
            Some(source) => error::described(project.as_str(), " (", source.as_str(), ")"),
            None => "not configured".to_owned(),
        },
        None => "not configured".to_owned(),
    }
}

fn file_words(file: &FilePresence) -> (r: String)
    ensures
        r@ == file_text(*file),
{
    match &file.path {
        Some(path) => error::described(
            if file.present {
                "present"
            } else {
                "missing"
            },
            " (",
            path.as_str(),
            ")",
        ),
        None => "unknown".to_owned(),
    }
}

fn env_words(env: EnvPresence) -> (r: String)
    ensures
        r@ == env_text(env),
{
    let mut r: String = "GOOGLE_APPLICATION_CREDENTIALS=".to_owned();
    r.append(yes_no(env.google_application_credentials));
    r.append(", oauth-client=");
    r.append(yes_no(env.oauth_client_secret_json));
    r.append(", oauth-refresh-token=");
    r.append(yes_no(env.oauth_refresh_token));
    r.append(", quota-project=");
    r.append(yes_no(env.quota_project));
    r.append(", shared-adc=");
    r.append(yes_no(env.shared_adc));
    r
}

fn add_found_lines(lines: &mut Vec<String>, report: &AuthReport)
    ensures
        text::texts(final(lines)@) == with_found_lines(text::texts(old(lines)@), *report),
{
    add_line(lines, "Config valid: ", yes_no(report.config_valid));
    add_line(
        lines,
        "Credential material detected: ",
        yes_no(report.credential_material_detected),
    );
    add_line(lines, "Quota project: ", quota_words_of(&report.quota_project).as_str());
    match &report.detected.gcloud_version {
        Some(version) => {
            add_line(lines, "gcloud: ", version.as_str());
        },
        None => {
            add_line(
                lines,
                "gcloud: ",
                if report.detected.gcloud_available {
                    "available"
                } else {
                    "not found"
                },
            );
        },
    }
    add_line(lines, "ADC file: ", file_words(&report.detected.adc_file).as_str());
    add_line(lines, "Env credentials: ", env_words(report.detected.env).as_str());
}

fn add_verification_lines(lines: &mut Vec<String>, verification: &VerificationReport)
    ensures
        text::texts(final(lines)@) == with_verification_lines(
            text::texts(old(lines)@),
            verification@,
        ),
{
    match verification {
        VerificationReport::NotChecked => {
            text::add_text(lines, "Verification: not checked");
        },
        VerificationReport::Verified => {
            text::add_text(lines, "Verification: ok");
        },
        VerificationReport::RequestHeaderRequired { header } => {
            text::add_text(lines, "Verification: requires request header");
            let mut hint: String = error::labelled(
                "Hint: standalone CLI cannot verify request_header mode; call ga4_auth_status with verify_token=true while sending ",
                header.as_str(),
            );
            hint.append(
                ", or switch local loopback use to request_header_or_config and rerun `ga4-mcp auth status --verify-token`.",
            );
            text::add_text(lines, hint.as_str());
        },
        VerificationReport::Failed { error, hint } => {
            text::add_text(lines, "Verification: failed");
            add_line(lines, "Error: ", error.as_str());
            match hint {
                Some(held) => {
                    add_line(lines, "Hint: ", held.as_str());
                },
                None => {},
            }
        },
        VerificationReport::ConfigError { error } => {
            text::add_text(lines, "Configuration: invalid");
            add_line(lines, "Error: ", error.as_str());
        },
    }
}

/// A report in words.
pub fn human_report(report: &AuthReport, doctor: bool) -> (r: Vec<String>)
    ensures
        text::texts(r@) == report_lines(*report, doctor),
{
    let mut lines: Vec<String> = source_text_lines(report, doctor);
    add_found_lines(&mut lines, report);
    add_verification_lines(&mut lines, &report.verification);
    let unverified: bool = match &report.verification {
        VerificationReport::NotChecked => true,
        VerificationReport::RequestHeaderRequired { .. } => true,
        _ => false,
    };
    add_line(
        &mut lines,
        "Ready: ",
        if unverified {
            "not verified"
        } else {
            yes_no(report.ready)
        },
    );
    if doctor || !report.ready {
        text::add_text(&mut lines, "Next steps:");
        let ghost head = text::texts(lines@);
        let ghost steps = text::texts(report.next_steps@);
        for i in 0..report.next_steps.len()
            invariant
                steps == text::texts(report.next_steps@),
                text::texts(lines@) == with_step_lines(head, steps, i as nat),
        {
            assert(steps[i as int] == report.next_steps@[i as int]@);
            add_line(&mut lines, "- ", report.next_steps[i].as_str());
        }
    }
    lines
}

// ---------------------------------------------------------------------------
// Laws.
// ---------------------------------------------------------------------------

/// A report is ready only where Google accepted a token, a credential source is known and
/// the scope allows to read.
pub proof fn law_ready_reports_are_verified(
    report: AuthReport,
    settings: Settings,
    verify_token: bool,
    detection: CredentialDetection,
    client: ClientOutcome,
    failure: ProviderFailure,
    setup: ProviderSetup,
)
    requires
        report.tells(settings, verify_token, detection, client, failure, setup),
        report.ready,
    ensures
        verify_token,
        client matches ClientOutcome::Usable { token_check, .. } && token_check is Ok,
        !header_only(settings),
        report.auth_source is Some,
        auth_ux::allows_read(settings.analytics_scope@),
{
    assert(report.verification@ is Verified);
}

/// A provider chain in which nothing was found is not shown as a credential source before
/// it was seen to work.
pub proof fn law_empty_chains_are_not_shown(verification: VerificationReport)
    ensures
        shown_source(Some(AuthSource::GoogleDefaultProviderChain), false, verification) is Some
            <==> verification is Verified,
{
}

/// Complete credentials never need repair.
pub proof fn law_complete_credentials_need_no_repair(
    settings: Settings,
    detection: CredentialDetection,
)
    requires
        material_in_settings(settings) || detection.env.google_application_credentials,
    ensures
        !needs_repair(settings, detection),
{
}

/// Credentials are there where a file of them is, or where the environment names one, or where it
/// gives a client and a token together; the settings give them together too. Where something is
/// named and nothing complete is, it needs repair.
pub proof fn law_credentials_are_found(settings: Settings, detection: CredentialDetection)
    ensures
        material_found(detection) <==> detection.adc_file.present
            || detection.env.google_application_credentials || (
        detection.env.oauth_client_secret_json && detection.env.oauth_refresh_token),
        material_in_settings(settings) <==> settings.oauth_client_secret_json is Some
            && settings.oauth_refresh_token is Some,
        credentials_named(settings, detection) <==> detection.env.google_application_credentials
            || detection.env.oauth_client_secret_json || detection.env.oauth_refresh_token
            || settings.oauth_client_secret_json is Some || settings.oauth_refresh_token is Some,
        needs_repair(settings, detection) <==> credentials_named(settings, detection)
            && !detection.env.google_application_credentials && !(
        detection.env.oauth_client_secret_json && detection.env.oauth_refresh_token) && !(
        settings.oauth_client_secret_json is Some && settings.oauth_refresh_token is Some),
{
}

/// A source is shown by its name, unless it is only the usual chain, nothing was found for it,
/// and it was not proved.
pub proof fn law_sources_are_shown_by_name(
    source: AuthSource,
    material: bool,
    verification: VerificationReport,
)
    ensures
        shown_source(None, material, verification) is None,
        source != AuthSource::GoogleDefaultProviderChain || material || verification is Verified
            ==> shown_source(Some(source), material, verification) == Some(
            match source {
                AuthSource::RequestHeader => "request_header"@,
                AuthSource::GoogleDefaultProviderChain => "google_default_provider_chain"@,
                AuthSource::GoogleAuthorizedUserAdcFile => "google_authorized_user_adc_file"@,
                AuthSource::OAuthRefreshToken => "oauth_refresh_token"@,
            },
        ),
{
}

/// A server is ready exactly where its settings are valid, its credentials were proved, and its
/// scope allows reading.
pub proof fn law_ready_means_proved(
    settings: Settings,
    verification: VerificationReport,
    config_valid: bool,
)
    ensures
        is_ready(settings, verification, config_valid) <==> config_valid && verification is Verified
            && auth_ux::allows_read(settings.analytics_scope@),
{
}

/// The project that pays is the one of the settings, or else the one of the credentials; and it
/// is told where it comes from.
pub proof fn law_projects_come_from_settings_first(
    status: QuotaProjectStatus,
    configured: Option<Seq<char>>,
    found: Option<Seq<char>>,
)
    requires
        status.tells(configured, found),
    ensures
        status.configured <==> configured is Some || found is Some,
        configured matches Some(project) ==> text::opt_text(status.value) == Some(project)
            && text::opt_text(status.source) == Some(
            "GOOGLE_ANALYTICS_MCP_QUOTA_PROJECT_or_cli"@,
        ),
        configured is None ==> text::opt_text(status.value) == found,
        configured is None && found is Some ==> text::opt_text(status.source) == Some(
            "adc_credentials_file"@,
        ),
{
}

/// Credentials count as proved only where that was asked for, and the service took them; where
/// each request brings its own, nothing can be proved here; and what failed is told.
pub proof fn law_credentials_are_proved_by_the_service(
    settings: Settings,
    source: AuthSource,
    quota_project: Option<String>,
    err: AnalyticsError,
)
    ensures
        verification_of(settings, true, ClientOutcome::Unusable(err)) == Verification::ConfigError(
            contract::redacted(err@.message_text()),
        ),
        verification_of(
            settings,
            false,
            (ClientOutcome::Usable { source, quota_project, token_check: Ok(()) }),
        ) == Verification::NotChecked,
        settings.upstream_token_source == UpstreamTokenSource::RequestHeader ==> verification_of(
            settings,
            true,
            (ClientOutcome::Usable { source, quota_project, token_check: Ok(()) }),
        ) == Verification::RequestHeaderRequired(settings.upstream_token_header@),
        settings.upstream_token_source != UpstreamTokenSource::RequestHeader ==> verification_of(
            settings,
            true,
            (ClientOutcome::Usable { source, quota_project, token_check: Ok(()) }),
        ) == Verification::Verified && verification_of(
            settings,
            true,
            (ClientOutcome::Usable { source, quota_project, token_check: Err(err) }),
        ) == Verification::Failed(contract::redacted(err@.message_text()), err@.hint_text()),
{
}

/// What a report says of a server.
pub proof fn law_reports_say_what_was_found(
    report: AuthReport,
    settings: Settings,
    verify_token: bool,
    detection: CredentialDetection,
    client: ClientOutcome,
    failure: ProviderFailure,
    setup: ProviderSetup,
)
    requires
        report.tells(settings, verify_token, detection, client, failure, setup),
    ensures
        report.capability_profile@ == settings.capability_profile.name(),
        report.requested_scope@ == settings.analytics_scope@,
        report.upstream_token_source@ == settings.upstream_token_source.name(),
        report.upstream_token_header@ == settings.upstream_token_header@,
        report.credential_material_detected == (material_found(detection) || material_in_settings(
            settings,
        )),
        report.verification@ == verification_of(settings, verify_token, client),
        report.detected == detection,
        report.config_valid <==> report.auth_source is Some && !needs_repair(settings, detection)
            && !(report.verification is ConfigError),
        report.ready <==> report.config_valid && report.verification is Verified
            && auth_ux::allows_read(settings.analytics_scope@),
        client matches ClientOutcome::Usable { source, quota_project, token_check } ==> (
        text::opt_text(report.auth_source_candidate) == Some(source.name())),
        client is Unusable ==> report.auth_source is None && report.auth_source_candidate is None,
{
}

/// A report is told with each of its parts under its own name.
pub proof fn law_reports_are_told(
    report: AuthReport,
)
    ensures
        report_tree(report).field("server"@) == Some(Tree::Text("ga4-mcp"@)),
        report_tree(report).field("capability_profile"@)
            == Some(Tree::Text(report.capability_profile@)),
        report_tree(report).field("requested_scope"@) == Some(Tree::Text(report.requested_scope@)),
        report_tree(report).field("upstream_token_source"@)
            == Some(Tree::Text(report.upstream_token_source@)),
        report_tree(report).field("upstream_token_header"@)
            == Some(Tree::Text(report.upstream_token_header@)),
        report_tree(report).field("auth_source"@)
            == Some(
                match report.auth_source { Some(held) => Tree::Text(held@), None => Tree::Null, },
            ),
        report_tree(report).field("auth_source_candidate"@)
            == Some(
                match report.auth_source_candidate {
                    Some(held) => Tree::Text(held@),
                    None => Tree::Null,
                },
            ),
        report_tree(report).field("config_valid"@) == Some(Tree::Bool(report.config_valid)),
        report_tree(report).field("credential_material_detected"@)
            == Some(Tree::Bool(report.credential_material_detected)),
        report_tree(report).field("detected"@) == Some(detection_tree(report.detected)),
        report_tree(report).field("verification"@) == Some(verification_tree(report.verification@)),
        report_tree(report).field("ready"@) == Some(Tree::Bool(report.ready)),
        report_tree(report).field("next_steps"@)
            == Some(json::text_list(text::texts(report.next_steps@))),
        report_tree(report).field("quota_project"@) matches Some(held)
            && held.field("configured"@) == Some(Tree::Bool(report.quota_project.configured))
            && held.field("value"@)
                == Some(
                    match report.quota_project.value {
                        Some(held) => Tree::Text(held@),
                        None => Tree::Null,
                    },
                )
            && held.field("source"@)
                == Some(
                    match report.quota_project.source {
                        Some(held) => Tree::Text(held@),
                        None => Tree::Null,
                    },
                ),
{
    broadcast use json::group_found;

    reveal_strlit("server");
    assert("server"@.len() == 6);
    reveal_strlit("capability_profile");
    assert("capability_profile"@.len() == 18);
    reveal_strlit("requested_scope");
    assert("requested_scope"@.len() == 15);
    reveal_strlit("upstream_token_source");
    assert("upstream_token_source"@.len() == 21);
    reveal_strlit("upstream_token_header");
    assert("upstream_token_header"@.len() == 21);
    reveal_strlit("auth_source");
    assert("auth_source"@.len() == 11);
    reveal_strlit("auth_source_candidate");
    assert("auth_source_candidate"@.len() == 21);
    reveal_strlit("config_valid");
    assert("config_valid"@.len() == 12);
    reveal_strlit("credential_material_detected");
    assert("credential_material_detected"@.len() == 28);
    reveal_strlit("quota_project");
    assert("quota_project"@.len() == 13);
    reveal_strlit("detected");
    assert("detected"@.len() == 8);
    reveal_strlit("verification");
    assert("verification"@.len() == 12);
    reveal_strlit("ready");
    assert("ready"@.len() == 5);
    reveal_strlit("next_steps");
    assert("next_steps"@.len() == 10);
    reveal_strlit("configured");
    assert("configured"@.len() == 10);
    reveal_strlit("value");
    assert("value"@.len() == 5);
    reveal_strlit("source");
    assert("source"@.len() == 6);
    assert("server"@[1] != "source"@[1]);
    assert("upstream_token_source"@[15] != "upstream_token_header"@[15]);
    assert("upstream_token_source"@[0] != "auth_source_candidate"@[0]);
    assert("upstream_token_header"@[0] != "auth_source_candidate"@[0]);
    assert("config_valid"@[0] != "verification"@[0]);
    assert("ready"@[0] != "value"@[0]);
    assert("next_steps"@[0] != "configured"@[0]);
}

/// What was found of credentials is told by its name; of the environment only whether something
/// is set.
pub proof fn law_findings_are_told(
    detection: CredentialDetection,
)
    ensures
        detection_tree(detection).field("gcloud_available"@)
            == Some(Tree::Bool(detection.gcloud_available)),
        detection_tree(detection).field("gcloud_version"@)
            == Some(
                match detection.gcloud_version {
                    Some(held) => Tree::Text(held@),
                    None => Tree::Null,
                },
            ),
        detection_tree(detection).field("adc_file"@) matches Some(held)
            && held.field("path"@)
                == Some(
                    match detection.adc_file.path {
                        Some(held) => Tree::Text(held@),
                        None => Tree::Null,
                    },
                )
            && held.field("present"@) == Some(Tree::Bool(detection.adc_file.present)),
        detection_tree(detection).field("env"@) matches Some(held)
            && held.field("google_application_credentials"@)
                == Some(Tree::Bool(detection.env.google_application_credentials))
            && held.field("oauth_client_secret_json"@)
                == Some(Tree::Bool(detection.env.oauth_client_secret_json))
            && held.field("oauth_refresh_token"@)
                == Some(Tree::Bool(detection.env.oauth_refresh_token))
            && held.field("quota_project"@) == Some(Tree::Bool(detection.env.quota_project))
            && held.field("shared_adc"@) == Some(Tree::Bool(detection.env.shared_adc))
            && held.field("cloudsdk_config"@) == Some(Tree::Bool(detection.env.cloudsdk_config)),
{
    broadcast use json::group_found;

    reveal_strlit("gcloud_available");
    assert("gcloud_available"@.len() == 16);
    reveal_strlit("gcloud_version");
    assert("gcloud_version"@.len() == 14);
    reveal_strlit("adc_file");
    assert("adc_file"@.len() == 8);
    reveal_strlit("env");
    assert("env"@.len() == 3);
    reveal_strlit("path");
    assert("path"@.len() == 4);
    reveal_strlit("present");
    assert("present"@.len() == 7);
    reveal_strlit("google_application_credentials");
    assert("google_application_credentials"@.len() == 30);
    reveal_strlit("oauth_client_secret_json");
    assert("oauth_client_secret_json"@.len() == 24);
    reveal_strlit("oauth_refresh_token");
    assert("oauth_refresh_token"@.len() == 19);
    reveal_strlit("quota_project");
    assert("quota_project"@.len() == 13);
    reveal_strlit("shared_adc");
    assert("shared_adc"@.len() == 10);
    reveal_strlit("cloudsdk_config");
    assert("cloudsdk_config"@.len() == 15);
}

/// Whether credentials were proved is told by a word, with what goes with it.
pub proof fn law_proofs_are_told(
    header: Seq<char>,
    error: Seq<char>,
    hint: Option<Seq<char>>,
)
    ensures
        verification_tree(Verification::Verified).field("status"@) == Some(Tree::Text("ok"@)),
        verification_tree(Verification::NotChecked).field("status"@)
            == Some(Tree::Text("not_checked"@)),
        verification_tree(Verification::RequestHeaderRequired(header)).field("status"@)
            == Some(Tree::Text("request_header_required"@)),
        verification_tree(Verification::RequestHeaderRequired(header)).field("header"@)
            == Some(Tree::Text(header)),
        verification_tree(Verification::Failed(error, hint)).field("status"@)
            == Some(Tree::Text("failed"@)),
        verification_tree(Verification::Failed(error, hint)).field("error"@)
            == Some(Tree::Text(error)),
        verification_tree(Verification::Failed(error, hint)).field("hint"@)
            == Some(match hint { Some(held) => Tree::Text(held), None => Tree::Null, }),
        verification_tree(Verification::ConfigError(error)).field("status"@)
            == Some(Tree::Text("config_error"@)),
        verification_tree(Verification::ConfigError(error)).field("error"@)
            == Some(Tree::Text(error)),
{
    broadcast use json::group_found;

    reveal_strlit("status");
    assert("status"@.len() == 6);
    reveal_strlit("header");
    assert("header"@.len() == 6);
    reveal_strlit("error");
    assert("error"@.len() == 5);
    reveal_strlit("hint");
    assert("hint"@.len() == 4);
    assert("status"@[0] != "header"@[0]);
}

/// What to do next goes by what was proved: a server whose credentials were proved is told to
/// restart its clients; one that was not asked, to prove them, or to log in where there are
/// none; and one that failed, what to mend.
pub proof fn law_next_steps_go_by_what_was_proved(
    settings: Settings,
    detection: CredentialDetection,
    verification: VerificationReport,
    verify_token: bool,
    failure: ProviderFailure,
    setup: ProviderSetup,
)
    requires
        auth_ux::allows_read(settings.analytics_scope@),
        !credentials_named(settings, detection),
        settings.upstream_token_source != UpstreamTokenSource::RequestHeader,
    ensures
        verification is Verified ==> steps_after(
            settings,
            detection,
            verification,
            verify_token,
            failure,
            setup,
        ) == seq![
            "Restart MCP clients that keep long-lived stdio or HTTP server processes."@,
            "Call get_account_summaries to list accessible GA4 accounts and properties."@,
        ],
        verification is NotChecked && verify_token ==> steps_after(
            settings,
            detection,
            verification,
            verify_token,
            failure,
            setup,
        ) == seq!["Run `ga4-mcp auth status --verify-token` to prove Google API access."@],
        verification is NotChecked && !verify_token && detection.adc_file.present ==> steps_after(
            settings,
            detection,
            verification,
            verify_token,
            failure,
            setup,
        ) == seq![
            "Run `ga4-mcp auth status --verify-token` to prove Google API access."@,
            "Then restart the MCP client and call get_account_summaries."@,
        ],
        verification is NotChecked && !verify_token && !detection.adc_file.present ==> steps_after(
            settings,
            detection,
            verification,
            verify_token,
            failure,
            setup,
        ) == seq![
            "Run `"@ + "ga4-mcp auth login"@ + "` for browser login."@,
            "Then run `ga4-mcp auth status --verify-token` to prove Google API access."@,
            "Restart the MCP client and call get_account_summaries."@,
        ],
        verification is Failed && failure is OAuthAppBlocked ==> steps_after(
            settings,
            detection,
            verification,
            verify_token,
            failure,
            setup,
        ) == seq![
            "Run `"@ + "ga4-mcp auth login"@
                + "` again with `--client-id-file /path/to/client_id.json` from a Desktop OAuth client."@,
            "For unattended deployments, prefer GOOGLE_APPLICATION_CREDENTIALS or OAuth refresh-token env configuration."@,
        ],
        verification is Failed && (failure is MissingQuotaProject || failure is ApiDisabled)
            ==> steps_after(settings, detection, verification, verify_token, failure, setup)[0]
            == "Set an ADC quota project with `"@ + setup.quota_project_command@ + "`."@,
{
    let told = steps_after(settings, detection, verification, verify_token, failure, setup);
    if verification is Verified {
        assert(told =~= seq![
            "Restart MCP clients that keep long-lived stdio or HTTP server processes."@,
            "Call get_account_summaries to list accessible GA4 accounts and properties."@,
        ]);
    }
    if verification is NotChecked && !verify_token && !detection.adc_file.present {
        assert(told =~= seq![
            "Run `"@ + "ga4-mcp auth login"@ + "` for browser login."@,
            "Then run `ga4-mcp auth status --verify-token` to prove Google API access."@,
            "Restart the MCP client and call get_account_summaries."@,
        ]);
    }
}

/// A server whose scope does not allow reading is told so first of all, or next to first, in
/// every case; and one whose requests bring their tokens is told which header they use.
pub proof fn law_a_scope_that_cannot_read_is_told(
    settings: Settings,
    detection: CredentialDetection,
    verification: VerificationReport,
    failure: ProviderFailure,
    setup: ProviderSetup,
)
    requires
        !auth_ux::allows_read(settings.analytics_scope@),
    ensures
        steps_after(settings, detection, verification, false, failure, setup).contains(
            "Set GOOGLE_ANALYTICS_MCP_SCOPE="@
                + "https://www.googleapis.com/auth/analytics.readonly"@
                + " or start the MCP server with `--analytics-scope "@
                + "https://www.googleapis.com/auth/analytics.readonly"@ + "`."@,
        ),
{
    let told = steps_after(settings, detection, verification, false, failure, setup);
    let step = read_scope();
    if needs_repair(settings, detection) {
        assert(verification is Verified ==> told[1] == step);
        assert(verification is NotChecked && (material_found(detection) || material_in_settings(
            settings,
        )) ==> told[1] == step);
    } else {
        assert(verification is Verified ==> told[0] == step);
        assert(verification is NotChecked && (material_found(detection) || material_in_settings(
            settings,
        )) ==> told[0] == step);
    }
    assert(verification is NotChecked && !(material_found(detection) || material_in_settings(
        settings,
    )) ==> told[0] == step);
    assert(verification is RequestHeaderRequired ==> told[0] == step);
    assert(verification is ConfigError ==> told[0] == step);
    if verification is Failed {
        let scope = with_step(no_steps(), true, step);
        assert(scope[0] == step);
        assert(told[0] == step);
    }
}

/// The lines of a report begin with what it is about, and say whether the server is ready; the
/// next steps follow where it is not, or where the doctor asks.
pub proof fn law_lines_tell_the_report(report: AuthReport, doctor: bool, i: int)
    requires
        0 <= i < report.next_steps@.len(),
    ensures
        report_lines(report, doctor)[0] == "Google Analytics MCP auth"@,
        report_lines(report, doctor)[1] == "Profile: "@ + report.capability_profile@,
        report_lines(report, doctor)[2] == "Scope: "@ + report.requested_scope@,
        doctor ==> report_lines(report, doctor)[3] == "Upstream token source: "@
            + report.upstream_token_source@ && report_lines(report, doctor)[4]
            == "Request token header: "@ + report.upstream_token_header@,
        report_lines(report, doctor).contains("Ready: "@ + ready_text(report)),
        doctor || !report.ready ==> report_lines(report, doctor).contains(
            "- "@ + report.next_steps@[i]@,
        ),
        report.verification is Verified || report.verification is Failed
            || report.verification is ConfigError ==> ready_text(report) == (if report.ready {
            "yes"@
        } else {
            "no"@
        }),
        report.verification is NotChecked || report.verification is RequestHeaderRequired
            ==> ready_text(report) == "not verified"@,
{
    let source = source_lines(report, doctor);
    let found = with_found_lines(source, report);
    let verified = with_verification_lines(found, report.verification@);
    let ready = line(verified, "Ready: "@, ready_text(report));
    let all = report_lines(report, doctor);
    let steps = text::texts(report.next_steps@);
    assert(source.len() >= 4 && found.len() >= source.len());
    assert(forall|k: int| 0 <= k < source.len() ==> #[trigger] found[k] == source[k]);
    assert(forall|k: int| 0 <= k < found.len() ==> #[trigger] verified[k] == found[k]);
    let at = verified.len() as int;
    assert(ready[at] == "Ready: "@ + ready_text(report));
    if doctor || !report.ready {
        lemma_step_lines(ready.push("Next steps:"@), steps, steps.len(), i);
        assert(ready.push("Next steps:"@)[at] == ready[at]);
        assert(all[at] == ready[at]);
        assert(all[(ready.len() + 1 + i) as int] == "- "@ + report.next_steps@[i]@);
    } else {
        assert(all[at] == ready[at]);
    }
}

proof fn lemma_step_lines(lines: Seq<Seq<char>>, steps: Seq<Seq<char>>, n: nat, i: int)
    requires
        n <= steps.len(),
    ensures
        with_step_lines(lines, steps, n).len() == lines.len() + n,
        forall|k: int|
            0 <= k < lines.len() ==> #[trigger] with_step_lines(lines, steps, n)[k] == lines[k],
        0 <= i < n ==> with_step_lines(lines, steps, n)[lines.len() + i] == "- "@ + steps[i],
    decreases n,
{
    if n > 0 {
        lemma_step_lines(lines, steps, (n - 1) as nat, i);
    }
}

/// What is written of the project, of gcloud and of the file of credentials.
pub proof fn law_findings_are_written(
    quota: QuotaProjectStatus,
    detection: CredentialDetection,
    file: FilePresence,
)
    ensures
        quota.value is None || quota.source is None ==> quota_text(quota) == "not configured"@,
        match (quota.value, quota.source) {
            (Some(project), Some(source)) => quota_text(quota) == project@ + " ("@ + source@
                + ")"@,
            _ => true,
        },
        detection.gcloud_version matches Some(version) ==> gcloud_text(detection) == version@,
        detection.gcloud_version is None && detection.gcloud_available ==> gcloud_text(detection)
            == "available"@,
        detection.gcloud_version is None && !detection.gcloud_available ==> gcloud_text(detection)
            == "not found"@,
        file.path is None ==> file_text(file) == "unknown"@,
        file.path matches Some(path) && file.present ==> file_text(file) == "present"@ + " ("@
            + file.path->0@ + ")"@,
        file.path matches Some(path) && !file.present ==> file_text(file) == "missing"@ + " ("@
            + file.path->0@ + ")"@,
{
}

/// The steps behind a login: the scope is mended where another one is set, and a fallback is told
/// where each request brings its token.
pub proof fn law_steps_behind_a_login(settings: Settings, scope: Seq<char>, ambient: Seq<char>)
    requires
        settings.upstream_token_source != UpstreamTokenSource::RequestHeader,
    ensures
        runtime_steps(settings, scope, None).len() == 0,
        runtime_steps(settings, scope, Some(scope)).len() == 0,
        ambient.len() > 0 && ambient != scope ==> runtime_steps(settings, scope, Some(ambient))
            == seq![
            "Unset GOOGLE_ANALYTICS_MCP_SCOPE, set GOOGLE_ANALYTICS_MCP_SCOPE="@ + scope
                + ", or update any MCP launcher `--analytics-scope` argument before starting the MCP server; stale scope configuration overrides the login scope."@,
        ],
{
}

/// What was proved is written in a line, with the reason where it failed.
pub proof fn law_proofs_are_written(
    lines: Seq<Seq<char>>,
    header: Seq<char>,
    error: Seq<char>,
    hint: Seq<char>,
)
    ensures
        with_verification_lines(lines, Verification::NotChecked) == lines.push(
            "Verification: not checked"@,
        ),
        with_verification_lines(lines, Verification::Verified) == lines.push(
            "Verification: ok"@,
        ),
        with_verification_lines(lines, Verification::RequestHeaderRequired(header))[
            lines.len() as int
        ] == "Verification: requires request header"@,
        with_verification_lines(lines, Verification::Failed(error, None)) == lines.push(
            "Verification: failed"@,
        ).push("Error: "@ + error),
        with_verification_lines(lines, Verification::Failed(error, Some(hint))) == lines.push(
            "Verification: failed"@,
        ).push("Error: "@ + error).push("Hint: "@ + hint),
        with_verification_lines(lines, Verification::ConfigError(error)) == lines.push(
            "Configuration: invalid"@,
        ).push("Error: "@ + error),
{
}

/// What was found is written line by line.
pub proof fn law_findings_are_written_line_by_line(lines: Seq<Seq<char>>, report: AuthReport)
    ensures
        with_found_lines(lines, report) == lines + seq![
            "Config valid: "@ + yes_or_no(report.config_valid),
            "Credential material detected: "@ + yes_or_no(report.credential_material_detected),
            "Quota project: "@ + quota_text(report.quota_project),
            "gcloud: "@ + gcloud_text(report.detected),
            "ADC file: "@ + file_text(report.detected.adc_file),
            "Env credentials: "@ + env_text(report.detected.env),
        ],
        env_text(report.detected.env) == "GOOGLE_APPLICATION_CREDENTIALS="@ + yes_or_no(
            report.detected.env.google_application_credentials,
        ) + ", oauth-client="@ + yes_or_no(report.detected.env.oauth_client_secret_json)
            + ", oauth-refresh-token="@ + yes_or_no(report.detected.env.oauth_refresh_token)
            + ", quota-project="@ + yes_or_no(report.detected.env.quota_project)
            + ", shared-adc="@ + yes_or_no(report.detected.env.shared_adc),
        yes_or_no(true) == "yes"@,
        yes_or_no(false) == "no"@,
{
    assert(with_found_lines(lines, report) =~= lines + seq![
        "Config valid: "@ + yes_or_no(report.config_valid),
        "Credential material detected: "@ + yes_or_no(report.credential_material_detected),
        "Quota project: "@ + quota_text(report.quota_project),
        "gcloud: "@ + gcloud_text(report.detected),
        "ADC file: "@ + file_text(report.detected.adc_file),
        "Env credentials: "@ + env_text(report.detected.env),
    ]);
}

} // verus!
