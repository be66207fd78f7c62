//! The tools that help to log in.

use vstd::prelude::*;
use vstd::string::*;

use crate::auth_report;
use crate::auth_report::EnvPresence;
use crate::auth_ux;
use crate::config::{CapabilityProfile, UpstreamTokenSource, DEFAULT_ANALYTICS_SCOPE};
use crate::contract;
use crate::error;
use crate::error::{AnalyticsError, Problem};
use crate::ga_calls::{AnalyticsApiClient, AuthSource};
use crate::ga_client;
use crate::json;
use crate::json::{Json, Object, Tree};
use crate::report_args::AuthLoginCommandArgs;
use crate::shell;
use crate::shell::Shell;
use crate::text;

verus! {

fn add_item(items: &mut Vec<Json>, item: Json)
    ensures
        json::trees(final(items)@) == json::trees(old(items)@).push(item@),
{
    items.push(item);
    assert(json::trees(items@) =~= json::trees(old(items)@).push(item@));
}

// ---------------------------------------------------------------------------
// Getting started.
// ---------------------------------------------------------------------------

/// A login command with a quota project.
pub open spec fn login_with_quota(quota: Seq<char>, headless: bool, with_file: bool) -> Seq<char> {
    let start = "ga4-mcp auth login"@ + (if headless {
        " --headless"@
    } else {
        ""@
    }) + " --quota-project "@ + quota;
    if with_file {
        start + " --client-id-file /path/to/client_id.json"@
    } else {
        start
    }
}

fn login_with_quota_text(quota: &str, headless: bool, with_file: bool) -> (r: String)
    ensures
        r@ == login_with_quota(quota@, headless, with_file),
{
    let mut r: String = "ga4-mcp auth login".to_owned();
    r.append(
        if headless {
            " --headless"
        } else {
            ""
        },
    );
    r.append(" --quota-project ");
    r.append(quota);
    if with_file {
        r.append(" --client-id-file /path/to/client_id.json");
    }
    r
}

/// A sentence around a login command.
pub open spec fn around(before: Seq<char>, command: Seq<char>, after: Seq<char>) -> Seq<char> {
    before + command + after
}

fn around_text(before: &str, command: &str, after: &str) -> (r: String)
    ensures
        r@ == around(before@, command@, after@),
{
    let mut r: String = error::labelled(before, command);
    r.append(after);
    r
}

/// The commands that a user may run first.
pub open spec fn recommended_cli_tree(quota: Seq<char>) -> Tree {
    Tree::Dict(
        json::fields()
            .push(("login"@, Tree::Text(login_with_quota(quota, false, false))))
            .push(("login_headless"@, Tree::Text(login_with_quota(quota, true, false))))
            .push(("login_with_client_id_file"@, Tree::Text(login_with_quota(quota, false, true))))
            .push(("login_headless_with_client_id_file"@, Tree::Text(login_with_quota(quota, true, true))))
            .push(("status"@, Tree::Text("ga4-mcp auth status --verify-token"@)))
            .push(("doctor"@, Tree::Text("ga4-mcp auth doctor --verify-token"@))),
    )
}

fn recommended_cli_value(quota: &str) -> (r: Json)
    ensures
        r@ == recommended_cli_tree(quota@),
{
    let mut object = Object::new();
    object.put("login", json::string(login_with_quota_text(quota, false, false).as_str()));
    object.put("login_headless", json::string(login_with_quota_text(quota, true, false).as_str()));
    object.put("login_with_client_id_file", json::string(login_with_quota_text(quota, false, true).as_str()));
    object.put("login_headless_with_client_id_file", json::string(login_with_quota_text(quota, true, true).as_str()));
    object.put("status", json::string("ga4-mcp auth status --verify-token"));
    object.put("doctor", json::string("ga4-mcp auth doctor --verify-token"));
    json::dict(object)
}

/// The first steps of a user.
pub open spec fn first_steps_tree(quota: Seq<char>) -> Tree {
    Tree::List(
        Seq::<Tree>::empty()
            .push(Tree::Text(around("Run "@, login_with_quota(quota, true, true), " for the easiest unblocked SSH/browser login."@)))
            .push(Tree::Text("Call ga4-mcp auth status --verify-token or ga4_auth_status with verify_token=true to prove Google Analytics access without returning a token."@))
            .push(Tree::Text("If Google blocks the bundled gcloud OAuth app for Analytics scopes, use --client-id-file /path/to/client_id.json from a Desktop OAuth client; ga4-mcp will use direct browser OAuth and its own credential file."@))
            .push(Tree::Text("For the lowest-friction local or loopback HTTP service, use GOOGLE_ANALYTICS_MCP_UPSTREAM_TOKEN_SOURCE=request_header_or_config and GOOGLE_ANALYTICS_MCP_UPSTREAM_TOKEN_HEADER=authorization."@))
            .push(Tree::Text("For a hosted per-user service, keep GOOGLE_ANALYTICS_MCP_UPSTREAM_TOKEN_SOURCE=request_header so each client supplies its own Google token."@))
            .push(Tree::Text("By default ga4-mcp auth login writes a GA4-specific ADC file so sibling Google MCPs keep their own tokens and scopes."@))
            .push(Tree::Text("If verification says local ADC requires a quota project, enable analyticsadmin.googleapis.com and analyticsdata.googleapis.com on that project, then rerun ga4-mcp auth login --quota-project YOUR_PROJECT."@))
            .push(Tree::Text(around("If Google blocks the bundled gcloud OAuth app during login, create a Desktop OAuth client and rerun "@, login_with_quota(quota, true, true), "."@)))
            .push(Tree::Text("Call get_account_summaries to discover accessible GA4 accounts and properties."@)),
    )
}

fn first_steps_value(quota: &str) -> (r: Json)
    ensures
        r@ == first_steps_tree(quota@),
{
    let mut items: Vec<Json> = Vec::new();
    assert(json::trees(items@) =~= Seq::<Tree>::empty());
    add_item(&mut items, json::string(around_text("Run ", login_with_quota_text(quota, true, true).as_str(), " for the easiest unblocked SSH/browser login.").as_str()));
    add_item(&mut items, json::string("Call ga4-mcp auth status --verify-token or ga4_auth_status with verify_token=true to prove Google Analytics access without returning a token."));
    add_item(&mut items, json::string("If Google blocks the bundled gcloud OAuth app for Analytics scopes, use --client-id-file /path/to/client_id.json from a Desktop OAuth client; ga4-mcp will use direct browser OAuth and its own credential file."));
    add_item(&mut items, json::string("For the lowest-friction local or loopback HTTP service, use GOOGLE_ANALYTICS_MCP_UPSTREAM_TOKEN_SOURCE=request_header_or_config and GOOGLE_ANALYTICS_MCP_UPSTREAM_TOKEN_HEADER=authorization."));
    add_item(&mut items, json::string("For a hosted per-user service, keep GOOGLE_ANALYTICS_MCP_UPSTREAM_TOKEN_SOURCE=request_header so each client supplies its own Google token."));
    add_item(&mut items, json::string("By default ga4-mcp auth login writes a GA4-specific ADC file so sibling Google MCPs keep their own tokens and scopes."));
    add_item(&mut items, json::string("If verification says local ADC requires a quota project, enable analyticsadmin.googleapis.com and analyticsdata.googleapis.com on that project, then rerun ga4-mcp auth login --quota-project YOUR_PROJECT."));
    add_item(&mut items, json::string(around_text("If Google blocks the bundled gcloud OAuth app during login, create a Desktop OAuth client and rerun ", login_with_quota_text(quota, true, true).as_str(), ".").as_str()));
    add_item(&mut items, json::string("Call get_account_summaries to discover accessible GA4 accounts and properties."));
    json::array(items)
}

/// No variables.
pub open spec fn no_env_tree() -> Tree {
    Tree::List(
        Seq::<Tree>::empty(),
    )
}

fn no_env_value() -> (r: Json)
    ensures
        r@ == no_env_tree(),
{
    let mut items: Vec<Json> = Vec::new();
    assert(json::trees(items@) =~= Seq::<Tree>::empty());
    json::array(items)
}

/// The variables of a hosted service.
pub open spec fn hosted_env_tree() -> Tree {
    Tree::List(
        Seq::<Tree>::empty()
            .push(Tree::Text("GOOGLE_ANALYTICS_MCP_UPSTREAM_TOKEN_SOURCE=request_header"@))
            .push(Tree::Text("GOOGLE_ANALYTICS_MCP_UPSTREAM_TOKEN_HEADER=authorization"@)),
    )
}

fn hosted_env_value() -> (r: Json)
    ensures
        r@ == hosted_env_tree(),
{
    let mut items: Vec<Json> = Vec::new();
    assert(json::trees(items@) =~= Seq::<Tree>::empty());
    add_item(&mut items, json::string("GOOGLE_ANALYTICS_MCP_UPSTREAM_TOKEN_SOURCE=request_header"));
    add_item(&mut items, json::string("GOOGLE_ANALYTICS_MCP_UPSTREAM_TOKEN_HEADER=authorization"));
    json::array(items)
}

/// The variables of a local service.
pub open spec fn local_env_tree() -> Tree {
    Tree::List(
        Seq::<Tree>::empty()
            .push(Tree::Text("GOOGLE_ANALYTICS_MCP_UPSTREAM_TOKEN_SOURCE=request_header_or_config"@))
            .push(Tree::Text("GOOGLE_ANALYTICS_MCP_UPSTREAM_TOKEN_HEADER=authorization"@)),
    )
}

fn local_env_value() -> (r: Json)
    ensures
        r@ == local_env_tree(),
{
    let mut items: Vec<Json> = Vec::new();
    assert(json::trees(items@) =~= Seq::<Tree>::empty());
    add_item(&mut items, json::string("GOOGLE_ANALYTICS_MCP_UPSTREAM_TOKEN_SOURCE=request_header_or_config"));
    add_item(&mut items, json::string("GOOGLE_ANALYTICS_MCP_UPSTREAM_TOKEN_HEADER=authorization"));
    json::array(items)
}

/// The variables of a service with a credentials file.
pub open spec fn file_env_tree() -> Tree {
    Tree::List(
        Seq::<Tree>::empty()
            .push(Tree::Text("GOOGLE_APPLICATION_CREDENTIALS"@)),
    )
}

fn file_env_value() -> (r: Json)
    ensures
        r@ == file_env_tree(),
{
    let mut items: Vec<Json> = Vec::new();
    assert(json::trees(items@) =~= Seq::<Tree>::empty());
    add_item(&mut items, json::string("GOOGLE_APPLICATION_CREDENTIALS"));
    json::array(items)
}

/// Credentials that a local login writes.
pub open spec fn adc_option_tree(quota: Seq<char>) -> Tree {
    Tree::Dict(
        json::fields()
            .push(("name"@, Tree::Text("Application Default Credentials"@)))
            .push(("best_for"@, Tree::Text("lowest-friction local browser login"@)))
            .push(("command"@, Tree::Text(login_with_quota(quota, false, false))))
            .push(("headless_command"@, Tree::Text(login_with_quota(quota, true, false))))
            .push(("client_id_file_command"@, Tree::Text(login_with_quota(quota, false, true))))
            .push(("client_id_file_headless_command"@, Tree::Text(login_with_quota(quota, true, true))))
            .push(("quota_project_command"@, Tree::Text("ga4-mcp auth command --quota-project YOUR_PROJECT"@)))
            .push(("quota_project_note"@, Tree::Text("Only needed when Google reports local ADC requires a quota project; the project must have the Analytics Admin and Data APIs enabled."@)))
            .push(("client_id_file_note"@, Tree::Text("Use a Desktop OAuth client JSON when Google blocks the bundled gcloud OAuth app. Without --shared-adc, ga4-mcp handles browser OAuth directly and writes its GA4-specific credential file."@)))
            .push(("env"@, no_env_tree()))
            .push(("shared_adc_escape_hatch"@, Tree::Text("add --shared-adc only when intentionally creating the conventional shared gcloud ADC file; set GOOGLE_ANALYTICS_MCP_SHARED_ADC=true when the runtime should use it"@))),
    )
}

fn adc_option_value(quota: &str) -> (r: Json)
    ensures
        r@ == adc_option_tree(quota@),
{
    let mut object = Object::new();
    object.put("name", json::string("Application Default Credentials"));
    object.put("best_for", json::string("lowest-friction local browser login"));
    object.put("command", json::string(login_with_quota_text(quota, false, false).as_str()));
    object.put("headless_command", json::string(login_with_quota_text(quota, true, false).as_str()));
    object.put("client_id_file_command", json::string(login_with_quota_text(quota, false, true).as_str()));
    object.put("client_id_file_headless_command", json::string(login_with_quota_text(quota, true, true).as_str()));
    object.put("quota_project_command", json::string("ga4-mcp auth command --quota-project YOUR_PROJECT"));
    object.put("quota_project_note", json::string("Only needed when Google reports local ADC requires a quota project; the project must have the Analytics Admin and Data APIs enabled."));
    object.put("client_id_file_note", json::string("Use a Desktop OAuth client JSON when Google blocks the bundled gcloud OAuth app. Without --shared-adc, ga4-mcp handles browser OAuth directly and writes its GA4-specific credential file."));
    object.put("env", no_env_value());
    object.put("shared_adc_escape_hatch", json::string("add --shared-adc only when intentionally creating the conventional shared gcloud ADC file; set GOOGLE_ANALYTICS_MCP_SHARED_ADC=true when the runtime should use it"));
    json::dict(object)
}

/// Tokens that every request brings.
pub open spec fn bearer_option_tree() -> Tree {
    Tree::Dict(
        json::fields()
            .push(("name"@, Tree::Text("per-request Google bearer token"@)))
            .push(("best_for"@, Tree::Text("hosted or multi-user MCP services"@)))
            .push(("env"@, hosted_env_tree())),
    )
}

fn bearer_option_value() -> (r: Json)
    ensures
        r@ == bearer_option_tree(),
{
    let mut object = Object::new();
    object.put("name", json::string("per-request Google bearer token"));
    object.put("best_for", json::string("hosted or multi-user MCP services"));
    object.put("env", hosted_env_value());
    json::dict(object)
}

/// Tokens that requests bring, else those of the server.
pub open spec fn fallback_option_tree() -> Tree {
    Tree::Dict(
        json::fields()
            .push(("name"@, Tree::Text("local request-header-or-ADC fallback"@)))
            .push(("best_for"@, Tree::Text("loopback user-level HTTP services"@)))
            .push(("env"@, local_env_tree())),
    )
}

fn fallback_option_value() -> (r: Json)
    ensures
        r@ == fallback_option_tree(),
{
    let mut object = Object::new();
    object.put("name", json::string("local request-header-or-ADC fallback"));
    object.put("best_for", json::string("loopback user-level HTTP services"));
    object.put("env", local_env_value());
    json::dict(object)
}

/// A credentials file.
pub open spec fn file_option_tree() -> Tree {
    Tree::Dict(
        json::fields()
            .push(("name"@, Tree::Text("GOOGLE_APPLICATION_CREDENTIALS"@)))
            .push(("best_for"@, Tree::Text("standard service-account or ADC file configuration"@)))
            .push(("env"@, file_env_tree())),
    )
}

fn file_option_value() -> (r: Json)
    ensures
        r@ == file_option_tree(),
{
    let mut object = Object::new();
    object.put("name", json::string("GOOGLE_APPLICATION_CREDENTIALS"));
    object.put("best_for", json::string("standard service-account or ADC file configuration"));
    object.put("env", file_env_value());
    json::dict(object)
}

/// The kinds of credentials.
pub open spec fn credential_options_tree(quota: Seq<char>) -> Tree {
    Tree::List(
        Seq::<Tree>::empty()
            .push(adc_option_tree(quota))
            .push(bearer_option_tree())
            .push(fallback_option_tree())
            .push(file_option_tree()),
    )
}

fn credential_options_value(quota: &str) -> (r: Json)
    ensures
        r@ == credential_options_tree(quota@),
{
    let mut items: Vec<Json> = Vec::new();
    assert(json::trees(items@) =~= Seq::<Tree>::empty());
    add_item(&mut items, adc_option_value(quota));
    add_item(&mut items, bearer_option_value());
    add_item(&mut items, fallback_option_value());
    add_item(&mut items, file_option_value());
    json::array(items)
}

/// The tools to begin with.
pub open spec fn starter_tools_tree() -> Tree {
    Tree::List(
        Seq::<Tree>::empty()
            .push(Tree::Text("get_account_summaries"@))
            .push(Tree::Text("get_property_details"@))
            .push(Tree::Text("run_report"@))
            .push(Tree::Text("preview_report_request"@))
            .push(Tree::Text("check_report_compatibility"@)),
    )
}

fn starter_tools_value() -> (r: Json)
    ensures
        r@ == starter_tools_tree(),
{
    let mut items: Vec<Json> = Vec::new();
    assert(json::trees(items@) =~= Seq::<Tree>::empty());
    add_item(&mut items, json::string("get_account_summaries"));
    add_item(&mut items, json::string("get_property_details"));
    add_item(&mut items, json::string("run_report"));
    add_item(&mut items, json::string("preview_report_request"));
    add_item(&mut items, json::string("check_report_compatibility"));
    json::array(items)
}

/// The quota project in the commands that are shown.
pub open spec fn shown_quota(client: AnalyticsApiClient) -> Seq<char> {
    match client.quota_project {
        Some(project) => project@,
        None => "<PROJECT_ID>"@,
    }
}

/// How to get started.
pub open spec fn started_tree(client: AnalyticsApiClient, profile: CapabilityProfile) -> Tree {
    Tree::Dict(
        json::fields()
            .push(("server"@, Tree::Text("ga4-mcp"@)))
            .push(("capability_profile"@, Tree::Text(profile.name())))
            .push(("auth_source_candidate"@, Tree::Text(client.auth_mode.source().name())))
            .push(("auth_source_note"@, Tree::Text("A candidate server credential source is not proof credentials exist; call ga4_auth_status or auth status --verify-token."@)))
            .push(("scope"@, Tree::Text(client.analytics_scope@)))
            .push(("upstream_token_source"@, Tree::Text(client.token_source.name())))
            .push(("upstream_token_header"@, Tree::Text(client.token_header@)))
            .push(("recommended_cli"@, recommended_cli_tree(shown_quota(client))))
            .push(("first_steps"@, first_steps_tree(shown_quota(client))))
            .push(("credential_options"@, credential_options_tree(shown_quota(client))))
            .push(("safe_starter_tools"@, starter_tools_tree()))
            .push(("scratchpad_note"@, Tree::Text("Scratchpad tools require GOOGLE_ANALYTICS_MCP_CAPABILITY_PROFILE=scratchpad or --capability-profile scratchpad."@))),
    )
}

/// How to get started.
pub fn get_started_payload(client: &AnalyticsApiClient, profile: CapabilityProfile) -> (r: Json)
    ensures
        r@ == started_tree(*client, profile),
{
    let quota: &str = match client.quota_project() {
        Some(project) => project,
        None => "<PROJECT_ID>",
    };
    let mut object = Object::new();
    object.put("server", json::string("ga4-mcp"));
    object.put("capability_profile", json::string(profile.as_str()));
    object.put("auth_source_candidate", json::string(client.auth_source().as_str()));
    object.put("auth_source_note", json::string("A candidate server credential source is not proof credentials exist; call ga4_auth_status or auth status --verify-token."));
    object.put("scope", json::string(client.analytics_scope()));
    object.put("upstream_token_source", json::string(client.upstream_token_source().as_str()));
    object.put("upstream_token_header", json::string(client.upstream_token_header()));
    object.put("recommended_cli", recommended_cli_value(quota));
    object.put("first_steps", first_steps_value(quota));
    object.put("credential_options", credential_options_value(quota));
    object.put("safe_starter_tools", starter_tools_value());
    object.put("scratchpad_note", json::string("Scratchpad tools require GOOGLE_ANALYTICS_MCP_CAPABILITY_PROFILE=scratchpad or --capability-profile scratchpad."));
    json::dict(object)
}

// ---------------------------------------------------------------------------
// The state of the credentials.
// ---------------------------------------------------------------------------

/// Whether there are credentials for a source.
pub fn credential_material_detected_for_auth_source(
    auth_source: AuthSource,
    local_detected: bool,
) -> (r: bool)
    ensures
        r == (local_detected || auth_source != AuthSource::GoogleDefaultProviderChain),
{
    local_detected || auth_source != AuthSource::GoogleDefaultProviderChain
}

/// The scope of the login commands that are shown: one that allows to read.
pub open spec fn command_scope(current_scope: Seq<char>) -> Seq<char> {
    if auth_ux::allows_read(current_scope) {
        current_scope
    } else {
        DEFAULT_ANALYTICS_SCOPE@
    }
}

/// The scope of the login commands that are shown: one that allows to read.
pub fn login_scope_for_mcp_command(current_scope: &str) -> (r: &str)
    ensures
        r@ == command_scope(current_scope@),
{
    if auth_ux::scope_allows_analytics_read(current_scope) {
        current_scope
    } else {
        DEFAULT_ANALYTICS_SCOPE
    }
}

/// What to do after a login.
pub open spec fn after_login(
    token_source: UpstreamTokenSource,
    current_scope: Seq<char>,
    login_scope: Seq<char>,
    ambient_scope: Option<Seq<char>>,
) -> Seq<char> {
    if current_scope != login_scope || auth_report::scope_needs_repair(login_scope, ambient_scope) {
        "Unset GOOGLE_ANALYTICS_MCP_SCOPE, set GOOGLE_ANALYTICS_MCP_SCOPE="@ + login_scope
            + ", or update any MCP launcher `--analytics-scope` argument before restarting stdio MCP clients; stale scope configuration overrides the login scope."@
    } else if token_source == UpstreamTokenSource::RequestHeader {
        "For local ADC fallback, set GOOGLE_ANALYTICS_MCP_UPSTREAM_TOKEN_SOURCE=request_header_or_config and GOOGLE_ANALYTICS_MCP_UPSTREAM_TOKEN_HEADER=authorization before restarting; keep request_header for hosted per-user services."@
    } else {
        "Restart stdio or HTTP MCP clients that keep long-lived server processes, then call ga4_auth_status with verify_token=true or run ga4-mcp auth status --verify-token."@
    }
}

/// What to do after a login.
pub fn after_login_instruction_with_env(
    upstream_token_source: UpstreamTokenSource,
    current_scope: &str,
    login_scope: &str,
    ambient_scope: Option<&str>,
) -> (r: String)
    ensures
        r@ == after_login(
            upstream_token_source,
            current_scope@,
            login_scope@,
            text::opt_str(ambient_scope),
        ),
{
    if !text::same_text(current_scope, login_scope) || auth_report::runtime_scope_needs_repair(
        login_scope,
        ambient_scope,
    ) {
        let mut r: String = error::labelled(
            "Unset GOOGLE_ANALYTICS_MCP_SCOPE, set GOOGLE_ANALYTICS_MCP_SCOPE=",
            login_scope,
        );
        r.append(
            ", or update any MCP launcher `--analytics-scope` argument before restarting stdio MCP clients; stale scope configuration overrides the login scope.",
        );
        r
    } else if upstream_token_source == UpstreamTokenSource::RequestHeader {
        "For local ADC fallback, set GOOGLE_ANALYTICS_MCP_UPSTREAM_TOKEN_SOURCE=request_header_or_config and GOOGLE_ANALYTICS_MCP_UPSTREAM_TOKEN_HEADER=authorization before restarting; keep request_header for hosted per-user services.".to_owned()
    } else {
        "Restart stdio or HTTP MCP clients that keep long-lived server processes, then call ga4_auth_status with verify_token=true or run ga4-mcp auth status --verify-token.".to_owned()
    }
}

pub const SWITCH_STEP: &'static str = "For local ADC fallback, switch GOOGLE_ANALYTICS_MCP_UPSTREAM_TOKEN_SOURCE to request_header_or_config; keep request_header for hosted per-user services.";

/// The steps before a token was checked.
pub open spec fn unverified_steps(token_source: UpstreamTokenSource, scope: Seq<char>) -> Seq<
    Seq<char>,
> {
    let missing = !auth_ux::allows_read(scope);
    let start = auth_report::with_step(
        auth_report::no_steps(),
        missing,
        auth_report::read_scope(),
    ).push(
        "Run ga4-mcp auth status --verify-token, or call ga4_auth_status with verify_token=true, when you are ready to prove credentials."@,
    ).push(
        "If credentials are missing, run "@ + auth_report::login_with_scope(missing)
            + " or call ga4_auth_login_command for a copyable login command."@,
    );
    auth_report::with_step(
        start,
        token_source == UpstreamTokenSource::RequestHeader,
        SWITCH_STEP@,
    ).push(
        "Call get_account_summaries after auth is verified to discover accessible GA4 account/property ids."@,
    )
}

/// The steps after a token passed its check.
pub open spec fn passed_steps(token_source: UpstreamTokenSource, scope: Seq<char>) -> Seq<
    Seq<char>,
> {
    let start = auth_report::with_step(
        auth_report::no_steps(),
        !auth_ux::allows_read(scope),
        auth_report::read_scope(),
    );
    auth_report::with_step(
        start,
        token_source == UpstreamTokenSource::RequestHeader,
        "Runtime is in request_header mode; this is correct for hosted per-user OAuth. For local ADC fallback, use request_header_or_config."@,
    ).push("Restart MCP clients that keep long-lived stdio or HTTP server processes."@).push(
        "Call get_account_summaries to discover accessible GA4 accounts and properties."@,
    )
}

/// The steps after a token failed its check.
pub open spec fn refused_steps(
    token_source: UpstreamTokenSource,
    scope: Seq<char>,
    quota_command: Seq<char>,
    enable_command: Option<Seq<char>>,
) -> Seq<Seq<char>> {
    let missing = !auth_ux::allows_read(scope);
    let start = auth_report::no_steps()
        .push(
            "Run "@ + auth_report::login_with_scope(missing) + " for local browser login."@,
        )
        .push(
            "If the token check reports that local ADC requires a quota project, run `"@
                + quota_command + "`."@,
        )
        .push(
            "Call ga4_auth_login_command if you need a copyable login command inside MCP."@,
        )
        .push(
            "For unattended deployments, set GOOGLE_APPLICATION_CREDENTIALS or OAuth refresh-token env configuration."@,
        )
        .push(
            "Ensure the authenticated Google principal has access to the GA4 account/property."@,
        );
    let enable = match enable_command {
        Some(command) => start.insert(
            1,
            "Enable the required Analytics APIs with `"@ + command + "`."@,
        ),
        None => start,
    };
    auth_report::with_step(
        auth_report::after_step(enable, missing, auth_report::read_scope()),
        token_source == UpstreamTokenSource::RequestHeader,
        SWITCH_STEP@,
    )
}

/// What a user should do next.
pub open spec fn next_auth_steps(
    token_source: UpstreamTokenSource,
    scope: Seq<char>,
    verified: bool,
    token_ok: Option<bool>,
    quota_command: Seq<char>,
    enable_command: Option<Seq<char>>,
) -> Seq<Seq<char>> {
    if !verified {
        unverified_steps(token_source, scope)
    } else if token_ok == Some(true) {
        passed_steps(token_source, scope)
    } else {
        refused_steps(token_source, scope, quota_command, enable_command)
    }
}

fn refused_step_list(
    from_header: bool,
    scope: &str,
    quota_command: &str,
    enable_command: Option<&str>,
) -> (r: Vec<String>)
    ensures
        forall|source: UpstreamTokenSource|
            (source == UpstreamTokenSource::RequestHeader) == from_header ==> text::texts(r@)
                == #[trigger] refused_steps(
                source,
                scope@,
                quota_command@,
                text::opt_str(enable_command),
            ),
{
    let missing: bool = !auth_ux::scope_allows_analytics_read(scope);
    let mut steps: Vec<String> = Vec::new();
    assert(text::texts(steps@) =~= auth_report::no_steps());
    text::add_text(
        &mut steps,
        around_text(
            "Run ",
            auth_report::login_with_scope_text(missing).as_str(),
            " for local browser login.",
        ).as_str(),
    );
    text::add_text(
        &mut steps,
        around_text(
            "If the token check reports that local ADC requires a quota project, run `",
            quota_command,
            "`.",
        ).as_str(),
    );
    text::add_text(
        &mut steps,
        "Call ga4_auth_login_command if you need a copyable login command inside MCP.",
    );
    text::add_text(
        &mut steps,
        "For unattended deployments, set GOOGLE_APPLICATION_CREDENTIALS or OAuth refresh-token env configuration.",
    );
    text::add_text(
        &mut steps,
        "Ensure the authenticated Google principal has access to the GA4 account/property.",
    );
    assert(text::texts(steps@).len() == 5);
    match enable_command {
        Some(command) => {
            text::put_text(
                &mut steps,
                1,
                around_text("Enable the required Analytics APIs with `", command, "`.").as_str(),
            );
        },
        None => {},
    }
    if missing {
        text::put_text(&mut steps, 0, auth_report::read_scope_step().as_str());
    }
    if from_header {
        text::add_text(&mut steps, SWITCH_STEP);
    }
    steps
}

/// What a user should do next, given the commands that set up a Google project.
pub fn auth_next_steps(
    upstream_token_source: UpstreamTokenSource,
    scope: &str,
    verified: bool,
    token_ok: Option<bool>,
    quota_command: &str,
    enable_command: Option<&str>,
) -> (r: Vec<String>)
    ensures
        text::texts(r@) == next_auth_steps(
            upstream_token_source,
            scope@,
            verified,
            token_ok,
            quota_command@,
            text::opt_str(enable_command),
        ),
{
    let missing: bool = !auth_ux::scope_allows_analytics_read(scope);
    let from_header: bool = upstream_token_source == UpstreamTokenSource::RequestHeader;
    let passed: bool = match token_ok {
        Some(ok) => ok,
        None => false,
    };
    if verified && !passed {
        return refused_step_list(from_header, scope, quota_command, enable_command);
    }
    let mut steps: Vec<String> = Vec::new();
    assert(text::texts(steps@) =~= auth_report::no_steps());
    if missing {
        text::add_text(&mut steps, auth_report::read_scope_step().as_str());
    }
    if !verified {
        text::add_text(
            &mut steps,
            "Run ga4-mcp auth status --verify-token, or call ga4_auth_status with verify_token=true, when you are ready to prove credentials.",
        );
        text::add_text(
            &mut steps,
            around_text(
                "If credentials are missing, run ",
                auth_report::login_with_scope_text(missing).as_str(),
                " or call ga4_auth_login_command for a copyable login command.",
            ).as_str(),
        );
        if from_header {
            text::add_text(&mut steps, SWITCH_STEP);
        }
        text::add_text(
            &mut steps,
            "Call get_account_summaries after auth is verified to discover accessible GA4 account/property ids.",
        );
    } else {
        if from_header {
            text::add_text(
                &mut steps,
                "Runtime is in request_header mode; this is correct for hosted per-user OAuth. For local ADC fallback, use request_header_or_config.",
            );
        }
        text::add_text(
            &mut steps,
            "Restart MCP clients that keep long-lived stdio or HTTP server processes.",
        );
        text::add_text(
            &mut steps,
            "Call get_account_summaries to discover accessible GA4 accounts and properties.",
        );
    }
    steps
}

/// What is said of the check of a token.
pub open spec fn token_check_tree(check: Option<Result<(), Problem>>) -> Tree {
    match check {
        None => Tree::Dict(json::fields().push(("checked"@, Tree::Bool(false)))),
        Some(Ok(_)) => Tree::Dict(
            json::fields().push(("checked"@, Tree::Bool(true))).push(("ok"@, Tree::Bool(true))),
        ),
        Some(Err(problem)) => Tree::Dict(
            json::fields()
                .push(("checked"@, Tree::Bool(true)))
                .push(("ok"@, Tree::Bool(false)))
                .push(("error"@, Tree::Text(contract::redacted(problem.message_text())))),
        ),
    }
}

/// The outcome of the check of a token.
pub open spec fn check_view(check: Option<Result<(), AnalyticsError>>) -> Option<
    Result<(), Problem>,
> {
    match check {
        None => None,
        Some(Ok(_)) => Some(Ok(())),
        Some(Err(err)) => Some(Err(err@)),
    }
}

fn token_check_value(check: &Option<Result<(), AnalyticsError>>) -> (r: Json)
    ensures
        r@ == token_check_tree(check_view(*check)),
{
    let mut object = Object::new();
    match check {
        None => {
            object.put("checked", json::boolean(false));
        },
        Some(Ok(_)) => {
            object.put("checked", json::boolean(true));
            object.put("ok", json::boolean(true));
        },
        Some(Err(err)) => {
            object.put("checked", json::boolean(true));
            object.put("ok", json::boolean(false));
            object.put(
                "error",
                json::string(contract::redact_secret_text(err.message().as_str()).as_str()),
            );
        },
    }
    json::dict(object)
}

/// The credential source that is shown: the provider chain only where there is something
/// in it or where it was seen to work.
pub open spec fn shown_source(source: AuthSource, material: bool, token_ok: Option<bool>) -> Tree {
    if source == AuthSource::GoogleDefaultProviderChain && !material && token_ok != Some(true) {
        Tree::Null
    } else {
        Tree::Text(source.name())
    }
}

/// Whether a token passed its check.
pub open spec fn passed(check: Option<Result<(), Problem>>) -> Option<bool> {
    match check {
        None => None,
        Some(Ok(_)) => Some(true),
        Some(Err(_)) => Some(false),
    }
}

/// The variables that are set.
pub open spec fn detected_env_tree(env: EnvPresence) -> Tree {
    Tree::Dict(
        json::fields()
            .push(("GOOGLE_APPLICATION_CREDENTIALS"@, Tree::Bool(env.google_application_credentials)))
            .push(("GOOGLE_ANALYTICS_MCP_OAUTH_CLIENT_SECRET_JSON"@, Tree::Bool(env.oauth_client_secret_json)))
            .push(("GOOGLE_ANALYTICS_MCP_OAUTH_REFRESH_TOKEN"@, Tree::Bool(env.oauth_refresh_token)))
            .push(("GOOGLE_ANALYTICS_MCP_QUOTA_PROJECT"@, Tree::Bool(env.quota_project)))
            .push(("CLOUDSDK_CONFIG"@, Tree::Bool(env.cloudsdk_config))),
    )
}

fn detected_env_value(env: EnvPresence) -> (r: Json)
    ensures
        r@ == detected_env_tree(env),
{
    let mut object = Object::new();
    object.put("GOOGLE_APPLICATION_CREDENTIALS", json::boolean(env.google_application_credentials));
    object.put("GOOGLE_ANALYTICS_MCP_OAUTH_CLIENT_SECRET_JSON", json::boolean(env.oauth_client_secret_json));
    object.put("GOOGLE_ANALYTICS_MCP_OAUTH_REFRESH_TOKEN", json::boolean(env.oauth_refresh_token));
    object.put("GOOGLE_ANALYTICS_MCP_QUOTA_PROJECT", json::boolean(env.quota_project));
    object.put("CLOUDSDK_CONFIG", json::boolean(env.cloudsdk_config));
    json::dict(object)
}

/// What is said of the credentials. A token was checked where that was asked for.
pub open spec fn status_tree(
    client: AnalyticsApiClient,
    profile: CapabilityProfile,
    check: Option<Result<(), Problem>>,
    local_detected: bool,
    env: EnvPresence,
    quota_command: Seq<char>,
    enable_command: Option<Seq<char>>,
) -> Tree {
    let material = local_detected || client.auth_mode.source()
        != AuthSource::GoogleDefaultProviderChain;
    Tree::Dict(
        json::fields()
            .push(("auth_source"@, shown_source(client.auth_mode.source(), material, passed(check))))
            .push(("auth_source_candidate"@, Tree::Text(client.auth_mode.source().name())))
            .push(("scope"@, Tree::Text(client.analytics_scope@)))
            .push(("capability_profile"@, Tree::Text(profile.name())))
            .push(("upstream_token_source"@, Tree::Text(client.token_source.name())))
            .push(("upstream_token_header"@, Tree::Text(client.token_header@)))
            .push(("quota_project_configured"@, Tree::Bool(client.quota_project is Some)))
            .push(("quota_project"@, json::opt_text(text::opt_text(client.quota_project))))
            .push(("credential_material_detected"@, Tree::Bool(material)))
            .push(("detected_env"@, detected_env_tree(env)))
            .push(("token_check"@, token_check_tree(check)))
            .push(("next_steps"@, json::text_list(next_auth_steps(client.token_source, client.analytics_scope@, check is Some, passed(check), quota_command, enable_command))))
            .push(("secrets_returned"@, Tree::Bool(false))),
    )
}

/// What is said of the credentials. A token was checked where that was asked for.
pub fn auth_status_payload(
    client: &AnalyticsApiClient,
    profile: CapabilityProfile,
    check: Option<Result<(), AnalyticsError>>,
    local_detected: bool,
    env: EnvPresence,
    quota_command: &str,
    enable_command: Option<&str>,
) -> (r: Json)
    ensures
        r@ == status_tree(
            *client,
            profile,
            check_view(check),
            local_detected,
            env,
            quota_command@,
            text::opt_str(enable_command),
        ),
{
    let source: AuthSource = client.auth_source();
    let material: bool = credential_material_detected_for_auth_source(source, local_detected);
    let token_ok: Option<bool> = match &check {
        None => None,
        Some(Ok(_)) => Some(true),
        Some(Err(_)) => Some(false),
    };
    let works: bool = match token_ok {
        Some(ok) => ok,
        None => false,
    };
    let shown: Json = if source == AuthSource::GoogleDefaultProviderChain && !material && !works {
        Json::Null
    } else {
        json::string(source.as_str())
    };
    let steps: Vec<String> = auth_next_steps(
        client.upstream_token_source(),
        client.analytics_scope(),
        check.is_some(),
        token_ok,
        quota_command,
        enable_command,
    );
    let mut object = Object::new();
    object.put("auth_source", shown);
    object.put("auth_source_candidate", json::string(source.as_str()));
    object.put("scope", json::string(client.analytics_scope()));
    object.put("capability_profile", json::string(profile.as_str()));
    object.put("upstream_token_source", json::string(client.upstream_token_source().as_str()));
    object.put("upstream_token_header", json::string(client.upstream_token_header()));
    object.put("quota_project_configured", json::boolean(client.quota_project_configured()));
    object.put("quota_project", json::str_or_null(client.quota_project()));
    object.put("credential_material_detected", json::boolean(material));
    object.put("detected_env", detected_env_value(env));
    object.put("token_check", token_check_value(&check));
    object.put("next_steps", json::strings(steps.as_slice()));
    object.put("secrets_returned", json::boolean(false));
    json::dict(object)
}

// ---------------------------------------------------------------------------
// Login commands.
// ---------------------------------------------------------------------------

/// What a login needs to know of this machine.
#[derive(Debug)]
pub struct LoginPlaces {
    pub shell: Shell,
    pub server_cloudsdk_config: Option<String>,
    pub server_adc_file: Option<String>,
    pub shared_adc_file: Option<String>,
    pub ambient_scope: Option<String>,
}

/// What the setup of a Google project comes to.
#[derive(Debug)]
pub struct SetupPlan {
    pub api_enable_command: Option<String>,
    pub scopes: Vec<String>,
    pub next_steps: Vec<String>,
}

/// Whether a login command shares the conventional credentials.
pub open spec fn shares(args: AuthLoginCommandArgs) -> bool {
    args.shared_adc == Some(true)
}

/// What is wrong with a request for a login command.
pub open spec fn command_problem(args: AuthLoginCommandArgs, places: LoginPlaces) -> Option<Problem> {
    if !shares(args) && places.server_cloudsdk_config is None {
        Some(
            Problem::InvalidArgument(
                "shared_adc"@,
                "failed to determine the server-specific gcloud config directory; set HOME/XDG_CONFIG_HOME on Unix or APPDATA on Windows, or pass shared_adc=true to intentionally use conventional shared ADC"@,
            ),
        )
    } else {
        None
    }
}

/// The quota project of a login command.
pub open spec fn command_quota(client: AnalyticsApiClient, args: AuthLoginCommandArgs) -> Option<
    Seq<char>,
> {
    match args.quota_project {
        Some(project) => Some(project@),
        None => text::opt_text(client.quota_project),
    }
}

/// The directory of the gcloud configuration of a login command.
pub open spec fn command_dir(args: AuthLoginCommandArgs, places: LoginPlaces) -> Option<Seq<char>> {
    if shares(args) {
        None
    } else {
        text::opt_text(places.server_cloudsdk_config)
    }
}

/// The login command with gcloud.
pub open spec fn gcloud_command(
    client: AnalyticsApiClient,
    args: AuthLoginCommandArgs,
    places: LoginPlaces,
    headless: bool,
) -> Seq<char> {
    shell::command_with_config(
        places.shell,
        auth_ux::gcloud_words(
            command_scope(client.analytics_scope@),
            headless,
            if shares(args) {
                text::opt_text(args.client_id_file)
            } else {
                None
            },
        ),
        command_dir(args, places),
    )
}

/// The login command of this program.
pub open spec fn cli_command(
    client: AnalyticsApiClient,
    args: AuthLoginCommandArgs,
    headless: bool,
    client_id_file: Option<Seq<char>>,
) -> Seq<char> {
    shell::command(
        auth_ux::cli_words(
            command_scope(client.analytics_scope@),
            auth_ux::LoginFlags {
                headless,
                client_id_file,
                quota_project: command_quota(client, args),
                shared_adc: shares(args),
                account: text::opt_text(args.account),
                callback_port: args.callback_port,
            },
        ),
    )
}

/// Whether a login command uses the browser without gcloud.
pub open spec fn skips_gcloud(args: AuthLoginCommandArgs) -> bool {
    args.client_id_file is Some && !shares(args)
}

/// The commands after a login command.
pub open spec fn follow_ups(
    client: AnalyticsApiClient,
    args: AuthLoginCommandArgs,
    places: LoginPlaces,
) -> Seq<Seq<char>> {
    match command_quota(client, args) {
        Some(project) => if skips_gcloud(args) {
            auth_report::no_steps()
        } else {
            auth_report::no_steps().push(
                shell::command_with_config(
                    places.shell,
                    auth_ux::quota_words(project),
                    command_dir(args, places),
                ),
            )
        },
        None => auth_report::no_steps(),
    }
}

/// What a reader of a login command should know.
pub open spec fn command_notes_tree() -> Tree {
    Tree::List(
        Seq::<Tree>::empty()
            .push(Tree::Text("By default this command writes a GA4-specific ADC file for this OS user."@))
            .push(Tree::Text("When client_id_file is supplied without shared_adc, ga4-mcp uses toolkit browser OAuth and stores the result as a GA4-specific ADC file instead of using gcloud's bundled OAuth app."@))
            .push(Tree::Text("Set shared_adc=true only when you intentionally want the conventional shared gcloud ADC file; set GOOGLE_ANALYTICS_MCP_SHARED_ADC=true when the runtime should use it."@))
            .push(Tree::Text("No token or client secret is returned by this tool."@)),
    )
}

fn command_notes_value() -> (r: Json)
    ensures
        r@ == command_notes_tree(),
{
    let mut items: Vec<Json> = Vec::new();
    assert(json::trees(items@) =~= Seq::<Tree>::empty());
    add_item(&mut items, json::string("By default this command writes a GA4-specific ADC file for this OS user."));
    add_item(&mut items, json::string("When client_id_file is supplied without shared_adc, ga4-mcp uses toolkit browser OAuth and stores the result as a GA4-specific ADC file instead of using gcloud's bundled OAuth app."));
    add_item(&mut items, json::string("Set shared_adc=true only when you intentionally want the conventional shared gcloud ADC file; set GOOGLE_ANALYTICS_MCP_SHARED_ADC=true when the runtime should use it."));
    add_item(&mut items, json::string("No token or client secret is returned by this tool."));
    json::array(items)
}

/// The variables of a local service.
pub open spec fn local_http_env_tree() -> Tree {
    Tree::Dict(
        json::fields()
            .push(("GOOGLE_ANALYTICS_MCP_UPSTREAM_TOKEN_SOURCE"@, Tree::Text("request_header_or_config"@)))
            .push(("GOOGLE_ANALYTICS_MCP_UPSTREAM_TOKEN_HEADER"@, Tree::Text("authorization"@))),
    )
}

fn local_http_env_value() -> (r: Json)
    ensures
        r@ == local_http_env_tree(),
{
    let mut object = Object::new();
    object.put("GOOGLE_ANALYTICS_MCP_UPSTREAM_TOKEN_SOURCE", json::string("request_header_or_config"));
    object.put("GOOGLE_ANALYTICS_MCP_UPSTREAM_TOKEN_HEADER", json::string("authorization"));
    json::dict(object)
}

/// The variables of a hosted service.
pub open spec fn per_user_env_tree() -> Tree {
    Tree::Dict(
        json::fields()
            .push(("GOOGLE_ANALYTICS_MCP_UPSTREAM_TOKEN_SOURCE"@, Tree::Text("request_header"@)))
            .push(("GOOGLE_ANALYTICS_MCP_UPSTREAM_TOKEN_HEADER"@, Tree::Text("authorization"@))),
    )
}

fn per_user_env_value() -> (r: Json)
    ensures
        r@ == per_user_env_tree(),
{
    let mut object = Object::new();
    object.put("GOOGLE_ANALYTICS_MCP_UPSTREAM_TOKEN_SOURCE", json::string("request_header"));
    object.put("GOOGLE_ANALYTICS_MCP_UPSTREAM_TOKEN_HEADER", json::string("authorization"));
    json::dict(object)
}

/// The variables of a service account.
pub open spec fn service_account_tree() -> Tree {
    Tree::Dict(
        json::fields()
            .push(("standard_env"@, Tree::Text("GOOGLE_APPLICATION_CREDENTIALS=/path/to/service-account-or-adc.json"@))),
    )
}

fn service_account_value() -> (r: Json)
    ensures
        r@ == service_account_tree(),
{
    let mut object = Object::new();
    object.put("standard_env", json::string("GOOGLE_APPLICATION_CREDENTIALS=/path/to/service-account-or-adc.json"));
    json::dict(object)
}

/// The port of the callback, where one is fixed.
pub open spec fn port_of(args: AuthLoginCommandArgs) -> Option<u64> {
    match args.callback_port {
        Some(port) => Some(port as u64),
        None => None,
    }
}

/// The login commands that were asked for.
pub open spec fn commands_tree(
    client: AnalyticsApiClient,
    args: AuthLoginCommandArgs,
    places: LoginPlaces,
    setup: SetupPlan,
) -> Tree {
    Tree::Dict(
        json::fields()
            .push(("command"@, Tree::Text(if skips_gcloud(args) { cli_command(client, args, args.headless, text::opt_text(args.client_id_file)) } else { gcloud_command(client, args, places, args.headless) })))
            .push(("gcloud_command"@, Tree::Text(gcloud_command(client, args, places, args.headless))))
            .push(("preferred_cli"@, Tree::Text(cli_command(client, args, args.headless, text::opt_text(args.client_id_file)))))
            .push(("headless_command"@, Tree::Text(gcloud_command(client, args, places, true))))
            .push(("client_id_file_command"@, Tree::Text(cli_command(client, args, args.headless, Some("/path/to/client_id.json"@)))))
            .push(("client_id_file_headless_command"@, Tree::Text(cli_command(client, args, true, Some("/path/to/client_id.json"@)))))
            .push(("quota_project_command"@, Tree::Text(shell::command_with_config(places.shell, auth_ux::quota_words("YOUR_PROJECT"@), command_dir(args, places)))))
            .push(("api_enable_command"@, json::opt_text(text::opt_text(setup.api_enable_command))))
            .push(("follow_up_commands"@, json::text_list(follow_ups(client, args, places))))
            .push(("adc_scopes"@, json::text_list(text::texts(setup.scopes@))))
            .push(("cloudsdk_config"@, json::opt_text(command_dir(args, places))))
            .push(("credential_file"@, json::opt_text(if shares(args) { text::opt_text(places.shared_adc_file) } else { text::opt_text(places.server_adc_file) })))
            .push(("shared_adc"@, Tree::Bool(shares(args))))
            .push(("scope"@, Tree::Text(command_scope(client.analytics_scope@))))
            .push(("headless"@, Tree::Bool(args.headless)))
            .push(("client_id_file"@, json::opt_text(text::opt_text(args.client_id_file))))
            .push(("account"@, json::opt_text(text::opt_text(args.account))))
            .push(("callback_port"@, json::opt_whole(port_of(args))))
            .push(("quota_project"@, json::opt_text(command_quota(client, args))))
            .push(("after_login"@, Tree::Text(after_login(client.token_source, client.analytics_scope@, command_scope(client.analytics_scope@), text::opt_text(places.ambient_scope)))))
            .push(("next_steps"@, json::text_list(text::texts(setup.next_steps@))))
            .push(("notes"@, command_notes_tree()))
            .push(("client_id_file_hint"@, Tree::Text("If Google blocks the bundled gcloud OAuth app for Analytics scopes, pass client_id_file from a Desktop OAuth client; headless mode will ask for the redirected loopback callback URL."@)))
            .push(("quota_project_hint"@, Tree::Text("If verification says local ADC requires a quota project, enable analyticsadmin.googleapis.com and analyticsdata.googleapis.com on that project, run the quota_project_command, then verify again."@)))
            .push(("local_http_env"@, local_http_env_tree()))
            .push(("hosted_per_user_env"@, per_user_env_tree()))
            .push(("service_account_alternative"@, service_account_tree())),
    )
}

/// The login commands that were asked for, given what the setup of a Google project comes
/// to.
pub fn auth_login_command_payload(
    client: &AnalyticsApiClient,
    args: &AuthLoginCommandArgs,
    places: &LoginPlaces,
    setup: &SetupPlan,
) -> (r: Result<Json, AnalyticsError>)
    ensures
        match command_problem(*args, *places) {
            Some(problem) => r matches Err(err) && err@ == problem,
            None => r matches Ok(value) && value@ == commands_tree(*client, *args, *places, *setup),
        },
{
    let scope: &str = login_scope_for_mcp_command(client.analytics_scope());
    let shared_adc: bool = match args.shared_adc {
        Some(shared) => shared,
        None => false,
    };
    if !shared_adc && places.server_cloudsdk_config.is_none() {
        return Err(
            AnalyticsError::invalid(
                "shared_adc",
                "failed to determine the server-specific gcloud config directory; set HOME/XDG_CONFIG_HOME on Unix or APPDATA on Windows, or pass shared_adc=true to intentionally use conventional shared ADC",
            ),
        );
    }
    Ok(login_commands(client, args, places, setup, scope, shared_adc))
}

fn opt_ref(held: &Option<String>) -> (r: Option<&str>)
    ensures
        text::opt_str(r) == text::opt_text(*held),
{
    match held {
        Some(t) => Some(t.as_str()),
        None => None,
    }
}

fn follow_up_commands(
    client: &AnalyticsApiClient,
    args: &AuthLoginCommandArgs,
    places: &LoginPlaces,
    quota: Option<&str>,
    direct: bool,
    dir: Option<&str>,
) -> (r: Vec<String>)
    requires
        direct == skips_gcloud(*args),
        text::opt_str(quota) == command_quota(*client, *args),
        text::opt_str(dir) == command_dir(*args, *places),
    ensures
        text::texts(r@) == follow_ups(*client, *args, *places),
{
    let mut commands: Vec<String> = Vec::new();
    assert(text::texts(commands@) =~= auth_report::no_steps());
    match quota {
        Some(project) => {
            if !direct {
                text::add_text(
                    &mut commands,
                    auth_ux::quota_project_command_with_cloudsdk(places.shell, project, dir).as_str(),
                );
            }
        },
        None => {},
    }
    commands
}

fn login_commands(
    client: &AnalyticsApiClient,
    args: &AuthLoginCommandArgs,
    places: &LoginPlaces,
    setup: &SetupPlan,
    scope: &str,
    shared_adc: bool,
) -> (r: Json)
    requires
        scope@ == command_scope(client.analytics_scope@),
        shared_adc == shares(*args),
    ensures
        r@ == commands_tree(*client, *args, *places, *setup),
{
    let direct: bool = args.client_id_file.is_some() && !shared_adc;
    let quota: Option<&str> = match &args.quota_project {
        Some(project) => Some(project.as_str()),
        None => client.quota_project(),
    };
    let dir: Option<&str> = if shared_adc {
        None
    } else {
        opt_ref(&places.server_cloudsdk_config)
    };
    let gcloud_file: Option<&str> = if shared_adc {
        opt_ref(&args.client_id_file)
    } else {
        None
    };
    let gcloud: String = auth_ux::login_command_for_scope_with_cloudsdk(
        places.shell,
        scope,
        args.headless,
        gcloud_file,
        dir,
    );
    let headless: String = auth_ux::login_command_for_scope_with_cloudsdk(places.shell, scope, true, gcloud_file, dir);
    let preferred_cli: String = auth_ux::auth_login_cli_command(
        scope,
        args.headless,
        opt_ref(&args.client_id_file),
        quota,
        shared_adc,
        opt_ref(&args.account),
        args.callback_port,
    );
    let file_cli: String = auth_ux::auth_login_cli_command(
        scope,
        args.headless,
        Some("/path/to/client_id.json"),
        quota,
        shared_adc,
        opt_ref(&args.account),
        args.callback_port,
    );
    let file_headless_cli: String = auth_ux::auth_login_cli_command(
        scope,
        true,
        Some("/path/to/client_id.json"),
        quota,
        shared_adc,
        opt_ref(&args.account),
        args.callback_port,
    );
    let quota_command: String = auth_ux::quota_project_command_with_cloudsdk(
        places.shell,
        "YOUR_PROJECT",
        dir,
    );
    let after: String = after_login_instruction_with_env(
        client.upstream_token_source(),
        client.analytics_scope(),
        scope,
        opt_ref(&places.ambient_scope),
    );
    let port: Option<u64> = match args.callback_port {
        Some(port) => Some(port as u64),
        None => None,
    };
    let follow_up: Vec<String> = follow_up_commands(client, args, places, quota, direct, dir);
    let mut object = Object::new();
    object.put("command", json::string(if direct { preferred_cli.as_str() } else { gcloud.as_str() }));
    object.put("gcloud_command", json::string(gcloud.as_str()));
    object.put("preferred_cli", json::string(preferred_cli.as_str()));
    object.put("headless_command", json::string(headless.as_str()));
    object.put("client_id_file_command", json::string(file_cli.as_str()));
    object.put("client_id_file_headless_command", json::string(file_headless_cli.as_str()));
    object.put("quota_project_command", json::string(quota_command.as_str()));
    object.put("api_enable_command", json::string_or_null(&setup.api_enable_command));
    object.put("follow_up_commands", json::strings(follow_up.as_slice()));
    object.put("adc_scopes", json::strings(setup.scopes.as_slice()));
    object.put("cloudsdk_config", json::str_or_null(dir));
    object.put("credential_file", json::string_or_null(if shared_adc { &places.shared_adc_file } else { &places.server_adc_file }));
    object.put("shared_adc", json::boolean(shared_adc));
    object.put("scope", json::string(scope));
    object.put("headless", json::boolean(args.headless));
    object.put("client_id_file", json::string_or_null(&args.client_id_file));
    object.put("account", json::string_or_null(&args.account));
    object.put("callback_port", json::whole_or_null(port));
    object.put("quota_project", json::str_or_null(quota));
    object.put("after_login", json::string(after.as_str()));
    object.put("next_steps", json::strings(setup.next_steps.as_slice()));
    object.put("notes", command_notes_value());
    object.put("client_id_file_hint", json::string("If Google blocks the bundled gcloud OAuth app for Analytics scopes, pass client_id_file from a Desktop OAuth client; headless mode will ask for the redirected loopback callback URL."));
    object.put("quota_project_hint", json::string("If verification says local ADC requires a quota project, enable analyticsadmin.googleapis.com and analyticsdata.googleapis.com on that project, run the quota_project_command, then verify again."));
    object.put("local_http_env", local_http_env_value());
    object.put("hosted_per_user_env", per_user_env_value());
    object.put("service_account_alternative", service_account_value());
    json::dict(object)
}

/// Every login command that is shown asks for a scope that allows to read.
pub proof fn law_commands_allow_reading(current_scope: Seq<char>)
    ensures
        auth_ux::allows_read(command_scope(current_scope)),
{
    if !auth_ux::allows_read(current_scope) {
        auth_ux::lemma_default_scope_reads();
    }
}

/// Where every request brings its own token, that token is the one that is checked, and a
/// check that it passes is told as passed. What is told depends on the outcome of the check
/// alone, so the token is not in it.
pub proof fn law_request_tokens_are_checked(
    client: AnalyticsApiClient,
    raw: Seq<char>,
    token: Seq<char>,
    profile: CapabilityProfile,
    local_detected: bool,
    env: EnvPresence,
    quota_command: Seq<char>,
    enable_command: Option<Seq<char>>,
)
    requires
        client.token_source == UpstreamTokenSource::RequestHeader,
        client.auth_mode is RequestHeaderOnly,
        ga_client::request_token(Some(raw), client.token_header@) == Ok::<
            Option<Seq<char>>,
            Problem,
        >(Some(token)),
    ensures
        ga_client::token_choice(client.token_source, client.token_header@, Some(raw)) == Ok::<
            Option<Seq<char>>,
            Problem,
        >(Some(token)),
        status_tree(
            client,
            profile,
            Some(Ok(())),
            local_detected,
            env,
            quota_command,
            enable_command,
        ) matches Tree::Dict(entries) && json::lookup(entries, "token_check"@) == Some(
            Tree::Dict(
                json::fields().push(("checked"@, Tree::Bool(true))).push(("ok"@, Tree::Bool(true))),
            ),
        ) && json::lookup(entries, "auth_source"@) == Some(Tree::Text("request_header"@)),
{
    let entries = status_tree(
        client,
        profile,
        Some(Ok(())),
        local_detected,
        env,
        quota_command,
        enable_command,
    )->Dict_0;
    reveal_strlit("token_check");
    reveal_strlit("auth_source");
    reveal_strlit("auth_source_candidate");
    reveal_strlit("scope");
    reveal_strlit("capability_profile");
    reveal_strlit("upstream_token_source");
    reveal_strlit("upstream_token_header");
    reveal_strlit("quota_project_configured");
    reveal_strlit("quota_project");
    reveal_strlit("credential_material_detected");
    reveal_strlit("detected_env");
    assert("auth_source"@[0] != "token_check"@[0]);
    lemma_lookup_first(entries, "token_check"@, 10);
}

proof fn lemma_lookup_first(entries: Seq<(Seq<char>, Tree)>, key: Seq<char>, at: int)
    requires
        0 <= at < entries.len(),
        entries[at].0 == key,
        forall|i: int| 0 <= i < at ==> (#[trigger] entries[i]).0 != key,
    ensures
        json::lookup(entries, key) == Some(entries[at].1),
    decreases at,
{
    if at > 0 {
        assert(entries[0].0 != key);
        assert forall|i: int| 0 <= i < at - 1 implies (#[trigger] entries.drop_first()[i]).0
            != key by {
            assert(entries.drop_first()[i] == entries[i + 1]);
        }
        lemma_lookup_first(entries.drop_first(), key, at - 1);
    }
}

/// The command that logs in carries the project that pays, and more where it is asked for.
pub proof fn law_recommended_logins(quota: Seq<char>)
    ensures
        login_with_quota(quota, false, false) == "ga4-mcp auth login"@ + ""@
            + " --quota-project "@ + quota,
        login_with_quota(quota, true, false) == "ga4-mcp auth login"@ + " --headless"@
            + " --quota-project "@ + quota,
        login_with_quota(quota, false, true) == "ga4-mcp auth login"@ + ""@ + " --quota-project "@
            + quota + " --client-id-file /path/to/client_id.json"@,
        login_with_quota(quota, true, true) == "ga4-mcp auth login"@ + " --headless"@
            + " --quota-project "@ + quota + " --client-id-file /path/to/client_id.json"@,
{
}

/// A command uses the scope of the server where that can read, and the usual one where not.
pub proof fn law_commands_use_a_scope_that_reads(scope: Seq<char>)
    ensures
        auth_ux::allows_read(scope) ==> command_scope(scope) == scope,
        !auth_ux::allows_read(scope) ==> command_scope(scope)
            == "https://www.googleapis.com/auth/analytics.readonly"@,
{
}

/// A token is told as not checked, as good, or as refused with the reason.
pub proof fn law_checks_of_tokens_are_told(problem: Problem)
    ensures
        token_check_tree(None).field("checked"@) == Some(Tree::Bool(false)),
        token_check_tree(None).field("ok"@) is None,
        token_check_tree(Some(Ok(()))).field("checked"@) == Some(Tree::Bool(true)),
        token_check_tree(Some(Ok(()))).field("ok"@) == Some(Tree::Bool(true)),
        token_check_tree(Some(Err(problem))).field("checked"@) == Some(Tree::Bool(true)),
        token_check_tree(Some(Err(problem))).field("ok"@) == Some(Tree::Bool(false)),
        token_check_tree(Some(Err(problem))).field("error"@) == Some(
            Tree::Text(contract::redacted(problem.message_text())),
        ),
        passed(None) is None,
        passed(Some(Ok(()))) == Some(true),
        passed(Some(Err(problem))) == Some(false),
{
    broadcast use json::group_found;

    reveal_strlit("checked");
    assert("checked"@.len() == 7);
    reveal_strlit("ok");
    assert("ok"@.len() == 2);
    reveal_strlit("error");
    assert("error"@.len() == 5);
}

/// The status of the sign-in tells where credentials come from, what they allow, whether they
/// were checked, and never a secret.
pub proof fn law_statuses_are_told(
    client: AnalyticsApiClient,
    profile: CapabilityProfile,
    check: Option<Result<(), Problem>>,
    local_detected: bool,
    env: EnvPresence,
    quota_command: Seq<char>,
    enable_command: Option<Seq<char>>,
)
    ensures
        status_tree(
            client,
            profile,
            check,
            local_detected,
            env,
            quota_command,
            enable_command,
        ).field("auth_source_candidate"@)
            == Some(Tree::Text(client.auth_mode.source().name())),
        status_tree(
            client,
            profile,
            check,
            local_detected,
            env,
            quota_command,
            enable_command,
        ).field("scope"@)
            == Some(Tree::Text(client.analytics_scope@)),
        status_tree(
            client,
            profile,
            check,
            local_detected,
            env,
            quota_command,
            enable_command,
        ).field("capability_profile"@)
            == Some(Tree::Text(profile.name())),
        status_tree(
            client,
            profile,
            check,
            local_detected,
            env,
            quota_command,
            enable_command,
        ).field("upstream_token_source"@)
            == Some(Tree::Text(client.token_source.name())),
        status_tree(
            client,
            profile,
            check,
            local_detected,
            env,
            quota_command,
            enable_command,
        ).field("upstream_token_header"@)
            == Some(Tree::Text(client.token_header@)),
        status_tree(
            client,
            profile,
            check,
            local_detected,
            env,
            quota_command,
            enable_command,
        ).field("quota_project_configured"@)
            == Some(Tree::Bool(client.quota_project is Some)),
        status_tree(
            client,
            profile,
            check,
            local_detected,
            env,
            quota_command,
            enable_command,
        ).field("quota_project"@)
            == Some(
                match client.quota_project { Some(held) => Tree::Text(held@), None => Tree::Null, },
            ),
        status_tree(
            client,
            profile,
            check,
            local_detected,
            env,
            quota_command,
            enable_command,
        ).field("credential_material_detected"@)
            == Some(
                Tree::Bool(
                    local_detected
                        || client.auth_mode.source() != AuthSource::GoogleDefaultProviderChain,
                ),
            ),
        status_tree(
            client,
            profile,
            check,
            local_detected,
            env,
            quota_command,
            enable_command,
        ).field("token_check"@)
            == Some(token_check_tree(check)),
        status_tree(
            client,
            profile,
            check,
            local_detected,
            env,
            quota_command,
            enable_command,
        ).field("secrets_returned"@)
            == Some(Tree::Bool(false)),
        status_tree(
            client,
            profile,
            check,
            local_detected,
            env,
            quota_command,
            enable_command,
        ).field("auth_source"@)
            == Some(
                if client.auth_mode.source() == AuthSource::GoogleDefaultProviderChain
                    && !local_detected
                    && !(check matches Some(Ok(_))) {
                        Tree::Null
                    } else { Tree::Text(client.auth_mode.source().name()) },
            ),
        status_tree(
            client,
            profile,
            check,
            local_detected,
            env,
            quota_command,
            enable_command,
        ).field("detected_env"@) matches Some(held)
            && held.field("GOOGLE_APPLICATION_CREDENTIALS"@)
                == Some(Tree::Bool(env.google_application_credentials))
            && held.field("GOOGLE_ANALYTICS_MCP_OAUTH_CLIENT_SECRET_JSON"@)
                == Some(Tree::Bool(env.oauth_client_secret_json))
            && held.field("GOOGLE_ANALYTICS_MCP_OAUTH_REFRESH_TOKEN"@)
                == Some(Tree::Bool(env.oauth_refresh_token))
            && held.field("GOOGLE_ANALYTICS_MCP_QUOTA_PROJECT"@)
                == Some(Tree::Bool(env.quota_project))
            && held.field("CLOUDSDK_CONFIG"@) == Some(Tree::Bool(env.cloudsdk_config)),
{
    broadcast use json::group_found;

    reveal_strlit("auth_source");
    assert("auth_source"@.len() == 11);
    reveal_strlit("auth_source_candidate");
    assert("auth_source_candidate"@.len() == 21);
    reveal_strlit("scope");
    assert("scope"@.len() == 5);
    reveal_strlit("capability_profile");
    assert("capability_profile"@.len() == 18);
    reveal_strlit("upstream_token_source");
    assert("upstream_token_source"@.len() == 21);
    reveal_strlit("upstream_token_header");
    assert("upstream_token_header"@.len() == 21);
    reveal_strlit("quota_project_configured");
    assert("quota_project_configured"@.len() == 24);
    reveal_strlit("quota_project");
    assert("quota_project"@.len() == 13);
    reveal_strlit("credential_material_detected");
    assert("credential_material_detected"@.len() == 28);
    reveal_strlit("detected_env");
    assert("detected_env"@.len() == 12);
    reveal_strlit("token_check");
    assert("token_check"@.len() == 11);
    reveal_strlit("next_steps");
    assert("next_steps"@.len() == 10);
    reveal_strlit("secrets_returned");
    assert("secrets_returned"@.len() == 16);
    reveal_strlit("GOOGLE_APPLICATION_CREDENTIALS");
    assert("GOOGLE_APPLICATION_CREDENTIALS"@.len() == 30);
    reveal_strlit("GOOGLE_ANALYTICS_MCP_OAUTH_CLIENT_SECRET_JSON");
    assert("GOOGLE_ANALYTICS_MCP_OAUTH_CLIENT_SECRET_JSON"@.len() == 45);
    reveal_strlit("GOOGLE_ANALYTICS_MCP_OAUTH_REFRESH_TOKEN");
    assert("GOOGLE_ANALYTICS_MCP_OAUTH_REFRESH_TOKEN"@.len() == 40);
    reveal_strlit("GOOGLE_ANALYTICS_MCP_QUOTA_PROJECT");
    assert("GOOGLE_ANALYTICS_MCP_QUOTA_PROJECT"@.len() == 34);
    reveal_strlit("CLOUDSDK_CONFIG");
    assert("CLOUDSDK_CONFIG"@.len() == 15);
    assert("auth_source"@[0] != "token_check"@[0]);
    assert("auth_source_candidate"@[0] != "upstream_token_source"@[0]);
    assert("auth_source_candidate"@[0] != "upstream_token_header"@[0]);
    assert("upstream_token_source"@[15] != "upstream_token_header"@[15]);
}

/// The commands for a login are told with what they write, what they ask for and what comes
/// after.
pub proof fn law_login_commands_are_told(
    client: AnalyticsApiClient,
    args: AuthLoginCommandArgs,
    places: LoginPlaces,
    setup: SetupPlan,
)
    ensures
        commands_tree(client, args, places, setup).field("gcloud_command"@)
            == Some(Tree::Text(gcloud_command(client, args, places, args.headless))),
        commands_tree(client, args, places, setup).field("headless_command"@)
            == Some(Tree::Text(gcloud_command(client, args, places, true))),
        commands_tree(client, args, places, setup).field("preferred_cli"@)
            == Some(
                Tree::Text(
                    cli_command(client, args, args.headless, text::opt_text(args.client_id_file)),
                ),
            ),
        commands_tree(client, args, places, setup).field("command"@)
            == Some(
                Tree::Text(
                    if args.client_id_file is Some
                        && args.shared_adc != Some(true) {
                            cli_command(
                                client,
                                args,
                                args.headless,
                                text::opt_text(args.client_id_file),
                            )
                        } else { gcloud_command(client, args, places, args.headless) },
                ),
            ),
        commands_tree(client, args, places, setup).field("shared_adc"@)
            == Some(Tree::Bool(args.shared_adc == Some(true))),
        commands_tree(client, args, places, setup).field("scope"@)
            == Some(Tree::Text(command_scope(client.analytics_scope@))),
        commands_tree(client, args, places, setup).field("headless"@)
            == Some(Tree::Bool(args.headless)),
        commands_tree(client, args, places, setup).field("client_id_file"@)
            == Some(
                match args.client_id_file { Some(held) => Tree::Text(held@), None => Tree::Null, },
            ),
        commands_tree(client, args, places, setup).field("account"@)
            == Some(match args.account { Some(held) => Tree::Text(held@), None => Tree::Null, }),
        commands_tree(client, args, places, setup).field("callback_port"@)
            == Some(
                match args.callback_port {
                    Some(port) => Tree::Whole(port as int),
                    None => Tree::Null,
                },
            ),
        commands_tree(client, args, places, setup).field("quota_project"@)
            == Some(
                match args.quota_project {
                    Some(project) => Tree::Text(project@),
                    None => match client.quota_project {
                        Some(project) => Tree::Text(project@),
                        None => Tree::Null,
                    },
                },
            ),
        commands_tree(client, args, places, setup).field("credential_file"@)
            == Some(
                if args.shared_adc
                    == Some(true) {
                        match places.shared_adc_file {
                            Some(path) => Tree::Text(path@),
                            None => Tree::Null,
                        }
                    } else { match places.server_adc_file {
                        Some(path) => Tree::Text(path@),
                        None => Tree::Null,
                    } },
            ),
        commands_tree(client, args, places, setup).field("cloudsdk_config"@)
            == Some(
                if args.shared_adc
                    == Some(true) {
                        Tree::Null
                    } else { match places.server_cloudsdk_config {
                        Some(dir) => Tree::Text(dir@),
                        None => Tree::Null,
                    } },
            ),
        commands_tree(client, args, places, setup).field("follow_up_commands"@)
            == Some(json::text_list(follow_ups(client, args, places))),
        commands_tree(client, args, places, setup).field("adc_scopes"@)
            == Some(json::text_list(text::texts(setup.scopes@))),
        commands_tree(client, args, places, setup).field("next_steps"@)
            == Some(json::text_list(text::texts(setup.next_steps@))),
        commands_tree(client, args, places, setup).field("api_enable_command"@)
            == Some(
                match setup.api_enable_command {
                    Some(held) => Tree::Text(held@),
                    None => Tree::Null,
                },
            ),
{
    broadcast use json::group_found;

    reveal_strlit("command");
    assert("command"@.len() == 7);
    reveal_strlit("gcloud_command");
    assert("gcloud_command"@.len() == 14);
    reveal_strlit("preferred_cli");
    assert("preferred_cli"@.len() == 13);
    reveal_strlit("headless_command");
    assert("headless_command"@.len() == 16);
    reveal_strlit("client_id_file_command");
    assert("client_id_file_command"@.len() == 22);
    reveal_strlit("client_id_file_headless_command");
    assert("client_id_file_headless_command"@.len() == 31);
    reveal_strlit("quota_project_command");
    assert("quota_project_command"@.len() == 21);
    reveal_strlit("api_enable_command");
    assert("api_enable_command"@.len() == 18);
    reveal_strlit("follow_up_commands");
    assert("follow_up_commands"@.len() == 18);
    reveal_strlit("adc_scopes");
    assert("adc_scopes"@.len() == 10);
    reveal_strlit("cloudsdk_config");
    assert("cloudsdk_config"@.len() == 15);
    reveal_strlit("credential_file");
    assert("credential_file"@.len() == 15);
    reveal_strlit("shared_adc");
    assert("shared_adc"@.len() == 10);
    reveal_strlit("scope");
    assert("scope"@.len() == 5);
    reveal_strlit("headless");
    assert("headless"@.len() == 8);
    reveal_strlit("client_id_file");
    assert("client_id_file"@.len() == 14);
    reveal_strlit("account");
    assert("account"@.len() == 7);
    reveal_strlit("callback_port");
    assert("callback_port"@.len() == 13);
    reveal_strlit("quota_project");
    assert("quota_project"@.len() == 13);
    reveal_strlit("after_login");
    assert("after_login"@.len() == 11);
    reveal_strlit("next_steps");
    assert("next_steps"@.len() == 10);
    reveal_strlit("notes");
    assert("notes"@.len() == 5);
    reveal_strlit("client_id_file_hint");
    assert("client_id_file_hint"@.len() == 19);
    reveal_strlit("quota_project_hint");
    assert("quota_project_hint"@.len() == 18);
    reveal_strlit("local_http_env");
    assert("local_http_env"@.len() == 14);
    reveal_strlit("hosted_per_user_env");
    assert("hosted_per_user_env"@.len() == 19);
    reveal_strlit("service_account_alternative");
    assert("service_account_alternative"@.len() == 27);
    assert("command"@[0] != "account"@[0]);
    assert("gcloud_command"@[0] != "client_id_file"@[0]);
    assert("gcloud_command"@[0] != "local_http_env"@[0]);
    assert("preferred_cli"@[0] != "callback_port"@[0]);
    assert("preferred_cli"@[0] != "quota_project"@[0]);
    assert("api_enable_command"@[0] != "follow_up_commands"@[0]);
    assert("api_enable_command"@[0] != "quota_project_hint"@[0]);
    assert("follow_up_commands"@[0] != "quota_project_hint"@[0]);
    assert("adc_scopes"@[0] != "shared_adc"@[0]);
    assert("adc_scopes"@[0] != "next_steps"@[0]);
    assert("cloudsdk_config"@[1] != "credential_file"@[1]);
    assert("shared_adc"@[0] != "next_steps"@[0]);
    assert("scope"@[0] != "notes"@[0]);
    assert("client_id_file"@[0] != "local_http_env"@[0]);
    assert("callback_port"@[0] != "quota_project"@[0]);
    assert("client_id_file_hint"@[0] != "hosted_per_user_env"@[0]);
}

/// A command for a login is refused only where nothing is shared and the place of the server
/// cannot be told.
pub proof fn law_commands_need_a_place(args: AuthLoginCommandArgs, places: LoginPlaces)
    ensures
        command_problem(args, places) is None <==> args.shared_adc == Some(true)
            || places.server_cloudsdk_config is Some,
{
}

/// What to do behind a login: mend the scope where it is another one than that of the login; say
/// where tokens come from where each request brings its own; and restart the clients otherwise.
pub proof fn law_what_follows_a_login(
    token_source: UpstreamTokenSource,
    scope: Seq<char>,
    login_scope: Seq<char>,
    ambient: Seq<char>,
)
    ensures
        scope != login_scope ==> after_login(token_source, scope, login_scope, None)
            == "Unset GOOGLE_ANALYTICS_MCP_SCOPE, set GOOGLE_ANALYTICS_MCP_SCOPE="@ + login_scope
            + ", or update any MCP launcher `--analytics-scope` argument before restarting stdio MCP clients; stale scope configuration overrides the login scope."@,
        ambient.len() > 0 && ambient != scope ==> after_login(
            token_source,
            scope,
            scope,
            Some(ambient),
        ) == "Unset GOOGLE_ANALYTICS_MCP_SCOPE, set GOOGLE_ANALYTICS_MCP_SCOPE="@ + scope
            + ", or update any MCP launcher `--analytics-scope` argument before restarting stdio MCP clients; stale scope configuration overrides the login scope."@,
        token_source == UpstreamTokenSource::RequestHeader ==> after_login(
            token_source,
            scope,
            scope,
            None,
        )
            == "For local ADC fallback, set GOOGLE_ANALYTICS_MCP_UPSTREAM_TOKEN_SOURCE=request_header_or_config and GOOGLE_ANALYTICS_MCP_UPSTREAM_TOKEN_HEADER=authorization before restarting; keep request_header for hosted per-user services."@,
        token_source != UpstreamTokenSource::RequestHeader ==> after_login(
            token_source,
            scope,
            scope,
            None,
        )
            == "Restart stdio or HTTP MCP clients that keep long-lived server processes, then call ga4_auth_status with verify_token=true or run ga4-mcp auth status --verify-token."@,
{
}

/// The next steps go by the check: one that was not made is to be made; one that passed leads to
/// the accounts; one that failed leads to a login.
pub proof fn law_next_steps_go_by_the_check(
    token_source: UpstreamTokenSource,
    scope: Seq<char>,
    quota_command: Seq<char>,
)
    requires
        auth_ux::allows_read(scope),
        token_source != UpstreamTokenSource::RequestHeader,
    ensures
        next_auth_steps(token_source, scope, false, None, quota_command, None)[0]
            == "Run ga4-mcp auth status --verify-token, or call ga4_auth_status with verify_token=true, when you are ready to prove credentials."@,
        next_auth_steps(token_source, scope, true, Some(true), quota_command, None) == seq![
            "Restart MCP clients that keep long-lived stdio or HTTP server processes."@,
            "Call get_account_summaries to discover accessible GA4 accounts and properties."@,
        ],
        next_auth_steps(token_source, scope, true, Some(false), quota_command, None)[0] == "Run "@
            + "ga4-mcp auth login"@ + " for local browser login."@,
        next_auth_steps(token_source, scope, true, Some(false), quota_command, None)[1]
            == "If the token check reports that local ADC requires a quota project, run `"@
            + quota_command + "`."@,
{
    assert(next_auth_steps(token_source, scope, true, Some(true), quota_command, None) =~= seq![
        "Restart MCP clients that keep long-lived stdio or HTTP server processes."@,
        "Call get_account_summaries to discover accessible GA4 accounts and properties."@,
    ]);
}

/// What a beginner is told: what server this is, where its credentials come from, and how to
/// log in.
pub proof fn law_beginners_are_told_where_to_start(
    client: AnalyticsApiClient,
    profile: CapabilityProfile,
)
    ensures
        started_tree(client, profile).field("server"@) == Some(Tree::Text("ga4-mcp"@)),
        started_tree(client, profile).field("capability_profile"@)
            == Some(Tree::Text(profile.name())),
        started_tree(client, profile).field("auth_source_candidate"@)
            == Some(Tree::Text(client.auth_mode.source().name())),
        started_tree(client, profile).field("scope"@) == Some(Tree::Text(client.analytics_scope@)),
        started_tree(client, profile).field("upstream_token_source"@)
            == Some(Tree::Text(client.token_source.name())),
        started_tree(client, profile).field("upstream_token_header"@)
            == Some(Tree::Text(client.token_header@)),
        started_tree(client, profile).field("recommended_cli"@) matches Some(held)
            && held.field("login"@)
                == Some(
                    Tree::Text(
                        login_with_quota(
                            match client.quota_project {
                                Some(project) => project@,
                                None => "<PROJECT_ID>"@,
                            },
                            false,
                            false,
                        ),
                    ),
                )
            && held.field("login_headless"@)
                == Some(
                    Tree::Text(
                        login_with_quota(
                            match client.quota_project {
                                Some(project) => project@,
                                None => "<PROJECT_ID>"@,
                            },
                            true,
                            false,
                        ),
                    ),
                )
            && held.field("status"@) == Some(Tree::Text("ga4-mcp auth status --verify-token"@))
            && held.field("doctor"@) == Some(Tree::Text("ga4-mcp auth doctor --verify-token"@)),
{
    broadcast use json::group_found;

    reveal_strlit("server");
    assert("server"@.len() == 6);
    reveal_strlit("capability_profile");
    assert("capability_profile"@.len() == 18);
    reveal_strlit("auth_source_candidate");
    assert("auth_source_candidate"@.len() == 21);
    reveal_strlit("auth_source_note");
    assert("auth_source_note"@.len() == 16);
    reveal_strlit("scope");
    assert("scope"@.len() == 5);
    reveal_strlit("upstream_token_source");
    assert("upstream_token_source"@.len() == 21);
    reveal_strlit("upstream_token_header");
    assert("upstream_token_header"@.len() == 21);
    reveal_strlit("recommended_cli");
    assert("recommended_cli"@.len() == 15);
    reveal_strlit("first_steps");
    assert("first_steps"@.len() == 11);
    reveal_strlit("credential_options");
    assert("credential_options"@.len() == 18);
    reveal_strlit("safe_starter_tools");
    assert("safe_starter_tools"@.len() == 18);
    reveal_strlit("scratchpad_note");
    assert("scratchpad_note"@.len() == 15);
    reveal_strlit("login");
    assert("login"@.len() == 5);
    reveal_strlit("login_headless");
    assert("login_headless"@.len() == 14);
    reveal_strlit("login_with_client_id_file");
    assert("login_with_client_id_file"@.len() == 25);
    reveal_strlit("login_headless_with_client_id_file");
    assert("login_headless_with_client_id_file"@.len() == 34);
    reveal_strlit("status");
    assert("status"@.len() == 6);
    reveal_strlit("doctor");
    assert("doctor"@.len() == 6);
    assert("server"@[1] != "status"@[1]);
    assert("server"@[0] != "doctor"@[0]);
    assert("capability_profile"@[1] != "credential_options"@[1]);
    assert("capability_profile"@[0] != "safe_starter_tools"@[0]);
    assert("auth_source_candidate"@[0] != "upstream_token_source"@[0]);
    assert("auth_source_candidate"@[0] != "upstream_token_header"@[0]);
    assert("scope"@[0] != "login"@[0]);
    assert("upstream_token_source"@[15] != "upstream_token_header"@[15]);
    assert("recommended_cli"@[0] != "scratchpad_note"@[0]);
    assert("credential_options"@[0] != "safe_starter_tools"@[0]);
    assert("status"@[0] != "doctor"@[0]);
}

} // verus!
