//! A login: what it runs, what it says on the way and how it ends.

use vstd::prelude::*;
use vstd::string::*;

use crate::auth_report;
use crate::auth_report::AuthReport;
use crate::auth_ux;
use crate::config;
use crate::config::{AuthCommandArgs, AuthLoginArgs, Settings, UpstreamTokenSource};
use crate::error;
use crate::shell;
use crate::shell::Shell;
use crate::text;

verus! {

/// Why a login has no directory for its gcloud configuration.
pub const NO_CONFIG_DIR: &'static str = "failed to determine the server-specific gcloud config directory; set HOME/XDG_CONFIG_HOME on Unix or APPDATA on Windows, or pass --shared-adc to intentionally use conventional shared ADC";

/// Why a login has no path for its credentials file.
pub const NO_ADC_PATH: &'static str = "failed to determine the GA4-specific ADC path; set HOME/XDG_CONFIG_HOME on Unix or APPDATA on Windows, or pass --shared-adc to intentionally use conventional shared ADC";

/// Why a login that ran counts as failed.
pub const NOT_VERIFIED: &'static str = "login completed, but Google Analytics verification did not pass";

/// How a login starts.
#[derive(Debug)]
pub enum LoginStart {
    /// With the browser, without gcloud.
    Browser,
    /// Not at all: the lines are shown instead.
    Show(Vec<String>),
    /// With gcloud.
    Gcloud,
}

/// A login.
#[derive(Debug)]
pub struct LoginPlan {
    pub words: Vec<String>,
    pub cloudsdk_config: Option<String>,
    pub rendered: String,
    pub quota_project: Option<String>,
    pub start: LoginStart,
}

/// The first of two texts that is there.
pub open spec fn first_of(a: Option<Seq<char>>, b: Option<Seq<char>>) -> Option<Seq<char>> {
    match a {
        Some(_) => a,
        None => b,
    }
}

/// The directory of the gcloud configuration of a login, where it has one of its own.
pub open spec fn config_dir(shared_adc: bool, server_dir: Option<Seq<char>>) -> Option<Seq<char>> {
    if shared_adc {
        None
    } else {
        server_dir
    }
}

/// The lines that show a login with gcloud.
pub open spec fn gcloud_lines(
    shell: Shell,
    words: Seq<Seq<char>>,
    dir: Option<Seq<char>>,
    quota_project: Option<Seq<char>>,
) -> Seq<Seq<char>> {
    let login = seq![shell::command_with_config(shell, words, dir)];
    match quota_project {
        Some(project) => login.push(
            shell::command_with_config(shell, auth_ux::quota_words(project), dir),
        ),
        None => login,
    }
}

fn opt_ref(held: &Option<String>) -> (r: Option<&str>)
    ensures
        text::opt_str(r) == text::opt_text(*held),
{
    match held {
        Some(t) => Some(t.as_str()),
        None => None,
    }
}

fn first_text(a: &Option<String>, b: &Option<String>) -> (r: Option<String>)
    ensures
        text::opt_text(r) == first_of(text::opt_text(*a), text::opt_text(*b)),
{
    match a {
        Some(held) => Some(held.clone()),
        None => text::clone_opt(b),
    }
}

/// The directory of the gcloud configuration of a login. A login that does not share the
/// conventional credentials needs one.
pub fn require_login_cloudsdk_config(shared_adc: bool, server_dir: Option<&str>) -> (r: Result<
    Option<String>,
    String,
>)
    ensures
        match r {
            Ok(dir) => (shared_adc || server_dir is Some) && text::opt_text(dir) == config_dir(
                shared_adc,
                text::opt_str(server_dir),
            ),
            Err(message) => !shared_adc && server_dir is None && message@ == NO_CONFIG_DIR@,
        },
{
    if shared_adc {
        return Ok(None);
    }
    match server_dir {
        Some(dir) => Ok(Some(dir.to_owned())),
        None => Err(NO_CONFIG_DIR.to_owned()),
    }
}

fn show_gcloud(
    shell: Shell,
    words: &[String],
    dir: &Option<String>,
    quota_project: &Option<String>,
) -> (r: Vec<String>)
    ensures
        text::texts(r@) == gcloud_lines(
            shell,
            text::texts(words@),
            text::opt_text(*dir),
            text::opt_text(*quota_project),
        ),
{
    let mut lines: Vec<String> = Vec::new();
    text::add_text(&mut lines, shell::join_with_config(shell, words, opt_ref(dir)).as_str());
    assert(text::texts(lines@) =~= seq![
        shell::command_with_config(shell, text::texts(words@), text::opt_text(*dir)),
    ]);
    match quota_project {
        Some(project) => {
            text::add_text(
                &mut lines,
                auth_ux::quota_project_command_with_cloudsdk(shell, project.as_str(), opt_ref(dir)).as_str(),
            );
        },
        None => {},
    }
    lines
}

/// Whether a login uses the browser without gcloud.
pub open spec fn skips_gcloud(args: AuthLoginArgs) -> bool {
    args.client_id_file is Some && !args.shared_adc
}

/// Whether a login uses the browser without gcloud.
pub fn use_direct_browser_oauth(args: &AuthLoginArgs) -> (r: bool)
    ensures
        r == skips_gcloud(*args),
{
    args.client_id_file.is_some() && !args.shared_adc
}

impl LoginPlan {
    /// Whether this is the login that was asked for.
    pub open spec fn plans(
        self,
        shell: Shell,
        settings: Settings,
        args: AuthLoginArgs,
        scope: Seq<char>,
        server_dir: Option<Seq<char>>,
    ) -> bool {
        let words = auth_ux::with_account(
            auth_ux::gcloud_words(scope, args.headless, text::opt_text(args.client_id_file)),
            text::opt_text(args.account),
        );
        let dir = config_dir(args.shared_adc, server_dir);
        let quota = first_of(
            text::opt_text(args.quota_project),
            text::opt_text(settings.quota_project),
        );
        &&& text::texts(self.words@) == words
        &&& text::opt_text(self.cloudsdk_config) == dir
        &&& self.rendered@ == shell::command_with_config(shell, words, dir)
        &&& text::opt_text(self.quota_project) == quota
        &&& if skips_gcloud(args) {
            self.start is Browser
        } else if args.dry_run {
            self.start matches LoginStart::Show(lines) && text::texts(lines@) == gcloud_lines(
                shell,
                words,
                dir,
                quota,
            )
        } else {
            self.start is Gcloud
        }
    }
}

/// The login that was asked for.
pub fn plan_login(
    shell: Shell,
    settings: &Settings,
    args: &AuthLoginArgs,
    scope: &str,
    server_dir: Option<&str>,
) -> (r: Result<LoginPlan, String>)
    ensures
        match r {
            Ok(plan) => (args.shared_adc || server_dir is Some) && plan.plans(
                shell,
                *settings,
                *args,
                scope@,
                text::opt_str(server_dir),
            ),
            Err(message) => !args.shared_adc && server_dir is None && message@ == NO_CONFIG_DIR@,
        },
{
    let words: Vec<String> = auth_ux::gcloud_login_args(
        scope,
        args.headless,
        opt_ref(&args.client_id_file),
        opt_ref(&args.account),
    );
    let cloudsdk_config: Option<String> = match require_login_cloudsdk_config(
        args.shared_adc,
        server_dir,
    ) {
        Ok(dir) => dir,
        Err(message) => {
            return Err(message);
        },
    };
    let rendered: String = shell::join_with_config(
        shell,
        words.as_slice(),
        opt_ref(&cloudsdk_config),
    );
    let quota_project: Option<String> = first_text(&args.quota_project, &settings.quota_project);
    let start: LoginStart = if use_direct_browser_oauth(args) {
        LoginStart::Browser
    } else if args.dry_run {
        LoginStart::Show(show_gcloud(shell, words.as_slice(), &cloudsdk_config, &quota_project))
    } else {
        LoginStart::Gcloud
    };
    Ok(LoginPlan { words, cloudsdk_config, rendered, quota_project, start })
}

/// The lines that show the login command that was asked for.
pub open spec fn command_lines(
    shell: Shell,
    settings: Settings,
    args: AuthCommandArgs,
    scope: Seq<char>,
    server_dir: Option<Seq<char>>,
) -> Seq<Seq<char>> {
    let quota = first_of(
        text::opt_text(args.quota_project),
        text::opt_text(settings.quota_project),
    );
    if args.client_id_file is Some && !args.shared_adc {
        seq![
            shell::command(
                auth_ux::cli_words(
                    scope,
                    auth_ux::LoginFlags {
                        headless: args.headless,
                        client_id_file: text::opt_text(args.client_id_file),
                        quota_project: quota,
                        shared_adc: args.shared_adc,
                        account: text::opt_text(args.account),
                        callback_port: args.callback_port,
                    },
                ),
            ),
        ]
    } else {
        gcloud_lines(
            shell,
            auth_ux::with_account(
                auth_ux::gcloud_words(scope, args.headless, text::opt_text(args.client_id_file)),
                text::opt_text(args.account),
            ),
            config_dir(args.shared_adc, server_dir),
            quota,
        )
    }
}

/// The lines that show the login command that was asked for.
pub fn login_command_lines(
    shell: Shell,
    settings: &Settings,
    args: &AuthCommandArgs,
    scope: &str,
    server_dir: Option<&str>,
) -> (r: Result<Vec<String>, String>)
    ensures
        match r {
            Ok(lines) => (args.shared_adc || server_dir is Some) && text::texts(lines@)
                == command_lines(shell, *settings, *args, scope@, text::opt_str(server_dir)),
            Err(message) => !args.shared_adc && server_dir is None && message@ == NO_CONFIG_DIR@,
        },
{
    let dir: Option<String> = match require_login_cloudsdk_config(args.shared_adc, server_dir) {
        Ok(dir) => dir,
        Err(message) => {
            return Err(message);
        },
    };
    let quota_project: Option<String> = first_text(&args.quota_project, &settings.quota_project);
    if args.client_id_file.is_some() && !args.shared_adc {
        let mut lines: Vec<String> = Vec::new();
        text::add_text(
            &mut lines,
            auth_ux::auth_login_cli_command(
                scope,
                args.headless,
                opt_ref(&args.client_id_file),
                opt_ref(&quota_project),
                args.shared_adc,
                opt_ref(&args.account),
                args.callback_port,
            ).as_str(),
        );
        assert(text::texts(lines@) =~= command_lines(
            shell,
            *settings,
            *args,
            scope@,
            text::opt_str(server_dir),
        ));
        return Ok(lines);
    }
    let words: Vec<String> = auth_ux::gcloud_login_args(
        scope,
        args.headless,
        opt_ref(&args.client_id_file),
        opt_ref(&args.account),
    );
    Ok(show_gcloud(shell, words.as_slice(), &dir, &quota_project))
}

// ---------------------------------------------------------------------------
// With gcloud.
// ---------------------------------------------------------------------------

/// What is said where gcloud is not there.
pub fn gcloud_missing_message(rendered: &str) -> (r: String)
    ensures
        r@ == "gcloud was not found on PATH. Install the Google Cloud SDK, then run:\n  "@
            + rendered@
            + "\n\nUnattended deployments can use GOOGLE_APPLICATION_CREDENTIALS or GOOGLE_ANALYTICS_MCP_OAUTH_CLIENT_SECRET_JSON plus GOOGLE_ANALYTICS_MCP_OAUTH_REFRESH_TOKEN instead."@,
{
    let mut r: String = error::labelled(
        "gcloud was not found on PATH. Install the Google Cloud SDK, then run:\n  ",
        rendered,
    );
    r.append(
        "\n\nUnattended deployments can use GOOGLE_APPLICATION_CREDENTIALS or GOOGLE_ANALYTICS_MCP_OAUTH_CLIENT_SECRET_JSON plus GOOGLE_ANALYTICS_MCP_OAUTH_REFRESH_TOKEN instead.",
    );
    r
}

/// Where a login writes its credentials.
pub open spec fn target(shared_adc: bool, path: Option<Seq<char>>) -> Seq<char> {
    let kind = if shared_adc {
        "shared gcloud ADC"@
    } else {
        "server-specific ADC"@
    };
    match path {
        Some(held) => kind + " ("@ + held + ")"@,
        None => kind,
    }
}

/// Where a login writes its credentials.
pub fn adc_login_target_description(shared_adc: bool, path: Option<&str>) -> (r: String)
    ensures
        r@ == target(shared_adc, text::opt_str(path)),
{
    let kind: &str = if shared_adc {
        "shared gcloud ADC"
    } else {
        "server-specific ADC"
    };
    match path {
        Some(held) => error::described(kind, " (", held, ")"),
        None => kind.to_owned(),
    }
}

/// What is said before a login with gcloud.
pub open spec fn banner(
    args: AuthLoginArgs,
    scope: Seq<char>,
    file: Seq<char>,
    rendered: Seq<char>,
) -> Seq<Seq<char>> {
    let head = auth_report::no_steps()
        .push("Starting Google Analytics login using Application Default Credentials."@)
        .push("Scope: "@ + scope)
        .push("Credential file: "@ + file)
        .push("Command: "@ + rendered)
        .push(
            "Tip: ADC login includes the required cloud-platform scope because gcloud requires it for local ADC user credentials."@,
        )
        .push(
            "Tip: use --quota-project PROJECT_ID so verification can send x-goog-user-project when Google requires a quota project for local ADC."@,
        );
    let own = auth_report::with_step(
        head,
        !args.shared_adc,
        "Tip: this login uses a GA4-specific ADC file so other Google MCPs keep their own tokens and scopes."@,
    );
    let blocked = auth_report::with_step(
        own,
        args.client_id_file is None,
        "Tip: if Google blocks the bundled gcloud OAuth app for Analytics scopes, create a Desktop OAuth client and rerun with `--client-id-file /path/to/client_id.json`."@,
    );
    auth_report::with_step(
        blocked,
        args.headless,
        "Headless mode requested; follow the URL and paste the browser result if gcloud asks."@,
    )
}

/// What is said before a login with gcloud.
pub fn login_banner(args: &AuthLoginArgs, scope: &str, file: &str, rendered: &str) -> (r: Vec<
    String,
>)
    ensures
        text::texts(r@) == banner(*args, scope@, file@, rendered@),
{
    let mut lines: Vec<String> = Vec::new();
    assert(text::texts(lines@) =~= auth_report::no_steps());
    text::add_text(
        &mut lines,
        "Starting Google Analytics login using Application Default Credentials.",
    );
    text::add_text(&mut lines, error::labelled("Scope: ", scope).as_str());
    text::add_text(&mut lines, error::labelled("Credential file: ", file).as_str());
    text::add_text(&mut lines, error::labelled("Command: ", rendered).as_str());
    text::add_text(
        &mut lines,
        "Tip: ADC login includes the required cloud-platform scope because gcloud requires it for local ADC user credentials.",
    );
    text::add_text(
        &mut lines,
        "Tip: use --quota-project PROJECT_ID so verification can send x-goog-user-project when Google requires a quota project for local ADC.",
    );
    if !args.shared_adc {
        text::add_text(
            &mut lines,
            "Tip: this login uses a GA4-specific ADC file so other Google MCPs keep their own tokens and scopes.",
        );
    }
    if args.client_id_file.is_none() {
        text::add_text(
            &mut lines,
            "Tip: if Google blocks the bundled gcloud OAuth app for Analytics scopes, create a Desktop OAuth client and rerun with `--client-id-file /path/to/client_id.json`.",
        );
    }
    if args.headless {
        text::add_text(
            &mut lines,
            "Headless mode requested; follow the URL and paste the browser result if gcloud asks.",
        );
    }
    lines
}

/// What is said where a login with gcloud failed.
pub open spec fn gcloud_failure(args: AuthLoginArgs, status: Seq<char>) -> Seq<char> {
    let failed = "gcloud login failed with status "@ + status;
    if args.client_id_file is None {
        failed
            + ". If Google blocked the bundled gcloud OAuth app for Analytics scopes, rerun with `--client-id-file /path/to/client_id.json` from a Desktop OAuth client."@
    } else {
        failed
    }
}

/// What is said where a login with gcloud failed.
pub fn gcloud_failure_message(args: &AuthLoginArgs, status: &str) -> (r: String)
    ensures
        r@ == gcloud_failure(*args, status@),
{
    let mut r: String = error::labelled("gcloud login failed with status ", status);
    if args.client_id_file.is_none() {
        r.append(
            ". If Google blocked the bundled gcloud OAuth app for Analytics scopes, rerun with `--client-id-file /path/to/client_id.json` from a Desktop OAuth client.",
        );
    }
    r
}

// ---------------------------------------------------------------------------
// With the browser.
// ---------------------------------------------------------------------------

/// A login with the browser.
#[derive(Debug)]
pub struct BrowserLogin {
    pub rendered: String,
    pub adc_path: String,
    pub client_id_file: String,
    pub scopes: Vec<String>,
    pub callback_port: Option<u16>,
    pub launch_browser: bool,
    pub login_hint: Option<String>,
    pub banner: Vec<String>,
}

/// What is said before a login with the browser.
pub open spec fn browser_banner(
    scope: Seq<char>,
    adc_path: Seq<char>,
    client_id_file: Seq<char>,
    quota_project: Option<Seq<char>>,
) -> Seq<Seq<char>> {
    auth_report::no_steps()
        .push("Starting Google Analytics browser OAuth login."@)
        .push("Scope: "@ + scope)
        .push("Credential file: "@ + target(false, Some(adc_path)))
        .push("OAuth client file: "@ + client_id_file)
        .push(
            "Quota project: "@ + (match quota_project {
                Some(project) => project,
                None => "not configured"@,
            }),
        )
        .push(
            "Tip: this flow uses your OAuth client directly, so it avoids the bundled gcloud OAuth app that Google can block for Analytics scopes."@,
        )
        .push(
            "Tip: this login uses a GA4-specific ADC file so other Google MCPs keep their own tokens and scopes."@,
        )
}

impl BrowserLogin {
    /// Whether this is the login that was asked for.
    pub open spec fn plans(
        self,
        args: AuthLoginArgs,
        scope: Seq<char>,
        quota_project: Option<Seq<char>>,
        adc_path: Seq<char>,
    ) -> bool {
        &&& self.rendered@ == shell::command(
            auth_ux::cli_words(
                scope,
                auth_ux::LoginFlags {
                    headless: args.headless,
                    client_id_file: text::opt_text(args.client_id_file),
                    quota_project,
                    shared_adc: false,
                    account: text::opt_text(args.account),
                    callback_port: args.callback_port,
                },
            ),
        )
        &&& self.adc_path@ == adc_path
        &&& Some(self.client_id_file@) == text::opt_text(args.client_id_file)
        &&& text::texts(self.scopes@) == auth_ux::scopes_of(scope)
        &&& self.callback_port == args.callback_port
        &&& self.launch_browser == !args.headless
        &&& text::opt_text(self.login_hint) == config::cleaned(text::opt_text(args.account))
        &&& text::texts(self.banner@) == browser_banner(
            scope,
            adc_path,
            self.client_id_file@,
            quota_project,
        )
    }
}

/// The login with the browser that was asked for.
pub fn plan_browser_login(
    args: &AuthLoginArgs,
    scope: &str,
    quota_project: &Option<String>,
    adc_path: Option<&str>,
) -> (r: Result<BrowserLogin, String>)
    requires
        args.client_id_file is Some,
    ensures
        match adc_path {
            Some(path) => r matches Ok(plan) && plan.plans(
                *args,
                scope@,
                text::opt_text(*quota_project),
                path@,
            ),
            None => r matches Err(message) && message@ == NO_ADC_PATH@,
        },
{
    let path: &str = match adc_path {
        Some(path) => path,
        None => {
            return Err(NO_ADC_PATH.to_owned());
        },
    };
    let client_id_file: String = match &args.client_id_file {
        Some(file) => file.clone(),
        None => "".to_owned(),
    };
    let rendered: String = auth_ux::auth_login_cli_command(
        scope,
        args.headless,
        Some(client_id_file.as_str()),
        opt_ref(quota_project),
        false,
        opt_ref(&args.account),
        args.callback_port,
    );
    let login_hint: Option<String> = config::trim_optional(text::clone_opt(&args.account));
    let mut lines: Vec<String> = Vec::new();
    assert(text::texts(lines@) =~= auth_report::no_steps());
    text::add_text(&mut lines, "Starting Google Analytics browser OAuth login.");
    text::add_text(&mut lines, error::labelled("Scope: ", scope).as_str());
    text::add_text(
        &mut lines,
        error::labelled(
            "Credential file: ",
            adc_login_target_description(false, Some(path)).as_str(),
        ).as_str(),
    );
    text::add_text(
        &mut lines,
        error::labelled("OAuth client file: ", client_id_file.as_str()).as_str(),
    );
    match quota_project {
        Some(project) => {
            text::add_text(
                &mut lines,
                error::labelled("Quota project: ", project.as_str()).as_str(),
            );
        },
        None => {
            text::add_text(
                &mut lines,
                error::labelled("Quota project: ", "not configured").as_str(),
            );
        },
    }
    text::add_text(
        &mut lines,
        "Tip: this flow uses your OAuth client directly, so it avoids the bundled gcloud OAuth app that Google can block for Analytics scopes.",
    );
    text::add_text(
        &mut lines,
        "Tip: this login uses a GA4-specific ADC file so other Google MCPs keep their own tokens and scopes.",
    );
    Ok(
        BrowserLogin {
            rendered,
            adc_path: path.to_owned(),
            client_id_file,
            scopes: auth_ux::split_scopes(scope),
            callback_port: args.callback_port,
            launch_browser: !args.headless,
            login_hint,
            banner: lines,
        },
    )
}

/// How a login with the browser begins.
#[derive(Debug)]
pub enum BrowserStart {
    /// Lines are shown, and that is all.
    Show(Vec<String>),
    /// The login takes place.
    Login(BrowserLogin),
}

/// How a login with the browser begins: a dry run only shows the command.
pub fn start_browser_login(args: &AuthLoginArgs, login: BrowserLogin) -> (r: BrowserStart)
    ensures
        if args.dry_run {
            r matches BrowserStart::Show(lines) && text::texts(lines@) == seq![login.rendered@]
        } else {
            r == BrowserStart::Login(login)
        },
{
    if args.dry_run {
        let mut lines: Vec<String> = Vec::new();
        lines.push(login.rendered);
        assert(text::texts(lines@) =~= seq![login.rendered@]);
        return BrowserStart::Show(lines);
    }
    BrowserStart::Login(login)
}

/// The callback address that a user pasted.
pub fn pasted_callback_url(line: &str) -> (r: Result<String, String>)
    ensures
        match r {
            Ok(url) => !text::is_blank(line@) && url@ == text::trim(line@),
            Err(message) => text::is_blank(line@) && message@ == "OAuth callback URL was empty"@,
        },
{
    let url: String = text::trimmed(line);
    if url.as_str().is_empty() {
        return Err("OAuth callback URL was empty".to_owned());
    }
    Ok(url)
}

// ---------------------------------------------------------------------------
// After a login.
// ---------------------------------------------------------------------------

/// What is said after a login that is not checked.
pub open spec fn unchecked_lines(
    settings: Settings,
    scope: Seq<char>,
    ambient_scope: Option<Seq<char>>,
) -> Seq<Seq<char>> {
    seq![
        if settings.upstream_token_source == UpstreamTokenSource::RequestHeader {
            "Verification skipped. Call ga4_auth_status with verify_token=true while sending "@
                + settings.upstream_token_header@ + " when ready."@
        } else {
            "Verification skipped. Run `ga4-mcp auth status --verify-token` when ready."@
        },
    ] + auth_report::runtime_steps(settings, scope, ambient_scope)
}

/// What is said after a login that is not checked.
pub fn skipped_verification_lines(
    settings: &Settings,
    scope: &str,
    ambient_scope: Option<&str>,
) -> (r: Vec<String>)
    ensures
        text::texts(r@) == unchecked_lines(*settings, scope@, text::opt_str(ambient_scope)),
{
    let mut lines: Vec<String> = auth_report::post_login_runtime_steps(
        settings,
        scope,
        ambient_scope,
    );
    let ghost steps = text::texts(lines@);
    if settings.upstream_token_source == UpstreamTokenSource::RequestHeader {
        let mut first: String = error::labelled(
            "Verification skipped. Call ga4_auth_status with verify_token=true while sending ",
            settings.upstream_token_header.as_str(),
        );
        first.append(" when ready.");
        text::put_text(&mut lines, 0, first.as_str());
        assert(text::texts(lines@) =~= seq![first@] + steps);
    } else {
        text::put_text(
            &mut lines,
            0,
            "Verification skipped. Run `ga4-mcp auth status --verify-token` when ready.",
        );
        assert(text::texts(lines@) =~= seq![
            "Verification skipped. Run `ga4-mcp auth status --verify-token` when ready."@,
        ] + steps);
    }
    lines
}

/// How a login that was checked ends.
pub fn login_outcome(report: &AuthReport) -> (r: Result<(), String>)
    ensures
        match r {
            Ok(()) => !(report.verification is Failed || report.verification is ConfigError),
            Err(message) => (report.verification is Failed || report.verification is ConfigError)
                && message@ == NOT_VERIFIED@,
        },
{
    if auth_report::verification_blocks_login_completion(report) {
        Err(NOT_VERIFIED.to_owned())
    } else {
        Ok(())
    }
}

/// The version of gcloud: the first line of what it says of itself.
pub open spec fn version_of(output: Seq<char>) -> Option<Seq<char>> {
    let lines = text::lines(output);
    if lines.len() == 0 || text::is_blank(lines[0]) {
        None
    } else {
        Some(text::trim(lines[0]))
    }
}

/// The version of gcloud: the first line of what it says of itself.
pub fn gcloud_version_summary(output: &str) -> (r: Option<String>)
    ensures
        text::opt_text(r) == version_of(output@),
{
    let lines: Vec<String> = text::lines_of(output);
    assert(text::texts(lines@) == text::lines(output@));
    if lines.len() == 0 {
        return None;
    }
    assert(text::lines(output@)[0] == lines@[0]@);
    let first: String = text::trimmed(lines[0].as_str());
    if first.as_str().is_empty() {
        None
    } else {
        Some(first)
    }
}

/// A login shares the conventional credentials only where that was asked for: every other
/// one has its own gcloud configuration.
pub proof fn law_logins_keep_to_themselves(
    plan: LoginPlan,
    shell: Shell,
    settings: Settings,
    args: AuthLoginArgs,
    scope: Seq<char>,
    server_dir: Option<Seq<char>>,
)
    requires
        args.shared_adc || server_dir is Some,
        plan.plans(shell, settings, args, scope, server_dir),
    ensures
        plan.cloudsdk_config is None <==> args.shared_adc,
        plan.start is Browser ==> !args.shared_adc,
{
}

/// A login writes where it is told to: to the place that is shared only where that is asked for,
/// and it is said which it is.
pub proof fn law_logins_write_where_they_are_told_to(
    shared_adc: bool,
    dir: Option<Seq<char>>,
    path: Seq<char>,
)
    ensures
        config_dir(true, dir) is None,
        config_dir(false, dir) == dir,
        target(true, None) == "shared gcloud ADC"@,
        target(false, None) == "server-specific ADC"@,
        target(true, Some(path)) == "shared gcloud ADC"@ + " ("@ + path + ")"@,
        target(false, Some(path)) == "server-specific ADC"@ + " ("@ + path + ")"@,
{
}

/// The project of the arguments comes before that of the settings.
pub proof fn law_arguments_come_before_settings(a: Seq<char>, b: Option<Seq<char>>)
    ensures
        first_of(Some(a), b) == Some(a),
        first_of(None, b) == b,
{
}

/// With gcloud a login is one command, and a second one sets the project that pays, where there
/// is one.
pub proof fn law_gcloud_logins_take_one_command_or_two(
    shell: Shell,
    words: Seq<Seq<char>>,
    dir: Option<Seq<char>>,
    project: Seq<char>,
)
    ensures
        gcloud_lines(shell, words, dir, None) == seq![
            shell::command_with_config(shell, words, dir),
        ],
        gcloud_lines(shell, words, dir, Some(project)) == seq![
            shell::command_with_config(shell, words, dir),
            shell::command_with_config(
                shell,
                seq![
                    "gcloud"@,
                    "auth"@,
                    "application-default"@,
                    "set-quota-project"@,
                    project,
                ],
                dir,
            ),
        ],
{
    assert(gcloud_lines(shell, words, dir, Some(project)) =~= seq![
        shell::command_with_config(shell, words, dir),
        shell::command_with_config(
            shell,
            seq!["gcloud"@, "auth"@, "application-default"@, "set-quota-project"@, project],
            dir,
        ),
    ]);
}

/// A login with a client of one's own goes through the browser, unless the shared place is asked
/// for; every other one goes through gcloud, or is only shown where that is asked for.
pub proof fn law_logins_begin_as_asked(
    plan: LoginPlan,
    shell: Shell,
    settings: Settings,
    args: AuthLoginArgs,
    scope: Seq<char>,
    server_dir: Option<Seq<char>>,
)
    requires
        plan.plans(shell, settings, args, scope, server_dir),
    ensures
        plan.start is Browser <==> args.client_id_file is Some && !args.shared_adc,
        plan.start is Show <==> !(args.client_id_file is Some && !args.shared_adc) && args.dry_run,
        plan.start is Gcloud <==> !(args.client_id_file is Some && !args.shared_adc)
            && !args.dry_run,
        text::opt_text(plan.quota_project) == (match args.quota_project {
            Some(project) => Some(project@),
            None => text::opt_text(settings.quota_project),
        }),
        text::opt_text(plan.cloudsdk_config) == (if args.shared_adc {
            None
        } else {
            server_dir
        }),
        text::texts(plan.words@) == auth_ux::with_account(
            auth_ux::gcloud_words(scope, args.headless, text::opt_text(args.client_id_file)),
            text::opt_text(args.account),
        ),
        plan.rendered@ == shell::command_with_config(
            shell,
            text::texts(plan.words@),
            text::opt_text(plan.cloudsdk_config),
        ),
{
}

/// A login through the browser asks for the scopes that are asked for, opens the browser unless
/// it is told not to, and keeps the port, the file and the account that it is given.
pub proof fn law_browser_logins_keep_what_they_are_given(
    login: BrowserLogin,
    args: AuthLoginArgs,
    scope: Seq<char>,
    quota_project: Option<Seq<char>>,
    adc_path: Seq<char>,
)
    requires
        login.plans(args, scope, quota_project, adc_path),
    ensures
        login.adc_path@ == adc_path,
        args.client_id_file matches Some(path) ==> login.client_id_file@ == path@,
        text::texts(login.scopes@) == auth_ux::scopes_of(scope),
        login.callback_port == args.callback_port,
        login.launch_browser <==> !args.headless,
        args.account matches Some(account) && text::trim(account@).len() > 0 ==> text::opt_text(
            login.login_hint,
        ) == Some(text::trim(args.account->0@)),
        args.account is None ==> login.login_hint is None,
        text::texts(login.banner@)[1] == "Scope: "@ + scope,
        text::texts(login.banner@)[2] == "Credential file: "@ + target(false, Some(adc_path)),
{
}

/// The commands that are shown are those of the login: the server's own where the client is
/// one's own, and those of gcloud for every other one.
pub proof fn law_shown_commands_are_those_of_the_login(
    shell: Shell,
    settings: Settings,
    args: AuthCommandArgs,
    scope: Seq<char>,
    server_dir: Option<Seq<char>>,
)
    ensures
        args.client_id_file is Some && !args.shared_adc ==> command_lines(
            shell,
            settings,
            args,
            scope,
            server_dir,
        ) == seq![
            shell::command(
                auth_ux::cli_words(
                    scope,
                    (auth_ux::LoginFlags {
                        headless: args.headless,
                        client_id_file: text::opt_text(args.client_id_file),
                        quota_project: match args.quota_project {
                            Some(project) => Some(project@),
                            None => text::opt_text(settings.quota_project),
                        },
                        shared_adc: false,
                        account: text::opt_text(args.account),
                        callback_port: args.callback_port,
                    }),
                ),
            ),
        ],
        !(args.client_id_file is Some && !args.shared_adc) ==> command_lines(
            shell,
            settings,
            args,
            scope,
            server_dir,
        )[0] == shell::command_with_config(
            shell,
            auth_ux::with_account(
                auth_ux::gcloud_words(scope, args.headless, text::opt_text(args.client_id_file)),
                text::opt_text(args.account),
            ),
            if args.shared_adc {
                None
            } else {
                server_dir
            },
        ),
{
}

/// A login that failed says with which status, and what else can be tried where no client was
/// given.
pub proof fn law_failed_logins_say_why(args: AuthLoginArgs, status: Seq<char>)
    ensures
        args.client_id_file is Some ==> gcloud_failure(args, status)
            == "gcloud login failed with status "@ + status,
        args.client_id_file is None ==> gcloud_failure(args, status)
            == "gcloud login failed with status "@ + status
            + ". If Google blocked the bundled gcloud OAuth app for Analytics scopes, rerun with `--client-id-file /path/to/client_id.json` from a Desktop OAuth client."@,
{
}

/// The version of gcloud is the first line that it writes.
pub proof fn law_versions_stand_in_the_first_line(output: Seq<char>)
    ensures
        text::lines(output).len() > 0 && text::trim(text::lines(output)[0]).len() > 0
            ==> version_of(output) == Some(text::trim(text::lines(output)[0])),
        text::lines(output).len() == 0 || text::trim(text::lines(output)[0]).len() == 0
            ==> version_of(output) is None,
{
}

} // verus!
