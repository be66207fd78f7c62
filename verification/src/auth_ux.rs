//! Logging in: the scopes that are asked for and the commands that a user runs.

use vstd::prelude::*;
use vstd::string::*;

use crate::config;
use crate::config::{Settings, DEFAULT_ANALYTICS_SCOPE};
use crate::error;
use crate::shell;
use crate::shell::Shell;
use crate::text;

verus! {

/// The scope that gcloud asks for beside those that a user wants.
pub const GCLOUD_ADC_REQUIRED_SCOPE: &'static str = "https://www.googleapis.com/auth/cloud-platform";

/// The scope that allows more than reading.
pub const FULL_ANALYTICS_SCOPE: &'static str = "https://www.googleapis.com/auth/analytics";

// ---------------------------------------------------------------------------
// Scopes.
// ---------------------------------------------------------------------------

/// The characters between scopes.
pub open spec fn scope_marks() -> Seq<char> {
    seq![',', ' ', '\n', '\t']
}

/// Whether a scope text allows to read analytics data.
pub open spec fn allows_read(scope: Seq<char>) -> bool {
    let items = text::split(scope, scope_marks());
    items.contains(DEFAULT_ANALYTICS_SCOPE@) || items.contains(FULL_ANALYTICS_SCOPE@)
}

/// The scopes of a scope text.
pub open spec fn scopes_of(scope: Seq<char>) -> Seq<Seq<char>> {
    text::trimmed_pieces(scope, scope_marks())
}

/// The scope that gcloud asks for and the first `n` of `items`, each once.
pub open spec fn with_required(items: Seq<Seq<char>>, n: nat) -> Seq<Seq<char>>
    decreases n,
{
    if n == 0 {
        seq![GCLOUD_ADC_REQUIRED_SCOPE@]
    } else {
        let before = with_required(items, (n - 1) as nat);
        if before.contains(items[n - 1]) {
            before
        } else {
            before.push(items[n - 1])
        }
    }
}

/// The scopes of a login with gcloud.
pub open spec fn login_scopes(scope: Seq<char>) -> Seq<Seq<char>> {
    with_required(scopes_of(scope), scopes_of(scope).len())
}

/// Whether a scope text allows to read analytics data.
pub fn scope_allows_analytics_read(scope: &str) -> (r: bool)
    ensures
        r == allows_read(scope@),
{
    let marks: [char; 4] = [',', ' ', '\n', '\t'];
    assert(marks@ =~= scope_marks());
    let items: Vec<String> = text::split_text(scope, &marks);
    text::has_text(items.as_slice(), DEFAULT_ANALYTICS_SCOPE) || text::has_text(
        items.as_slice(),
        FULL_ANALYTICS_SCOPE,
    )
}

/// The scopes of a scope text.
pub fn split_scopes(scope: &str) -> (r: Vec<String>)
    ensures
        text::texts(r@) == scopes_of(scope@),
{
    let marks: [char; 4] = [',', ' ', '\n', '\t'];
    assert(marks@ =~= scope_marks());
    text::split_trimmed(scope, &marks)
}

/// The scopes of a login with gcloud.
pub fn adc_scope_list(scope: &str) -> (r: Vec<String>)
    ensures
        text::texts(r@) == login_scopes(scope@),
{
    let items: Vec<String> = split_scopes(scope);
    let ghost all = scopes_of(scope@);
    let mut r: Vec<String> = Vec::new();
    text::add_text(&mut r, GCLOUD_ADC_REQUIRED_SCOPE);
    assert(text::texts(r@) =~= with_required(all, 0));
    for i in 0..items.len()
        invariant
            all == text::texts(items@),
            text::texts(r@) == with_required(all, i as nat),
    {
        assert(all[i as int] == items@[i as int]@);
        if !text::has_text(r.as_slice(), items[i].as_str()) {
            text::add_text(&mut r, items[i].as_str());
        }
    }
    r
}

/// The scopes of a login with gcloud, as gcloud takes them.
pub fn adc_login_scopes(scope: &str) -> (r: String)
    ensures
        r@ == text::joined(login_scopes(scope@), ","@),
{
    text::join(adc_scope_list(scope).as_slice(), ",")
}

/// Whether the scope of settings is a bad one that came from the environment.
pub open spec fn scope_is_ambient_mistake(
    settings: Settings,
    ambient_scope: Option<Seq<char>>,
    explicit_scope_arg: bool,
) -> bool {
    &&& !explicit_scope_arg
    &&& ambient_scope == Some(settings.analytics_scope@)
    &&& settings.analytics_scope@ != DEFAULT_ANALYTICS_SCOPE@
    &&& !allows_read(settings.analytics_scope@)
}

/// The scope of a login: that of the settings, but for a bad one that came from the
/// environment.
pub open spec fn chosen_scope(
    settings: Settings,
    ambient_scope: Option<Seq<char>>,
    explicit_scope_arg: bool,
) -> Seq<char> {
    if scope_is_ambient_mistake(settings, ambient_scope, explicit_scope_arg) {
        DEFAULT_ANALYTICS_SCOPE@
    } else {
        settings.analytics_scope@
    }
}

/// The scope of a login.
pub fn login_scope_from_env_hint<'a>(
    settings: &'a Settings,
    ambient_scope: Option<&str>,
    explicit_scope_arg: bool,
) -> (r: &'a str)
    ensures
        r@ == chosen_scope(*settings, text::opt_str(ambient_scope), explicit_scope_arg),
{
    let from_environment: bool = match ambient_scope {
        Some(scope) => text::same_text(scope, settings.analytics_scope.as_str()),
        None => false,
    };
    if !explicit_scope_arg && from_environment && !text::same_text(
        settings.analytics_scope.as_str(),
        DEFAULT_ANALYTICS_SCOPE,
    ) && !scope_allows_analytics_read(settings.analytics_scope.as_str()) {
        DEFAULT_ANALYTICS_SCOPE
    } else {
        settings.analytics_scope.as_str()
    }
}

/// Whether an argument of a command line names the scope.
pub open spec fn names_scope(arg: Seq<char>) -> bool {
    arg == "--analytics-scope"@ || text::begins(arg, "--analytics-scope="@)
}

/// Whether a command line names the scope.
pub fn analytics_scope_arg_present(args: &[String]) -> (r: bool)
    ensures
        r == exists|i: int| 0 <= i < args@.len() && names_scope((#[trigger] args@[i])@),
{
    for i in 0..args.len()
        invariant
            forall|j: int| 0 <= j < i ==> !names_scope((#[trigger] args@[j])@),
    {
        if text::same_text(args[i].as_str(), "--analytics-scope") || text::starts_with(
            args[i].as_str(),
            "--analytics-scope=",
        ) {
            assert(names_scope(args@[i as int]@));
            return true;
        }
    }
    false
}

// ---------------------------------------------------------------------------
// Commands.
// ---------------------------------------------------------------------------

/// Where the first `word` stands in `words`, or their number where it does not.
pub open spec fn place_of(words: Seq<Seq<char>>, word: Seq<char>) -> nat
    decreases words.len(),
{
    if words.len() == 0 {
        0
    } else if words[0] == word {
        0
    } else {
        1 + place_of(words.skip(1), word)
    }
}

/// `words` with the account that a user gave, behind the word for the login.
pub open spec fn with_account(words: Seq<Seq<char>>, account: Option<Seq<char>>) -> Seq<Seq<char>> {
    match config::cleaned(account) {
        None => words,
        Some(hint) => {
            let at = place_of(words, "login"@);
            if at < words.len() {
                words.insert((at + 1) as int, hint)
            } else {
                words.push(hint)
            }
        },
    }
}

/// The words of a login with gcloud.
pub open spec fn gcloud_words(
    scope: Seq<char>,
    headless: bool,
    client_id_file: Option<Seq<char>>,
) -> Seq<Seq<char>> {
    let start = seq!["gcloud"@, "auth"@, "application-default"@, "login"@];
    let shown = if headless {
        start.push("--no-launch-browser"@)
    } else {
        start
    };
    let scoped = shown.push("--scopes="@ + text::joined(login_scopes(scope), ","@));
    match client_id_file {
        Some(path) => scoped.push("--client-id-file="@ + path),
        None => scoped,
    }
}

/// The words that set the quota project of the credentials.
pub open spec fn quota_words(project: Seq<char>) -> Seq<Seq<char>> {
    seq!["gcloud"@, "auth"@, "application-default"@, "set-quota-project"@, project]
}

fn opt_ref(held: &Option<String>) -> (r: Option<&str>)
    ensures
        text::opt_str(r) == text::opt_text(*held),
{
    match held {
        Some(t) => Some(t.as_str()),
        None => None,
    }
}

/// An account hint that is not blank, without white space at its ends.
fn account_hint(account: Option<&str>) -> (r: Option<String>)
    ensures
        text::opt_text(r) == config::cleaned(text::opt_str(account)),
{
    match account {
        Some(held) => config::trim_optional(Some(held.to_owned())),
        None => None,
    }
}

proof fn lemma_place_of(words: Seq<Seq<char>>, word: Seq<char>, n: int)
    requires
        0 <= n <= words.len(),
        forall|j: int| 0 <= j < n ==> words[j] != word,
    ensures
        place_of(words, word) >= n,
        n < words.len() && words[n] == word ==> place_of(words, word) == n,
        n == words.len() ==> place_of(words, word) == n,
    decreases words.len(),
{
    if words.len() > 0 && n > 0 {
        assert(words[0] != word);
        lemma_place_of(words.skip(1), word, n - 1);
    }
}

/// `args` with the account that a user gave, behind the word for the login.
pub fn with_gcloud_account_arg(args: Vec<String>, account: Option<&str>) -> (r: Vec<String>)
    ensures
        text::texts(r@) == with_account(text::texts(args@), text::opt_str(account)),
{
    let hint: String = match account_hint(account) {
        Some(hint) => hint,
        None => {
            return args;
        },
    };
    let ghost words = text::texts(args@);
    let mut at: usize = 0;
    while at < args.len() && !text::same_text(args[at].as_str(), "login")
        invariant
            words == text::texts(args@),
            at <= args@.len(),
            forall|j: int| 0 <= j < at ==> words[j] != "login"@,
        decreases args@.len() - at,
    {
        assert(words[at as int] == args@[at as int]@);
        at = at + 1;
    }
    proof {
        if at < args@.len() {
            assert(words[at as int] == args@[at as int]@);
        }
        lemma_place_of(words, "login"@, at as int);
    }
    let mut r: Vec<String> = args;
    if at < r.len() {
        text::put_text(&mut r, at + 1, hint.as_str());
    } else {
        text::add_text(&mut r, hint.as_str());
    }
    r
}

/// The words of a login with gcloud.
pub fn gcloud_login_args(
    scope: &str,
    headless: bool,
    client_id_file: Option<&str>,
    account: Option<&str>,
) -> (r: Vec<String>)
    ensures
        text::texts(r@) == with_account(
            gcloud_words(scope@, headless, text::opt_str(client_id_file)),
            text::opt_str(account),
        ),
{
    let mut words: Vec<String> = text::owned(&["gcloud", "auth", "application-default", "login"]);
    assert(text::texts(words@) =~= seq!["gcloud"@, "auth"@, "application-default"@, "login"@]);
    if headless {
        text::add_text(&mut words, "--no-launch-browser");
    }
    text::add_text(
        &mut words,
        error::labelled("--scopes=", adc_login_scopes(scope).as_str()).as_str(),
    );
    match client_id_file {
        Some(path) => {
            text::add_text(&mut words, error::labelled("--client-id-file=", path).as_str());
        },
        None => {},
    }
    with_gcloud_account_arg(words, account)
}

/// The words that set the quota project of the credentials.
pub fn gcloud_set_quota_project_command(project: &str) -> (r: Vec<String>)
    ensures
        text::texts(r@) == quota_words(project@),
{
    let r: Vec<String> = text::owned(
        &["gcloud", "auth", "application-default", "set-quota-project", project],
    );
    assert(text::texts(r@) =~= quota_words(project@));
    r
}

/// The command of a login with gcloud, for a shell, in the configuration directory of this
/// server.
pub fn login_command_for_scope(
    shell: Shell,
    scope: &str,
    headless: bool,
    client_id_file: Option<&str>,
    server_cloudsdk_config: Option<&str>,
) -> (r: String)
    ensures
        r@ == shell::command_with_config(
            shell,
            gcloud_words(scope@, headless, text::opt_str(client_id_file)),
            text::opt_str(server_cloudsdk_config),
        ),
{
    login_command_for_scope_with_cloudsdk(
        shell,
        scope,
        headless,
        client_id_file,
        server_cloudsdk_config,
    )
}

/// The command of a login with gcloud, for a shell.
pub fn login_command_for_scope_with_cloudsdk(
    shell: Shell,
    scope: &str,
    headless: bool,
    client_id_file: Option<&str>,
    cloudsdk_config: Option<&str>,
) -> (r: String)
    ensures
        r@ == shell::command_with_config(
            shell,
            gcloud_words(scope@, headless, text::opt_str(client_id_file)),
            text::opt_str(cloudsdk_config),
        ),
{
    shell::join_with_config(
        shell,
        gcloud_login_args(scope, headless, client_id_file, None).as_slice(),
        cloudsdk_config,
    )
}

/// The command that sets the quota project of the credentials, for a shell.
pub fn quota_project_command_with_cloudsdk(
    shell: Shell,
    project: &str,
    cloudsdk_config: Option<&str>,
) -> (r: String)
    ensures
        r@ == shell::command_with_config(
            shell,
            quota_words(project@),
            text::opt_str(cloudsdk_config),
        ),
{
    shell::join_with_config(
        shell,
        gcloud_set_quota_project_command(project).as_slice(),
        cloudsdk_config,
    )
}

/// `words` with a flag and its value, where there is one.
pub open spec fn with_flag(
    words: Seq<Seq<char>>,
    flag: Seq<char>,
    value: Option<Seq<char>>,
) -> Seq<Seq<char>> {
    match value {
        Some(held) => words.push(flag).push(held),
        None => words,
    }
}

/// `words` with a flag, where it is set.
pub open spec fn with_switch(words: Seq<Seq<char>>, flag: Seq<char>, on: bool) -> Seq<Seq<char>> {
    if on {
        words.push(flag)
    } else {
        words
    }
}

/// A text that is not blank.
pub open spec fn not_blank(value: Option<Seq<char>>) -> Option<Seq<char>> {
    match value {
        Some(held) => if text::is_blank(held) {
            None
        } else {
            Some(held)
        },
        None => None,
    }
}

/// What a login takes beside its scope.
pub struct LoginFlags {
    pub headless: bool,
    pub client_id_file: Option<Seq<char>>,
    pub quota_project: Option<Seq<char>>,
    pub shared_adc: bool,
    pub account: Option<Seq<char>>,
    pub callback_port: Option<u16>,
}

/// The words of a login with this program.
pub open spec fn cli_words(scope: Seq<char>, flags: LoginFlags) -> Seq<Seq<char>> {
    let start = if scope != DEFAULT_ANALYTICS_SCOPE@ {
        seq!["ga4-mcp"@].push("--analytics-scope"@).push(scope)
    } else {
        seq!["ga4-mcp"@]
    };
    let port = match flags.callback_port {
        Some(port) => Some(text::decimal(port as nat)),
        None => None,
    };
    let login = with_switch(start.push("auth"@).push("login"@), "--headless"@, flags.headless);
    let file = with_flag(login, "--client-id-file"@, flags.client_id_file);
    let account = with_flag(file, "--account"@, config::cleaned(flags.account));
    let called = with_flag(account, "--callback-port"@, port);
    let quota = with_flag(called, "--quota-project"@, not_blank(flags.quota_project));
    with_switch(quota, "--shared-adc"@, flags.shared_adc)
}

fn add_flag(words: &mut Vec<String>, flag: &str, value: Option<&str>)
    ensures
        text::texts(final(words)@) == with_flag(
            text::texts(old(words)@),
            flag@,
            text::opt_str(value),
        ),
{
    match value {
        Some(held) => {
            text::add_text(words, flag);
            text::add_text(words, held);
        },
        None => {},
    }
}

/// The command of a login with this program.
pub fn auth_login_cli_command(
    scope: &str,
    headless: bool,
    client_id_file: Option<&str>,
    quota_project: Option<&str>,
    shared_adc: bool,
    account: Option<&str>,
    callback_port: Option<u16>,
) -> (r: String)
    ensures
        r@ == shell::command(
            cli_words(
                scope@,
                LoginFlags {
                    headless,
                    client_id_file: text::opt_str(client_id_file),
                    quota_project: text::opt_str(quota_project),
                    shared_adc,
                    account: text::opt_str(account),
                    callback_port,
                },
            ),
        ),
{
    let mut words: Vec<String> = Vec::new();
    text::add_text(&mut words, "ga4-mcp");
    assert(text::texts(words@) =~= seq!["ga4-mcp"@]);
    if !text::same_text(scope, DEFAULT_ANALYTICS_SCOPE) {
        text::add_text(&mut words, "--analytics-scope");
        text::add_text(&mut words, scope);
    }
    text::add_text(&mut words, "auth");
    text::add_text(&mut words, "login");
    if headless {
        text::add_text(&mut words, "--headless");
    }
    add_flag(&mut words, "--client-id-file", client_id_file);
    add_flag(&mut words, "--account", opt_ref(&account_hint(account)));
    match callback_port {
        Some(port) => {
            add_flag(
                &mut words,
                "--callback-port",
                Some(text::decimal_text(port as u64).as_str()),
            );
        },
        None => {},
    }
    match quota_project {
        Some(project) => {
            if !text::blank(project) {
                add_flag(&mut words, "--quota-project", Some(project));
            }
        },
        None => {},
    }
    if shared_adc {
        text::add_text(&mut words, "--shared-adc");
    }
    shell::format_command(words.as_slice())
}

/// The default scope allows to read.
pub proof fn lemma_default_scope_reads()
    ensures
        allows_read(DEFAULT_ANALYTICS_SCOPE@),
{
    reveal_strlit("https://www.googleapis.com/auth/analytics.readonly");
    let scope = DEFAULT_ANALYTICS_SCOPE@;
    let marks = scope_marks();
    assert forall|i: int| 0 <= i < scope.len() implies !marks.contains(scope[i]) by {}
    text::lemma_split_plain(scope, marks);
    assert(text::split(scope, marks)[0] == scope);
}

/// The scope that gcloud asks for is among the scopes of every login with gcloud, and no
/// scope is there twice.
pub proof fn law_login_scopes(scope: Seq<char>, i: int, j: int)
    ensures
        login_scopes(scope).len() > 0,
        login_scopes(scope)[0] == GCLOUD_ADC_REQUIRED_SCOPE@,
        0 <= i < j < login_scopes(scope).len() ==> login_scopes(scope)[i] != login_scopes(
            scope,
        )[j],
{
    lemma_with_required(scopes_of(scope), scopes_of(scope).len(), i, j);
}

proof fn lemma_with_required(items: Seq<Seq<char>>, n: nat, i: int, j: int)
    ensures
        with_required(items, n).len() > 0,
        with_required(items, n)[0] == GCLOUD_ADC_REQUIRED_SCOPE@,
        0 <= i < j < with_required(items, n).len() ==> with_required(items, n)[i]
            != with_required(items, n)[j],
    decreases n,
{
    if n > 0 {
        lemma_with_required(items, (n - 1) as nat, i, j);
        let before = with_required(items, (n - 1) as nat);
        if 0 <= i < j && j == before.len() {
            assert(before.contains(before[i]));
        }
    }
}

/// A login with gcloud asks for the scope that gcloud needs and for those of the settings, and
/// for no other; with the default settings that is the read-only scope.
pub proof fn law_logins_ask_for_no_more(scope: Seq<char>, k: int)
    requires
        0 <= k < login_scopes(scope).len(),
    ensures
        login_scopes(scope)[k] == GCLOUD_ADC_REQUIRED_SCOPE@ || scopes_of(scope).contains(
            login_scopes(scope)[k],
        ),
        scope == DEFAULT_ANALYTICS_SCOPE@ ==> login_scopes(scope)[k] == GCLOUD_ADC_REQUIRED_SCOPE@
            || login_scopes(scope)[k] == DEFAULT_ANALYTICS_SCOPE@,
{
    lemma_required_source(scopes_of(scope), scopes_of(scope).len(), k);
    if scope == DEFAULT_ANALYTICS_SCOPE@ {
        lemma_default_scope_stands_alone();
    }
}

proof fn lemma_required_source(items: Seq<Seq<char>>, n: nat, k: int)
    requires
        n <= items.len(),
        0 <= k < with_required(items, n).len(),
    ensures
        with_required(items, n)[k] == GCLOUD_ADC_REQUIRED_SCOPE@ || items.contains(
            with_required(items, n)[k],
        ),
    decreases n,
{
    if n > 0 {
        let before = with_required(items, (n - 1) as nat);
        if k < before.len() {
            lemma_required_source(items, (n - 1) as nat, k);
        } else {
            assert(items[n - 1] == with_required(items, n)[k]);
        }
    }
}

proof fn lemma_default_scope_stands_alone()
    ensures
        forall|item: Seq<char>|
            #[trigger] scopes_of(DEFAULT_ANALYTICS_SCOPE@).contains(item) ==> item
                == DEFAULT_ANALYTICS_SCOPE@,
{
    reveal_strlit("https://www.googleapis.com/auth/analytics.readonly");
    let scope = DEFAULT_ANALYTICS_SCOPE@;
    let marks = scope_marks();
    assert forall|i: int| 0 <= i < scope.len() implies !marks.contains(scope[i]) by {}
    text::lemma_split_plain(scope, marks);
    assert(text::trim_start(scope) == scope);
    assert(text::trim_end(scope) == scope);
    assert(text::trim(scope) == scope);
    reveal_with_fuel(text::non_empty, 2);
}

/// A scope allows reading exactly where one of its items is the scope for reading, or the one
/// for everything.
pub proof fn law_scopes_that_read(scope: Seq<char>, items: Seq<Seq<char>>)
    requires
        items == text::split(scope, seq![',', ' ', '\n', '\t']),
    ensures
        allows_read(scope) <==> items.contains(
            "https://www.googleapis.com/auth/analytics.readonly"@,
        ) || items.contains("https://www.googleapis.com/auth/analytics"@),
{
}

/// A login asks for what gcloud requires and for every scope that is asked for.
pub proof fn law_logins_ask_for_every_scope(items: Seq<Seq<char>>, n: nat, i: int)
    requires
        n <= items.len(),
        0 <= i < n,
    ensures
        with_required(items, n).contains(items[i]),
        with_required(items, n).len() > 0,
        with_required(items, n)[0] == "https://www.googleapis.com/auth/cloud-platform"@,
    decreases n,
{
    let before = with_required(items, (n - 1) as nat);
    let after = with_required(items, n);
    lemma_required_first(items, (n - 1) as nat);
    if i < n - 1 {
        law_logins_ask_for_every_scope(items, (n - 1) as nat, i);
        let k = choose|k: int| 0 <= k < before.len() && before[k] == items[i];
        assert(after[k] == items[i]);
    } else if !before.contains(items[n - 1]) {
        assert(after[before.len() as int] == items[i]);
    }
    assert(after[0] == before[0]);
}

proof fn lemma_required_first(items: Seq<Seq<char>>, n: nat)
    requires
        n <= items.len(),
    ensures
        with_required(items, n).len() > 0,
        with_required(items, n)[0] == GCLOUD_ADC_REQUIRED_SCOPE@,
    decreases n,
{
    if n > 0 {
        lemma_required_first(items, (n - 1) as nat);
    }
}

/// A login uses the scope of the settings; only one that comes from the environment alone, is
/// not the usual one, and cannot read gives way to the usual one.
pub proof fn law_logins_use_the_scope_of_the_settings(
    settings: Settings,
    ambient_scope: Option<Seq<char>>,
)
    ensures
        chosen_scope(settings, ambient_scope, true) == settings.analytics_scope@,
        allows_read(settings.analytics_scope@) ==> chosen_scope(settings, ambient_scope, false)
            == settings.analytics_scope@,
        ambient_scope != Some(settings.analytics_scope@) ==> chosen_scope(
            settings,
            ambient_scope,
            false,
        ) == settings.analytics_scope@,
        ambient_scope == Some(settings.analytics_scope@) && !allows_read(settings.analytics_scope@)
            ==> chosen_scope(settings, ambient_scope, false)
            == "https://www.googleapis.com/auth/analytics.readonly"@,
{
    lemma_default_scope_reads();
}

/// An argument names the scope by itself, or with its value behind a sign.
pub proof fn law_arguments_name_the_scope(arg: Seq<char>)
    ensures
        names_scope(arg) <==> arg == "--analytics-scope"@ || text::stands_at(
            arg,
            "--analytics-scope="@,
            0,
        ),
{
    assert("--analytics-scope="@.len() <= arg.len() ==> arg.subrange(
        0,
        "--analytics-scope="@.len() as int,
    ) =~= arg.take("--analytics-scope="@.len() as int));
}

/// A login with gcloud says whether a browser is opened, what it asks for, and which client it
/// uses; an account stands right behind the word for the login.
pub proof fn law_gcloud_logins_say_what_they_ask(
    scope: Seq<char>,
    path: Seq<char>,
    account: Seq<char>,
)
    requires
        text::trim(account).len() > 0,
    ensures
        gcloud_words(scope, false, None) == seq![
            "gcloud"@,
            "auth"@,
            "application-default"@,
            "login"@,
            "--scopes="@ + text::joined(login_scopes(scope), ","@),
        ],
        gcloud_words(scope, true, Some(path)) == seq![
            "gcloud"@,
            "auth"@,
            "application-default"@,
            "login"@,
            "--no-launch-browser"@,
            "--scopes="@ + text::joined(login_scopes(scope), ","@),
            "--client-id-file="@ + path,
        ],
        with_account(gcloud_words(scope, false, None), None) == gcloud_words(scope, false, None),
        with_account(gcloud_words(scope, false, None), Some(account)) == seq![
            "gcloud"@,
            "auth"@,
            "application-default"@,
            "login"@,
            text::trim(account),
            "--scopes="@ + text::joined(login_scopes(scope), ","@),
        ],
        quota_words(path) == seq![
            "gcloud"@,
            "auth"@,
            "application-default"@,
            "set-quota-project"@,
            path,
        ],
{
    let shown = "--scopes="@ + text::joined(login_scopes(scope), ","@);
    let plain = gcloud_words(scope, false, None);
    assert(plain =~= seq!["gcloud"@, "auth"@, "application-default"@, "login"@, shown]);
    assert(gcloud_words(scope, true, Some(path)) =~= seq![
        "gcloud"@,
        "auth"@,
        "application-default"@,
        "login"@,
        "--no-launch-browser"@,
        shown,
        "--client-id-file="@ + path,
    ]);
    reveal_strlit("gcloud");
    assert("gcloud"@.len() == 6);
    reveal_strlit("auth");
    assert("auth"@.len() == 4);
    reveal_strlit("application-default");
    assert("application-default"@.len() == 19);
    reveal_strlit("login");
    assert("login"@.len() == 5);
    reveal_with_fuel(place_of, 5);
    assert(plain.skip(1).skip(1).skip(1)[0] == "login"@);
    assert(plain.skip(1)[0] == "auth"@);
    assert(plain.skip(1).skip(1)[0] == "application-default"@);
    assert(place_of(plain, "login"@) == 3);
    assert(with_account(plain, Some(account)) =~= seq![
        "gcloud"@,
        "auth"@,
        "application-default"@,
        "login"@,
        text::trim(account),
        shown,
    ]);
}

/// Whether a value stands right behind its flag.
pub open spec fn gives(words: Seq<Seq<char>>, flag: Seq<char>, value: Seq<char>) -> bool {
    exists|k: int| 0 <= k < words.len() - 1 && #[trigger] words[k] == flag && words[k + 1] == value
}

proof fn lemma_flag(words: Seq<Seq<char>>, flag: Seq<char>, value: Option<Seq<char>>)
    ensures
        with_flag(words, flag, value).len() >= words.len(),
        forall|k: int|
            0 <= k < words.len() ==> #[trigger] with_flag(words, flag, value)[k] == words[k],
        forall|a: Seq<char>, b: Seq<char>|
            gives(words, a, b) ==> #[trigger] gives(with_flag(words, flag, value), a, b),
        forall|a: Seq<char>|
            words.contains(a) ==> #[trigger] with_flag(words, flag, value).contains(a),
        value matches Some(held) ==> gives(with_flag(words, flag, value), flag, held),
{
    let more = with_flag(words, flag, value);
    assert forall|a: Seq<char>, b: Seq<char>| gives(words, a, b) implies #[trigger] gives(
        more,
        a,
        b,
    ) by {
        let k = choose|k: int|
            0 <= k < words.len() - 1 && #[trigger] words[k] == a && words[k + 1] == b;
        assert(more[k] == a && more[k + 1] == b);
    }
    assert forall|a: Seq<char>| words.contains(a) implies #[trigger] more.contains(a) by {
        let k = choose|k: int| 0 <= k < words.len() && words[k] == a;
        assert(more[k] == a);
    }
    match value {
        Some(held) => {
            assert(more[words.len() as int] == flag && more[(words.len() + 1) as int] == held);
        },
        None => {},
    }
}

proof fn lemma_switch(words: Seq<Seq<char>>, flag: Seq<char>, on: bool)
    ensures
        with_switch(words, flag, on).len() >= words.len(),
        forall|k: int|
            0 <= k < words.len() ==> #[trigger] with_switch(words, flag, on)[k] == words[k],
        forall|a: Seq<char>, b: Seq<char>|
            gives(words, a, b) ==> #[trigger] gives(with_switch(words, flag, on), a, b),
        forall|a: Seq<char>|
            words.contains(a) ==> #[trigger] with_switch(words, flag, on).contains(a),
        on ==> with_switch(words, flag, on).contains(flag),
{
    let more = with_switch(words, flag, on);
    assert forall|a: Seq<char>, b: Seq<char>| gives(words, a, b) implies #[trigger] gives(
        more,
        a,
        b,
    ) by {
        let k = choose|k: int|
            0 <= k < words.len() - 1 && #[trigger] words[k] == a && words[k + 1] == b;
        assert(more[k] == a && more[k + 1] == b);
    }
    assert forall|a: Seq<char>| words.contains(a) implies #[trigger] more.contains(a) by {
        let k = choose|k: int| 0 <= k < words.len() && words[k] == a;
        assert(more[k] == a);
    }
    if on {
        assert(more[words.len() as int] == flag);
    }
}

/// The command for a login gives each of its flags the value that was asked for, and names the
/// scope where it is not the usual one.
pub proof fn law_login_commands_give_their_flags(scope: Seq<char>, flags: LoginFlags)
    ensures
        cli_words(scope, flags)[0] == "ga4-mcp"@,
        scope != "https://www.googleapis.com/auth/analytics.readonly"@ ==> cli_words(
            scope,
            flags,
        )[1] == "--analytics-scope"@ && cli_words(scope, flags)[2] == scope && cli_words(
            scope,
            flags,
        )[3] == "auth"@ && cli_words(scope, flags)[4] == "login"@,
        scope == "https://www.googleapis.com/auth/analytics.readonly"@ ==> cli_words(
            scope,
            flags,
        )[1] == "auth"@ && cli_words(scope, flags)[2] == "login"@,
        flags.headless ==> cli_words(scope, flags).contains("--headless"@),
        flags.shared_adc ==> cli_words(scope, flags).contains("--shared-adc"@),
        flags.client_id_file matches Some(path) ==> gives(
            cli_words(scope, flags),
            "--client-id-file"@,
            path,
        ),
        flags.account matches Some(account) && text::trim(account).len() > 0 ==> gives(
            cli_words(scope, flags),
            "--account"@,
            text::trim(flags.account->0),
        ),
        flags.callback_port matches Some(port) ==> gives(
            cli_words(scope, flags),
            "--callback-port"@,
            text::decimal(port as nat),
        ),
        flags.quota_project matches Some(project) && text::trim(project).len() > 0 ==> gives(
            cli_words(scope, flags),
            "--quota-project"@,
            flags.quota_project->0,
        ),
{
    let start = if scope != DEFAULT_ANALYTICS_SCOPE@ {
        seq!["ga4-mcp"@].push("--analytics-scope"@).push(scope)
    } else {
        seq!["ga4-mcp"@]
    };
    let port = match flags.callback_port {
        Some(port) => Some(text::decimal(port as nat)),
        None => None,
    };
    let begun = start.push("auth"@).push("login"@);
    let login = with_switch(begun, "--headless"@, flags.headless);
    let file = with_flag(login, "--client-id-file"@, flags.client_id_file);
    let account = with_flag(file, "--account"@, config::cleaned(flags.account));
    let called = with_flag(account, "--callback-port"@, port);
    let quota = with_flag(called, "--quota-project"@, not_blank(flags.quota_project));
    lemma_switch(begun, "--headless"@, flags.headless);
    lemma_flag(login, "--client-id-file"@, flags.client_id_file);
    lemma_flag(file, "--account"@, config::cleaned(flags.account));
    lemma_flag(account, "--callback-port"@, port);
    lemma_flag(called, "--quota-project"@, not_blank(flags.quota_project));
    lemma_switch(quota, "--shared-adc"@, flags.shared_adc);
    let all = cli_words(scope, flags);
    assert forall|k: int| 0 <= k < begun.len() implies #[trigger] all[k] == begun[k] by {
        assert(login[k] == begun[k]);
        assert(file[k] == login[k]);
        assert(account[k] == file[k]);
        assert(called[k] == account[k]);
        assert(quota[k] == called[k]);
    }
    assert(all[0] == begun[0]);
    assert(all[1] == begun[1]);
    assert(all[2] == begun[2]);
}

} // verus!
