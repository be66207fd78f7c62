//! # HTTP Transport Configuration
//!
//! Environment-driven settings for the streamable HTTP runtime.

use vstd::prelude::*;
use vstd::string::*;

use crate::config;
use crate::config::UpstreamTokenSource;
use crate::error;
use crate::report_args;
use crate::text;

verus! {

pub const DEFAULT_BIND_ADDR: &'static str = "127.0.0.1:9420";

pub const DEFAULT_ALLOWED_HOSTS: &'static str = "localhost,127.0.0.1,::1";

pub const DEFAULT_ALLOWED_CIDRS: &'static str = "127.0.0.1/32,::1/128";

// ---------------------------------------------------------------------------
// Addresses.
// ---------------------------------------------------------------------------

/// The addresses of a network: those of one family from the first to the last.
#[derive(Debug, Clone, Copy, PartialEq, Eq, Structural)]
pub struct Cidr {
    pub v6: bool,
    pub first: u128,
    pub last: u128,
}

/// An address: its family and its number.
#[derive(Debug, Clone, Copy, PartialEq, Eq, Structural)]
pub struct ClientIp {
    pub v6: bool,
    pub number: u128,
}

impl Cidr {
    /// Whether the network holds an address.
    pub open spec fn holds(self, ip: ClientIp) -> bool {
        self.v6 == ip.v6 && self.first <= ip.number <= self.last
    }

    /// Whether the network holds an address.
    pub fn contains(&self, ip: ClientIp) -> (r: bool)
        ensures
            r == self.holds(ip),
    {
        self.v6 == ip.v6 && self.first <= ip.number && ip.number <= self.last
    }
}

/// The network that a text names, as `ipnet::IpNet` reads it.
pub uninterp spec fn cidr_of(item: Seq<char>) -> Option<Cidr>;

/// `ipnet::IpNet::from_str`, with the numbers of `network` and `broadcast` of the network
/// that it reads. Which network that is depends on the text alone; its first address is
/// not above its last one. Where the text names no network, the message is always the
/// same.
#[verifier::external_body]
fn parse_cidr(item: &str) -> (r: Result<Cidr, String>)
    ensures
        r matches Ok(net) ==> cidr_of(item@) == Some(net) && net.first <= net.last,
        r matches Err(message) ==> cidr_of(item@) is None && message@
            == "invalid IP address syntax"@,
{
    match item.parse::<ipnet::IpNet>() {
        Ok(ipnet::IpNet::V4(net)) => Ok(
            Cidr {
                v6: false,
                first: u32::from(net.network()) as u128,
                last: u32::from(net.broadcast()) as u128,
            },
        ),
        Ok(ipnet::IpNet::V6(net)) => Ok(
            Cidr { v6: true, first: net.network().into(), last: net.broadcast().into() },
        ),
        Err(err) => Err(err.to_string()),
    }
}

// ---------------------------------------------------------------------------
// Values of the environment.
// ---------------------------------------------------------------------------

/// A variable that must hold a real number, and why it does not.
#[derive(Debug)]
pub struct NumberSetting {
    pub raw: Option<String>,
    pub problem: Option<String>,
}

/// The variables that say how requests are authenticated.
#[derive(Debug)]
pub struct AuthEnv {
    pub enabled: Option<String>,
    pub mode: Option<String>,
    pub strict_oauth: Option<String>,
    pub jwks_url: Option<String>,
    pub issuer: Option<String>,
    pub audience: Option<String>,
    pub required_scopes: Option<String>,
    pub actor_claim: Option<String>,
    pub introspection_url: Option<String>,
    pub introspection_client_id: Option<String>,
    pub introspection_client_secret: Option<String>,
    pub introspection_auth_method: Option<String>,
    pub introspection_cache_ttl_s: NumberSetting,
    pub introspection_force: Option<String>,
    pub delegation_secret: Option<String>,
    pub delegation_issuer: Option<String>,
    pub delegation_audience: Option<String>,
    pub jti_ttl_s: NumberSetting,
    pub jti_cache_size: Option<String>,
    pub jti_enforce_bearer: Option<String>,
    pub clock_skew_s: NumberSetting,
    pub scopes_supported: Option<String>,
    pub allowed_client_ids: Option<String>,
    pub realm: Option<String>,
    pub resource_url: Option<String>,
}

/// The variables of the HTTP runtime.
#[derive(Debug)]
pub struct HttpEnv {
    pub bind_addr: Option<String>,
    pub allow_non_loopback: Option<String>,
    pub allowed_hosts: Option<String>,
    pub allowed_cidrs: Option<String>,
    pub tls_cert_path: Option<String>,
    pub tls_key_path: Option<String>,
    pub auth: AuthEnv,
}

/// An address to listen on, and whether it is a loopback one.
#[derive(Debug)]
pub struct BindAddr {
    pub shown: String,
    pub loopback: bool,
}

/// The value of a variable, or its default.
pub open spec fn setting(raw: Option<String>, default: Seq<char>) -> Seq<char> {
    match raw {
        Some(held) => held@,
        None => default,
    }
}

/// The value of a variable, or its default.
pub fn env_setting(raw: &Option<String>, default: &str) -> (r: String)
    ensures
        r@ == setting(*raw, default@),
{
    match raw {
        Some(held) => held.clone(),
        None => default.to_owned(),
    }
}

/// The text of a variable that is not blank.
pub open spec fn optional(raw: Option<String>) -> Option<Seq<char>> {
    config::cleaned(text::opt_text(raw))
}

/// The text of a variable that is not blank.
pub fn env_optional_string(raw: &Option<String>) -> (r: Option<String>)
    ensures
        text::opt_text(r) == optional(*raw),
{
    config::trim_optional(text::clone_opt(raw))
}

/// The truth value that a text names.
pub open spec fn flag(raw: Seq<char>) -> Option<bool> {
    let word = text::lowered(text::trim(raw));
    if word == "1"@ || word == "true"@ || word == "yes"@ || word == "on"@ {
        Some(true)
    } else if word == "0"@ || word == "false"@ || word == "no"@ || word == "off"@ {
        Some(false)
    } else {
        None
    }
}

/// The truth value that a text names.
pub fn parse_flag(raw: &str) -> (r: Option<bool>)
    ensures
        r == flag(raw@),
{
    let word: String = text::to_lower(text::trimmed(raw).as_str());
    if text::same_text(word.as_str(), "1") || text::same_text(word.as_str(), "true")
        || text::same_text(word.as_str(), "yes") || text::same_text(word.as_str(), "on") {
        Some(true)
    } else if text::same_text(word.as_str(), "0") || text::same_text(word.as_str(), "false")
        || text::same_text(word.as_str(), "no") || text::same_text(word.as_str(), "off") {
        Some(false)
    } else {
        None
    }
}

/// What is wrong with a variable that must hold a truth value.
pub open spec fn flag_problem(name: Seq<char>, raw: Option<String>) -> Option<Seq<char>> {
    match raw {
        Some(held) => if flag(held@) is None {
            Some(
                "invalid "@ + name + " value "@ + report_args::debug_text(held@)
                    + "; expected true/false or 1/0"@,
            )
        } else {
            None
        },
        None => None,
    }
}

/// The truth value of a variable, or its default.
pub open spec fn flag_setting(raw: Option<String>, default: bool) -> bool {
    match raw {
        Some(held) => match flag(held@) {
            Some(value) => value,
            None => default,
        },
        None => default,
    }
}

/// The truth value of a variable, or its default.
pub fn env_flag(name: &str, raw: &Option<String>, default: bool) -> (r: Result<bool, String>)
    ensures
        match flag_problem(name@, *raw) {
            Some(message) => r matches Err(said) && said@ == message,
            None => r matches Ok(value) && value == flag_setting(*raw, default),
        },
{
    match raw {
        Some(held) => match parse_flag(held.as_str()) {
            Some(value) => Ok(value),
            None => {
                let mut message: String = error::described(
                    "invalid ",
                    name,
                    " value ",
                    report_args::debug_of(held.as_str()).as_str(),
                );
                message.append("; expected true/false or 1/0");
                Err(message)
            },
        },
        None => Ok(default),
    }
}

/// What is wrong with a variable that must hold a real number.
pub open spec fn number_problem(name: Seq<char>, held: NumberSetting) -> Option<Seq<char>> {
    match (held.raw, held.problem) {
        (Some(raw), Some(problem)) => Some(
            "invalid "@ + name + " value "@ + report_args::debug_text(raw@) + ": "@ + problem@,
        ),
        _ => None,
    }
}

/// Checks a variable that must hold a real number.
pub fn check_number(name: &str, held: &NumberSetting) -> (r: Result<(), String>)
    ensures
        message_of(r) == number_problem(name@, *held),
{
    match &held.raw {
        Some(raw) => match &held.problem {
            Some(problem) => {
                let mut message: String = error::described(
                    "invalid ",
                    name,
                    " value ",
                    report_args::debug_of(raw.as_str()).as_str(),
                );
                message.append(": ");
                message.append(problem.as_str());
                Err(message)
            },
            None => Ok(()),
        },
        None => Ok(()),
    }
}

/// The whole number that a text writes: digits, after one sign at most.
pub open spec fn written_whole(raw: Seq<char>) -> Option<int> {
    let signed = raw.len() > 0 && (raw[0] == '+' || raw[0] == '-');
    let digits = if signed {
        raw.drop_first()
    } else {
        raw
    };
    if digits.len() == 0 || !text::all_digits(digits) {
        None
    } else if raw[0] == '-' {
        Some(-(text::numeral_value(digits) as int))
    } else {
        Some(text::numeral_value(digits) as int)
    }
}

/// The 64-bit whole number that a text writes.
pub open spec fn whole_of(raw: Seq<char>) -> Option<i64> {
    match written_whole(raw) {
        Some(n) => if i64::MIN <= n <= i64::MAX {
            Some(n as i64)
        } else {
            None
        },
        None => None,
    }
}

/// The `Display` text of the error of `str::parse::<i64>` for a text that it refuses.
pub uninterp spec fn whole_error(raw: Seq<char>) -> Seq<char>;

/// `str::parse::<i64>`: one sign at most and digits make a number, where 64 bits hold it.
/// The error depends on the text alone.
#[verifier::external_body]
fn parse_whole(raw: &str) -> (r: Result<i64, String>)
    ensures
        match whole_of(raw@) {
            Some(n) => r == Ok::<i64, String>(n),
            None => r matches Err(message) && message@ == whole_error(raw@),
        },
{
    raw.parse::<i64>().map_err(|err| err.to_string())
}

/// What is wrong with a variable that must hold a whole number.
pub open spec fn whole_problem(name: Seq<char>, raw: Option<String>) -> Option<Seq<char>> {
    match raw {
        Some(held) => if whole_of(text::trim(held@)) is None {
            Some(
                "invalid "@ + name + " value "@ + report_args::debug_text(held@) + ": "@
                    + whole_error(text::trim(held@)),
            )
        } else {
            None
        },
        None => None,
    }
}

/// The whole number of a variable.
pub open spec fn whole_setting(raw: Option<String>, default: i64) -> Option<i64> {
    match raw {
        Some(held) => whole_of(text::trim(held@)),
        None => Some(default),
    }
}

/// The whole number of a variable, or a default where it is not set.
pub fn env_i64(name: &str, raw: &Option<String>, default: i64) -> (r: Result<i64, String>)
    ensures
        match r {
            Ok(n) => whole_setting(*raw, default) == Some(n) && whole_problem(name@, *raw) is None,
            Err(message) => whole_problem(name@, *raw) == Some(message@),
        },
{
    match raw {
        Some(held) => match parse_whole(text::trimmed(held.as_str()).as_str()) {
            Ok(n) => Ok(n),
            Err(problem) => {
                let mut message: String = error::described(
                    "invalid ",
                    name,
                    " value ",
                    report_args::debug_of(held.as_str()).as_str(),
                );
                message.append(": ");
                message.append(problem.as_str());
                Err(message)
            },
        },
        None => Ok(default),
    }
}

/// The message of a check that failed.
pub open spec fn message_of(r: Result<(), String>) -> Option<Seq<char>> {
    match r {
        Ok(()) => None,
        Err(message) => Some(message@),
    }
}

/// The first of two messages.
pub open spec fn earlier(a: Option<Seq<char>>, b: Option<Seq<char>>) -> Option<Seq<char>> {
    match a {
        Some(_) => a,
        None => b,
    }
}

/// The entries of a list with commas.
pub open spec fn csv(raw: Seq<char>) -> Seq<Seq<char>> {
    text::trimmed_pieces(raw, seq![','])
}

/// The entries of a list with commas.
pub fn parse_csv(raw: &str) -> (r: Vec<String>)
    ensures
        text::texts(r@) == csv(raw@),
{
    let marks: [char; 1] = [','];
    assert(marks@ =~= seq![',']);
    text::split_trimmed(raw, &marks)
}

/// The first `n` of `items` in lower case, each once.
pub open spec fn lowered_once(items: Seq<Seq<char>>, n: nat) -> Seq<Seq<char>>
    decreases n,
{
    if n == 0 {
        Seq::<Seq<char>>::empty()
    } else {
        let before = lowered_once(items, (n - 1) as nat);
        let word = text::lowered(items[n - 1]);
        if before.contains(word) {
            before
        } else {
            before.push(word)
        }
    }
}

/// The hosts of a list with commas, in lower case, each once.
pub open spec fn hosts_of(raw: Seq<char>) -> Seq<Seq<char>> {
    lowered_once(csv(raw), csv(raw).len())
}

/// The hosts of a list with commas, in lower case, each once.
pub fn parse_allowed_hosts(raw: &str) -> (r: Vec<String>)
    ensures
        text::texts(r@) == hosts_of(raw@),
{
    let items: Vec<String> = parse_csv(raw);
    let ghost all = csv(raw@);
    let mut r: Vec<String> = Vec::new();
    assert(text::texts(r@) =~= Seq::<Seq<char>>::empty());
    for i in 0..items.len()
        invariant
            all == text::texts(items@),
            text::texts(r@) == lowered_once(all, i as nat),
    {
        assert(all[i as int] == items@[i as int]@);
        let word: String = text::to_lower(items[i].as_str());
        if !text::has_text(r.as_slice(), word.as_str()) {
            text::add_text(&mut r, word.as_str());
        }
    }
    r
}

/// The message on an entry that names no network.
pub open spec fn cidr_message(
    var_name: Seq<char>,
    item: Seq<char>,
    message: Seq<char>,
) -> Seq<char> {
    "invalid "@ + var_name + " CIDR "@ + item + ": "@ + message
}

fn invalid_cidr_message(var_name: &str, item: &str, message: &str) -> (r: String)
    ensures
        r@ == cidr_message(var_name@, item@, message@),
{
    let mut r: String = error::described("invalid ", var_name, " CIDR ", item);
    r.append(": ");
    r.append(message);
    r
}

/// The networks of a list, given what the network parser made of each entry: all of them,
/// or the message on the first entry that names none.
pub fn collect_cidrs(
    items: &[String],
    parsed: &[Result<Cidr, String>],
    var_name: &str,
) -> (r: Result<Vec<Cidr>, String>)
    requires
        items@.len() == parsed@.len(),
    ensures
        match r {
            Ok(nets) => nets@.len() == parsed@.len() && forall|i: int|
                0 <= i < parsed@.len() ==> #[trigger] parsed@[i] == Ok::<Cidr, String>(nets@[i]),
            Err(message) => exists|i: int|
                {
                    &&& 0 <= i < parsed@.len()
                    &&& #[trigger] parsed@[i] is Err
                    &&& message@ == cidr_message(var_name@, items@[i]@, parsed@[i]->Err_0@)
                    &&& forall|j: int| 0 <= j < i ==> parsed@[j] is Ok
                },
        },
{
    let mut nets: Vec<Cidr> = Vec::new();
    for i in 0..parsed.len()
        invariant
            items@.len() == parsed@.len(),
            nets@.len() == i,
            forall|j: int|
                0 <= j < i ==> #[trigger] parsed@[j] == Ok::<Cidr, String>(nets@[j]),
    {
        match &parsed[i] {
            Ok(net) => {
                nets.push(*net);
            },
            Err(message) => {
                assert(parsed@[i as int] is Err);
                return Err(invalid_cidr_message(var_name, items[i].as_str(), message.as_str()));
            },
        }
    }
    Ok(nets)
}

/// Where the first of `items` stands that names no network, or their number.
pub open spec fn first_unreadable(items: Seq<Seq<char>>) -> nat
    decreases items.len(),
{
    if items.len() == 0 || cidr_of(items[0]) is None {
        0
    } else {
        1 + first_unreadable(items.skip(1))
    }
}

proof fn lemma_first_unreadable(items: Seq<Seq<char>>, n: int)
    requires
        0 <= n <= items.len(),
        forall|j: int| 0 <= j < n ==> cidr_of(#[trigger] items[j]) is Some,
        n < items.len() ==> cidr_of(items[n]) is None,
    ensures
        first_unreadable(items) == n,
    decreases items.len(),
{
    if n > 0 {
        assert(cidr_of(items[0]) is Some);
        assert forall|j: int| 0 <= j < n - 1 implies cidr_of(#[trigger] items.skip(1)[j]) is Some by {
            assert(items.skip(1)[j] == items[j + 1]);
        }
        lemma_first_unreadable(items.skip(1), n - 1);
    }
}

/// What is wrong with a list of networks.
pub open spec fn cidrs_problem(raw: Seq<char>, var_name: Seq<char>) -> Option<Seq<char>> {
    let items = csv(raw);
    let at = first_unreadable(items);
    if at < items.len() {
        Some(cidr_message(var_name, items[at as int], "invalid IP address syntax"@))
    } else {
        None
    }
}

/// Whether networks are those of a list.
pub open spec fn are_cidrs_of(nets: Seq<Cidr>, raw: Seq<char>) -> bool {
    &&& nets.len() == csv(raw).len()
    &&& forall|i: int| 0 <= i < nets.len() ==> cidr_of(csv(raw)[i]) == Some(#[trigger] nets[i])
}

/// The networks of a list with commas.
pub fn parse_allowed_cidrs(raw: &str, var_name: &str) -> (r: Result<Vec<Cidr>, String>)
    ensures
        match cidrs_problem(raw@, var_name@) {
            Some(message) => r matches Err(said) && said@ == message,
            None => r matches Ok(nets) && are_cidrs_of(nets@, raw@),
        },
{
    let items: Vec<String> = parse_csv(raw);
    let ghost all = csv(raw@);
    let mut parsed: Vec<Result<Cidr, String>> = Vec::new();
    for i in 0..items.len()
        invariant
            all == text::texts(items@),
            parsed@.len() == i,
            forall|j: int|
                0 <= j < i ==> match #[trigger] parsed@[j] {
                    Ok(net) => cidr_of(all[j]) == Some(net),
                    Err(message) => cidr_of(all[j]) is None && message@
                        == "invalid IP address syntax"@,
                },
    {
        assert(all[i as int] == items@[i as int]@);
        parsed.push(parse_cidr(items[i].as_str()));
    }
    let r = collect_cidrs(items.as_slice(), parsed.as_slice(), var_name);
    proof {
        match &r {
            Ok(nets) => {
                assert forall|j: int| 0 <= j < all.len() implies cidr_of(
                    #[trigger] all[j],
                ) is Some by {
                    assert(parsed@[j] == Ok::<Cidr, String>(nets@[j]));
                }
                lemma_first_unreadable(all, all.len() as int);
                assert forall|i: int| 0 <= i < nets@.len() implies cidr_of(all[i]) == Some(
                    #[trigger] nets@[i],
                ) by {
                    assert(parsed@[i] == Ok::<Cidr, String>(nets@[i]));
                }
            },
            Err(message) => {
                let at = choose|i: int|
                    {
                        &&& 0 <= i < parsed@.len()
                        &&& #[trigger] parsed@[i] is Err
                        &&& message@ == cidr_message(var_name@, items@[i]@, parsed@[i]->Err_0@)
                        &&& forall|j: int| 0 <= j < i ==> parsed@[j] is Ok
                    };
                assert forall|j: int| 0 <= j < at implies cidr_of(#[trigger] all[j]) is Some by {
                    assert(parsed@[j] is Ok);
                }
                lemma_first_unreadable(all, at);
                assert(all[at] == items@[at]@);
            },
        }
    }
    r
}

// ---------------------------------------------------------------------------
// Authentication.
// ---------------------------------------------------------------------------

/// How the tokens of requests are checked.
#[derive(Debug, Clone, Copy, PartialEq, Eq, Structural)]
pub enum AuthMode {
    Delegation,
    Jwks,
    Introspection,
}

/// How this server names itself at the introspection endpoint.
#[derive(Debug, Clone, Copy, PartialEq, Eq, Structural)]
pub enum ClientAuthMethod {
    ClientSecretBasic,
    ClientSecretPost,
}

/// How the tokens of requests are checked, as far as the rules look at it. The texts of
/// numbers are those that were set.
#[derive(Debug)]
pub struct AuthConfig {
    pub mode: AuthMode,
    pub strict_oauth: bool,
    pub jwks_url: Option<String>,
    pub issuer: Option<String>,
    pub audience: Option<String>,
    pub required_scopes: Vec<String>,
    pub actor_claim: String,
    pub introspection_url: Option<String>,
    pub introspection_client_id: Option<String>,
    pub introspection_client_secret: Option<String>,
    pub introspection_auth_method: ClientAuthMethod,
    pub introspection_cache_ttl_s: Option<String>,
    pub introspection_force: bool,
    pub delegation_secret: Option<String>,
    pub delegation_issuer: String,
    pub delegation_audience: String,
    pub jti_ttl_s: Option<String>,
    pub jti_cache_size: i64,
    pub jti_enforce_bearer: bool,
    pub clock_skew_s: Option<String>,
}

/// The mode that a text names.
pub open spec fn mode_of(raw: Seq<char>) -> Option<AuthMode> {
    let word = text::lowered(text::trim(raw));
    if word == "delegation"@ {
        Some(AuthMode::Delegation)
    } else if word == "jwks"@ {
        Some(AuthMode::Jwks)
    } else if word == "introspection"@ {
        Some(AuthMode::Introspection)
    } else {
        None
    }
}

/// What is wrong with a text that must name a mode.
pub open spec fn mode_problem(raw: Seq<char>) -> Option<Seq<char>> {
    if mode_of(raw) is None {
        Some(
            "invalid GA4_MCP_AUTH_MODE value "@ + report_args::debug_text(raw)
                + "; expected delegation/jwks/introspection"@,
        )
    } else {
        None
    }
}

/// The mode that a text names.
pub fn parse_auth_mode(raw: &str) -> (r: Result<AuthMode, String>)
    ensures
        match mode_problem(raw@) {
            Some(message) => r matches Err(said) && said@ == message,
            None => r matches Ok(mode) && mode_of(raw@) == Some(mode),
        },
{
    let word: String = text::to_lower(text::trimmed(raw).as_str());
    if text::same_text(word.as_str(), "delegation") {
        Ok(AuthMode::Delegation)
    } else if text::same_text(word.as_str(), "jwks") {
        Ok(AuthMode::Jwks)
    } else if text::same_text(word.as_str(), "introspection") {
        Ok(AuthMode::Introspection)
    } else {
        let mut message: String = error::labelled(
            "invalid GA4_MCP_AUTH_MODE value ",
            report_args::debug_of(raw).as_str(),
        );
        message.append("; expected delegation/jwks/introspection");
        Err(message)
    }
}

/// The method that a text names.
pub open spec fn method_of(raw: Seq<char>) -> Option<ClientAuthMethod> {
    let word = text::lowered(text::trim(raw));
    if word == "client_secret_basic"@ {
        Some(ClientAuthMethod::ClientSecretBasic)
    } else if word == "client_secret_post"@ {
        Some(ClientAuthMethod::ClientSecretPost)
    } else {
        None
    }
}

/// What is wrong with a text that must name a method.
pub open spec fn method_problem(raw: Seq<char>) -> Option<Seq<char>> {
    if method_of(raw) is None {
        Some(
            "invalid GA4_MCP_AUTH_INTROSPECTION_AUTH_METHOD value "@ + report_args::debug_text(raw)
                + "; expected client_secret_basic/client_secret_post"@,
        )
    } else {
        None
    }
}

/// The method that a text names.
pub fn parse_auth_method(raw: &str) -> (r: Result<ClientAuthMethod, String>)
    ensures
        match method_problem(raw@) {
            Some(message) => r matches Err(said) && said@ == message,
            None => r matches Ok(method) && method_of(raw@) == Some(method),
        },
{
    let word: String = text::to_lower(text::trimmed(raw).as_str());
    if text::same_text(word.as_str(), "client_secret_basic") {
        Ok(ClientAuthMethod::ClientSecretBasic)
    } else if text::same_text(word.as_str(), "client_secret_post") {
        Ok(ClientAuthMethod::ClientSecretPost)
    } else {
        let mut message: String = error::labelled(
            "invalid GA4_MCP_AUTH_INTROSPECTION_AUTH_METHOD value ",
            report_args::debug_of(raw).as_str(),
        );
        message.append("; expected client_secret_basic/client_secret_post");
        Err(message)
    }
}

/// Whether a text is there and not blank.
pub open spec fn given(value: Option<String>) -> bool {
    value matches Some(held) && !text::is_blank(held@)
}

fn is_given(value: &Option<String>) -> (r: bool)
    ensures
        r == given(*value),
{
    match value {
        Some(held) => !text::blank(held.as_str()),
        None => false,
    }
}

/// What the mode of an authentication lacks.
pub open spec fn mode_gap(config: AuthConfig) -> Option<Seq<char>> {
    match config.mode {
        AuthMode::Jwks => if !given(config.jwks_url) || !given(config.issuer) || !given(
            config.audience,
        ) {
            Some(
                "GA4_MCP_AUTH_MODE=jwks requires GA4_MCP_AUTH_JWKS_URL, GA4_MCP_AUTH_ISSUER, and GA4_MCP_AUTH_AUDIENCE"@,
            )
        } else if given(config.introspection_url) && (!given(config.introspection_client_id)
            || !given(config.introspection_client_secret)) {
            Some(
                "JWKS mode with GA4_MCP_AUTH_INTROSPECTION_URL also requires GA4_MCP_AUTH_INTROSPECTION_CLIENT_ID and GA4_MCP_AUTH_INTROSPECTION_CLIENT_SECRET"@,
            )
        } else {
            None
        },
        AuthMode::Introspection => if !given(config.introspection_url) {
            Some(
                "GA4_MCP_AUTH_MODE=introspection requires GA4_MCP_AUTH_INTROSPECTION_URL"@,
            )
        } else if !given(config.introspection_client_id) || !given(
            config.introspection_client_secret,
        ) {
            Some(
                "GA4_MCP_AUTH_MODE=introspection requires GA4_MCP_AUTH_INTROSPECTION_CLIENT_ID and GA4_MCP_AUTH_INTROSPECTION_CLIENT_SECRET"@,
            )
        } else if !given(config.issuer) || !given(config.audience) {
            Some(
                "GA4_MCP_AUTH_MODE=introspection requires GA4_MCP_AUTH_ISSUER and GA4_MCP_AUTH_AUDIENCE"@,
            )
        } else {
            None
        },
        AuthMode::Delegation => if !given(config.delegation_secret) {
            Some("GA4_MCP_AUTH_MODE=delegation requires GA4_MCP_AUTH_DELEGATION_SECRET"@)
        } else if text::is_blank(config.delegation_issuer@) || text::is_blank(
            config.delegation_audience@,
        ) {
            Some(
                "GA4_MCP_AUTH_MODE=delegation requires non-empty GA4_MCP_AUTH_DELEGATION_ISSUER and GA4_MCP_AUTH_DELEGATION_AUDIENCE"@,
            )
        } else if given(config.introspection_url) {
            Some(
                "GA4_MCP_AUTH_INTROSPECTION_URL is not supported with GA4_MCP_AUTH_MODE=delegation"@,
            )
        } else {
            None
        },
    }
}

/// What is wrong with an authentication.
pub open spec fn auth_config_problem(config: AuthConfig) -> Option<Seq<char>> {
    if config.required_scopes@.len() == 0 {
        Some(
            "GA4_MCP_AUTH_REQUIRED_SCOPES must include at least one scope when auth is enabled"@,
        )
    } else if text::is_blank(config.actor_claim@) {
        Some("GA4_MCP_AUTH_ACTOR_CLAIM must not be empty when auth is enabled"@)
    } else {
        mode_gap(config)
    }
}

fn refused(message: &str) -> (r: Result<(), String>)
    ensures
        message_of(r) == Some(message@),
{
    Err(message.to_owned())
}

/// Checks that an authentication has what its mode needs.
pub fn validate_auth_config_for_mode(auth_config: &AuthConfig) -> (r: Result<(), String>)
    ensures
        message_of(r) == auth_config_problem(*auth_config),
{
    if auth_config.required_scopes.len() == 0 {
        return refused(
            "GA4_MCP_AUTH_REQUIRED_SCOPES must include at least one scope when auth is enabled",
        );
    }
    if text::blank(auth_config.actor_claim.as_str()) {
        return refused("GA4_MCP_AUTH_ACTOR_CLAIM must not be empty when auth is enabled");
    }
    let has_issuer: bool = is_given(&auth_config.issuer);
    let has_audience: bool = is_given(&auth_config.audience);
    let has_introspection_url: bool = is_given(&auth_config.introspection_url);
    let has_introspection_client: bool = is_given(&auth_config.introspection_client_id) && is_given(
        &auth_config.introspection_client_secret,
    );
    match auth_config.mode {
        AuthMode::Jwks => {
            if !is_given(&auth_config.jwks_url) || !has_issuer || !has_audience {
                return refused(
                    "GA4_MCP_AUTH_MODE=jwks requires GA4_MCP_AUTH_JWKS_URL, GA4_MCP_AUTH_ISSUER, and GA4_MCP_AUTH_AUDIENCE",
                );
            }
            if has_introspection_url && !has_introspection_client {
                return refused(
                    "JWKS mode with GA4_MCP_AUTH_INTROSPECTION_URL also requires GA4_MCP_AUTH_INTROSPECTION_CLIENT_ID and GA4_MCP_AUTH_INTROSPECTION_CLIENT_SECRET",
                );
            }
        },
        AuthMode::Introspection => {
            if !has_introspection_url {
                return refused(
                    "GA4_MCP_AUTH_MODE=introspection requires GA4_MCP_AUTH_INTROSPECTION_URL",
                );
            }
            if !has_introspection_client {
                return refused(
                    "GA4_MCP_AUTH_MODE=introspection requires GA4_MCP_AUTH_INTROSPECTION_CLIENT_ID and GA4_MCP_AUTH_INTROSPECTION_CLIENT_SECRET",
                );
            }
            if !has_issuer || !has_audience {
                return refused(
                    "GA4_MCP_AUTH_MODE=introspection requires GA4_MCP_AUTH_ISSUER and GA4_MCP_AUTH_AUDIENCE",
                );
            }
        },
        AuthMode::Delegation => {
            if !is_given(&auth_config.delegation_secret) {
                return refused(
                    "GA4_MCP_AUTH_MODE=delegation requires GA4_MCP_AUTH_DELEGATION_SECRET",
                );
            }
            if text::blank(auth_config.delegation_issuer.as_str()) || text::blank(
                auth_config.delegation_audience.as_str(),
            ) {
                return refused(
                    "GA4_MCP_AUTH_MODE=delegation requires non-empty GA4_MCP_AUTH_DELEGATION_ISSUER and GA4_MCP_AUTH_DELEGATION_AUDIENCE",
                );
            }
            if has_introspection_url {
                return refused(
                    "GA4_MCP_AUTH_INTROSPECTION_URL is not supported with GA4_MCP_AUTH_MODE=delegation",
                );
            }
        },
    }
    Ok(())
}

/// How requests are authenticated.
#[derive(Debug)]
pub struct HttpAuthSettings {
    pub enabled: bool,
    pub realm: String,
    pub resource_url: Option<String>,
    pub issuer: Option<String>,
    pub required_scopes: Vec<String>,
    pub scopes_supported: Vec<String>,
    pub allowed_client_ids: Vec<String>,
    pub auth_config: AuthConfig,
}

/// The first thing that is wrong with the variables of an authentication, apart from what
/// its mode needs.
pub open spec fn auth_env_problem(env: AuthEnv) -> Option<Seq<char>> {
    earlier(
        mode_problem(setting(env.mode, "jwks"@)),
        earlier(
            flag_problem("GA4_MCP_AUTH_STRICT_OAUTH"@, env.strict_oauth),
            earlier(
                method_problem(setting(env.introspection_auth_method, "client_secret_basic"@)),
                earlier(
                    number_problem(
                        "GA4_MCP_AUTH_INTROSPECTION_CACHE_TTL_S"@,
                        env.introspection_cache_ttl_s,
                    ),
                    earlier(
                        flag_problem(
                            "GA4_MCP_AUTH_INTROSPECTION_FORCE"@,
                            env.introspection_force,
                        ),
                        earlier(
                            number_problem("GA4_MCP_AUTH_JTI_TTL_S"@, env.jti_ttl_s),
                            earlier(
                                whole_problem(
                                    "GA4_MCP_AUTH_JTI_CACHE_SIZE"@,
                                    env.jti_cache_size,
                                ),
                                earlier(
                                    flag_problem(
                                        "GA4_MCP_AUTH_JTI_ENFORCE_BEARER"@,
                                        env.jti_enforce_bearer,
                                    ),
                                    number_problem(
                                        "GA4_MCP_AUTH_CLOCK_SKEW_S"@,
                                        env.clock_skew_s,
                                    ),
                                ),
                            ),
                        ),
                    ),
                ),
            ),
        ),
    )
}

impl AuthConfig {
    /// Whether this is the authentication of the variables, with the truth values and the
    /// cache size of a profile where none are set.
    pub open spec fn settles(self, env: AuthEnv, profile: AuthConfig) -> bool {
        &&& mode_of(setting(env.mode, "jwks"@)) == Some(self.mode)
        &&& self.strict_oauth == flag_setting(env.strict_oauth, profile.strict_oauth)
        &&& text::opt_text(self.jwks_url) == optional(env.jwks_url)
        &&& text::opt_text(self.issuer) == optional(env.issuer)
        &&& text::opt_text(self.audience) == optional(env.audience)
        &&& text::texts(self.required_scopes@) == csv(setting(env.required_scopes, "ga4:read"@))
        &&& self.actor_claim@ == setting(env.actor_claim, "sub"@)
        &&& text::opt_text(self.introspection_url) == optional(env.introspection_url)
        &&& text::opt_text(self.introspection_client_id) == optional(env.introspection_client_id)
        &&& text::opt_text(self.introspection_client_secret) == optional(
            env.introspection_client_secret,
        )
        &&& method_of(setting(env.introspection_auth_method, "client_secret_basic"@)) == Some(
            self.introspection_auth_method,
        )
        &&& text::opt_text(self.introspection_cache_ttl_s) == text::opt_text(
            env.introspection_cache_ttl_s.raw,
        )
        &&& self.introspection_force == flag_setting(
            env.introspection_force,
            profile.introspection_force,
        )
        &&& text::opt_text(self.delegation_secret) == optional(env.delegation_secret)
        &&& self.delegation_issuer@ == setting(env.delegation_issuer, "ga4-mcp"@)
        &&& self.delegation_audience@ == setting(env.delegation_audience, "ga4-mcp"@)
        &&& text::opt_text(self.jti_ttl_s) == text::opt_text(env.jti_ttl_s.raw)
        &&& whole_setting(env.jti_cache_size, profile.jti_cache_size) == Some(
            self.jti_cache_size,
        )
        &&& self.jti_enforce_bearer == flag_setting(
            env.jti_enforce_bearer,
            profile.jti_enforce_bearer,
        )
        &&& text::opt_text(self.clock_skew_s) == text::opt_text(env.clock_skew_s.raw)
    }

    /// The authentication of the variables.
    pub fn from_env(env: &AuthEnv, profile: &AuthConfig) -> (r: Result<Self, String>)
        ensures
            match auth_env_problem(*env) {
                Some(message) => r matches Err(said) && said@ == message,
                None => r matches Ok(found) && found.settles(*env, *profile),
            },
    {
        let mode: AuthMode = match parse_auth_mode(env_setting(&env.mode, "jwks").as_str()) {
            Ok(mode) => mode,
            Err(message) => {
                return Err(message);
            },
        };
        let strict_oauth: bool = match env_flag(
            "GA4_MCP_AUTH_STRICT_OAUTH",
            &env.strict_oauth,
            profile.strict_oauth,
        ) {
            Ok(value) => value,
            Err(message) => {
                return Err(message);
            },
        };
        let introspection_auth_method: ClientAuthMethod = match parse_auth_method(
            env_setting(&env.introspection_auth_method, "client_secret_basic").as_str(),
        ) {
            Ok(method) => method,
            Err(message) => {
                return Err(message);
            },
        };
        match check_number(
            "GA4_MCP_AUTH_INTROSPECTION_CACHE_TTL_S",
            &env.introspection_cache_ttl_s,
        ) {
            Ok(()) => {},
            Err(message) => {
                return Err(message);
            },
        }
        let introspection_force: bool = match env_flag(
            "GA4_MCP_AUTH_INTROSPECTION_FORCE",
            &env.introspection_force,
            profile.introspection_force,
        ) {
            Ok(value) => value,
            Err(message) => {
                return Err(message);
            },
        };
        match check_number("GA4_MCP_AUTH_JTI_TTL_S", &env.jti_ttl_s) {
            Ok(()) => {},
            Err(message) => {
                return Err(message);
            },
        }
        let jti_cache_size: i64 = match env_i64(
            "GA4_MCP_AUTH_JTI_CACHE_SIZE",
            &env.jti_cache_size,
            profile.jti_cache_size,
        ) {
            Ok(size) => size,
            Err(message) => {
                return Err(message);
            },
        };
        let jti_enforce_bearer: bool = match env_flag(
            "GA4_MCP_AUTH_JTI_ENFORCE_BEARER",
            &env.jti_enforce_bearer,
            profile.jti_enforce_bearer,
        ) {
            Ok(value) => value,
            Err(message) => {
                return Err(message);
            },
        };
        match check_number("GA4_MCP_AUTH_CLOCK_SKEW_S", &env.clock_skew_s) {
            Ok(()) => {},
            Err(message) => {
                return Err(message);
            },
        }
        Ok(
            AuthConfig {
                mode,
                strict_oauth,
                jwks_url: env_optional_string(&env.jwks_url),
                issuer: env_optional_string(&env.issuer),
                audience: env_optional_string(&env.audience),
                required_scopes: parse_csv(
                    env_setting(&env.required_scopes, "ga4:read").as_str(),
                ),
                actor_claim: env_setting(&env.actor_claim, "sub"),
                introspection_url: env_optional_string(&env.introspection_url),
                introspection_client_id: env_optional_string(&env.introspection_client_id),
                introspection_client_secret: env_optional_string(&env.introspection_client_secret),
                introspection_auth_method,
                introspection_cache_ttl_s: text::clone_opt(&env.introspection_cache_ttl_s.raw),
                introspection_force,
                delegation_secret: env_optional_string(&env.delegation_secret),
                delegation_issuer: env_setting(&env.delegation_issuer, "ga4-mcp"),
                delegation_audience: env_setting(&env.delegation_audience, "ga4-mcp"),
                jti_ttl_s: text::clone_opt(&env.jti_ttl_s.raw),
                jti_cache_size,
                jti_enforce_bearer,
                clock_skew_s: text::clone_opt(&env.clock_skew_s.raw),
            },
        )
    }
}

impl HttpAuthSettings {
    /// Whether these are the settings of a server that does not authenticate requests.
    pub open spec fn is_disabled(self, profile: AuthConfig) -> bool {
        &&& !self.enabled
        &&& self.realm@ == "ga4-mcp"@
        &&& self.resource_url is None
        &&& self.issuer is None
        &&& self.required_scopes@.len() == 0
        &&& self.scopes_supported@.len() == 0
        &&& self.allowed_client_ids@.len() == 0
        &&& self.auth_config == (AuthConfig {
            required_scopes: self.auth_config.required_scopes,
            ..profile
        })
        &&& self.auth_config.required_scopes@.len() == 0
    }

    /// The settings of a server that does not authenticate requests.
    pub fn disabled(profile: AuthConfig) -> (r: Self)
        ensures
            r.is_disabled(profile),
    {
        HttpAuthSettings {
            enabled: false,
            realm: "ga4-mcp".to_owned(),
            resource_url: None,
            issuer: None,
            required_scopes: Vec::new(),
            scopes_supported: Vec::new(),
            allowed_client_ids: Vec::new(),
            auth_config: AuthConfig { required_scopes: Vec::new(), ..profile },
        }
    }

    /// Whether these are the settings of the variables.
    pub open spec fn settles(self, env: AuthEnv, profile: AuthConfig) -> bool {
        if !flag_setting(env.enabled, false) {
            self.is_disabled(profile)
        } else {
            let supported = csv(setting(env.scopes_supported, ""@));
            &&& self.enabled
            &&& self.auth_config.settles(env, profile)
            &&& auth_config_problem(self.auth_config) is None
            &&& self.realm@ == setting(env.realm, "ga4-mcp"@)
            &&& text::opt_text(self.resource_url) == optional(env.resource_url)
            &&& text::opt_text(self.issuer) == optional(env.issuer)
            &&& text::texts(self.required_scopes@) == csv(
                setting(env.required_scopes, "ga4:read"@),
            )
            &&& text::texts(self.scopes_supported@) == (if supported.len() == 0 {
                csv(setting(env.required_scopes, "ga4:read"@))
            } else {
                supported
            })
            &&& text::texts(self.allowed_client_ids@) == csv(
                setting(env.allowed_client_ids, ""@),
            )
        }
    }

    /// The first thing that is wrong with the variables, apart from what the mode of the
    /// authentication needs.
    pub open spec fn env_problem(env: AuthEnv) -> Option<Seq<char>> {
        earlier(
            flag_problem("GA4_MCP_AUTH_ENABLED"@, env.enabled),
            if flag_setting(env.enabled, false) {
                auth_env_problem(env)
            } else {
                None
            },
        )
    }

    /// Whether a message is that on the first thing that is wrong with the variables.
    pub open spec fn refuses(env: AuthEnv, profile: AuthConfig, message: Seq<char>) -> bool {
        match Self::env_problem(env) {
            Some(said) => message == said,
            None => flag_setting(env.enabled, false) && exists|found: AuthConfig| #[trigger]
                found.settles(env, profile) && auth_config_problem(found) == Some(message),
        }
    }

    /// The settings of the variables, with a profile for what is not set.
    pub fn from_env(env: &AuthEnv, profile: AuthConfig) -> (r: Result<Self, String>)
        ensures
            match r {
                Ok(settings) => Self::env_problem(*env) is None && settings.settles(*env, profile),
                Err(message) => Self::refuses(*env, profile, message@),
            },
    {
        let enabled: bool = match env_flag("GA4_MCP_AUTH_ENABLED", &env.enabled, false) {
            Ok(value) => value,
            Err(message) => {
                return Err(message);
            },
        };
        if !enabled {
            return Ok(Self::disabled(profile));
        }
        let auth_config: AuthConfig = match AuthConfig::from_env(env, &profile) {
            Ok(found) => found,
            Err(message) => {
                return Err(message);
            },
        };
        match validate_auth_config_for_mode(&auth_config) {
            Ok(()) => {},
            Err(message) => {
                assert(auth_config.settles(*env, profile));
                return Err(message);
            },
        }
        let required_scopes: Vec<String> = text::clone_texts(
            auth_config.required_scopes.as_slice(),
        );
        let configured: Vec<String> = parse_csv(env_setting(&env.scopes_supported, "").as_str());
        let ghost supported = csv(setting(env.scopes_supported, ""@));
        assert(supported.len() == configured@.len());
        let scopes_supported: Vec<String> = if configured.len() == 0 {
            text::clone_texts(required_scopes.as_slice())
        } else {
            configured
        };
        let issuer: Option<String> = text::clone_opt(&auth_config.issuer);
        Ok(
            HttpAuthSettings {
                enabled,
                realm: env_setting(&env.realm, "ga4-mcp"),
                resource_url: env_optional_string(&env.resource_url),
                issuer,
                required_scopes,
                scopes_supported,
                allowed_client_ids: parse_csv(env_setting(&env.allowed_client_ids, "").as_str()),
                auth_config,
            },
        )
    }
}

// ---------------------------------------------------------------------------
// Exposure.
// ---------------------------------------------------------------------------

/// What is wrong with a URL that must be an `https` one where it is set.
pub open spec fn https_problem(var_name: Seq<char>, value: Option<String>) -> Option<Seq<char>> {
    if !given(value) {
        None
    } else {
        let url = text::lowered(text::trim(value->Some_0@));
        if text::begins(url, "http://"@) {
            Some(var_name + " must use https:// for non-loopback/public exposure"@)
        } else if !text::begins(url, "https://"@) {
            Some(
                var_name + " must be an absolute https URL for non-loopback/public exposure"@,
            )
        } else {
            None
        }
    }
}

/// Checks that a URL is an `https` one where it is set.
pub fn ensure_https_url_if_set(var_name: &str, value: &Option<String>) -> (r: Result<(), String>)
    ensures
        message_of(r) == https_problem(var_name@, *value),
{
    match value {
        Some(held) => {
            let trimmed: String = text::trimmed(held.as_str());
            if trimmed.as_str().is_empty() {
                return Ok(());
            }
            let url: String = text::to_lower(trimmed.as_str());
            if text::starts_with(url.as_str(), "http://") {
                return Err(
                    error::labelled(
                        var_name,
                        " must use https:// for non-loopback/public exposure",
                    ),
                );
            }
            if !text::starts_with(url.as_str(), "https://") {
                return Err(
                    error::labelled(
                        var_name,
                        " must be an absolute https URL for non-loopback/public exposure",
                    ),
                );
            }
            Ok(())
        },
        None => Ok(()),
    }
}

/// What is wrong with the authentication of a server that others can reach.
pub open spec fn exposure_problem(
    allow_non_loopback: bool,
    auth: HttpAuthSettings,
) -> Option<Seq<char>> {
    if !allow_non_loopback || !auth.enabled {
        None
    } else if !auth.auth_config.strict_oauth {
        Some("public exposure requires strict OAuth parsing; set GA4_MCP_AUTH_STRICT_OAUTH=1"@)
    } else {
        earlier(
            https_problem("GA4_MCP_AUTH_RESOURCE_URL"@, auth.resource_url),
            earlier(
                https_problem("GA4_MCP_AUTH_ISSUER"@, auth.issuer),
                earlier(
                    https_problem("GA4_MCP_AUTH_JWKS_URL"@, auth.auth_config.jwks_url),
                    https_problem(
                        "GA4_MCP_AUTH_INTROSPECTION_URL"@,
                        auth.auth_config.introspection_url,
                    ),
                ),
            ),
        )
    }
}

/// Checks the authentication of a server that others can reach.
pub fn validate_public_exposure_auth_posture(
    allow_non_loopback: bool,
    auth: &HttpAuthSettings,
) -> (r: Result<(), String>)
    ensures
        message_of(r) == exposure_problem(allow_non_loopback, *auth),
{
    if !allow_non_loopback || !auth.enabled {
        return Ok(());
    }
    if !auth.auth_config.strict_oauth {
        return refused(
            "public exposure requires strict OAuth parsing; set GA4_MCP_AUTH_STRICT_OAUTH=1",
        );
    }
    match ensure_https_url_if_set("GA4_MCP_AUTH_RESOURCE_URL", &auth.resource_url) {
        Ok(()) => {},
        Err(message) => {
            return Err(message);
        },
    }
    match ensure_https_url_if_set("GA4_MCP_AUTH_ISSUER", &auth.issuer) {
        Ok(()) => {},
        Err(message) => {
            return Err(message);
        },
    }
    match ensure_https_url_if_set("GA4_MCP_AUTH_JWKS_URL", &auth.auth_config.jwks_url) {
        Ok(()) => {},
        Err(message) => {
            return Err(message);
        },
    }
    ensure_https_url_if_set("GA4_MCP_AUTH_INTROSPECTION_URL", &auth.auth_config.introspection_url)
}

/// The settings of the HTTP runtime.
#[derive(Debug)]
pub struct HttpSettings {
    pub bind_addr: String,
    pub allow_non_loopback: bool,
    pub allowed_hosts: Vec<String>,
    pub allowed_cidrs: Vec<Cidr>,
    pub tls_cert_path: Option<String>,
    pub tls_key_path: Option<String>,
    pub auth: HttpAuthSettings,
}

/// Whether two texts differ at most in the case of their ASCII letters.
pub open spec fn same_ignoring_case(a: Seq<char>, b: Seq<char>) -> bool {
    text::lowered(a) == text::lowered(b)
}

/// What is wrong with the credentials of a server.
pub open spec fn credential_problem(
    settings: HttpSettings,
    source: UpstreamTokenSource,
    header: Seq<char>,
) -> Option<Seq<char>> {
    if settings.auth.enabled && source != UpstreamTokenSource::Config && same_ignoring_case(
        header,
        "authorization"@,
    ) {
        Some(
            "GA4_MCP_AUTH_ENABLED=1 cannot share the authorization header with upstream Google tokens; set GOOGLE_ANALYTICS_MCP_UPSTREAM_TOKEN_HEADER=x-google-access-token"@,
        )
    } else if settings.allow_non_loopback && source != UpstreamTokenSource::RequestHeader {
        Some(
            "non-loopback HTTP exposure must use GOOGLE_ANALYTICS_MCP_UPSTREAM_TOKEN_SOURCE=request_header so each client supplies its own Google token; request_header_or_config and config can fall back to server-held credentials"@,
        )
    } else {
        None
    }
}

/// Checks the credentials of a server.
pub fn validate_http_runtime_credential_posture(
    settings: &HttpSettings,
    upstream_token_source: UpstreamTokenSource,
    upstream_token_header: &str,
) -> (r: Result<(), String>)
    ensures
        message_of(r) == credential_problem(
            *settings,
            upstream_token_source,
            upstream_token_header@,
        ),
{
    if settings.auth.enabled && upstream_token_source.uses_request_header() && text::same_text(
        text::to_lower(upstream_token_header).as_str(),
        text::to_lower("authorization").as_str(),
    ) {
        return refused(
            "GA4_MCP_AUTH_ENABLED=1 cannot share the authorization header with upstream Google tokens; set GOOGLE_ANALYTICS_MCP_UPSTREAM_TOKEN_HEADER=x-google-access-token",
        );
    }
    if settings.allow_non_loopback && upstream_token_source != UpstreamTokenSource::RequestHeader {
        return refused(
            "non-loopback HTTP exposure must use GOOGLE_ANALYTICS_MCP_UPSTREAM_TOKEN_SOURCE=request_header so each client supplies its own Google token; request_header_or_config and config can fall back to server-held credentials",
        );
    }
    Ok(())
}

/// The first thing that is wrong with the variables of a server, apart from those of its
/// authentication.
pub open spec fn http_env_problem(env: HttpEnv, bind: Result<BindAddr, String>) -> Option<
    Seq<char>,
> {
    let allow = flag_setting(env.allow_non_loopback, false);
    let hosts = hosts_of(setting(env.allowed_hosts, DEFAULT_ALLOWED_HOSTS@));
    let cidrs = setting(env.allowed_cidrs, DEFAULT_ALLOWED_CIDRS@);
    let cert = optional(env.tls_cert_path);
    let key = optional(env.tls_key_path);
    match bind {
        Err(message) => Some("invalid GA4_MCP_BIND_ADDR: "@ + message@),
        Ok(address) => if flag_problem(
            "GA4_MCP_ALLOW_NON_LOOPBACK"@,
            env.allow_non_loopback,
        ) is Some {
            flag_problem("GA4_MCP_ALLOW_NON_LOOPBACK"@, env.allow_non_loopback)
        } else if !allow && !address.loopback {
            Some(
                "non-loopback bind denied; set GA4_MCP_ALLOW_NON_LOOPBACK=1 to override"@,
            )
        } else if hosts.len() == 0 {
            Some("GA4_MCP_ALLOWED_HOSTS must not be empty"@)
        } else if cidrs_problem(cidrs, "GA4_MCP_ALLOWED_CIDRS"@) is Some {
            cidrs_problem(cidrs, "GA4_MCP_ALLOWED_CIDRS"@)
        } else if csv(cidrs).len() == 0 {
            Some("GA4_MCP_ALLOWED_CIDRS must not be empty"@)
        } else if cert is Some != key is Some {
            Some(
                "GA4_MCP_TLS_CERT_PATH and GA4_MCP_TLS_KEY_PATH must both be set together"@,
            )
        } else if allow && cert is None {
            Some(
                "non-loopback HTTP exposure requires native TLS; set GA4_MCP_TLS_CERT_PATH and GA4_MCP_TLS_KEY_PATH"@,
            )
        } else {
            None
        },
    }
}

/// The address that the variables name.
pub fn bind_addr_text(env: &HttpEnv) -> (r: String)
    ensures
        r@ == setting(env.bind_addr, DEFAULT_BIND_ADDR@),
{
    env_setting(&env.bind_addr, DEFAULT_BIND_ADDR)
}

impl HttpSettings {
    /// Whether these are the settings of the variables.
    pub open spec fn settles(
        self,
        env: HttpEnv,
        bind: Result<BindAddr, String>,
        profile: AuthConfig,
    ) -> bool {
        &&& bind matches Ok(address) && self.bind_addr@ == address.shown@
        &&& self.allow_non_loopback == flag_setting(env.allow_non_loopback, false)
        &&& text::texts(self.allowed_hosts@) == hosts_of(
            setting(env.allowed_hosts, DEFAULT_ALLOWED_HOSTS@),
        )
        &&& are_cidrs_of(self.allowed_cidrs@, setting(env.allowed_cidrs, DEFAULT_ALLOWED_CIDRS@))
        &&& text::opt_text(self.tls_cert_path) == optional(env.tls_cert_path)
        &&& text::opt_text(self.tls_key_path) == optional(env.tls_key_path)
        &&& self.auth.settles(env.auth, profile)
        &&& exposure_problem(self.allow_non_loopback, self.auth) is None
    }

    /// Whether a message is that on the first thing that is wrong with the variables.
    pub open spec fn refuses(
        env: HttpEnv,
        bind: Result<BindAddr, String>,
        profile: AuthConfig,
        message: Seq<char>,
    ) -> bool {
        match http_env_problem(env, bind) {
            Some(said) => message == said,
            None => HttpAuthSettings::refuses(env.auth, profile, message) || (
            HttpAuthSettings::env_problem(env.auth) is None && exists|auth: HttpAuthSettings|
                #[trigger] auth.settles(env.auth, profile) && exposure_problem(
                    flag_setting(env.allow_non_loopback, false),
                    auth,
                ) == Some(message)),
        }
    }

    /// The settings of the variables, given what the address parser made of the address
    /// to listen on, and a profile for the authentication that is not set.
    pub fn from_env(env: &HttpEnv, bind: Result<BindAddr, String>, profile: AuthConfig) -> (r:
        Result<Self, String>)
        ensures
            match r {
                Ok(settings) => http_env_problem(*env, bind) is None
                    && HttpAuthSettings::env_problem(env.auth) is None && settings.settles(
                    *env,
                    bind,
                    profile,
                ),
                Err(message) => Self::refuses(*env, bind, profile, message@),
            },
    {
        let address: BindAddr = match bind {
            Ok(address) => address,
            Err(message) => {
                return Err(error::labelled("invalid GA4_MCP_BIND_ADDR: ", message.as_str()));
            },
        };
        let allow_non_loopback: bool = match env_flag(
            "GA4_MCP_ALLOW_NON_LOOPBACK",
            &env.allow_non_loopback,
            false,
        ) {
            Ok(value) => value,
            Err(message) => {
                return Err(message);
            },
        };
        if !allow_non_loopback && !address.loopback {
            return Err(
                "non-loopback bind denied; set GA4_MCP_ALLOW_NON_LOOPBACK=1 to override".to_owned(),
            );
        }
        let allowed_hosts: Vec<String> = parse_allowed_hosts(
            env_setting(&env.allowed_hosts, DEFAULT_ALLOWED_HOSTS).as_str(),
        );
        assert(text::texts(allowed_hosts@).len() == allowed_hosts@.len());
        if allowed_hosts.len() == 0 {
            return Err("GA4_MCP_ALLOWED_HOSTS must not be empty".to_owned());
        }
        let allowed_cidrs: Vec<Cidr> = match parse_allowed_cidrs(
            env_setting(&env.allowed_cidrs, DEFAULT_ALLOWED_CIDRS).as_str(),
            "GA4_MCP_ALLOWED_CIDRS",
        ) {
            Ok(nets) => nets,
            Err(message) => {
                return Err(message);
            },
        };
        if allowed_cidrs.len() == 0 {
            return Err("GA4_MCP_ALLOWED_CIDRS must not be empty".to_owned());
        }
        let tls_cert_path: Option<String> = env_optional_string(&env.tls_cert_path);
        let tls_key_path: Option<String> = env_optional_string(&env.tls_key_path);
        if tls_cert_path.is_some() != tls_key_path.is_some() {
            return Err(
                "GA4_MCP_TLS_CERT_PATH and GA4_MCP_TLS_KEY_PATH must both be set together".to_owned(),
            );
        }
        if allow_non_loopback && tls_cert_path.is_none() {
            return Err(
                "non-loopback HTTP exposure requires native TLS; set GA4_MCP_TLS_CERT_PATH and GA4_MCP_TLS_KEY_PATH".to_owned(),
            );
        }
        assert(http_env_problem(*env, bind) is None);
        let auth: HttpAuthSettings = match HttpAuthSettings::from_env(&env.auth, profile) {
            Ok(auth) => auth,
            Err(message) => {
                return Err(message);
            },
        };
        match validate_public_exposure_auth_posture(allow_non_loopback, &auth) {
            Ok(()) => {},
            Err(message) => {
                assert(auth.settles(env.auth, profile));
                return Err(message);
            },
        }
        Ok(
            HttpSettings {
                bind_addr: address.shown,
                allow_non_loopback,
                allowed_hosts,
                allowed_cidrs,
                tls_cert_path,
                tls_key_path,
                auth,
            },
        )
    }

    /// Whether one of the networks that may connect holds an address.
    pub open spec fn admits(self, ip: ClientIp) -> bool {
        exists|i: int| 0 <= i < self.allowed_cidrs@.len() && (#[trigger] self.allowed_cidrs@[i]).holds(ip)
    }

    /// Whether one of the networks that may connect holds an address.
    pub fn client_ip_allowed(&self, ip: ClientIp) -> (r: bool)
        ensures
            r == self.admits(ip),
    {
        for i in 0..self.allowed_cidrs.len()
            invariant
                forall|j: int| 0 <= j < i ==> !(#[trigger] self.allowed_cidrs@[j]).holds(ip),
        {
            if self.allowed_cidrs[i].contains(ip) {
                assert(self.allowed_cidrs@[i as int].holds(ip));
                return true;
            }
        }
        false
    }

    /// Whether there is a certificate and a key.
    pub open spec fn has_tls(self) -> bool {
        self.tls_cert_path is Some && self.tls_key_path is Some
    }

    /// The files of the certificate and the key.
    pub fn tls_files(&self) -> (r: Option<(&str, &str)>)
        ensures
            match r {
                Some(files) => text::opt_text(self.tls_cert_path) == Some(files.0@)
                    && text::opt_text(self.tls_key_path) == Some(files.1@),
                None => !self.has_tls(),
            },
    {
        match &self.tls_cert_path {
            Some(cert) => match &self.tls_key_path {
                Some(key) => Some((cert.as_str(), key.as_str())),
                None => None,
            },
            None => None,
        }
    }
}

// ---------------------------------------------------------------------------
// Laws.
// ---------------------------------------------------------------------------

/// A server that others can reach has a certificate, and where it authenticates requests
/// it does so strictly and over `https`.
pub proof fn law_exposed_servers_are_guarded(
    settings: HttpSettings,
    env: HttpEnv,
    bind: Result<BindAddr, String>,
    profile: AuthConfig,
)
    requires
        http_env_problem(env, bind) is None,
        settings.settles(env, bind, profile),
        settings.allow_non_loopback,
    ensures
        settings.has_tls(),
        settings.auth.enabled ==> settings.auth.auth_config.strict_oauth,
        settings.auth.enabled && given(settings.auth.issuer) ==> text::begins(
            text::lowered(text::trim(settings.auth.issuer->Some_0@)),
            "https://"@,
        ),
        settings.auth.enabled && given(settings.auth.resource_url) ==> text::begins(
            text::lowered(text::trim(settings.auth.resource_url->Some_0@)),
            "https://"@,
        ),
        settings.auth.enabled && given(settings.auth.auth_config.jwks_url) ==> text::begins(
            text::lowered(text::trim(settings.auth.auth_config.jwks_url->Some_0@)),
            "https://"@,
        ),
        settings.auth.enabled && given(settings.auth.auth_config.introspection_url)
            ==> text::begins(
            text::lowered(text::trim(settings.auth.auth_config.introspection_url->Some_0@)),
            "https://"@,
        ),
{
}

/// A server that listens on anything but a loopback address was told that it may.
pub proof fn law_loopback_is_the_default(
    settings: HttpSettings,
    env: HttpEnv,
    address: BindAddr,
    profile: AuthConfig,
)
    requires
        http_env_problem(env, Ok(address)) is None,
        settings.settles(env, Ok(address), profile),
        !address.loopback,
    ensures
        env.allow_non_loopback is Some,
        settings.allow_non_loopback,
{
}

/// A server that others can reach never uses credentials of its own: each client brings
/// its token.
pub proof fn law_exposed_servers_hold_no_credentials(
    settings: HttpSettings,
    source: UpstreamTokenSource,
    header: Seq<char>,
)
    requires
        settings.allow_non_loopback,
        credential_problem(settings, source, header) is None,
    ensures
        source == UpstreamTokenSource::RequestHeader,
        settings.auth.enabled ==> !same_ignoring_case(header, "authorization"@),
{
}

/// Every server keeps a list of hosts and a list of networks.
pub proof fn law_allow_lists_are_not_empty(
    settings: HttpSettings,
    env: HttpEnv,
    bind: Result<BindAddr, String>,
    profile: AuthConfig,
)
    requires
        http_env_problem(env, bind) is None,
        settings.settles(env, bind, profile),
    ensures
        settings.allowed_hosts@.len() > 0,
        settings.allowed_cidrs@.len() > 0,
{
    assert(text::texts(settings.allowed_hosts@).len() == settings.allowed_hosts@.len());
}

/// The words that switch a setting on, and those that switch it off, in any case.
pub proof fn law_words_that_switch(
    name: Seq<char>,
    raw: Seq<char>,
    held: String,
    default: bool,
)
    requires
        held@ == raw,
    ensures
        flag(raw) == Some(true) <==> (text::lowered(text::trim(raw)) == "1"@ || text::lowered(
            text::trim(raw),
        ) == "true"@ || text::lowered(text::trim(raw)) == "yes"@ || text::lowered(text::trim(raw))
            == "on"@),
        flag(raw) == Some(false) <==> (text::lowered(text::trim(raw)) == "0"@ || text::lowered(
            text::trim(raw),
        ) == "false"@ || text::lowered(text::trim(raw)) == "no"@ || text::lowered(text::trim(raw))
            == "off"@),
        flag_setting(None, default) == default,
        flag(raw) matches Some(value) ==> flag_setting(Some(held), default) == value,
        flag_problem(name, None) is None,
        flag_problem(name, Some(held)) is None <==> flag(raw) is Some,
{
    reveal_strlit("1");
    assert("1"@.len() == 1);
    reveal_strlit("0");
    assert("0"@.len() == 1);
    reveal_strlit("true");
    assert("true"@.len() == 4);
    reveal_strlit("yes");
    assert("yes"@.len() == 3);
    reveal_strlit("on");
    assert("on"@.len() == 2);
    reveal_strlit("false");
    assert("false"@.len() == 5);
    reveal_strlit("no");
    assert("no"@.len() == 2);
    reveal_strlit("off");
    assert("off"@.len() == 3);
    assert("1"@[0] != "0"@[0]);
    assert("yes"@[0] != "off"@[0]);
    assert("on"@[0] != "no"@[0]);
}

/// A setting is the one that is given, or the usual one.
pub proof fn law_given_settings_count(held: String, default: Seq<char>)
    ensures
        setting(Some(held), default) == held@,
        setting(None, default) == default,
        optional(None) is None,
        text::trim(held@).len() == 0 ==> optional(Some(held)) is None,
        text::trim(held@).len() > 0 ==> optional(Some(held)) == Some(text::trim(held@)),
        given(Some(held)) <==> text::trim(held@).len() > 0,
        !given(None),
{
}

/// A whole number is read from its digits, with a sign or without.
pub proof fn law_whole_numbers_are_read(n: u64)
    ensures
        written_whole(text::decimal(n as nat)) == Some(n as int),
        written_whole(seq!['-'] + text::decimal(n as nat)) == Some(-(n as int)),
        written_whole(seq!['+'] + text::decimal(n as nat)) == Some(n as int),
        n <= i64::MAX ==> whole_of(text::decimal(n as nat)) == Some(n as i64),
        n > i64::MAX ==> whole_of(text::decimal(n as nat)) is None,
        written_whole(Seq::<char>::empty()) is None,
        written_whole(seq!['-']) is None,
{
    let digits = text::decimal(n as nat);
    text::lemma_decimal(n as nat);
    assert(text::is_digit(digits[0]));
    assert((seq!['-'] + digits).drop_first() =~= digits);
    assert((seq!['+'] + digits).drop_first() =~= digits);
    assert(seq!['-'].drop_first().len() == 0);
}

proof fn lemma_split_onto(raw: Seq<char>, item: Seq<char>)
    requires
        !item.contains(','),
    ensures
        text::split(raw + seq![','] + item, seq![',']) == text::split(raw, seq![',']).push(item),
    decreases item.len(),
{
    let whole = raw + seq![','] + item;
    assert(seq![','][0] == ',');
    if item.len() > 0 {
        let short = item.drop_last();
        assert forall|ch: char| short.contains(ch) implies item.contains(ch) by {
            let k = choose|k: int| 0 <= k < short.len() && short[k] == ch;
            assert(item[k] == ch);
        }
        lemma_split_onto(raw, short);
        assert(whole.drop_last() =~= raw + seq![','] + short);
        assert(whole.last() == item.last());
        assert(item.contains(item.last()));
        assert(!seq![','].contains(item.last()));
        let before = text::split(raw, seq![',']).push(short);
        assert(before.drop_last() =~= text::split(raw, seq![',']));
        assert(before.last().push(item.last()) =~= item);
    } else {
        assert(whole.drop_last() =~= raw);
        assert(whole.last() == ',');
        assert(seq![','].contains(','));
        assert(item =~= Seq::<char>::empty());
    }
}

/// A list has one item for each text between its commas that is not blank, in their order and
/// without the white space around them.
pub proof fn law_lists_part_at_commas(raw: Seq<char>, item: Seq<char>)
    requires
        !item.contains(','),
    ensures
        text::trim(item).len() > 0 ==> csv(raw + seq![','] + item) == csv(raw).push(
            text::trim(item),
        ),
        text::trim(item).len() == 0 ==> csv(raw + seq![','] + item) == csv(raw),
        csv(Seq::<char>::empty()).len() == 0,
{
    lemma_split_onto(raw, item);
    let marks = seq![','];
    let whole = raw + seq![','] + item;
    let before = text::split(raw, marks);
    let after = text::split(whole, marks);
    let trimmed = Seq::new(before.len(), |i: int| text::trim(before[i]));
    let more = Seq::new(after.len(), |i: int| text::trim(after[i]));
    assert(more =~= trimmed.push(text::trim(item)));
    assert(more.drop_last() =~= trimmed);
    let none = Seq::<char>::empty();
    let nothing = text::split(none, marks);
    assert(nothing == seq![none]);
    let blank = Seq::new(nothing.len(), |i: int| text::trim(nothing[i]));
    assert(text::trim(none) == none);
    assert(blank.len() == 1 && blank.last() == none);
    assert(text::non_empty(blank.drop_last()).len() == 0);
}

/// Hosts are kept once each, in lower case.
pub proof fn law_hosts_are_kept_in_lower_case(items: Seq<Seq<char>>, n: nat, word: Seq<char>)
    requires
        n <= items.len(),
    ensures
        lowered_once(items, n).contains(word) <==> exists|i: int|
            0 <= i < n && text::lowered(#[trigger] items[i]) == word,
        lowered_once(items, n).no_duplicates(),
    decreases n,
{
    if n > 0 {
        law_hosts_are_kept_in_lower_case(items, (n - 1) as nat, word);
        law_hosts_are_kept_in_lower_case(
            items,
            (n - 1) as nat,
            text::lowered(items[n - 1]),
        );
        let before = lowered_once(items, (n - 1) as nat);
        let after = lowered_once(items, n);
        if after.contains(word) {
            let k = choose|k: int| 0 <= k < after.len() && after[k] == word;
            if k < before.len() {
                assert(before[k] == word);
                assert(before.contains(word));
            } else {
                assert(text::lowered(items[n - 1]) == word);
            }
        }
        if exists|i: int| 0 <= i < n && text::lowered(#[trigger] items[i]) == word {
            let i = choose|i: int| 0 <= i < n && text::lowered(#[trigger] items[i]) == word;
            if before.contains(word) {
                let k = choose|k: int| 0 <= k < before.len() && before[k] == word;
                assert(after[k] == word);
            } else {
                assert(i == n - 1);
                assert(after[before.len() as int] == word);
            }
        }
    }
}

/// A client is let in exactly where one of the ranges holds its address: one of the same kind,
/// and not below its first address nor above its last.
pub proof fn law_clients_come_from_allowed_ranges(settings: HttpSettings, ip: ClientIp)
    ensures
        settings.admits(ip) <==> exists|i: int|
            0 <= i < settings.allowed_cidrs@.len() && (#[trigger] settings.allowed_cidrs@[i]).v6
                == ip.v6 && settings.allowed_cidrs@[i].first <= ip.number && ip.number
                <= settings.allowed_cidrs@[i].last,
{
    if settings.admits(ip) {
        let i = choose|i: int|
            0 <= i < settings.allowed_cidrs@.len() && (
            #[trigger] settings.allowed_cidrs@[i]).holds(ip);
        assert(settings.allowed_cidrs@[i].v6 == ip.v6);
    }
    if exists|i: int|
        0 <= i < settings.allowed_cidrs@.len() && (#[trigger] settings.allowed_cidrs@[i]).v6
            == ip.v6 && settings.allowed_cidrs@[i].first <= ip.number && ip.number
            <= settings.allowed_cidrs@[i].last {
        let i = choose|i: int|
            0 <= i < settings.allowed_cidrs@.len() && (#[trigger] settings.allowed_cidrs@[i]).v6
                == ip.v6 && settings.allowed_cidrs@[i].first <= ip.number && ip.number
                <= settings.allowed_cidrs@[i].last;
        assert(settings.allowed_cidrs@[i].holds(ip));
    }
}

/// Modes and methods by their names, in any case.
pub proof fn law_modes_and_methods_by_name(raw: Seq<char>)
    ensures
        mode_of(raw) == Some(AuthMode::Delegation) <==> text::lowered(text::trim(raw))
            == "delegation"@,
        mode_of(raw) == Some(AuthMode::Jwks) <==> text::lowered(text::trim(raw)) == "jwks"@,
        mode_of(raw) == Some(AuthMode::Introspection) <==> text::lowered(text::trim(raw))
            == "introspection"@,
        mode_problem(raw) is None <==> mode_of(raw) is Some,
        method_of(raw) == Some(ClientAuthMethod::ClientSecretBasic) <==> text::lowered(
            text::trim(raw),
        ) == "client_secret_basic"@,
        method_of(raw) == Some(ClientAuthMethod::ClientSecretPost) <==> text::lowered(
            text::trim(raw),
        ) == "client_secret_post"@,
        method_problem(raw) is None <==> method_of(raw) is Some,
{
    reveal_strlit("delegation");
    assert("delegation"@.len() == 10);
    reveal_strlit("jwks");
    assert("jwks"@.len() == 4);
    reveal_strlit("introspection");
    assert("introspection"@.len() == 13);
    reveal_strlit("client_secret_basic");
    assert("client_secret_basic"@.len() == 19);
    reveal_strlit("client_secret_post");
    assert("client_secret_post"@.len() == 18);
}

/// Each mode needs its own settings: keys need an address, an issuer and an audience; asking
/// needs an address, a client with its secret, an issuer and an audience; delegation needs a
/// secret, an issuer and an audience, and nobody to ask. Every mode needs a scope and a claim.
pub proof fn law_modes_need_their_settings(config: AuthConfig)
    ensures
        auth_config_problem(config) is None <==> config.required_scopes@.len() > 0 && text::trim(
            config.actor_claim@,
        ).len() > 0 && (match config.mode {
            AuthMode::Jwks => given(config.jwks_url) && given(config.issuer) && given(
                config.audience,
            ) && (given(config.introspection_url) ==> given(config.introspection_client_id)
                && given(config.introspection_client_secret)),
            AuthMode::Introspection => given(config.introspection_url) && given(
                config.introspection_client_id,
            ) && given(config.introspection_client_secret) && given(config.issuer) && given(
                config.audience,
            ),
            AuthMode::Delegation => given(config.delegation_secret) && text::trim(
                config.delegation_issuer@,
            ).len() > 0 && text::trim(config.delegation_audience@).len() > 0 && !given(
                config.introspection_url,
            ),
        }),
{
}

/// Every setting of the sign-in comes from the variable of its name, or is the usual one.
pub proof fn law_sign_in_settings_come_from_their_variables(
    found: AuthConfig,
    env: AuthEnv,
    profile: AuthConfig,
)
    requires
        found.settles(env, profile),
    ensures
        mode_of(setting(env.mode, "jwks"@)) == Some(found.mode),
        found.strict_oauth == flag_setting(env.strict_oauth, profile.strict_oauth),
        text::opt_text(found.jwks_url) == optional(env.jwks_url),
        text::opt_text(found.issuer) == optional(env.issuer),
        text::opt_text(found.audience) == optional(env.audience),
        text::texts(found.required_scopes@) == csv(setting(env.required_scopes, "ga4:read"@)),
        found.actor_claim@ == setting(env.actor_claim, "sub"@),
        text::opt_text(found.introspection_url) == optional(env.introspection_url),
        text::opt_text(found.introspection_client_id) == optional(env.introspection_client_id),
        text::opt_text(found.introspection_client_secret)
            == optional( env.introspection_client_secret, ),
        method_of(setting(env.introspection_auth_method, "client_secret_basic"@))
            == Some( found.introspection_auth_method, ),
        text::opt_text(found.introspection_cache_ttl_s)
            == text::opt_text( env.introspection_cache_ttl_s.raw, ),
        found.introspection_force
            == flag_setting( env.introspection_force, profile.introspection_force, ),
        text::opt_text(found.delegation_secret) == optional(env.delegation_secret),
        found.delegation_issuer@ == setting(env.delegation_issuer, "ga4-mcp"@),
        found.delegation_audience@ == setting(env.delegation_audience, "ga4-mcp"@),
        text::opt_text(found.jti_ttl_s) == text::opt_text(env.jti_ttl_s.raw),
        whole_setting(env.jti_cache_size, profile.jti_cache_size) == Some( found.jti_cache_size, ),
        found.jti_enforce_bearer
            == flag_setting( env.jti_enforce_bearer, profile.jti_enforce_bearer, ),
        text::opt_text(found.clock_skew_s) == text::opt_text(env.clock_skew_s.raw),
{
}

/// Without the switch nobody signs in; with it, who may sign in, and what for, is as the
/// variables say.
pub proof fn law_sign_in_is_off_unless_switched_on(
    settings: HttpAuthSettings,
    env: AuthEnv,
    profile: AuthConfig,
)
    requires
        settings.settles(env, profile),
    ensures
        env.enabled is None ==> !settings.enabled,
        settings.enabled == flag_setting(env.enabled, false),
        settings.enabled ==> settings.auth_config.settles(env, profile) && auth_config_problem(
            settings.auth_config,
        ) is None && settings.realm@ == setting(env.realm, "ga4-mcp"@) && text::opt_text(
            settings.resource_url,
        ) == optional(env.resource_url) && text::opt_text(settings.issuer) == optional(env.issuer)
            && text::texts(settings.required_scopes@) == csv(
            setting(env.required_scopes, "ga4:read"@),
        ) && text::texts(settings.allowed_client_ids@) == csv(
            setting(env.allowed_client_ids, ""@),
        ) && (csv(setting(env.scopes_supported, ""@)).len() > 0 ==> text::texts(
            settings.scopes_supported@,
        ) == csv(setting(env.scopes_supported, ""@))) && (csv(
            setting(env.scopes_supported, ""@),
        ).len() == 0 ==> text::texts(settings.scopes_supported@) == csv(
            setting(env.required_scopes, "ga4:read"@),
        )),
        !settings.enabled ==> settings.required_scopes@.len() == 0
            && settings.allowed_client_ids@.len() == 0,
{
}

/// An address that is given is accepted for a public server exactly where it is a secure one, in
/// any case.
pub proof fn law_public_addresses_are_secure(var_name: Seq<char>, held: String)
    ensures
        https_problem(var_name, None) is None,
        text::trim(held@).len() == 0 ==> https_problem(var_name, Some(held)) is None,
        text::trim(held@).len() > 0 ==> (https_problem(var_name, Some(held)) is None
            <==> text::stands_at(text::lowered(text::trim(held@)), "https://"@, 0)),
{
    reveal_strlit("https://");
    reveal_strlit("http://");
    let url = text::lowered(text::trim(held@));
    assert("https://"@.len() == 8 && "http://"@.len() == 7);
    assert(8 <= url.len() ==> url.subrange(0, 8) =~= url.take(8));
    if text::begins(url, "http://"@) && text::begins(url, "https://"@) {
        assert(url.take(7)[4] == ':');
        assert(url.take(8)[4] == 's');
    }
}

/// A public server that people sign in to has to read their tokens strictly, and all its
/// addresses have to be secure; one that is not public, or without a sign-in, need not.
pub proof fn law_public_servers_are_strict(
    allow_non_loopback: bool,
    auth: HttpAuthSettings,
    name: Seq<char>,
)
    ensures
        exposure_problem(allow_non_loopback, auth) is None <==> (!allow_non_loopback
            || !auth.enabled || (auth.auth_config.strict_oauth && https_problem(
            name,
            auth.resource_url,
        ) is None && https_problem(name, auth.issuer) is None && https_problem(
            name,
            auth.auth_config.jwks_url,
        ) is None && https_problem(name, auth.auth_config.introspection_url) is None)),
{
}

/// Tokens for the service and tokens for the server may not share a header, and a public server
/// uses none of its own.
pub proof fn law_tokens_are_kept_apart(
    settings: HttpSettings,
    source: UpstreamTokenSource,
    header: Seq<char>,
)
    ensures
        credential_problem(settings, source, header) is None <==> !(settings.auth.enabled && source
            != UpstreamTokenSource::Config && text::lowered(header) == text::lowered(
            "authorization"@,
        )) && (settings.allow_non_loopback ==> source == UpstreamTokenSource::RequestHeader),
{
}

/// A server can listen where its address can be read and is its own machine's, unless others
/// are let in on purpose, and then it needs a certificate; where it names hosts and ranges that
/// can be read; and where a certificate and its key are given together.
pub proof fn law_servers_listen_to_their_own_machine(
    env: HttpEnv,
    address: BindAddr,
    message: String,
)
    ensures
        http_env_problem(env, Err(message)) is Some,
        http_env_problem(env, Ok(address)) is None <==> flag_problem(
            "GA4_MCP_ALLOW_NON_LOOPBACK"@,
            env.allow_non_loopback,
        ) is None && (address.loopback || flag_setting(env.allow_non_loopback, false)) && hosts_of(
            setting(env.allowed_hosts, "localhost,127.0.0.1,::1"@),
        ).len() > 0 && csv(setting(env.allowed_cidrs, "127.0.0.1/32,::1/128"@)).len() > 0
            && cidrs_problem(
            setting(env.allowed_cidrs, "127.0.0.1/32,::1/128"@),
            "GA4_MCP_ALLOWED_CIDRS"@,
        ) is None && ((optional(env.tls_cert_path) is Some) == (optional(env.tls_key_path)
            is Some)) && (flag_setting(env.allow_non_loopback, false) ==> optional(
            env.tls_cert_path,
        ) is Some),
        DEFAULT_BIND_ADDR@ == "127.0.0.1:9420"@,
{
}

/// Ranges are accepted exactly where each of them can be read.
pub proof fn law_ranges_can_be_read(items: Seq<Seq<char>>)
    ensures
        first_unreadable(items) <= items.len(),
        first_unreadable(items) == items.len() <==> forall|i: int|
            0 <= i < items.len() ==> cidr_of(#[trigger] items[i]) is Some,
        first_unreadable(items) < items.len() ==> cidr_of(items[first_unreadable(items) as int])
            is None,
    decreases items.len(),
{
    if items.len() > 0 && cidr_of(items[0]) is Some {
        let rest = items.skip(1);
        law_ranges_can_be_read(rest);
        if first_unreadable(rest) == rest.len() {
            assert forall|i: int| 0 <= i < items.len() implies cidr_of(
                #[trigger] items[i],
            ) is Some by {
                if i > 0 {
                    assert(rest[i - 1] == items[i]);
                }
            }
        } else {
            assert(
                rest[first_unreadable(rest) as int] == items[(1 + first_unreadable(rest)) as int]
            );
        }
    } else if items.len() > 0 {
        assert(cidr_of(items[0]) is None);
    }
}

/// The settings of a server come from the variables of their names, or are the usual ones.
pub proof fn law_server_settings_come_from_their_variables(
    settings: HttpSettings,
    env: HttpEnv,
    address: BindAddr,
    profile: AuthConfig,
)
    requires
        settings.settles(env, Ok(address), profile),
    ensures
        settings.bind_addr@ == address.shown@,
        settings.allow_non_loopback == flag_setting(env.allow_non_loopback, false),
        text::texts(settings.allowed_hosts@) == hosts_of(
            setting(env.allowed_hosts, "localhost,127.0.0.1,::1"@),
        ),
        are_cidrs_of(
            settings.allowed_cidrs@,
            setting(env.allowed_cidrs, "127.0.0.1/32,::1/128"@),
        ),
        text::opt_text(settings.tls_cert_path) == optional(env.tls_cert_path),
        text::opt_text(settings.tls_key_path) == optional(env.tls_key_path),
        settings.auth.settles(env.auth, profile),
        settings.has_tls() <==> optional(env.tls_cert_path) is Some && optional(env.tls_key_path)
            is Some,
{
}

/// The variables of the sign-in can be read exactly where each switch is a switch, each number a
/// number, and the mode and the method have their names.
pub proof fn law_variables_of_the_sign_in(env: AuthEnv, name: Seq<char>)
    ensures
        auth_env_problem(env) is None <==> mode_of(setting(env.mode, "jwks"@)) is Some && method_of(
            setting(env.introspection_auth_method, "client_secret_basic"@),
        ) is Some && flag_problem(name, env.strict_oauth) is None && flag_problem(
            name,
            env.introspection_force,
        ) is None && flag_problem(name, env.jti_enforce_bearer) is None && number_problem(
            name,
            env.introspection_cache_ttl_s,
        ) is None && number_problem(name, env.jti_ttl_s) is None && number_problem(
            name,
            env.clock_skew_s,
        ) is None && whole_problem(name, env.jti_cache_size) is None,
        flag_setting(env.enabled, false) ==> (HttpAuthSettings::env_problem(env) is None
            <==> flag_problem(name, env.enabled) is None && auth_env_problem(env) is None),
        !flag_setting(env.enabled, false) ==> (HttpAuthSettings::env_problem(env) is None
            <==> flag_problem(name, env.enabled) is None),
{
}

/// A number of the variables counts as it is read: the usual one where none is given, and the one
/// that is given where it is a whole number.
pub proof fn law_numbers_of_variables(name: Seq<char>, held: String, usual: i64)
    ensures
        whole_setting(None, usual) == Some(usual),
        whole_setting(Some(held), usual) == whole_of(text::trim(held@)),
        whole_problem(name, None) is None,
        whole_problem(name, Some(held)) is None <==> whole_of(text::trim(held@)) is Some,
{
}

} // verus!
