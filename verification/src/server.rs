//! # MCP Server Handler
//!
//! Which tools a server offers, where it takes upstream tokens from, and what it notes of
//! its answers.

use vstd::prelude::*;
use vstd::string::*;

use crate::config::{CapabilityProfile, UpstreamTokenSource};
use crate::contract;
use crate::error::{AnalyticsError, Problem};
use crate::http_runtime;
use crate::http_runtime::{EventField, EventLevel, HeaderLine};
use crate::json::{Json, Tree};
use crate::text;

verus! {

/// What a server decides by.
#[derive(Debug)]
pub struct AnalyticsMcp {
    pub capability_profile: CapabilityProfile,
    pub upstream_token_source: UpstreamTokenSource,
    pub upstream_token_header: String,
}

/// The first `n` of `names` that a profile offers.
pub open spec fn offered(profile: CapabilityProfile, names: Seq<Seq<char>>, n: nat) -> Seq<Seq<char>>
    decreases n,
{
    if n == 0 {
        Seq::<Seq<char>>::empty()
    } else {
        let before = offered(profile, names, (n - 1) as nat);
        if profile.offers(names[n - 1]) {
            before.push(names[n - 1])
        } else {
            before
        }
    }
}

/// Whether a profile offers the tool with that name.
pub fn tool_allowed_for_profile(profile: CapabilityProfile, tool_name: &str) -> (r: bool)
    ensures
        r == profile.offers(tool_name@),
{
    profile.allows_tool(tool_name)
}

/// A request to log in upstream: the token that a request brings.
pub open spec fn token_of(
    source: UpstreamTokenSource,
    headers: Seq<HeaderLine>,
    name: Seq<char>,
) -> Option<Seq<char>> {
    if source == UpstreamTokenSource::Config {
        None
    } else {
        http_runtime::text_of_header(headers, name)
    }
}

/// The token that a header of a request brings.
pub fn upstream_token_override_from_parts(headers: &[HeaderLine], header_name: &str) -> (r: Option<
    String,
>)
    ensures
        text::opt_text(r) == http_runtime::text_of_header(headers@, header_name@),
{
    http_runtime::header_text(headers, header_name)
}

/// The answer to a call of a tool that a profile does not offer.
pub open spec fn denial(profile: CapabilityProfile, tool_name: Seq<char>) -> Tree {
    contract::error_tree(Problem::PolicyDenied(profile.name(), tool_name), 0)
}

impl AnalyticsMcp {
    /// A server.
    pub fn new(
        capability_profile: CapabilityProfile,
        upstream_token_source: UpstreamTokenSource,
        upstream_token_header: String,
    ) -> (r: Self)
        ensures
            r.capability_profile == capability_profile,
            r.upstream_token_source == upstream_token_source,
            r.upstream_token_header == upstream_token_header,
    {
        AnalyticsMcp { capability_profile, upstream_token_source, upstream_token_header }
    }

    /// The tools that the server offers, of those that it has.
    pub fn tool_names(&self, registered: &[String]) -> (r: Vec<String>)
        ensures
            text::texts(r@) == offered(
                self.capability_profile,
                text::texts(registered@),
                registered@.len(),
            ),
    {
        let ghost names = text::texts(registered@);
        let mut r: Vec<String> = Vec::new();
        assert(text::texts(r@) =~= Seq::<Seq<char>>::empty());
        for i in 0..registered.len()
            invariant
                names == text::texts(registered@),
                text::texts(r@) == offered(self.capability_profile, names, i as nat),
        {
            assert(names[i as int] == registered@[i as int]@);
            if self.is_tool_allowed(registered[i].as_str()) {
                text::add_text(&mut r, registered[i].as_str());
            }
        }
        r
    }

    /// Whether the server offers the tool with that name.
    pub fn is_tool_allowed(&self, tool_name: &str) -> (r: bool)
        ensures
            r == self.capability_profile.offers(tool_name@),
    {
        tool_allowed_for_profile(self.capability_profile, tool_name)
    }

    /// Whether requests may bring upstream tokens.
    pub fn accepts_upstream_request_tokens(&self) -> (r: bool)
        ensures
            r == (self.upstream_token_source != UpstreamTokenSource::Config),
    {
        self.upstream_token_source.uses_request_header()
    }

    /// The profile of the server.
    pub fn capability_profile(&self) -> (r: CapabilityProfile)
        ensures
            r == self.capability_profile,
    {
        self.capability_profile
    }

    /// The upstream token that a request brings.
    pub fn upstream_token_override(&self, headers: &[HeaderLine]) -> (r: Option<String>)
        ensures
            text::opt_text(r) == token_of(
                self.upstream_token_source,
                headers@,
                self.upstream_token_header@,
            ),
    {
        if !self.upstream_token_source.uses_request_header() {
            return None;
        }
        upstream_token_override_from_parts(headers, self.upstream_token_header.as_str())
    }

    /// The answer to a call of a tool that the server does not offer.
    pub fn refuse_tool(&self, tool_name: &str) -> (r: Option<Json>)
        ensures
            r is None == self.capability_profile.offers(tool_name@),
            r matches Some(answer) ==> answer@ == denial(self.capability_profile, tool_name@),
    {
        if self.is_tool_allowed(tool_name) {
            return None;
        }
        Some(
            contract::error(
                AnalyticsError::policy_denied(self.capability_profile.as_str(), tool_name),
                0,
            ),
        )
    }

    /// What is noted of the upstream token of a call.
    pub fn token_fields(&self, tool_name: &str, request_token_present: bool) -> (r: Vec<EventField>)
        ensures
            http_runtime::fields_view(r@) == http_runtime::no_fields()
                .push(("tool"@, tool_name@))
                .push(("token_source"@, self.upstream_token_source.name()))
                .push(("token_header"@, self.upstream_token_header@))
                .push(
                    (
                        "request_token_present"@,
                        http_runtime::true_or_false(request_token_present),
                    ),
                ),
    {
        let mut fields: Vec<EventField> = Vec::new();
        assert(http_runtime::fields_view(fields@) =~= http_runtime::no_fields());
        http_runtime::add_field(&mut fields, "tool", tool_name);
        http_runtime::add_field(&mut fields, "token_source", self.upstream_token_source.as_str());
        http_runtime::add_field(&mut fields, "token_header", self.upstream_token_header.as_str());
        http_runtime::add_field(
            &mut fields,
            "request_token_present",
            http_runtime::truth(request_token_present),
        );
        fields
    }
}

// ---------------------------------------------------------------------------
// What is noted of an answer.
// ---------------------------------------------------------------------------

/// What an answer says of itself.
#[derive(Debug)]
pub struct ContractSummary {
    pub ok: Option<bool>,
    pub has_data: bool,
    pub has_meta: bool,
    pub has_error: bool,
    pub error_code: Option<String>,
    pub error_reason: Option<String>,
    pub output_mode: Option<String>,
    pub row_count_total: Option<u64>,
    pub row_count_returned: Option<u64>,
    pub truncated: Option<bool>,
    pub next_cursor_present: Option<bool>,
}

/// What an answer says of itself.
#[verifier::ext_equal]
pub struct Summary {
    pub ok: Option<bool>,
    pub has_data: bool,
    pub has_meta: bool,
    pub has_error: bool,
    pub error_code: Option<Seq<char>>,
    pub error_reason: Option<Seq<char>>,
    pub output_mode: Option<Seq<char>>,
    pub row_count_total: Option<u64>,
    pub row_count_returned: Option<u64>,
    pub truncated: Option<bool>,
    pub next_cursor_present: Option<bool>,
}

impl View for ContractSummary {
    type V = Summary;

    open spec fn view(&self) -> Summary {
        Summary {
            ok: self.ok,
            has_data: self.has_data,
            has_meta: self.has_meta,
            has_error: self.has_error,
            error_code: text::opt_text(self.error_code),
            error_reason: text::opt_text(self.error_reason),
            output_mode: text::opt_text(self.output_mode),
            row_count_total: self.row_count_total,
            row_count_returned: self.row_count_returned,
            truncated: self.truncated,
            next_cursor_present: self.next_cursor_present,
        }
    }
}

/// The field of a part of an answer.
pub open spec fn part_field(answer: Tree, part: Seq<char>, key: Seq<char>) -> Option<Tree> {
    match answer.field(part) {
        Some(held) => held.field(key),
        None => None,
    }
}

/// The text of a field.
pub open spec fn as_text(field: Option<Tree>) -> Option<Seq<char>> {
    match field {
        Some(held) => held.as_text(),
        None => None,
    }
}

/// The count of a field.
pub open spec fn as_count(field: Option<Tree>) -> Option<u64> {
    match field {
        Some(held) => held.as_u64(),
        None => None,
    }
}

/// The truth value of a field.
pub open spec fn as_bool(field: Option<Tree>) -> Option<bool> {
    match field {
        Some(Tree::Bool(value)) => Some(value),
        _ => None,
    }
}

/// What an answer says of itself.
pub open spec fn summary_of(answer: Tree) -> Option<Summary> {
    if !(answer is Dict) {
        None
    } else {
        Some(
            Summary {
                ok: as_bool(answer.field("ok"@)),
                has_data: answer.field("data"@) is Some,
                has_meta: answer.field("meta"@) is Some,
                has_error: answer.field("error"@) is Some,
                error_code: as_text(part_field(answer, "error"@, "code"@)),
                error_reason: as_text(part_field(answer, "error"@, "reason"@)),
                output_mode: as_text(part_field(answer, "meta"@, "output_mode"@)),
                row_count_total: as_count(part_field(answer, "meta"@, "row_count_total"@)),
                row_count_returned: as_count(part_field(answer, "meta"@, "row_count_returned"@)),
                truncated: as_bool(part_field(answer, "meta"@, "truncated"@)),
                next_cursor_present: match part_field(answer, "meta"@, "next_cursor"@) {
                    Some(cursor) => Some(!(cursor is Null)),
                    None => None,
                },
            },
        )
    }
}

fn field_of<'a>(answer: &'a Json, part: &str, key: &str) -> (r: Option<&'a Json>)
    ensures
        match r {
            Some(held) => part_field(answer@, part@, key@) == Some(held@),
            None => part_field(answer@, part@, key@) is None,
        },
{
    match answer.get(part) {
        Some(held) => held.get(key),
        None => None,
    }
}

fn text_field(answer: &Json, part: &str, key: &str) -> (r: Option<String>)
    ensures
        text::opt_text(r) == as_text(part_field(answer@, part@, key@)),
{
    match field_of(answer, part, key) {
        Some(held) => match held.as_str() {
            Some(shown) => Some(shown.to_owned()),
            None => None,
        },
        None => None,
    }
}

fn count_field(answer: &Json, part: &str, key: &str) -> (r: Option<u64>)
    ensures
        r == as_count(part_field(answer@, part@, key@)),
{
    match field_of(answer, part, key) {
        Some(held) => held.as_u64(),
        None => None,
    }
}

fn bool_of(held: Option<&Json>) -> (r: Option<bool>)
    ensures
        r == as_bool(match held {
            Some(value) => Some(value@),
            None => None,
        }),
{
    match held {
        Some(Json::Bool(value)) => Some(*value),
        _ => None,
    }
}

/// What an answer says of itself.
pub fn summarize_contract_payload(answer: Option<&Json>) -> (r: Option<ContractSummary>)
    ensures
        match answer {
            None => r is None,
            Some(held) => match summary_of(held@) {
                None => r is None,
                Some(summary) => r matches Some(found) && found@ == summary,
            },
        },
{
    let held: &Json = match answer {
        Some(held) => held,
        None => {
            return None;
        },
    };
    if !held.is_object() {
        return None;
    }
    let next_cursor_present: Option<bool> = match field_of(held, "meta", "next_cursor") {
        Some(cursor) => Some(
            match cursor {
                Json::Null => false,
                _ => true,
            },
        ),
        None => None,
    };
    Some(
        ContractSummary {
            ok: bool_of(held.get("ok")),
            has_data: held.get("data").is_some(),
            has_meta: held.get("meta").is_some(),
            has_error: held.get("error").is_some(),
            error_code: text_field(held, "error", "code"),
            error_reason: text_field(held, "error", "reason"),
            output_mode: text_field(held, "meta", "output_mode"),
            row_count_total: count_field(held, "meta", "row_count_total"),
            row_count_returned: count_field(held, "meta", "row_count_returned"),
            truncated: bool_of(field_of(held, "meta", "truncated")),
            next_cursor_present,
        },
    )
}

/// A truth value in words.
pub open spec fn label_of(value: Option<bool>) -> Seq<char> {
    match value {
        Some(true) => "true"@,
        Some(false) => "false"@,
        None => "unknown"@,
    }
}

/// A truth value in words.
pub fn bool_label(value: Option<bool>) -> (r: &'static str)
    ensures
        r@ == label_of(value),
{
    match value {
        Some(true) => "true",
        Some(false) => "false",
        None => "unknown",
    }
}

/// An event.
#[derive(Debug)]
pub struct Event {
    pub level: EventLevel,
    pub name: &'static str,
    pub fields: Vec<EventField>,
}

/// What an event says.
#[verifier::ext_equal]
pub struct Noted {
    pub level: EventLevel,
    pub name: Seq<char>,
    pub fields: Seq<(Seq<char>, Seq<char>)>,
}

impl View for Event {
    type V = Noted;

    open spec fn view(&self) -> Noted {
        Noted {
            level: self.level,
            name: self.name@,
            fields: http_runtime::fields_view(self.fields@),
        }
    }
}

/// What events say.
pub open spec fn events_view(events: Seq<Event>) -> Seq<Noted> {
    Seq::new(events.len(), |i: int| events[i]@)
}

/// A text, or a word for one that is not there.
pub open spec fn or_word(held: Option<Seq<char>>, word: Seq<char>) -> Seq<char> {
    match held {
        Some(found) => found,
        None => word,
    }
}

/// A count, or a word for one that is not there.
pub open spec fn count_or_unknown(count: Option<u64>) -> Seq<char> {
    match count {
        Some(n) => text::decimal(n as nat),
        None => "unknown"@,
    }
}

/// The event on an answer.
pub open spec fn response_event(tool: Seq<char>, summary: Summary) -> Noted {
    Noted {
        level: if summary.ok == Some(false) {
            EventLevel::Warn
        } else {
            EventLevel::Info
        },
        name: "ga4_mcp.contract.response"@,
        fields: http_runtime::no_fields()
            .push(("tool"@, tool))
            .push(("ok"@, label_of(summary.ok)))
            .push(("has_data"@, label_of(Some(summary.has_data))))
            .push(("has_meta"@, label_of(Some(summary.has_meta))))
            .push(("has_error"@, label_of(Some(summary.has_error))))
            .push(("error_code"@, or_word(summary.error_code, "none"@)))
            .push(("error_reason"@, or_word(summary.error_reason, "none"@))),
    }
}

/// The event on the rows of an answer.
pub open spec fn rows_event(tool: Seq<char>, summary: Summary) -> Noted {
    Noted {
        level: EventLevel::Info,
        name: "ga4_mcp.pagination.meta"@,
        fields: http_runtime::no_fields()
            .push(("tool"@, tool))
            .push(("output_mode"@, or_word(summary.output_mode, "unknown"@)))
            .push(("row_count_total"@, count_or_unknown(summary.row_count_total)))
            .push(("row_count_returned"@, count_or_unknown(summary.row_count_returned)))
            .push(("truncated"@, label_of(summary.truncated)))
            .push(("next_cursor_present"@, label_of(summary.next_cursor_present))),
    }
}

/// The event on a cursor that was refused.
pub open spec fn cursor_event(tool: Seq<char>, summary: Summary) -> Noted {
    Noted {
        level: EventLevel::Warn,
        name: "ga4_mcp.pagination.cursor_error"@,
        fields: http_runtime::no_fields()
            .push(("tool"@, tool))
            .push(("error_code"@, or_word(summary.error_code, "unknown"@)))
            .push(("error_reason"@, or_word(summary.error_reason, "invalid_cursor"@))),
    }
}

/// The events on an answer.
pub open spec fn events_of(tool: Seq<char>, summary: Option<Summary>) -> Seq<Noted> {
    match summary {
        None => seq![
            Noted {
                level: EventLevel::Warn,
                name: "ga4_mcp.contract.missing_payload"@,
                fields: http_runtime::no_fields().push(("tool"@, tool)),
            },
        ],
        Some(found) => {
            let first = seq![response_event(tool, found)];
            let rows = if found.row_count_total is Some || found.row_count_returned is Some {
                first.push(rows_event(tool, found))
            } else {
                first
            };
            if found.error_reason == Some("invalid_cursor"@) {
                rows.push(cursor_event(tool, found))
            } else {
                rows
            }
        },
    }
}

fn text_or<'a>(held: &'a Option<String>, word: &'a str) -> (r: &'a str)
    ensures
        r@ == or_word(text::opt_text(*held), word@),
{
    match held {
        Some(found) => found.as_str(),
        None => word,
    }
}

fn count_text(count: Option<u64>) -> (r: String)
    ensures
        r@ == count_or_unknown(count),
{
    match count {
        Some(n) => text::decimal_text(n),
        None => "unknown".to_owned(),
    }
}

fn note_response(tool: &str, summary: &ContractSummary) -> (r: Event)
    ensures
        r@ == response_event(tool@, summary@),
{
    let mut fields: Vec<EventField> = Vec::new();
    assert(http_runtime::fields_view(fields@) =~= http_runtime::no_fields());
    http_runtime::add_field(&mut fields, "tool", tool);
    http_runtime::add_field(&mut fields, "ok", bool_label(summary.ok));
    http_runtime::add_field(&mut fields, "has_data", bool_label(Some(summary.has_data)));
    http_runtime::add_field(&mut fields, "has_meta", bool_label(Some(summary.has_meta)));
    http_runtime::add_field(&mut fields, "has_error", bool_label(Some(summary.has_error)));
    http_runtime::add_field(&mut fields, "error_code", text_or(&summary.error_code, "none"));
    http_runtime::add_field(&mut fields, "error_reason", text_or(&summary.error_reason, "none"));
    let level: EventLevel = match summary.ok {
        Some(false) => EventLevel::Warn,
        _ => EventLevel::Info,
    };
    Event { level, name: "ga4_mcp.contract.response", fields }
}

fn note_rows(tool: &str, summary: &ContractSummary) -> (r: Event)
    ensures
        r@ == rows_event(tool@, summary@),
{
    let mut fields: Vec<EventField> = Vec::new();
    assert(http_runtime::fields_view(fields@) =~= http_runtime::no_fields());
    http_runtime::add_field(&mut fields, "tool", tool);
    http_runtime::add_field(&mut fields, "output_mode", text_or(&summary.output_mode, "unknown"));
    http_runtime::add_field(
        &mut fields,
        "row_count_total",
        count_text(summary.row_count_total).as_str(),
    );
    http_runtime::add_field(
        &mut fields,
        "row_count_returned",
        count_text(summary.row_count_returned).as_str(),
    );
    http_runtime::add_field(&mut fields, "truncated", bool_label(summary.truncated));
    http_runtime::add_field(
        &mut fields,
        "next_cursor_present",
        bool_label(summary.next_cursor_present),
    );
    Event { level: EventLevel::Info, name: "ga4_mcp.pagination.meta", fields }
}

fn note_cursor(tool: &str, summary: &ContractSummary) -> (r: Event)
    ensures
        r@ == cursor_event(tool@, summary@),
{
    let mut fields: Vec<EventField> = Vec::new();
    assert(http_runtime::fields_view(fields@) =~= http_runtime::no_fields());
    http_runtime::add_field(&mut fields, "tool", tool);
    http_runtime::add_field(&mut fields, "error_code", text_or(&summary.error_code, "unknown"));
    http_runtime::add_field(
        &mut fields,
        "error_reason",
        text_or(&summary.error_reason, "invalid_cursor"),
    );
    Event { level: EventLevel::Warn, name: "ga4_mcp.pagination.cursor_error", fields }
}

fn add_event(events: &mut Vec<Event>, event: Event)
    ensures
        events_view(final(events)@) == events_view(old(events)@).push(event@),
{
    events.push(event);
    assert(events_view(events@) =~= events_view(old(events)@).push(event@));
}

/// The events on an answer, given what it says of itself.
pub fn contract_events(tool_name: &str, summary: Option<ContractSummary>) -> (r: Vec<Event>)
    ensures
        events_view(r@) == events_of(
            tool_name@,
            match summary {
                Some(found) => Some(found@),
                None => None,
            },
        ),
{
    let mut events: Vec<Event> = Vec::new();
    match &summary {
        None => {
            let mut fields: Vec<EventField> = Vec::new();
            assert(http_runtime::fields_view(fields@) =~= http_runtime::no_fields());
            http_runtime::add_field(&mut fields, "tool", tool_name);
            add_event(
                &mut events,
                Event { level: EventLevel::Warn, name: "ga4_mcp.contract.missing_payload", fields },
            );
            assert(events_view(events@) =~= events_of(tool_name@, None));
        },
        Some(found) => {
            add_event(&mut events, note_response(tool_name, found));
            assert(events_view(events@) =~= seq![response_event(tool_name@, found@)]);
            if found.row_count_total.is_some() || found.row_count_returned.is_some() {
                add_event(&mut events, note_rows(tool_name, found));
            }
            let refused: bool = match &found.error_reason {
                Some(reason) => text::same_text(reason.as_str(), "invalid_cursor"),
                None => false,
            };
            if refused {
                add_event(&mut events, note_cursor(tool_name, found));
            }
        },
    }
    events
}

// ---------------------------------------------------------------------------
// Laws.
// ---------------------------------------------------------------------------

proof fn lemma_offered(profile: CapabilityProfile, names: Seq<Seq<char>>, n: nat, i: int)
    requires
        n <= names.len(),
        0 <= i < offered(profile, names, n).len(),
    ensures
        profile.offers(offered(profile, names, n)[i]),
        names.contains(offered(profile, names, n)[i]),
    decreases n,
{
    if n > 0 {
        let before = offered(profile, names, (n - 1) as nat);
        if i < before.len() {
            lemma_offered(profile, names, (n - 1) as nat, i);
        } else {
            assert(names[n - 1] == offered(profile, names, n)[i]);
        }
    }
}

/// Every tool that is listed can be called, and is one that the server has.
pub proof fn law_listed_tools_are_offered(
    profile: CapabilityProfile,
    names: Seq<Seq<char>>,
    i: int,
)
    requires
        0 <= i < offered(profile, names, names.len()).len(),
    ensures
        profile.offers(offered(profile, names, names.len())[i]),
        names.contains(offered(profile, names, names.len())[i]),
{
    lemma_offered(profile, names, names.len(), i);
}

/// A server with the read-only profile lists no scratchpad tool.
pub proof fn law_read_only_servers_hide_the_scratchpad(names: Seq<Seq<char>>, i: int)
    requires
        0 <= i < offered(CapabilityProfile::ReadOnly, names, names.len()).len(),
    ensures
        !text::begins(
            offered(CapabilityProfile::ReadOnly, names, names.len())[i],
            "scratchpad_"@,
        ),
{
    lemma_offered(CapabilityProfile::ReadOnly, names, names.len(), i);
}

/// A server that uses its own credentials takes no token from a request.
pub proof fn law_config_servers_ignore_request_tokens(headers: Seq<HeaderLine>, name: Seq<char>)
    ensures
        token_of(UpstreamTokenSource::Config, headers, name) is None,
{
}

/// A tool is listed exactly where it is there and the profile offers it; tools keep their order.
pub proof fn law_offered_tools_are_listed(
    profile: CapabilityProfile,
    names: Seq<Seq<char>>,
    n: nat,
    name: Seq<char>,
)
    requires
        n <= names.len(),
    ensures
        offered(profile, names, n).contains(name) <==> profile.offers(name) && exists|i: int|
            0 <= i < n && #[trigger] names[i] == name,
        n > 0 ==> offered(profile, names, n) == (if profile.offers(names[n - 1]) {
            offered(profile, names, (n - 1) as nat).push(names[n - 1])
        } else {
            offered(profile, names, (n - 1) as nat)
        }),
    decreases n,
{
    if n > 0 {
        law_offered_tools_are_listed(profile, names, (n - 1) as nat, name);
        let before = offered(profile, names, (n - 1) as nat);
        let after = offered(profile, names, n);
        if after.contains(name) {
            let k = choose|k: int| 0 <= k < after.len() && after[k] == name;
            if k < before.len() {
                assert(before[k] == name);
                assert(before.contains(name));
            } else {
                assert(names[n - 1] == name);
            }
        }
        if profile.offers(name) && exists|i: int| 0 <= i < n && #[trigger] names[i] == name {
            let i = choose|i: int| 0 <= i < n && #[trigger] names[i] == name;
            if i == n - 1 {
                assert(after[before.len() as int] == name);
            } else {
                assert(before.contains(name));
                let k = choose|k: int| 0 <= k < before.len() && before[k] == name;
                assert(after[k] == name);
            }
        }
    }
}

/// A tool that the profile does not offer is refused with an error that names both.
pub proof fn law_refused_tools_are_told(profile: CapabilityProfile, tool_name: Seq<char>)
    ensures
        denial(profile, tool_name).field("ok"@) == Some(Tree::Bool(false)),
        denial(profile, tool_name).field("error"@) matches Some(told) && told.field("code"@)
            == Some(Tree::Text("POLICY_DENIED"@)) && told.field("reason"@) == Some(
            Tree::Text("policy_denied"@),
        ) && told.field("detail"@) == Some(
            Tree::Text("profile="@ + profile.name() + ";tool="@ + tool_name),
        ),
{
    let err = Problem::PolicyDenied(profile.name(), tool_name);
    contract::law_errors_say_so(err, 0);
    contract::law_errors_tell_what_is_known(err);
}

/// What is noted of an answer is what it says.
pub proof fn law_summaries_say_what_answers_say(
    answer: Tree,
    error: Tree,
    meta: Tree,
    shown: Seq<char>,
    n: u64,
    yes: bool,
)
    requires
        answer is Dict,
    ensures
        summary_of(answer) is Some,
        answer.field("ok"@) == Some(Tree::Bool(yes)) ==> summary_of(answer)->0.ok == Some(yes),
        summary_of(answer)->0.has_data == (answer.field("data"@) is Some),
        summary_of(answer)->0.has_meta == (answer.field("meta"@) is Some),
        summary_of(answer)->0.has_error == (answer.field("error"@) is Some),
        answer.field("error"@) == Some(error) && error.field("code"@) == Some(Tree::Text(shown))
            ==> summary_of(answer)->0.error_code == Some(shown),
        answer.field("error"@) == Some(error) && error.field("reason"@) == Some(Tree::Text(shown))
            ==> summary_of(answer)->0.error_reason == Some(shown),
        answer.field("meta"@) == Some(meta) && meta.field("output_mode"@) == Some(
            Tree::Text(shown),
        ) ==> summary_of(answer)->0.output_mode == Some(shown),
        answer.field("meta"@) == Some(meta) && meta.field("row_count_total"@) == Some(
            Tree::Whole(n as int),
        ) ==> summary_of(answer)->0.row_count_total == Some(n),
        answer.field("meta"@) == Some(meta) && meta.field("row_count_returned"@) == Some(
            Tree::Whole(n as int),
        ) ==> summary_of(answer)->0.row_count_returned == Some(n),
        answer.field("meta"@) == Some(meta) && meta.field("truncated"@) == Some(Tree::Bool(yes))
            ==> summary_of(answer)->0.truncated == Some(yes),
        answer.field("meta"@) == Some(meta) && meta.field("next_cursor"@) == Some(Tree::Null)
            ==> summary_of(answer)->0.next_cursor_present == Some(false),
        answer.field("meta"@) == Some(meta) && meta.field("next_cursor"@) == Some(
            Tree::Text(shown),
        ) ==> summary_of(answer)->0.next_cursor_present == Some(true),
{
}

/// An answer is noted once, and as a warning where it failed; its rows are noted where it counts
/// them; and a cursor that was wrong is noted by itself.
pub proof fn law_answers_are_noted(tool: Seq<char>, summary: Summary)
    ensures
        events_of(tool, None).len() == 1 && events_of(tool, None)[0].name
            == "ga4_mcp.contract.missing_payload"@ && events_of(tool, None)[0].level
            == EventLevel::Warn,
        events_of(tool, Some(summary))[0].name == "ga4_mcp.contract.response"@,
        events_of(tool, Some(summary))[0].level == (if summary.ok == Some(false) {
            EventLevel::Warn
        } else {
            EventLevel::Info
        }),
        events_of(tool, Some(summary))[0].fields[0] == ("tool"@, tool),
        events_of(tool, Some(summary))[0].fields[1] == ("ok"@, label_of(summary.ok)),
        events_of(tool, Some(summary))[0].fields[5] == (
            "error_code"@,
            match summary.error_code {
                Some(code) => code,
                None => "none"@,
            },
        ),
        events_of(tool, Some(summary))[0].fields[6] == (
            "error_reason"@,
            match summary.error_reason {
                Some(reason) => reason,
                None => "none"@,
            },
        ),
        events_of(tool, Some(summary)).len() == 1 + (if summary.row_count_total is Some
            || summary.row_count_returned is Some {
            1int
        } else {
            0
        }) + (if summary.error_reason == Some("invalid_cursor"@) {
            1int
        } else {
            0
        }),
        summary.row_count_total is Some || summary.row_count_returned is Some ==> events_of(
            tool,
            Some(summary),
        )[1].name == "ga4_mcp.pagination.meta"@ && events_of(tool, Some(summary))[1].fields[2] == (
            "row_count_total"@,
            count_or_unknown(summary.row_count_total),
        ) && events_of(tool, Some(summary))[1].fields[3] == (
            "row_count_returned"@,
            count_or_unknown(summary.row_count_returned),
        ) && events_of(tool, Some(summary))[1].fields[4] == (
            "truncated"@,
            label_of(summary.truncated),
        ) && events_of(tool, Some(summary))[1].fields[5] == (
            "next_cursor_present"@,
            label_of(summary.next_cursor_present),
        ),
        summary.error_reason == Some("invalid_cursor"@)
            ==> events_of(tool, Some(summary)).last().name
            == "ga4_mcp.pagination.cursor_error"@ && events_of(tool, Some(summary)).last().level
            == EventLevel::Warn,
        label_of(Some(true)) == "true"@,
        label_of(Some(false)) == "false"@,
        label_of(None) == "unknown"@,
{
}

/// A token is read from the header of that name, unless the server uses its own.
pub proof fn law_tokens_are_read_where_they_may(
    source: UpstreamTokenSource,
    headers: Seq<HeaderLine>,
    name: Seq<char>,
)
    ensures
        source != UpstreamTokenSource::Config ==> token_of(source, headers, name)
            == http_runtime::text_of_header(headers, name),
{
}

} // verus!
