//! How much of their memory the scratchpad sessions use.

use vstd::prelude::*;
use vstd::string::*;

use crate::error;
use crate::error::{AnalyticsError, Problem};
use crate::json;
use crate::json::{Json, Object, Tree};
use crate::text;

verus! {

/// The most sessions that are asked for their memory.
pub const MAX_MEMORY_PRESSURE_SAMPLE_SESSIONS: usize = 64;

/// What one session says of its memory.
#[derive(Debug)]
pub enum Probe {
    Used { session_id: String, used_bytes: u64, limit_bytes: u64, used_pct: Json },
    Failed { session_id: String, err: AnalyticsError },
}

/// What the shares of used memory come to.
#[derive(Debug)]
pub struct Pressure {
    pub used_pct_of_reported_limit: Json,
    pub max_session_used_pct: Json,
    pub level: &'static str,
    pub high: bool,
}

/// What came of asking sessions for their memory.
#[derive(Debug)]
pub enum Sampling {
    Unlisted(AnalyticsError),
    Probed(Vec<Probe>, Pressure),
}

/// How many sessions may be asked.
pub open spec fn sample_limit(asked: usize) -> usize {
    if asked < 1 {
        1
    } else if asked > MAX_MEMORY_PRESSURE_SAMPLE_SESSIONS {
        MAX_MEMORY_PRESSURE_SAMPLE_SESSIONS
    } else {
        asked
    }
}

/// How many of the active sessions are asked.
pub open spec fn sample_target(active_sessions: usize, asked: usize) -> usize {
    if active_sessions < sample_limit(asked) {
        active_sessions
    } else {
        sample_limit(asked)
    }
}

/// `n`, or the largest count where `n` is larger.
pub open spec fn saturated(n: int) -> u64 {
    if n > u64::MAX {
        u64::MAX
    } else {
        n as u64
    }
}

/// The bytes that a session may use.
pub open spec fn session_limit(max_memory_mb: usize) -> u64 {
    saturated(max_memory_mb * 1_048_576)
}

/// The bytes that the active sessions may use.
pub open spec fn configured_limit(max_memory_mb: usize, active_sessions: usize) -> u64 {
    saturated(session_limit(max_memory_mb) * active_sessions)
}

/// How many sessions may be asked.
pub fn safe_sample_limit(asked: usize) -> (r: usize)
    ensures
        r == sample_limit(asked),
{
    if asked < 1 {
        1
    } else if asked > MAX_MEMORY_PRESSURE_SAMPLE_SESSIONS {
        MAX_MEMORY_PRESSURE_SAMPLE_SESSIONS
    } else {
        asked
    }
}

/// How many of the active sessions are asked.
pub fn sampled_sessions_target(active_sessions: usize, asked: usize) -> (r: usize)
    ensures
        r == sample_target(active_sessions, asked),
{
    let limit: usize = safe_sample_limit(asked);
    if active_sessions < limit {
        active_sessions
    } else {
        limit
    }
}

fn saturating_product(a: u64, b: u64) -> (r: u64)
    ensures
        r == saturated(a * b),
{
    match a.checked_mul(b) {
        Some(product) => product,
        None => u64::MAX,
    }
}

/// The bytes that the first `n` sessions say they use.
pub open spec fn used_sum(probes: Seq<Probe>, n: nat) -> nat
    decreases n,
{
    if n == 0 {
        0
    } else {
        used_sum(probes, (n - 1) as nat) + (match probes[n - 1] {
            Probe::Used { used_bytes, .. } => used_bytes as nat,
            Probe::Failed { .. } => 0,
        })
    }
}

/// The bytes that the first `n` sessions say they may use.
pub open spec fn limit_sum(probes: Seq<Probe>, n: nat) -> nat
    decreases n,
{
    if n == 0 {
        0
    } else {
        limit_sum(probes, (n - 1) as nat) + (match probes[n - 1] {
            Probe::Used { limit_bytes, .. } => limit_bytes as nat,
            Probe::Failed { .. } => 0,
        })
    }
}

/// How many of the first `n` sessions did not answer.
pub open spec fn failures(probes: Seq<Probe>, n: nat) -> nat
    decreases n,
{
    if n == 0 {
        0
    } else {
        failures(probes, (n - 1) as nat) + (if probes[n - 1] is Failed {
            1nat
        } else {
            0nat
        })
    }
}

/// The bytes that sessions say they use and may use.
pub fn reported_totals(probes: &[Probe]) -> (r: (u64, u64))
    ensures
        r.0 == saturated(used_sum(probes@, probes@.len()) as int),
        r.1 == saturated(limit_sum(probes@, probes@.len()) as int),
{
    let mut used: u64 = 0;
    let mut limit: u64 = 0;
    for i in 0..probes.len()
        invariant
            used == saturated(used_sum(probes@, i as nat) as int),
            limit == saturated(limit_sum(probes@, i as nat) as int),
    {
        match &probes[i] {
            Probe::Used { used_bytes, limit_bytes, .. } => {
                used = used.saturating_add(*used_bytes);
                limit = limit.saturating_add(*limit_bytes);
            },
            Probe::Failed { .. } => {},
        }
    }
    (used, limit)
}

fn failed_probes(probes: &[Probe]) -> (n: usize)
    ensures
        n == failures(probes@, probes@.len()),
        n <= probes@.len(),
{
    let mut n: usize = 0;
    for i in 0..probes.len()
        invariant
            n == failures(probes@, i as nat),
            n <= i,
    {
        match &probes[i] {
            Probe::Used { .. } => {},
            Probe::Failed { .. } => {
                n = n + 1;
            },
        }
    }
    n
}

/// What is shown of one session.
pub open spec fn probe_tree(probe: Probe) -> Tree {
    match probe {
        Probe::Used { session_id, used_bytes, limit_bytes, used_pct } => Tree::Dict(
            json::fields()
                .push(("session_id"@, Tree::Text(session_id@)))
                .push(("status"@, Tree::Text("ok"@)))
                .push(("used_bytes"@, Tree::Whole(used_bytes as int)))
                .push(("limit_bytes"@, Tree::Whole(limit_bytes as int)))
                .push(("used_pct"@, used_pct@)),
        ),
        Probe::Failed { session_id, err } => Tree::Dict(
            json::fields()
                .push(("session_id"@, Tree::Text(session_id@)))
                .push(("status"@, Tree::Text("probe_error"@)))
                .push(("used_bytes"@, Tree::Null))
                .push(("limit_bytes"@, Tree::Null))
                .push(("used_pct"@, Tree::Null))
                .push(
                    (
                        "note"@,
                        Tree::Text("memory probe failed (code="@ + err@.code_text() + ")"@),
                    ),
                )
                .push(("error_reason"@, Tree::Text(err@.reason_text()))),
        ),
    }
}

/// What is shown of the sessions.
pub open spec fn probe_trees(probes: Seq<Probe>) -> Seq<Tree> {
    Seq::new(probes.len(), |i: int| probe_tree(probes[i]))
}

fn probe_value(probe: &Probe) -> (r: Json)
    ensures
        r@ == probe_tree(*probe),
{
    let mut object = Object::new();
    match probe {
        Probe::Used { session_id, used_bytes, limit_bytes, used_pct } => {
            object.put("session_id", json::string(session_id.as_str()));
            object.put("status", json::string("ok"));
            object.put("used_bytes", json::whole(*used_bytes));
            object.put("limit_bytes", json::whole(*limit_bytes));
            object.put("used_pct", used_pct.clone());
        },
        Probe::Failed { session_id, err } => {
            let mut note: String = error::labelled("memory probe failed (code=", err.code());
            note.append(")");
            object.put("session_id", json::string(session_id.as_str()));
            object.put("status", json::string("probe_error"));
            object.put("used_bytes", Json::Null);
            object.put("limit_bytes", Json::Null);
            object.put("used_pct", Json::Null);
            object.put("note", json::string(note.as_str()));
            object.put("error_reason", json::string(err.reason()));
        },
    }
    json::dict(object)
}

/// The head of what is said of memory.
pub open spec fn head_entries(
    status: Seq<char>,
    sampled: int,
    asked: usize,
    errors: int,
    max_memory_mb: usize,
    active_sessions: usize,
) -> Seq<(Seq<char>, Tree)> {
    json::fields()
        .push(("status"@, Tree::Text(status)))
        .push(("sampled_sessions"@, Tree::Whole(sampled)))
        .push(("sample_limit"@, Tree::Whole(sample_limit(asked) as int)))
        .push(("probe_errors"@, Tree::Whole(errors)))
        .push(
            (
                "configured_limit_bytes_per_session"@,
                Tree::Whole(session_limit(max_memory_mb) as int),
            ),
        )
        .push(
            (
                "configured_limit_bytes_total"@,
                Tree::Whole(configured_limit(max_memory_mb, active_sessions) as int),
            ),
        )
}

fn head_object(
    status: &str,
    sampled: usize,
    asked: usize,
    errors: usize,
    max_memory_mb: usize,
    active_sessions: usize,
) -> (r: Object)
    ensures
        r@ == head_entries(
            status@,
            sampled as int,
            asked,
            errors as int,
            max_memory_mb,
            active_sessions,
        ),
{
    let per_session: u64 = saturating_product(max_memory_mb as u64, 1_048_576);
    let total: u64 = saturating_product(per_session, active_sessions as u64);
    let mut object = Object::new();
    object.put("status", json::string(status));
    object.put("sampled_sessions", json::size(sampled));
    object.put("sample_limit", json::size(safe_sample_limit(asked)));
    object.put("probe_errors", json::size(errors));
    object.put("configured_limit_bytes_per_session", json::whole(per_session));
    object.put("configured_limit_bytes_total", json::whole(total));
    object
}

/// What is said where no session is active.
pub open spec fn idle_tree(max_memory_mb: usize, asked: usize) -> Tree {
    Tree::Dict(
        head_entries("ok"@, 0, asked, 0, max_memory_mb, 0)
            .push(("used_bytes_total"@, Tree::Whole(0)))
            .push(("limit_bytes_total"@, Tree::Whole(0)))
            .push(("used_pct_of_reported_limit"@, Tree::Null))
            .push(("pressure_level"@, Tree::Text("normal"@)))
            .push(("high_pressure"@, Tree::Bool(false)))
            .push(("sessions"@, Tree::List(Seq::<Tree>::empty())))
            .push(("note"@, Tree::Text("no active scratchpad sessions"@))),
    )
}

/// What is said where the sessions cannot be listed.
pub open spec fn unlisted_tree(
    max_memory_mb: usize,
    active_sessions: usize,
    asked: usize,
    problem: Problem,
) -> Tree {
    Tree::Dict(
        head_entries("unavailable"@, 0, asked, 1, max_memory_mb, active_sessions)
            .push(("used_bytes_total"@, Tree::Null))
            .push(("limit_bytes_total"@, Tree::Null))
            .push(("used_pct_of_reported_limit"@, Tree::Null))
            .push(("pressure_level"@, Tree::Text("unknown"@)))
            .push(("high_pressure"@, Tree::Bool(false)))
            .push(("sessions"@, Tree::List(Seq::<Tree>::empty())))
            .push(
                (
                    "note"@,
                    Tree::Text(
                        "failed to enumerate sessions for memory probes (code="@
                            + problem.code_text() + ")"@,
                    ),
                ),
            ),
    )
}

/// Whether every session answered, some did or none did.
pub open spec fn probe_status(errors: nat, sampled: nat) -> Seq<char> {
    if errors == 0 {
        "ok"@
    } else if errors < sampled {
        "partial"@
    } else {
        "unavailable"@
    }
}

/// What a reader should know of the sample.
pub open spec fn probe_note(active_sessions: usize, asked: usize, errors: nat) -> Option<Seq<char>> {
    if active_sessions > sample_target(active_sessions, asked) {
        Some(
            "sampled "@ + text::decimal(sample_target(active_sessions, asked) as nat)
                + " sessions out of "@ + text::decimal(active_sessions as nat)
                + " active sessions"@,
        )
    } else if errors > 0 {
        Some(
            "memory probes failed for "@ + text::decimal(errors)
                + " session(s); inspect per-session notes"@,
        )
    } else {
        None
    }
}

/// What is said where sessions were asked.
pub open spec fn probed_tree(
    max_memory_mb: usize,
    active_sessions: usize,
    asked: usize,
    probes: Seq<Probe>,
    pressure: Pressure,
) -> Tree {
    let errors = failures(probes, probes.len());
    Tree::Dict(
        head_entries(
            probe_status(errors, probes.len()),
            probes.len() as int,
            asked,
            errors as int,
            max_memory_mb,
            active_sessions,
        )
            .push(
                (
                    "used_bytes_total"@,
                    Tree::Whole(saturated(used_sum(probes, probes.len()) as int) as int),
                ),
            )
            .push(
                (
                    "limit_bytes_total"@,
                    Tree::Whole(saturated(limit_sum(probes, probes.len()) as int) as int),
                ),
            )
            .push(("used_pct_of_reported_limit"@, pressure.used_pct_of_reported_limit@))
            .push(("max_session_used_pct"@, pressure.max_session_used_pct@))
            .push(("pressure_level"@, Tree::Text(pressure.level@)))
            .push(("high_pressure"@, Tree::Bool(pressure.high)))
            .push(("sessions"@, Tree::List(probe_trees(probes))))
            .push(("note"@, json::opt_text(probe_note(active_sessions, asked, errors)))),
    )
}

/// What is said of the memory of the active sessions.
pub open spec fn pressure_tree(
    max_memory_mb: usize,
    active_sessions: usize,
    asked: usize,
    sampling: Sampling,
) -> Tree {
    if active_sessions == 0 {
        idle_tree(max_memory_mb, asked)
    } else {
        match sampling {
            Sampling::Unlisted(err) => unlisted_tree(max_memory_mb, active_sessions, asked, err@),
            Sampling::Probed(probes, pressure) => probed_tree(
                max_memory_mb,
                active_sessions,
                asked,
                probes@,
                pressure,
            ),
        }
    }
}

fn put_quiet(object: &mut Object, totals: Json, limits: Json, level: &str, note: &str)
    ensures
        final(object)@ == old(object)@
            .push(("used_bytes_total"@, totals@))
            .push(("limit_bytes_total"@, limits@))
            .push(("used_pct_of_reported_limit"@, Tree::Null))
            .push(("pressure_level"@, Tree::Text(level@)))
            .push(("high_pressure"@, Tree::Bool(false)))
            .push(("sessions"@, Tree::List(Seq::<Tree>::empty())))
            .push(("note"@, Tree::Text(note@))),
{
    let none: Vec<Json> = Vec::new();
    assert(json::trees(none@) =~= Seq::<Tree>::empty());
    object.put("used_bytes_total", totals);
    object.put("limit_bytes_total", limits);
    object.put("used_pct_of_reported_limit", Json::Null);
    object.put("pressure_level", json::string(level));
    object.put("high_pressure", json::boolean(false));
    object.put("sessions", json::array(none));
    object.put("note", json::string(note));
}

fn probe_note_text(active_sessions: usize, asked: usize, errors: usize) -> (r: Option<String>)
    ensures
        text::opt_text(r) == probe_note(active_sessions, asked, errors as nat),
{
    let target: usize = sampled_sessions_target(active_sessions, asked);
    if active_sessions > target {
        let mut note: String = error::numbered("sampled ", target as u64, " sessions out of ");
        note.append(text::decimal_text(active_sessions as u64).as_str());
        note.append(" active sessions");
        Some(note)
    } else if errors > 0 {
        Some(
            error::numbered(
                "memory probes failed for ",
                errors as u64,
                " session(s); inspect per-session notes",
            ),
        )
    } else {
        None
    }
}

/// What is said of the memory of the active sessions.
pub fn collect_runtime_memory_pressure(
    max_memory_mb: usize,
    active_sessions: usize,
    sample_limit: usize,
    sampling: Sampling,
) -> (r: Json)
    ensures
        r@ == pressure_tree(max_memory_mb, active_sessions, sample_limit, sampling),
{
    if active_sessions == 0 {
        let mut object = head_object("ok", 0, sample_limit, 0, max_memory_mb, 0);
        put_quiet(
            &mut object,
            json::whole(0),
            json::whole(0),
            "normal",
            "no active scratchpad sessions",
        );
        return json::dict(object);
    }
    match sampling {
        Sampling::Unlisted(err) => {
            let mut note: String = error::labelled(
                "failed to enumerate sessions for memory probes (code=",
                err.code(),
            );
            note.append(")");
            let mut object = head_object(
                "unavailable",
                0,
                sample_limit,
                1,
                max_memory_mb,
                active_sessions,
            );
            put_quiet(&mut object, Json::Null, Json::Null, "unknown", note.as_str());
            json::dict(object)
        },
        Sampling::Probed(probes, pressure) => {
            let errors: usize = failed_probes(probes.as_slice());
            let (used, limit): (u64, u64) = reported_totals(probes.as_slice());
            let mut items: Vec<Json> = Vec::new();
            for i in 0..probes.len()
                invariant
                    items@.len() == i,
                    forall|j: int|
                        0 <= j < i ==> (#[trigger] items@[j])@ == probe_tree(probes@[j]),
            {
                items.push(probe_value(&probes[i]));
            }
            assert(json::trees(items@) =~= probe_trees(probes@));
            let status: &str = if errors == 0 {
                "ok"
            } else if errors < probes.len() {
                "partial"
            } else {
                "unavailable"
            };
            let mut object = head_object(
                status,
                probes.len(),
                sample_limit,
                errors,
                max_memory_mb,
                active_sessions,
            );
            object.put("used_bytes_total", json::whole(used));
            object.put("limit_bytes_total", json::whole(limit));
            object.put("used_pct_of_reported_limit", pressure.used_pct_of_reported_limit);
            object.put("max_session_used_pct", pressure.max_session_used_pct);
            object.put("pressure_level", json::string(pressure.level));
            object.put("high_pressure", json::boolean(pressure.high));
            object.put("sessions", json::array(items));
            object.put(
                "note",
                json::string_or_null(&probe_note_text(active_sessions, sample_limit, errors)),
            );
            json::dict(object)
        },
    }
}

/// However many sessions are active and however many are asked for, no more are asked
/// than are active or than may be asked at once.
pub proof fn law_samples_are_bounded(active_sessions: usize, asked: usize)
    ensures
        sample_target(active_sessions, asked) <= active_sessions,
        sample_target(active_sessions, asked) <= MAX_MEMORY_PRESSURE_SAMPLE_SESSIONS,
        active_sessions > 0 ==> sample_target(active_sessions, asked) > 0,
{
}

/// As many sessions are sampled as are asked for, from one to sixty-four, and no more than are
/// active.
pub proof fn law_samples_are_what_is_asked_for(active_sessions: usize, asked: usize)
    ensures
        1 <= asked <= 64 ==> sample_limit(asked) == asked,
        asked == 0 ==> sample_limit(asked) == 1,
        asked > 64 ==> sample_limit(asked) == 64,
        active_sessions <= sample_limit(asked) ==> sample_target(active_sessions, asked)
            == active_sessions,
        active_sessions > sample_limit(asked) ==> sample_target(active_sessions, asked)
            == sample_limit(asked),
{
}

/// The limit of a session is its megabytes in bytes, and that of all sessions is as many times
/// that, as far as numbers go.
pub proof fn law_limits_are_in_bytes(max_memory_mb: usize, active_sessions: usize)
    ensures
        max_memory_mb * 1_048_576 <= u64::MAX ==> session_limit(max_memory_mb) == max_memory_mb
            * 1_048_576,
        max_memory_mb * 1_048_576 > u64::MAX ==> session_limit(max_memory_mb) == u64::MAX,
        session_limit(max_memory_mb) * active_sessions <= u64::MAX ==> configured_limit(
            max_memory_mb,
            active_sessions,
        ) == session_limit(max_memory_mb) * active_sessions,
        session_limit(max_memory_mb) * active_sessions > u64::MAX ==> configured_limit(
            max_memory_mb,
            active_sessions,
        ) == u64::MAX,
{
}

/// What sessions use, and what they may use, adds up over those that could be asked; those that
/// could not are counted.
pub proof fn law_probes_add_up(probes: Seq<Probe>, n: nat)
    requires
        n < probes.len(),
    ensures
        used_sum(probes, 0) == 0 && limit_sum(probes, 0) == 0 && failures(probes, 0) == 0,
        probes[n as int] matches Probe::Used { session_id, used_bytes, limit_bytes, used_pct }
            ==> used_sum(probes, n + 1) == used_sum(probes, n) + used_bytes && limit_sum(
            probes,
            n + 1,
        ) == limit_sum(probes, n) + limit_bytes && failures(probes, n + 1) == failures(probes, n),
        probes[n as int] is Failed ==> used_sum(probes, n + 1) == used_sum(probes, n) && limit_sum(
            probes,
            n + 1,
        ) == limit_sum(probes, n) && failures(probes, n + 1) == failures(probes, n) + 1,
{
}

/// A session that could be asked is told with what it uses; one that could not, with the
/// reason.
pub proof fn law_probes_are_told(
    probe: Probe,
)
    ensures
        match probe {
            Probe::Used { session_id, used_bytes, limit_bytes, used_pct } => {
                &&& probe_tree(probe).field("session_id"@) == Some(Tree::Text(session_id@))
                &&& probe_tree(probe).field("status"@) == Some(Tree::Text("ok"@))
                &&& probe_tree(probe).field("used_bytes"@) == Some(Tree::Whole(used_bytes as int))
                &&& probe_tree(probe).field("limit_bytes"@) == Some(
                    Tree::Whole(limit_bytes as int),
                )
                &&& probe_tree(probe).field("used_pct"@) == Some(used_pct@)
                &&& probe_tree(probe).field("note"@) is None
            },
            Probe::Failed { session_id, err } => {
                &&& probe_tree(probe).field("session_id"@) == Some(Tree::Text(session_id@))
                &&& probe_tree(probe).field("status"@) == Some(Tree::Text("probe_error"@))
                &&& probe_tree(probe).field("used_bytes"@) == Some(Tree::Null)
                &&& probe_tree(probe).field("limit_bytes"@) == Some(Tree::Null)
                &&& probe_tree(probe).field("error_reason"@) == Some(
                    Tree::Text(err@.reason_text()),
                )
            },
        },
{
    broadcast use json::group_found;

    reveal_strlit("session_id");
    assert("session_id"@.len() == 10);
    reveal_strlit("status");
    assert("status"@.len() == 6);
    reveal_strlit("used_bytes");
    assert("used_bytes"@.len() == 10);
    reveal_strlit("limit_bytes");
    assert("limit_bytes"@.len() == 11);
    reveal_strlit("used_pct");
    assert("used_pct"@.len() == 8);
    reveal_strlit("note");
    assert("note"@.len() == 4);
    reveal_strlit("error_reason");
    assert("error_reason"@.len() == 12);
    assert("session_id"@[0] != "used_bytes"@[0]);
}

/// The pressure on memory is told with what the sessions use and may use in all, how many were
/// asked, how many could not be, and how high it is.
pub proof fn law_pressures_are_told(
    max_memory_mb: usize,
    active_sessions: usize,
    asked: usize,
    probes: Vec<Probe>,
    pressure: Pressure,
)
    requires
        active_sessions > 0,
    ensures
        pressure_tree(
            max_memory_mb,
            active_sessions,
            asked,
            Sampling::Probed(probes, pressure),
        ).field("status"@)
            == Some(
                Tree::Text(
                    if failures(probes@, probes@.len())
                        == 0 { "ok"@ } else if failures(probes@, probes@.len())
                        < probes@.len() { "partial"@ } else { "unavailable"@ },
                ),
            ),
        pressure_tree(
            max_memory_mb,
            active_sessions,
            asked,
            Sampling::Probed(probes, pressure),
        ).field("sampled_sessions"@)
            == Some(Tree::Whole(probes@.len() as int)),
        pressure_tree(
            max_memory_mb,
            active_sessions,
            asked,
            Sampling::Probed(probes, pressure),
        ).field("sample_limit"@)
            == Some(Tree::Whole(sample_limit(asked) as int)),
        pressure_tree(
            max_memory_mb,
            active_sessions,
            asked,
            Sampling::Probed(probes, pressure),
        ).field("probe_errors"@)
            == Some(Tree::Whole(failures(probes@, probes@.len()) as int)),
        pressure_tree(
            max_memory_mb,
            active_sessions,
            asked,
            Sampling::Probed(probes, pressure),
        ).field("configured_limit_bytes_per_session"@)
            == Some(Tree::Whole(session_limit(max_memory_mb) as int)),
        pressure_tree(
            max_memory_mb,
            active_sessions,
            asked,
            Sampling::Probed(probes, pressure),
        ).field("configured_limit_bytes_total"@)
            == Some(Tree::Whole(configured_limit(max_memory_mb, active_sessions) as int)),
        pressure_tree(
            max_memory_mb,
            active_sessions,
            asked,
            Sampling::Probed(probes, pressure),
        ).field("used_bytes_total"@)
            == Some(Tree::Whole(saturated(used_sum(probes@, probes@.len()) as int) as int)),
        pressure_tree(
            max_memory_mb,
            active_sessions,
            asked,
            Sampling::Probed(probes, pressure),
        ).field("limit_bytes_total"@)
            == Some(Tree::Whole(saturated(limit_sum(probes@, probes@.len()) as int) as int)),
        pressure_tree(
            max_memory_mb,
            active_sessions,
            asked,
            Sampling::Probed(probes, pressure),
        ).field("used_pct_of_reported_limit"@)
            == Some(pressure.used_pct_of_reported_limit@),
        pressure_tree(
            max_memory_mb,
            active_sessions,
            asked,
            Sampling::Probed(probes, pressure),
        ).field("max_session_used_pct"@)
            == Some(pressure.max_session_used_pct@),
        pressure_tree(
            max_memory_mb,
            active_sessions,
            asked,
            Sampling::Probed(probes, pressure),
        ).field("pressure_level"@)
            == Some(Tree::Text(pressure.level@)),
        pressure_tree(
            max_memory_mb,
            active_sessions,
            asked,
            Sampling::Probed(probes, pressure),
        ).field("high_pressure"@)
            == Some(Tree::Bool(pressure.high)),
        pressure_tree(
            max_memory_mb,
            active_sessions,
            asked,
            Sampling::Probed(probes, pressure),
        ).field("sessions"@)
            == Some(Tree::List(Seq::new(probes@.len(), |i: int| probe_tree(probes@[i])))),
{
    broadcast use json::group_found;

    reveal_strlit("status");
    assert("status"@.len() == 6);
    reveal_strlit("sampled_sessions");
    assert("sampled_sessions"@.len() == 16);
    reveal_strlit("sample_limit");
    assert("sample_limit"@.len() == 12);
    reveal_strlit("probe_errors");
    assert("probe_errors"@.len() == 12);
    reveal_strlit("configured_limit_bytes_per_session");
    assert("configured_limit_bytes_per_session"@.len() == 34);
    reveal_strlit("configured_limit_bytes_total");
    assert("configured_limit_bytes_total"@.len() == 28);
    reveal_strlit("used_bytes_total");
    assert("used_bytes_total"@.len() == 16);
    reveal_strlit("limit_bytes_total");
    assert("limit_bytes_total"@.len() == 17);
    reveal_strlit("used_pct_of_reported_limit");
    assert("used_pct_of_reported_limit"@.len() == 26);
    reveal_strlit("pressure_level");
    assert("pressure_level"@.len() == 14);
    reveal_strlit("high_pressure");
    assert("high_pressure"@.len() == 13);
    reveal_strlit("sessions");
    assert("sessions"@.len() == 8);
    reveal_strlit("note");
    assert("note"@.len() == 4);
    reveal_strlit("max_session_used_pct");
    assert("max_session_used_pct"@.len() == 20);
    assert("sampled_sessions"@[0] != "used_bytes_total"@[0]);
    assert("sample_limit"@[0] != "probe_errors"@[0]);
}

/// Without sessions there is no pressure; where they cannot be listed, it is not known.
pub proof fn law_idle_servers_have_no_pressure(
    max_memory_mb: usize,
    active_sessions: usize,
    asked: usize,
    sampling: Sampling,
    err: AnalyticsError,
)
    requires
        active_sessions > 0,
    ensures
        pressure_tree(max_memory_mb, 0, asked, sampling).field("status"@)
            == Some(Tree::Text("ok"@)),
        pressure_tree(max_memory_mb, 0, asked, sampling).field("sampled_sessions"@)
            == Some(Tree::Whole(0)),
        pressure_tree(max_memory_mb, 0, asked, sampling).field("used_bytes_total"@)
            == Some(Tree::Whole(0)),
        pressure_tree(max_memory_mb, 0, asked, sampling).field("pressure_level"@)
            == Some(Tree::Text("normal"@)),
        pressure_tree(max_memory_mb, 0, asked, sampling).field("high_pressure"@)
            == Some(Tree::Bool(false)),
        pressure_tree(
            max_memory_mb,
            active_sessions,
            asked,
            Sampling::Unlisted(err),
        ).field("status"@)
            == Some(Tree::Text("unavailable"@)),
        pressure_tree(
            max_memory_mb,
            active_sessions,
            asked,
            Sampling::Unlisted(err),
        ).field("pressure_level"@)
            == Some(Tree::Text("unknown"@)),
        pressure_tree(
            max_memory_mb,
            active_sessions,
            asked,
            Sampling::Unlisted(err),
        ).field("probe_errors"@)
            == Some(Tree::Whole(1)),
{
    broadcast use json::group_found;

    reveal_strlit("status");
    assert("status"@.len() == 6);
    reveal_strlit("sampled_sessions");
    assert("sampled_sessions"@.len() == 16);
    reveal_strlit("sample_limit");
    assert("sample_limit"@.len() == 12);
    reveal_strlit("probe_errors");
    assert("probe_errors"@.len() == 12);
    reveal_strlit("configured_limit_bytes_per_session");
    assert("configured_limit_bytes_per_session"@.len() == 34);
    reveal_strlit("configured_limit_bytes_total");
    assert("configured_limit_bytes_total"@.len() == 28);
    reveal_strlit("used_bytes_total");
    assert("used_bytes_total"@.len() == 16);
    reveal_strlit("limit_bytes_total");
    assert("limit_bytes_total"@.len() == 17);
    reveal_strlit("used_pct_of_reported_limit");
    assert("used_pct_of_reported_limit"@.len() == 26);
    reveal_strlit("pressure_level");
    assert("pressure_level"@.len() == 14);
    reveal_strlit("high_pressure");
    assert("high_pressure"@.len() == 13);
    reveal_strlit("sessions");
    assert("sessions"@.len() == 8);
    reveal_strlit("note");
    assert("note"@.len() == 4);
    reveal_strlit("max_session_used_pct");
    assert("max_session_used_pct"@.len() == 20);
    assert("sampled_sessions"@[0] != "used_bytes_total"@[0]);
    assert("sample_limit"@[0] != "probe_errors"@[0]);
}

/// It is said where not all sessions were asked, or else how many could not be.
pub proof fn law_what_was_not_asked_is_said(active_sessions: usize, asked: usize, errors: nat)
    ensures
        active_sessions > sample_limit(asked) ==> probe_note(active_sessions, asked, errors)
            == Some(
            "sampled "@ + text::decimal(sample_limit(asked) as nat) + " sessions out of "@
                + text::decimal(active_sessions as nat) + " active sessions"@,
        ),
        active_sessions <= sample_limit(asked) && errors > 0 ==> probe_note(
            active_sessions,
            asked,
            errors,
        ) == Some(
            "memory probes failed for "@ + text::decimal(errors)
                + " session(s); inspect per-session notes"@,
        ),
        active_sessions <= sample_limit(asked) && errors == 0 ==> probe_note(
            active_sessions,
            asked,
            errors,
        ) is None,
{
}

} // verus!
