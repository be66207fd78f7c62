//! The queries of the release reports.

use vstd::prelude::*;
use vstd::string::*;

use crate::sql_text;
use crate::templates;
use crate::text;

verus! {

/// How the queries begin.
pub const QUERY_BEGIN: &'static str = "WITH normalized AS (
            SELECT
                COALESCE(
                    ";

/// What is kept of the events in the windows, up to their totals by day.
pub const WINDOWED_EVENTS: &'static str = "
                    ELSE NULL
                END AS period,
                event_date,
                event_name,
                metric_value
            FROM normalized
            WHERE event_date IS NOT NULL
        ),
        daily AS (
            SELECT
                period,
                event_date,
                SUM(CASE WHEN ";

/// The ratio of the two events by day, and what it is in each window, up to the totals by window.
pub const RATIOS_BY_DAY: &'static str = "
            FROM windowed
            WHERE period IS NOT NULL
            GROUP BY period, event_date
        ),
        daily_ratio AS (
            SELECT
                period,
                event_date,
                anchor_value,
                comparison_value,
                CASE WHEN comparison_value > 0 THEN anchor_value / comparison_value END AS ratio_value
            FROM daily
        ),
        stats AS (
            SELECT
                period,
                COUNT(*) FILTER (WHERE ratio_value IS NOT NULL) AS ratio_n_days,
                AVG(ratio_value) AS ratio_mean,
                STDDEV_SAMP(ratio_value) AS ratio_sd
            FROM daily_ratio
            GROUP BY period
        ),
        aggregated AS (
            SELECT
                period,
                SUM(CASE WHEN ";

/// The totals and the ratios of the windows side by side.
pub const RATIOS_BY_PERIOD: &'static str = "
            FROM windowed
            WHERE period IS NOT NULL
            GROUP BY period
        ),
        rolled AS (
            SELECT
                COALESCE(MAX(CASE WHEN period = 'pre' THEN anchor_value END), 0.0) AS anchor_pre,
                COALESCE(MAX(CASE WHEN period = 'transition' THEN anchor_value END), 0.0) AS anchor_transition,
                COALESCE(MAX(CASE WHEN period = 'post' THEN anchor_value END), 0.0) AS anchor_post,
                COALESCE(MAX(CASE WHEN period = 'pre' THEN comparison_value END), 0.0) AS comparison_pre,
                COALESCE(MAX(CASE WHEN period = 'transition' THEN comparison_value END), 0.0) AS comparison_transition,
                COALESCE(MAX(CASE WHEN period = 'post' THEN comparison_value END), 0.0) AS comparison_post,
                COALESCE(MAX(CASE WHEN period = 'pre' THEN ratio_n_days END), 0) AS ratio_n_pre,
                COALESCE(MAX(CASE WHEN period = 'post' THEN ratio_n_days END), 0) AS ratio_n_post,
                MAX(CASE WHEN period = 'pre' THEN ratio_mean END) AS ratio_mean_pre,
                MAX(CASE WHEN period = 'post' THEN ratio_mean END) AS ratio_mean_post,
                MAX(CASE WHEN period = 'pre' THEN ratio_sd END) AS ratio_sd_pre,
                MAX(CASE WHEN period = 'post' THEN ratio_sd END) AS ratio_sd_post
            FROM aggregated
            LEFT JOIN stats USING (period)
        ),
        ratioed AS (
            SELECT
                *,
                CASE WHEN comparison_pre > 0 THEN anchor_pre / comparison_pre END AS ratio_pre,
                CASE WHEN comparison_post > 0 THEN anchor_post / comparison_post END AS ratio_post,
                CASE
                    WHEN ratio_mean_pre IS NOT NULL AND ratio_mean_post IS NOT NULL
                        THEN ratio_mean_post - ratio_mean_pre
                    ELSE NULL
                END AS ratio_mean_delta,
                CASE
                    WHEN ratio_n_pre > 1 AND ratio_n_post > 1 THEN
                        SQRT(
                            (COALESCE(ratio_sd_pre, 0.0) * COALESCE(ratio_sd_pre, 0.0) / ratio_n_pre) +
                            (COALESCE(ratio_sd_post, 0.0) * COALESCE(ratio_sd_post, 0.0) / ratio_n_post)
                        )
                    ELSE NULL
                END AS ratio_mean_delta_se
            FROM rolled
        )
        SELECT
            ";

/// What is told of a comparison, and what it is taken for.
pub const RELEASE_FINDINGS: &'static str = ",
            anchor_pre,
            anchor_transition,
            anchor_post,
            comparison_pre,
            comparison_transition,
            comparison_post,
            ratio_pre,
            ratio_post,
            ratio_n_pre,
            ratio_n_post,
            ratio_mean_pre,
            ratio_mean_post,
            ratio_sd_pre,
            ratio_sd_post,
            ratio_mean_delta,
            ratio_mean_delta_se,
            CASE
                WHEN ratio_mean_delta_se IS NOT NULL AND ratio_mean_delta_se > 0 AND ratio_mean_delta IS NOT NULL
                    THEN ratio_mean_delta / ratio_mean_delta_se
                ELSE NULL
            END AS ratio_mean_delta_z,
            CASE
                WHEN ratio_pre IS NOT NULL AND ratio_pre != 0 AND ratio_post IS NOT NULL
                    THEN ((ratio_post - ratio_pre) / ratio_pre) * 100
                ELSE NULL
            END AS ratio_delta_pct,
            CASE
                WHEN anchor_pre = 0 AND comparison_pre = 0 THEN 'insufficient_baseline'
                WHEN ratio_pre IS NULL OR ratio_post IS NULL THEN 'insufficient_compare_volume'
                WHEN anchor_post < anchor_pre * 0.65 AND comparison_post >= comparison_pre * 0.90
                    THEN 'likely_instrumentation_break'
                WHEN anchor_post < anchor_pre * 0.75 AND comparison_post < comparison_pre * 0.75
                    THEN 'likely_behavior_shift'
                WHEN ratio_pre > 0 AND ABS((ratio_post - ratio_pre) / ratio_pre) <= 0.20
                    THEN 'likely_stable'
                ELSE 'inconclusive'
            END AS confidence_flag
        FROM ratioed";

/// How often each parameter occurs in each window.
pub const PARAMETERS_BY_PERIOD: &'static str = "
                    ELSE NULL
                END AS period,
                channel,
                source_medium,
                COALESCE(NULLIF(split_part(landing_url, '?', 1), ''), '(none)') AS landing_path,
                split_part(landing_url, '?', 2) AS query_string
            FROM normalized
            WHERE event_date IS NOT NULL
        ),
        exploded AS (
            SELECT
                period,
                channel,
                source_medium,
                landing_path,
                CASE
                    WHEN strpos(param_pair, '=') > 0 THEN lower(split_part(param_pair, '=', 1))
                    ELSE lower(param_pair)
                END AS param_key,
                CASE
                    WHEN strpos(param_pair, '=') > 0 THEN NULLIF(split_part(param_pair, '=', 2), '')
                    ELSE NULL
                END AS param_value
            FROM windowed
            CROSS JOIN UNNEST(
                CASE
                    WHEN query_string IS NULL OR query_string = '' THEN ['']
                    ELSE string_split(query_string, '&')
                END
            ) AS pairs(param_pair)
            WHERE period IN ('pre', 'post')
        ),
        aggregated AS (
            SELECT
                channel,
                source_medium,
                landing_path,
                param_key,
                COALESCE(param_value, '(empty)') AS param_value,
                SUM(CASE WHEN period = 'pre' THEN 1 ELSE 0 END) AS pre_rows,
                SUM(CASE WHEN period = 'post' THEN 1 ELSE 0 END) AS post_rows
            FROM exploded
            WHERE param_key IS NOT NULL AND param_key <> ''
            GROUP BY
                channel,
                source_medium,
                landing_path,
                param_key,
                COALESCE(param_value, '(empty)')
        ),
        scored AS (
            SELECT
                channel,
                source_medium,
                landing_path,
                param_key,
                param_value,
                md5(param_key || '=' || param_value) AS param_signature,
                pre_rows,
                post_rows,
                post_rows - pre_rows AS delta_rows,
                CASE
                    WHEN pre_rows > 0 THEN ((post_rows - pre_rows) * 100.0) / pre_rows
                    ELSE NULL
                END AS delta_pct,
                CASE
                    WHEN pre_rows = 0 AND post_rows > 0 THEN 'new_in_post'
                    WHEN pre_rows > 0 AND post_rows = 0 THEN 'disappeared_post'
                    ELSE 'shifted'
                END AS shift_type
            FROM aggregated
        ),
        ranked AS (
            SELECT
                *,
                ROW_NUMBER() OVER (
                    ORDER BY ABS(delta_rows) DESC, post_rows DESC, pre_rows DESC, channel, source_medium, landing_path, param_key, param_value
                ) AS rank_by_abs_delta
            FROM scored
        )
        SELECT
            ";

/// What is told of a parameter.
pub const RANKED_PARAMETERS: &'static str = ",
            channel,
            source_medium,
            landing_path,
            param_key,
            param_value,
            param_signature,
            pre_rows,
            post_rows,
            delta_rows,
            delta_pct,
            shift_type,
            rank_by_abs_delta
        FROM ranked
        ";

/// The order in which parameters are told.
pub const RANK_ORDER: &'static str = "
        ORDER BY rank_by_abs_delta";

/// How the windows around a release begin.
pub const WINDOWS_BEGIN: &'static str = "
        ),
        windowed AS (
            SELECT
                CASE
                    ";

/// What an event weighs by the number in a column.
pub const WEIGHED_BY_COLUMN: &'static str = "COALESCE(TRY_CAST({column} AS DOUBLE), 0.0)";

/// How rows are grouped by the text in a column.
pub const GROUPED_BY_COLUMN: &'static str = "COALESCE(CAST({column} AS VARCHAR), 'all')";

/// The days from a release to the end of the window after it.
pub open spec fn post_window_days(transition_days: u32, post_days: u32) -> nat {
    (transition_days + post_days) as nat
}

/// What the events of a report weigh: the number in a column, or one each.
pub open spec fn metric_expression(metric_column: Option<Seq<char>>) -> Seq<char> {
    match metric_column {
        Some(column) => "COALESCE(TRY_CAST("@ + sql_text::quoted_identifier(column)
            + " AS DOUBLE), 0.0)"@,
        None => "1.0"@,
    }
}

/// How the rows of a report are grouped: by the text in a column, or all together.
pub open spec fn group_expression(column: Option<Seq<char>>) -> Seq<char> {
    match column {
        Some(column) => "COALESCE(CAST("@ + sql_text::quoted_identifier(column)
            + " AS VARCHAR), 'all')"@,
        None => "'all'"@,
    }
}

proof fn lemma_weighed_by_column(fields: Seq<(Seq<char>, Seq<char>)>)
    requires
        fields.len() == 1,
        fields[0].0 == "column"@,
    ensures
        templates::filled(WEIGHED_BY_COLUMN@, fields)
            == "COALESCE(TRY_CAST("@ + fields[0].1 + " AS DOUBLE), 0.0)"@,
{
    assert("COALESCE(TRY_CAST({column} AS DOUBLE), 0.0)"@ =~= "COALESCE(TRY_CAST("@ + "{column}"@ + " AS DOUBLE), 0.0)"@) by {
        reveal_strlit("COALESCE(TRY_CAST({column} AS DOUBLE), 0.0)");
        reveal_strlit("COALESCE(TRY_CAST(");
        reveal_strlit("{column}");
        reveal_strlit(" AS DOUBLE), 0.0)");
    }
    assert(templates::is_slot("{column}"@, "column"@)) by {
        reveal_strlit("{column}");
        reveal_strlit("column");
        assert("{column}"@.subrange(1, "{column}"@.len() - 1) =~= "column"@);
    }
    assert(templates::is_plain("COALESCE(TRY_CAST("@)) by {
        reveal_strlit("COALESCE(TRY_CAST(");
    }
    assert(!" AS DOUBLE), 0.0)"@.contains('{')) by {
        reveal_strlit(" AS DOUBLE), 0.0)");
    }
    templates::law_names_give_way_to_values(
        "COALESCE(TRY_CAST("@,
        "{column}"@,
        "column"@,
        " AS DOUBLE), 0.0)"@,
        fields,
    );
    templates::law_plain_templates(" AS DOUBLE), 0.0)"@, fields);
}

fn metric_expression_text(metric_column: Option<&str>) -> (r: String)
    ensures
        r@ == metric_expression(text::opt_str(metric_column)),
{
    match metric_column {
        Some(column) => {
            let mut fields = templates::Fields::new();
            fields.set("column", sql_text::quote_sql_identifier(column));
            proof {
                lemma_weighed_by_column(fields@);
            }
            templates::fill(WEIGHED_BY_COLUMN, &fields)
        },
        None => "1.0".to_owned(),
    }
}

proof fn lemma_grouped_by_column(fields: Seq<(Seq<char>, Seq<char>)>)
    requires
        fields.len() == 1,
        fields[0].0 == "column"@,
    ensures
        templates::filled(GROUPED_BY_COLUMN@, fields)
            == "COALESCE(CAST("@ + fields[0].1 + " AS VARCHAR), 'all')"@,
{
    assert("COALESCE(CAST({column} AS VARCHAR), 'all')"@ =~= "COALESCE(CAST("@ + "{column}"@ + " AS VARCHAR), 'all')"@) by {
        reveal_strlit("COALESCE(CAST({column} AS VARCHAR), 'all')");
        reveal_strlit("COALESCE(CAST(");
        reveal_strlit("{column}");
        reveal_strlit(" AS VARCHAR), 'all')");
    }
    assert(templates::is_slot("{column}"@, "column"@)) by {
        reveal_strlit("{column}");
        reveal_strlit("column");
        assert("{column}"@.subrange(1, "{column}"@.len() - 1) =~= "column"@);
    }
    assert(templates::is_plain("COALESCE(CAST("@)) by {
        reveal_strlit("COALESCE(CAST(");
    }
    assert(!" AS VARCHAR), 'all')"@.contains('{')) by {
        reveal_strlit(" AS VARCHAR), 'all')");
    }
    templates::law_names_give_way_to_values(
        "COALESCE(CAST("@,
        "{column}"@,
        "column"@,
        " AS VARCHAR), 'all')"@,
        fields,
    );
    templates::law_plain_templates(" AS VARCHAR), 'all')"@, fields);
}

fn group_expression_text(column: Option<&str>) -> (r: String)
    ensures
        r@ == group_expression(text::opt_str(column)),
{
    match column {
        Some(column) => {
            let mut fields = templates::Fields::new();
            fields.set("column", sql_text::quote_sql_identifier(column));
            proof {
                lemma_grouped_by_column(fields@);
            }
            templates::fill(GROUPED_BY_COLUMN, &fields)
        },
        None => "'all'".to_owned(),
    }
}

/// The parts of the query that compares two events around a release.
pub open spec fn release_parts(
    table: Seq<char>,
    release_date: Seq<char>,
    anchor_event: Seq<char>,
    comparison_event: Seq<char>,
    date_column: Seq<char>,
    event_column: Seq<char>,
    metric_column: Option<Seq<char>>,
    pre_days: u32,
    transition_days: u32,
    post_days: u32,
) -> Seq<Seq<char>> {
    seq![
        QUERY_BEGIN@,
        "TRY_CAST("@,
        sql_text::quoted_identifier(date_column),
        " AS DATE)"@,
        ",\n                    "@,
        "CAST(TRY_STRPTIME(CAST("@,
        sql_text::quoted_identifier(date_column),
        " AS VARCHAR), '%Y%m%d') AS DATE)"@,
        ",\n                    "@,
        "CAST(TRY_STRPTIME(CAST("@,
        sql_text::quoted_identifier(date_column),
        " AS VARCHAR), '%Y-%m-%d') AS DATE)"@,
        "\n                ) AS event_date,\n                "@,
        "CAST("@,
        sql_text::quoted_identifier(event_column),
        " AS VARCHAR) AS event_name"@,
        ",\n                "@,
        metric_expression(metric_column),
        " AS metric_value"@,
        "\n            "@,
        "FROM "@,
        sql_text::quoted_identifier(table),
        WINDOWS_BEGIN@,
        "WHEN event_date >= DATE '"@,
        text::doubled(release_date, '\''),
        "' - INTERVAL '"@,
        text::decimal(pre_days as nat),
        " day'\n                     AND event_date < DATE '"@,
        text::doubled(release_date, '\''),
        "' THEN 'pre'"@,
        "\n                    "@,
        "WHEN event_date >= DATE '"@,
        text::doubled(release_date, '\''),
        "'\n                     AND event_date < DATE '"@,
        text::doubled(release_date, '\''),
        "' + INTERVAL '"@,
        text::decimal(transition_days as nat),
        " day' THEN 'transition'"@,
        "\n                    "@,
        "WHEN event_date >= DATE '"@,
        text::doubled(release_date, '\''),
        "' + INTERVAL '"@,
        text::decimal(transition_days as nat),
        " day'\n                     AND event_date < DATE '"@,
        text::doubled(release_date, '\''),
        "' + INTERVAL '"@,
        text::decimal(post_window_days(transition_days, post_days)),
        " day' THEN 'post'"@,
        WINDOWED_EVENTS@,
        "event_name = '"@,
        text::doubled(anchor_event, '\''),
        "' THEN metric_value ELSE 0 END) AS anchor_value"@,
        ",\n                SUM(CASE WHEN "@,
        "event_name = '"@,
        text::doubled(comparison_event, '\''),
        "' THEN metric_value ELSE 0 END) AS comparison_value"@,
        RATIOS_BY_DAY@,
        "event_name = '"@,
        text::doubled(anchor_event, '\''),
        "' THEN metric_value ELSE 0 END) AS anchor_value"@,
        ",\n                SUM(CASE WHEN "@,
        "event_name = '"@,
        text::doubled(comparison_event, '\''),
        "' THEN metric_value ELSE 0 END) AS comparison_value"@,
        RATIOS_BY_PERIOD@,
        "DATE '"@,
        text::doubled(release_date, '\''),
        "' AS release_date"@,
        ",\n            "@,
        "'"@,
        text::doubled(anchor_event, '\''),
        "' AS anchor_event"@,
        ",\n            "@,
        "'"@,
        text::doubled(comparison_event, '\''),
        "' AS comparison_event"@,
        RELEASE_FINDINGS@,
    ]
}

/// The query that compares two events around a release.
pub open spec fn release_regression_sql(
    table: Seq<char>,
    release_date: Seq<char>,
    anchor_event: Seq<char>,
    comparison_event: Seq<char>,
    date_column: Seq<char>,
    event_column: Seq<char>,
    metric_column: Option<Seq<char>>,
    pre_days: u32,
    transition_days: u32,
    post_days: u32,
) -> Seq<char> {
    text::joined(
        release_parts(
            table,
            release_date,
            anchor_event,
            comparison_event,
            date_column,
            event_column,
            metric_column,
            pre_days,
            transition_days,
            post_days,
        ),
        ""@,
    )
}

/// The query that compares two events around a release.
pub fn build_release_regression_sql(
    normalized_table_name: &str,
    release_date: &str,
    anchor_event: &str,
    comparison_event: &str,
    date_column: &str,
    event_column: &str,
    metric_column: Option<&str>,
    pre_days: u32,
    transition_days: u32,
    post_days: u32,
) -> (r: String)
    ensures
        r@ == release_regression_sql(
            normalized_table_name@,
            release_date@,
            anchor_event@,
            comparison_event@,
            date_column@,
            event_column@,
            text::opt_str(metric_column),
            pre_days,
            transition_days,
            post_days,
        ),
{
    let mut parts: Vec<String> = Vec::new();
    parts.push(QUERY_BEGIN.to_owned());
    parts.push("TRY_CAST(".to_owned());
    parts.push(sql_text::quote_sql_identifier(date_column));
    parts.push(" AS DATE)".to_owned());
    parts.push(",\n                    ".to_owned());
    parts.push("CAST(TRY_STRPTIME(CAST(".to_owned());
    parts.push(sql_text::quote_sql_identifier(date_column));
    parts.push(" AS VARCHAR), '%Y%m%d') AS DATE)".to_owned());
    parts.push(",\n                    ".to_owned());
    parts.push("CAST(TRY_STRPTIME(CAST(".to_owned());
    parts.push(sql_text::quote_sql_identifier(date_column));
    parts.push(" AS VARCHAR), '%Y-%m-%d') AS DATE)".to_owned());
    parts.push("\n                ) AS event_date,\n                ".to_owned());
    parts.push("CAST(".to_owned());
    parts.push(sql_text::quote_sql_identifier(event_column));
    parts.push(" AS VARCHAR) AS event_name".to_owned());
    parts.push(",\n                ".to_owned());
    parts.push(metric_expression_text(metric_column));
    parts.push(" AS metric_value".to_owned());
    parts.push("\n            ".to_owned());
    parts.push("FROM ".to_owned());
    parts.push(sql_text::quote_sql_identifier(normalized_table_name));
    parts.push(WINDOWS_BEGIN.to_owned());
    parts.push("WHEN event_date >= DATE '".to_owned());
    parts.push(sql_text::escape_sql_literal(release_date));
    parts.push("' - INTERVAL '".to_owned());
    parts.push(text::decimal_text(pre_days as u64));
    parts.push(" day'\n                     AND event_date < DATE '".to_owned());
    parts.push(sql_text::escape_sql_literal(release_date));
    parts.push("' THEN 'pre'".to_owned());
    parts.push("\n                    ".to_owned());
    parts.push("WHEN event_date >= DATE '".to_owned());
    parts.push(sql_text::escape_sql_literal(release_date));
    parts.push("'\n                     AND event_date < DATE '".to_owned());
    parts.push(sql_text::escape_sql_literal(release_date));
    parts.push("' + INTERVAL '".to_owned());
    parts.push(text::decimal_text(transition_days as u64));
    parts.push(" day' THEN 'transition'".to_owned());
    parts.push("\n                    ".to_owned());
    parts.push("WHEN event_date >= DATE '".to_owned());
    parts.push(sql_text::escape_sql_literal(release_date));
    parts.push("' + INTERVAL '".to_owned());
    parts.push(text::decimal_text(transition_days as u64));
    parts.push(" day'\n                     AND event_date < DATE '".to_owned());
    parts.push(sql_text::escape_sql_literal(release_date));
    parts.push("' + INTERVAL '".to_owned());
    parts.push(text::decimal_text(transition_days as u64 + post_days as u64));
    parts.push(" day' THEN 'post'".to_owned());
    parts.push(WINDOWED_EVENTS.to_owned());
    parts.push("event_name = '".to_owned());
    parts.push(sql_text::escape_sql_literal(anchor_event));
    parts.push("' THEN metric_value ELSE 0 END) AS anchor_value".to_owned());
    parts.push(",\n                SUM(CASE WHEN ".to_owned());
    parts.push("event_name = '".to_owned());
    parts.push(sql_text::escape_sql_literal(comparison_event));
    parts.push("' THEN metric_value ELSE 0 END) AS comparison_value".to_owned());
    parts.push(RATIOS_BY_DAY.to_owned());
    parts.push("event_name = '".to_owned());
    parts.push(sql_text::escape_sql_literal(anchor_event));
    parts.push("' THEN metric_value ELSE 0 END) AS anchor_value".to_owned());
    parts.push(",\n                SUM(CASE WHEN ".to_owned());
    parts.push("event_name = '".to_owned());
    parts.push(sql_text::escape_sql_literal(comparison_event));
    parts.push("' THEN metric_value ELSE 0 END) AS comparison_value".to_owned());
    parts.push(RATIOS_BY_PERIOD.to_owned());
    parts.push("DATE '".to_owned());
    parts.push(sql_text::escape_sql_literal(release_date));
    parts.push("' AS release_date".to_owned());
    parts.push(",\n            ".to_owned());
    parts.push("'".to_owned());
    parts.push(sql_text::escape_sql_literal(anchor_event));
    parts.push("' AS anchor_event".to_owned());
    parts.push(",\n            ".to_owned());
    parts.push("'".to_owned());
    parts.push(sql_text::escape_sql_literal(comparison_event));
    parts.push("' AS comparison_event".to_owned());
    parts.push(RELEASE_FINDINGS.to_owned());
    assert(
        text::texts(parts@)
            =~= release_parts(
                normalized_table_name@,
                release_date@,
                anchor_event@,
                comparison_event@,
                date_column@,
                event_column@,
                text::opt_str(metric_column),
                pre_days,
                transition_days,
                post_days,
            )
    );
    text::join(parts.as_slice(), "")
}

/// The parts of the query that compares the parameters of landing pages.
pub open spec fn landing_parts(
    table: Seq<char>,
    release_date: Seq<char>,
    date_column: Seq<char>,
    landing_url_column: Seq<char>,
    channel_column: Option<Seq<char>>,
    source_medium_column: Option<Seq<char>>,
    pre_days: u32,
    transition_days: u32,
    post_days: u32,
    top_n: usize,
) -> Seq<Seq<char>> {
    seq![
        QUERY_BEGIN@,
        "TRY_CAST("@,
        sql_text::quoted_identifier(date_column),
        " AS DATE)"@,
        ",\n                    "@,
        "CAST(TRY_STRPTIME(CAST("@,
        sql_text::quoted_identifier(date_column),
        " AS VARCHAR), '%Y%m%d') AS DATE)"@,
        ",\n                    "@,
        "CAST(TRY_STRPTIME(CAST("@,
        sql_text::quoted_identifier(date_column),
        " AS VARCHAR), '%Y-%m-%d') AS DATE)"@,
        "\n                ) AS event_date,\n                "@,
        "CAST("@,
        sql_text::quoted_identifier(landing_url_column),
        " AS VARCHAR) AS landing_url"@,
        ",\n                "@,
        group_expression(channel_column),
        " AS channel"@,
        ",\n                "@,
        group_expression(source_medium_column),
        " AS source_medium"@,
        "\n            "@,
        "FROM "@,
        sql_text::quoted_identifier(table),
        WINDOWS_BEGIN@,
        "WHEN event_date >= DATE '"@,
        text::doubled(release_date, '\''),
        "' - INTERVAL '"@,
        text::decimal(pre_days as nat),
        " day'\n                     AND event_date < DATE '"@,
        text::doubled(release_date, '\''),
        "' THEN 'pre'"@,
        "\n                    "@,
        "WHEN event_date >= DATE '"@,
        text::doubled(release_date, '\''),
        "' + INTERVAL '"@,
        text::decimal(transition_days as nat),
        " day'\n                     AND event_date < DATE '"@,
        text::doubled(release_date, '\''),
        "' + INTERVAL '"@,
        text::decimal(post_window_days(transition_days, post_days)),
        " day' THEN 'post'"@,
        PARAMETERS_BY_PERIOD@,
        "DATE '"@,
        text::doubled(release_date, '\''),
        "' AS release_date"@,
        RANKED_PARAMETERS@,
        "WHERE rank_by_abs_delta <= "@,
        text::decimal(top_n as nat),
        RANK_ORDER@,
    ]
}

/// The query that compares the parameters of landing pages around a release.
pub open spec fn landing_param_shift_sql(
    table: Seq<char>,
    release_date: Seq<char>,
    date_column: Seq<char>,
    landing_url_column: Seq<char>,
    channel_column: Option<Seq<char>>,
    source_medium_column: Option<Seq<char>>,
    pre_days: u32,
    transition_days: u32,
    post_days: u32,
    top_n: usize,
) -> Seq<char> {
    text::joined(
        landing_parts(
            table,
            release_date,
            date_column,
            landing_url_column,
            channel_column,
            source_medium_column,
            pre_days,
            transition_days,
            post_days,
            top_n,
        ),
        ""@,
    )
}

/// The query that compares the parameters of landing pages around a release.
pub fn build_landing_param_shift_sql(
    normalized_table_name: &str,
    release_date: &str,
    date_column: &str,
    landing_url_column: &str,
    channel_column: Option<&str>,
    source_medium_column: Option<&str>,
    pre_days: u32,
    transition_days: u32,
    post_days: u32,
    top_n: usize,
) -> (r: String)
    ensures
        r@ == landing_param_shift_sql(
            normalized_table_name@,
            release_date@,
            date_column@,
            landing_url_column@,
            text::opt_str(channel_column),
            text::opt_str(source_medium_column),
            pre_days,
            transition_days,
            post_days,
            top_n,
        ),
{
    let mut parts: Vec<String> = Vec::new();
    parts.push(QUERY_BEGIN.to_owned());
    parts.push("TRY_CAST(".to_owned());
    parts.push(sql_text::quote_sql_identifier(date_column));
    parts.push(" AS DATE)".to_owned());
    parts.push(",\n                    ".to_owned());
    parts.push("CAST(TRY_STRPTIME(CAST(".to_owned());
    parts.push(sql_text::quote_sql_identifier(date_column));
    parts.push(" AS VARCHAR), '%Y%m%d') AS DATE)".to_owned());
    parts.push(",\n                    ".to_owned());
    parts.push("CAST(TRY_STRPTIME(CAST(".to_owned());
    parts.push(sql_text::quote_sql_identifier(date_column));
    parts.push(" AS VARCHAR), '%Y-%m-%d') AS DATE)".to_owned());
    parts.push("\n                ) AS event_date,\n                ".to_owned());
    parts.push("CAST(".to_owned());
    parts.push(sql_text::quote_sql_identifier(landing_url_column));
    parts.push(" AS VARCHAR) AS landing_url".to_owned());
    parts.push(",\n                ".to_owned());
    parts.push(group_expression_text(channel_column));
    parts.push(" AS channel".to_owned());
    parts.push(",\n                ".to_owned());
    parts.push(group_expression_text(source_medium_column));
    parts.push(" AS source_medium".to_owned());
    parts.push("\n            ".to_owned());
    parts.push("FROM ".to_owned());
    parts.push(sql_text::quote_sql_identifier(normalized_table_name));
    parts.push(WINDOWS_BEGIN.to_owned());
    parts.push("WHEN event_date >= DATE '".to_owned());
    parts.push(sql_text::escape_sql_literal(release_date));
    parts.push("' - INTERVAL '".to_owned());
    parts.push(text::decimal_text(pre_days as u64));
    parts.push(" day'\n                     AND event_date < DATE '".to_owned());
    parts.push(sql_text::escape_sql_literal(release_date));
    parts.push("' THEN 'pre'".to_owned());
    parts.push("\n                    ".to_owned());
    parts.push("WHEN event_date >= DATE '".to_owned());
    parts.push(sql_text::escape_sql_literal(release_date));
    parts.push("' + INTERVAL '".to_owned());
    parts.push(text::decimal_text(transition_days as u64));
    parts.push(" day'\n                     AND event_date < DATE '".to_owned());
    parts.push(sql_text::escape_sql_literal(release_date));
    parts.push("' + INTERVAL '".to_owned());
    parts.push(text::decimal_text(transition_days as u64 + post_days as u64));
    parts.push(" day' THEN 'post'".to_owned());
    parts.push(PARAMETERS_BY_PERIOD.to_owned());
    parts.push("DATE '".to_owned());
    parts.push(sql_text::escape_sql_literal(release_date));
    parts.push("' AS release_date".to_owned());
    parts.push(RANKED_PARAMETERS.to_owned());
    parts.push("WHERE rank_by_abs_delta <= ".to_owned());
    parts.push(text::decimal_text(top_n as u64));
    parts.push(RANK_ORDER.to_owned());
    assert(
        text::texts(parts@)
            =~= landing_parts(
                normalized_table_name@,
                release_date@,
                date_column@,
                landing_url_column@,
                text::opt_str(channel_column),
                text::opt_str(source_medium_column),
                pre_days,
                transition_days,
                post_days,
                top_n,
            )
    );
    text::join(parts.as_slice(), "")
}

// ---------------------------------------------------------------------------
// Laws.
// ---------------------------------------------------------------------------

/// The query sums what the anchor event weighs as the value of the anchor, and what the other
/// event weighs as the value of the comparison; and its answer names each of them as what it is.
pub proof fn law_release_queries_tell_the_events_apart(
    table: Seq<char>,
    release_date: Seq<char>,
    anchor_event: Seq<char>,
    comparison_event: Seq<char>,
    date_column: Seq<char>,
    event_column: Seq<char>,
    metric_column: Option<Seq<char>>,
    pre_days: u32,
    transition_days: u32,
    post_days: u32,
)
    ensures
        text::holds(
            release_regression_sql(
                table,
                release_date,
                anchor_event,
                comparison_event,
                date_column,
                event_column,
                metric_column,
                pre_days,
                transition_days,
                post_days,
            ),
            "event_name = '"@
                + text::doubled(anchor_event, '\'')
                + "' THEN metric_value ELSE 0 END) AS anchor_value"@,
        ),
        text::holds(
            release_regression_sql(
                table,
                release_date,
                anchor_event,
                comparison_event,
                date_column,
                event_column,
                metric_column,
                pre_days,
                transition_days,
                post_days,
            ),
            "event_name = '"@
                + text::doubled(comparison_event, '\'')
                + "' THEN metric_value ELSE 0 END) AS comparison_value"@,
        ),
        text::holds(
            release_regression_sql(
                table,
                release_date,
                anchor_event,
                comparison_event,
                date_column,
                event_column,
                metric_column,
                pre_days,
                transition_days,
                post_days,
            ),
            "DATE '"@ + text::doubled(release_date, '\'') + "' AS release_date"@,
        ),
        text::holds(
            release_regression_sql(
                table,
                release_date,
                anchor_event,
                comparison_event,
                date_column,
                event_column,
                metric_column,
                pre_days,
                transition_days,
                post_days,
            ),
            "'"@ + text::doubled(anchor_event, '\'') + "' AS anchor_event"@,
        ),
        text::holds(
            release_regression_sql(
                table,
                release_date,
                anchor_event,
                comparison_event,
                date_column,
                event_column,
                metric_column,
                pre_days,
                transition_days,
                post_days,
            ),
            "'"@ + text::doubled(comparison_event, '\'') + "' AS comparison_event"@,
        ),
{
    let parts = release_parts(
        table,
        release_date,
        anchor_event,
        comparison_event,
        date_column,
        event_column,
        metric_column,
        pre_days,
        transition_days,
        post_days,
    );
    text::law_runs_of_three_are_held(parts, 49);
    text::law_runs_of_three_are_held(parts, 53);
    text::law_runs_of_three_are_held(parts, 65);
    text::law_runs_of_three_are_held(parts, 69);
    text::law_runs_of_three_are_held(parts, 73);
}

/// The query reads the dates, the events and what they weigh from the columns that are named,
/// of the table that is named.
pub proof fn law_release_queries_read_their_columns(
    table: Seq<char>,
    release_date: Seq<char>,
    anchor_event: Seq<char>,
    comparison_event: Seq<char>,
    date_column: Seq<char>,
    event_column: Seq<char>,
    metric_column: Option<Seq<char>>,
    pre_days: u32,
    transition_days: u32,
    post_days: u32,
)
    ensures
        text::holds(release_regression_sql(table, release_date, anchor_event, comparison_event, date_column, event_column, metric_column, pre_days, transition_days, post_days), "TRY_CAST("@ + ("\""@ + text::doubled(date_column, '"') + "\""@) + " AS DATE)"@),
        text::holds(release_regression_sql(table, release_date, anchor_event, comparison_event, date_column, event_column, metric_column, pre_days, transition_days, post_days), "CAST(TRY_STRPTIME(CAST("@ + ("\""@ + text::doubled(date_column, '"') + "\""@) + " AS VARCHAR), '%Y%m%d') AS DATE)"@),
        text::holds(release_regression_sql(table, release_date, anchor_event, comparison_event, date_column, event_column, metric_column, pre_days, transition_days, post_days), "CAST(TRY_STRPTIME(CAST("@ + ("\""@ + text::doubled(date_column, '"') + "\""@) + " AS VARCHAR), '%Y-%m-%d') AS DATE)"@),
        text::holds(release_regression_sql(table, release_date, anchor_event, comparison_event, date_column, event_column, metric_column, pre_days, transition_days, post_days), "CAST("@ + ("\""@ + text::doubled(event_column, '"') + "\""@) + " AS VARCHAR) AS event_name"@),
        text::holds(release_regression_sql(table, release_date, anchor_event, comparison_event, date_column, event_column, metric_column, pre_days, transition_days, post_days), (match metric_column { Some(column) => "COALESCE(TRY_CAST("@ + ("\""@ + text::doubled(column, '"') + "\""@) + " AS DOUBLE), 0.0)"@, None => "1.0"@, }) + " AS metric_value"@),
        text::holds(release_regression_sql(table, release_date, anchor_event, comparison_event, date_column, event_column, metric_column, pre_days, transition_days, post_days), "FROM "@ + ("\""@ + text::doubled(table, '"') + "\""@)),
{
    let parts = release_parts(
        table,
        release_date,
        anchor_event,
        comparison_event,
        date_column,
        event_column,
        metric_column,
        pre_days,
        transition_days,
        post_days,
    );
    text::law_runs_of_three_are_held(parts, 1);
    text::law_runs_of_three_are_held(parts, 5);
    text::law_runs_of_three_are_held(parts, 9);
    text::law_runs_of_three_are_held(parts, 13);
    text::law_runs_of_two_are_held(parts, 17);
    text::law_runs_of_two_are_held(parts, 20);
}

/// The windows of the query are the days before the release, the days of the transition from the
/// release on, and as many days behind those as are asked for.
pub proof fn law_release_queries_keep_their_windows(
    table: Seq<char>,
    release_date: Seq<char>,
    anchor_event: Seq<char>,
    comparison_event: Seq<char>,
    date_column: Seq<char>,
    event_column: Seq<char>,
    metric_column: Option<Seq<char>>,
    pre_days: u32,
    transition_days: u32,
    post_days: u32,
)
    ensures
        text::holds(
            release_regression_sql(
                table,
                release_date,
                anchor_event,
                comparison_event,
                date_column,
                event_column,
                metric_column,
                pre_days,
                transition_days,
                post_days,
            ),
            "WHEN event_date >= DATE '"@
                + text::doubled(release_date, '\'')
                + "' - INTERVAL '"@
                + text::decimal(pre_days as nat)
                + " day'\n                     AND event_date < DATE '"@
                + text::doubled(release_date, '\'')
                + "' THEN 'pre'"@,
        ),
        text::holds(
            release_regression_sql(
                table,
                release_date,
                anchor_event,
                comparison_event,
                date_column,
                event_column,
                metric_column,
                pre_days,
                transition_days,
                post_days,
            ),
            "WHEN event_date >= DATE '"@
                + text::doubled(release_date, '\'')
                + "'\n                     AND event_date < DATE '"@
                + text::doubled(release_date, '\'')
                + "' + INTERVAL '"@
                + text::decimal(transition_days as nat)
                + " day' THEN 'transition'"@,
        ),
        text::holds(
            release_regression_sql(
                table,
                release_date,
                anchor_event,
                comparison_event,
                date_column,
                event_column,
                metric_column,
                pre_days,
                transition_days,
                post_days,
            ),
            "WHEN event_date >= DATE '"@
                + text::doubled(release_date, '\'')
                + "' + INTERVAL '"@
                + text::decimal(transition_days as nat)
                + " day'\n                     AND event_date < DATE '"@
                + text::doubled(release_date, '\'')
                + "' + INTERVAL '"@
                + text::decimal((transition_days + post_days) as nat)
                + " day' THEN 'post'"@,
        ),
{
    let parts = release_parts(
        table,
        release_date,
        anchor_event,
        comparison_event,
        date_column,
        event_column,
        metric_column,
        pre_days,
        transition_days,
        post_days,
    );
    text::law_runs_of_seven_are_held(parts, 23);
    text::law_runs_of_seven_are_held(parts, 31);
    text::law_runs_of_nine_are_held(parts, 39);
}

/// The query weighs the anchor against the comparison by day and by window, and takes the
/// change for what its size says.
pub proof fn law_release_queries_judge_by_their_rules(
    table: Seq<char>,
    release_date: Seq<char>,
    anchor_event: Seq<char>,
    comparison_event: Seq<char>,
    date_column: Seq<char>,
    event_column: Seq<char>,
    metric_column: Option<Seq<char>>,
    pre_days: u32,
    transition_days: u32,
    post_days: u32,
)
    ensures
        text::holds(
            release_regression_sql(
                table,
                release_date,
                anchor_event,
                comparison_event,
                date_column,
                event_column,
                metric_column,
                pre_days,
                transition_days,
                post_days,
            ),
            "
                    ELSE NULL
                END AS period,
                event_date,
                event_name,
                metric_value
            FROM normalized
            WHERE event_date IS NOT NULL
        ),
        daily AS (
            SELECT
                period,
                event_date,
                SUM(CASE WHEN "@,
        ),
        text::holds(
            release_regression_sql(
                table,
                release_date,
                anchor_event,
                comparison_event,
                date_column,
                event_column,
                metric_column,
                pre_days,
                transition_days,
                post_days,
            ),
            "
            FROM windowed
            WHERE period IS NOT NULL
            GROUP BY period, event_date
        ),
        daily_ratio AS (
            SELECT
                period,
                event_date,
                anchor_value,
                comparison_value,
                CASE WHEN comparison_value > 0 THEN anchor_value / comparison_value END AS ratio_value
            FROM daily
        ),
        stats AS (
            SELECT
                period,
                COUNT(*) FILTER (WHERE ratio_value IS NOT NULL) AS ratio_n_days,
                AVG(ratio_value) AS ratio_mean,
                STDDEV_SAMP(ratio_value) AS ratio_sd
            FROM daily_ratio
            GROUP BY period
        ),
        aggregated AS (
            SELECT
                period,
                SUM(CASE WHEN "@,
        ),
        text::holds(
            release_regression_sql(
                table,
                release_date,
                anchor_event,
                comparison_event,
                date_column,
                event_column,
                metric_column,
                pre_days,
                transition_days,
                post_days,
            ),
            "
            FROM windowed
            WHERE period IS NOT NULL
            GROUP BY period
        ),
        rolled AS (
            SELECT
                COALESCE(MAX(CASE WHEN period = 'pre' THEN anchor_value END), 0.0) AS anchor_pre,
                COALESCE(MAX(CASE WHEN period = 'transition' THEN anchor_value END), 0.0) AS anchor_transition,
                COALESCE(MAX(CASE WHEN period = 'post' THEN anchor_value END), 0.0) AS anchor_post,
                COALESCE(MAX(CASE WHEN period = 'pre' THEN comparison_value END), 0.0) AS comparison_pre,
                COALESCE(MAX(CASE WHEN period = 'transition' THEN comparison_value END), 0.0) AS comparison_transition,
                COALESCE(MAX(CASE WHEN period = 'post' THEN comparison_value END), 0.0) AS comparison_post,
                COALESCE(MAX(CASE WHEN period = 'pre' THEN ratio_n_days END), 0) AS ratio_n_pre,
                COALESCE(MAX(CASE WHEN period = 'post' THEN ratio_n_days END), 0) AS ratio_n_post,
                MAX(CASE WHEN period = 'pre' THEN ratio_mean END) AS ratio_mean_pre,
                MAX(CASE WHEN period = 'post' THEN ratio_mean END) AS ratio_mean_post,
                MAX(CASE WHEN period = 'pre' THEN ratio_sd END) AS ratio_sd_pre,
                MAX(CASE WHEN period = 'post' THEN ratio_sd END) AS ratio_sd_post
            FROM aggregated
            LEFT JOIN stats USING (period)
        ),
        ratioed AS (
            SELECT
                *,
                CASE WHEN comparison_pre > 0 THEN anchor_pre / comparison_pre END AS ratio_pre,
                CASE WHEN comparison_post > 0 THEN anchor_post / comparison_post END AS ratio_post,
                CASE
                    WHEN ratio_mean_pre IS NOT NULL AND ratio_mean_post IS NOT NULL
                        THEN ratio_mean_post - ratio_mean_pre
                    ELSE NULL
                END AS ratio_mean_delta,
                CASE
                    WHEN ratio_n_pre > 1 AND ratio_n_post > 1 THEN
                        SQRT(
                            (COALESCE(ratio_sd_pre, 0.0) * COALESCE(ratio_sd_pre, 0.0) / ratio_n_pre) +
                            (COALESCE(ratio_sd_post, 0.0) * COALESCE(ratio_sd_post, 0.0) / ratio_n_post)
                        )
                    ELSE NULL
                END AS ratio_mean_delta_se
            FROM rolled
        )
        SELECT
            "@,
        ),
        text::holds(
            release_regression_sql(
                table,
                release_date,
                anchor_event,
                comparison_event,
                date_column,
                event_column,
                metric_column,
                pre_days,
                transition_days,
                post_days,
            ),
            ",
            anchor_pre,
            anchor_transition,
            anchor_post,
            comparison_pre,
            comparison_transition,
            comparison_post,
            ratio_pre,
            ratio_post,
            ratio_n_pre,
            ratio_n_post,
            ratio_mean_pre,
            ratio_mean_post,
            ratio_sd_pre,
            ratio_sd_post,
            ratio_mean_delta,
            ratio_mean_delta_se,
            CASE
                WHEN ratio_mean_delta_se IS NOT NULL AND ratio_mean_delta_se > 0 AND ratio_mean_delta IS NOT NULL
                    THEN ratio_mean_delta / ratio_mean_delta_se
                ELSE NULL
            END AS ratio_mean_delta_z,
            CASE
                WHEN ratio_pre IS NOT NULL AND ratio_pre != 0 AND ratio_post IS NOT NULL
                    THEN ((ratio_post - ratio_pre) / ratio_pre) * 100
                ELSE NULL
            END AS ratio_delta_pct,
            CASE
                WHEN anchor_pre = 0 AND comparison_pre = 0 THEN 'insufficient_baseline'
                WHEN ratio_pre IS NULL OR ratio_post IS NULL THEN 'insufficient_compare_volume'
                WHEN anchor_post < anchor_pre * 0.65 AND comparison_post >= comparison_pre * 0.90
                    THEN 'likely_instrumentation_break'
                WHEN anchor_post < anchor_pre * 0.75 AND comparison_post < comparison_pre * 0.75
                    THEN 'likely_behavior_shift'
                WHEN ratio_pre > 0 AND ABS((ratio_post - ratio_pre) / ratio_pre) <= 0.20
                    THEN 'likely_stable'
                ELSE 'inconclusive'
            END AS confidence_flag
        FROM ratioed"@,
        ),
{
    let parts = release_parts(
        table,
        release_date,
        anchor_event,
        comparison_event,
        date_column,
        event_column,
        metric_column,
        pre_days,
        transition_days,
        post_days,
    );
    text::law_texts_hold_themselves(WINDOWED_EVENTS@);
    text::law_texts_hold_themselves(RATIOS_BY_DAY@);
    text::law_texts_hold_themselves(RATIOS_BY_PERIOD@);
    text::law_texts_hold_themselves(RELEASE_FINDINGS@);
    text::law_joined_texts_hold_their_parts(parts, ""@, 48, WINDOWED_EVENTS@);
    text::law_joined_texts_hold_their_parts(parts, ""@, 56, RATIOS_BY_DAY@);
    text::law_joined_texts_hold_their_parts(parts, ""@, 64, RATIOS_BY_PERIOD@);
    text::law_joined_texts_hold_their_parts(parts, ""@, 76, RELEASE_FINDINGS@);
}

/// The query reads the dates, the addresses and the groups of landings from the columns that are
/// named, of the table that is named, and tells as many parameters as are asked for.
pub proof fn law_landing_queries_read_their_columns(
    table: Seq<char>,
    release_date: Seq<char>,
    date_column: Seq<char>,
    landing_url_column: Seq<char>,
    channel_column: Option<Seq<char>>,
    source_medium_column: Option<Seq<char>>,
    pre_days: u32,
    transition_days: u32,
    post_days: u32,
    top_n: usize,
)
    ensures
        text::holds(landing_param_shift_sql(table, release_date, date_column, landing_url_column, channel_column, source_medium_column, pre_days, transition_days, post_days, top_n), "TRY_CAST("@ + ("\""@ + text::doubled(date_column, '"') + "\""@) + " AS DATE)"@),
        text::holds(landing_param_shift_sql(table, release_date, date_column, landing_url_column, channel_column, source_medium_column, pre_days, transition_days, post_days, top_n), "CAST(TRY_STRPTIME(CAST("@ + ("\""@ + text::doubled(date_column, '"') + "\""@) + " AS VARCHAR), '%Y%m%d') AS DATE)"@),
        text::holds(landing_param_shift_sql(table, release_date, date_column, landing_url_column, channel_column, source_medium_column, pre_days, transition_days, post_days, top_n), "CAST(TRY_STRPTIME(CAST("@ + ("\""@ + text::doubled(date_column, '"') + "\""@) + " AS VARCHAR), '%Y-%m-%d') AS DATE)"@),
        text::holds(landing_param_shift_sql(table, release_date, date_column, landing_url_column, channel_column, source_medium_column, pre_days, transition_days, post_days, top_n), "CAST("@ + ("\""@ + text::doubled(landing_url_column, '"') + "\""@) + " AS VARCHAR) AS landing_url"@),
        text::holds(landing_param_shift_sql(table, release_date, date_column, landing_url_column, channel_column, source_medium_column, pre_days, transition_days, post_days, top_n), (match channel_column { Some(column) => "COALESCE(CAST("@ + ("\""@ + text::doubled(column, '"') + "\""@) + " AS VARCHAR), 'all')"@, None => "'all'"@, }) + " AS channel"@),
        text::holds(landing_param_shift_sql(table, release_date, date_column, landing_url_column, channel_column, source_medium_column, pre_days, transition_days, post_days, top_n), (match source_medium_column { Some(column) => "COALESCE(CAST("@ + ("\""@ + text::doubled(column, '"') + "\""@) + " AS VARCHAR), 'all')"@, None => "'all'"@, }) + " AS source_medium"@),
        text::holds(landing_param_shift_sql(table, release_date, date_column, landing_url_column, channel_column, source_medium_column, pre_days, transition_days, post_days, top_n), "FROM "@ + ("\""@ + text::doubled(table, '"') + "\""@)),
        text::holds(
            landing_param_shift_sql(
                table,
                release_date,
                date_column,
                landing_url_column,
                channel_column,
                source_medium_column,
                pre_days,
                transition_days,
                post_days,
                top_n,
            ),
            "DATE '"@ + text::doubled(release_date, '\'') + "' AS release_date"@,
        ),
        text::holds(
            landing_param_shift_sql(
                table,
                release_date,
                date_column,
                landing_url_column,
                channel_column,
                source_medium_column,
                pre_days,
                transition_days,
                post_days,
                top_n,
            ),
            "WHERE rank_by_abs_delta <= "@ + text::decimal(top_n as nat),
        ),
{
    let parts = landing_parts(
        table,
        release_date,
        date_column,
        landing_url_column,
        channel_column,
        source_medium_column,
        pre_days,
        transition_days,
        post_days,
        top_n,
    );
    text::law_runs_of_three_are_held(parts, 1);
    text::law_runs_of_three_are_held(parts, 5);
    text::law_runs_of_three_are_held(parts, 9);
    text::law_runs_of_three_are_held(parts, 13);
    text::law_runs_of_two_are_held(parts, 17);
    text::law_runs_of_two_are_held(parts, 20);
    text::law_runs_of_two_are_held(parts, 23);
    text::law_runs_of_three_are_held(parts, 44);
    text::law_runs_of_two_are_held(parts, 48);
}

/// The windows of the query are the days before the release, and as many days behind the
/// transition as are asked for.
pub proof fn law_landing_queries_keep_their_windows(
    table: Seq<char>,
    release_date: Seq<char>,
    date_column: Seq<char>,
    landing_url_column: Seq<char>,
    channel_column: Option<Seq<char>>,
    source_medium_column: Option<Seq<char>>,
    pre_days: u32,
    transition_days: u32,
    post_days: u32,
    top_n: usize,
)
    ensures
        text::holds(
            landing_param_shift_sql(
                table,
                release_date,
                date_column,
                landing_url_column,
                channel_column,
                source_medium_column,
                pre_days,
                transition_days,
                post_days,
                top_n,
            ),
            "WHEN event_date >= DATE '"@
                + text::doubled(release_date, '\'')
                + "' - INTERVAL '"@
                + text::decimal(pre_days as nat)
                + " day'\n                     AND event_date < DATE '"@
                + text::doubled(release_date, '\'')
                + "' THEN 'pre'"@,
        ),
        text::holds(
            landing_param_shift_sql(
                table,
                release_date,
                date_column,
                landing_url_column,
                channel_column,
                source_medium_column,
                pre_days,
                transition_days,
                post_days,
                top_n,
            ),
            "WHEN event_date >= DATE '"@
                + text::doubled(release_date, '\'')
                + "' + INTERVAL '"@
                + text::decimal(transition_days as nat)
                + " day'\n                     AND event_date < DATE '"@
                + text::doubled(release_date, '\'')
                + "' + INTERVAL '"@
                + text::decimal((transition_days + post_days) as nat)
                + " day' THEN 'post'"@,
        ),
{
    let parts = landing_parts(
        table,
        release_date,
        date_column,
        landing_url_column,
        channel_column,
        source_medium_column,
        pre_days,
        transition_days,
        post_days,
        top_n,
    );
    text::law_runs_of_seven_are_held(parts, 26);
    text::law_runs_of_nine_are_held(parts, 34);
}

/// The query counts each parameter before and behind the release, and ranks it by how much its
/// count changes.
pub proof fn law_landing_queries_count_by_their_rules(
    table: Seq<char>,
    release_date: Seq<char>,
    date_column: Seq<char>,
    landing_url_column: Seq<char>,
    channel_column: Option<Seq<char>>,
    source_medium_column: Option<Seq<char>>,
    pre_days: u32,
    transition_days: u32,
    post_days: u32,
    top_n: usize,
)
    ensures
        text::holds(
            landing_param_shift_sql(
                table,
                release_date,
                date_column,
                landing_url_column,
                channel_column,
                source_medium_column,
                pre_days,
                transition_days,
                post_days,
                top_n,
            ),
            "
                    ELSE NULL
                END AS period,
                channel,
                source_medium,
                COALESCE(NULLIF(split_part(landing_url, '?', 1), ''), '(none)') AS landing_path,
                split_part(landing_url, '?', 2) AS query_string
            FROM normalized
            WHERE event_date IS NOT NULL
        ),
        exploded AS (
            SELECT
                period,
                channel,
                source_medium,
                landing_path,
                CASE
                    WHEN strpos(param_pair, '=') > 0 THEN lower(split_part(param_pair, '=', 1))
                    ELSE lower(param_pair)
                END AS param_key,
                CASE
                    WHEN strpos(param_pair, '=') > 0 THEN NULLIF(split_part(param_pair, '=', 2), '')
                    ELSE NULL
                END AS param_value
            FROM windowed
            CROSS JOIN UNNEST(
                CASE
                    WHEN query_string IS NULL OR query_string = '' THEN ['']
                    ELSE string_split(query_string, '&')
                END
            ) AS pairs(param_pair)
            WHERE period IN ('pre', 'post')
        ),
        aggregated AS (
            SELECT
                channel,
                source_medium,
                landing_path,
                param_key,
                COALESCE(param_value, '(empty)') AS param_value,
                SUM(CASE WHEN period = 'pre' THEN 1 ELSE 0 END) AS pre_rows,
                SUM(CASE WHEN period = 'post' THEN 1 ELSE 0 END) AS post_rows
            FROM exploded
            WHERE param_key IS NOT NULL AND param_key <> ''
            GROUP BY
                channel,
                source_medium,
                landing_path,
                param_key,
                COALESCE(param_value, '(empty)')
        ),
        scored AS (
            SELECT
                channel,
                source_medium,
                landing_path,
                param_key,
                param_value,
                md5(param_key || '=' || param_value) AS param_signature,
                pre_rows,
                post_rows,
                post_rows - pre_rows AS delta_rows,
                CASE
                    WHEN pre_rows > 0 THEN ((post_rows - pre_rows) * 100.0) / pre_rows
                    ELSE NULL
                END AS delta_pct,
                CASE
                    WHEN pre_rows = 0 AND post_rows > 0 THEN 'new_in_post'
                    WHEN pre_rows > 0 AND post_rows = 0 THEN 'disappeared_post'
                    ELSE 'shifted'
                END AS shift_type
            FROM aggregated
        ),
        ranked AS (
            SELECT
                *,
                ROW_NUMBER() OVER (
                    ORDER BY ABS(delta_rows) DESC, post_rows DESC, pre_rows DESC, channel, source_medium, landing_path, param_key, param_value
                ) AS rank_by_abs_delta
            FROM scored
        )
        SELECT
            "@,
        ),
        text::holds(
            landing_param_shift_sql(
                table,
                release_date,
                date_column,
                landing_url_column,
                channel_column,
                source_medium_column,
                pre_days,
                transition_days,
                post_days,
                top_n,
            ),
            ",
            channel,
            source_medium,
            landing_path,
            param_key,
            param_value,
            param_signature,
            pre_rows,
            post_rows,
            delta_rows,
            delta_pct,
            shift_type,
            rank_by_abs_delta
        FROM ranked
        "@,
        ),
        text::holds(
            landing_param_shift_sql(
                table,
                release_date,
                date_column,
                landing_url_column,
                channel_column,
                source_medium_column,
                pre_days,
                transition_days,
                post_days,
                top_n,
            ),
            "
        ORDER BY rank_by_abs_delta"@,
        ),
{
    let parts = landing_parts(
        table,
        release_date,
        date_column,
        landing_url_column,
        channel_column,
        source_medium_column,
        pre_days,
        transition_days,
        post_days,
        top_n,
    );
    text::law_texts_hold_themselves(PARAMETERS_BY_PERIOD@);
    text::law_texts_hold_themselves(RANKED_PARAMETERS@);
    text::law_texts_hold_themselves(RANK_ORDER@);
    text::law_joined_texts_hold_their_parts(parts, ""@, 43, PARAMETERS_BY_PERIOD@);
    text::law_joined_texts_hold_their_parts(parts, ""@, 47, RANKED_PARAMETERS@);
    text::law_joined_texts_hold_their_parts(parts, ""@, 50, RANK_ORDER@);
}

/// The query sums what the two events weigh twice, in the same way: for each day of a window
/// first, and for each window as a whole behind that.
pub proof fn law_release_queries_sum_by_day_and_by_window(
    table: Seq<char>,
    release_date: Seq<char>,
    anchor_event: Seq<char>,
    comparison_event: Seq<char>,
    date_column: Seq<char>,
    event_column: Seq<char>,
    metric_column: Option<Seq<char>>,
    pre_days: u32,
    transition_days: u32,
    post_days: u32,
)
    ensures
        text::holds(
            release_regression_sql(
                table,
                release_date,
                anchor_event,
                comparison_event,
                date_column,
                event_column,
                metric_column,
                pre_days,
                transition_days,
                post_days,
            ),
            WINDOWED_EVENTS@
                + "event_name = '"@
                + text::doubled(anchor_event, '\'')
                + "' THEN metric_value ELSE 0 END) AS anchor_value"@
                + ",\n                SUM(CASE WHEN "@
                + "event_name = '"@
                + text::doubled(comparison_event, '\'')
                + "' THEN metric_value ELSE 0 END) AS comparison_value"@
                + RATIOS_BY_DAY@,
        ),
        text::holds(
            release_regression_sql(
                table,
                release_date,
                anchor_event,
                comparison_event,
                date_column,
                event_column,
                metric_column,
                pre_days,
                transition_days,
                post_days,
            ),
            RATIOS_BY_DAY@
                + "event_name = '"@
                + text::doubled(anchor_event, '\'')
                + "' THEN metric_value ELSE 0 END) AS anchor_value"@
                + ",\n                SUM(CASE WHEN "@
                + "event_name = '"@
                + text::doubled(comparison_event, '\'')
                + "' THEN metric_value ELSE 0 END) AS comparison_value"@
                + RATIOS_BY_PERIOD@,
        ),
{
    let parts = release_parts(
        table,
        release_date,
        anchor_event,
        comparison_event,
        date_column,
        event_column,
        metric_column,
        pre_days,
        transition_days,
        post_days,
    );
    text::law_runs_of_nine_are_held(parts, 48);
    text::law_runs_of_nine_are_held(parts, 56);
}

} // verus!
