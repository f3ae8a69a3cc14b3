//! Slow query tracking: a query is slow when tracking is enabled and its
//! duration exceeds the configured threshold.
//!
//! For a slow query the tracker says what has to be done: write a log line,
//! post the event to a webhook. The caller does it; a failure of the webhook
//! is logged and dropped.

use vstd::prelude::*;
use vstd::string::*;
use crate::text::{
    char_count,
    contains_seq,
    contains_text,
    decimal,
    find_char,
    owned,
    push_decimal,
    slice_chars,
    starts_with,
};

verus! {

/// Slow query configuration.
#[derive(Debug, Clone, PartialEq, Eq)]
pub struct SlowQueryConfig {
    /// Whether slow query tracking is enabled.
    pub enabled: bool,
    /// Slow query threshold in milliseconds.
    pub threshold_ms: u64,
    /// Whether to emit a structured log line for slow queries.
    pub emit_log: bool,
    /// Optional webhook URL for slow query alerts.
    pub webhook_url: Option<String>,
    /// Webhook timeout in milliseconds.
    pub webhook_timeout_ms: u64,
}

impl Default for SlowQueryConfig {
    fn default() -> (r: Self)
        ensures
            r == SlowQueryConfig::spec_default(),
    {
        SlowQueryConfig {
            enabled: false,
            threshold_ms: 100,
            emit_log: true,
            webhook_url: None,
            webhook_timeout_ms: 5000,
        }
    }
}

impl SlowQueryConfig {
    /// The default configuration: disabled, a threshold of 100 ms, logging
    /// on, no webhook, a webhook timeout of five seconds.
    pub open spec fn spec_default() -> Self {
        SlowQueryConfig {
            enabled: false,
            threshold_ms: 100,
            emit_log: true,
            webhook_url: None,
            webhook_timeout_ms: 5000,
        }
    }

    /// Create a disabled configuration.
    pub fn disabled() -> (r: Self)
        ensures
            r == SlowQueryConfig::spec_default(),
    {
        SlowQueryConfig {
            enabled: false,
            threshold_ms: 100,
            emit_log: true,
            webhook_url: None,
            webhook_timeout_ms: 5000,
        }
    }

    /// Create an enabled configuration with default threshold.
    pub fn enabled() -> (r: Self)
        ensures
            r == (SlowQueryConfig { enabled: true, ..SlowQueryConfig::spec_default() }),
    {
        SlowQueryConfig {
            enabled: true,
            threshold_ms: 100,
            emit_log: true,
            webhook_url: None,
            webhook_timeout_ms: 5000,
        }
    }

    /// Create an enabled configuration with custom threshold.
    pub fn with_threshold_ms(threshold_ms: u64) -> (r: Self)
        ensures
            r == (SlowQueryConfig {
                enabled: true,
                threshold_ms,
                ..SlowQueryConfig::spec_default()
            }),
    {
        SlowQueryConfig {
            enabled: true,
            threshold_ms,
            emit_log: true,
            webhook_url: None,
            webhook_timeout_ms: 5000,
        }
    }
}

/// Slow query event details. Identifiers are the 128-bit values of UUIDs.
#[derive(Debug, Clone, PartialEq, Eq)]
pub struct SlowQueryEvent {
    /// Unique operation ID.
    pub operation_id: u128,
    /// Collection name, if applicable.
    pub collection: Option<String>,
    /// Operation type, such as "find" or "insert".
    pub operation_type: String,
    /// Execution duration in milliseconds.
    pub duration_ms: u64,
    /// Configured threshold in milliseconds.
    pub threshold_ms: u64,
    /// User ID, if authenticated.
    pub user_id: Option<u128>,
    /// Index used, if any.
    pub index_used: Option<String>,
    /// Documents scanned, if applicable.
    pub documents_scanned: Option<usize>,
    /// Timestamp in ISO 8601 form.
    pub timestamp: String,
}

/// What has to be done for a tracked event.
#[derive(Debug, Clone, PartialEq, Eq)]
pub struct SlowQueryActions {
    /// Whether a structured log line is to be written.
    pub emit_log: bool,
    /// The URL to post the event to, if any.
    pub webhook_url: Option<String>,
    /// The timeout of the post in milliseconds.
    pub webhook_timeout_ms: u64,
}

/// The part of a URL after `http://` or `https://`; nothing for a URL of
/// another scheme.
pub open spec fn url_rest(url: Seq<char>) -> Option<Seq<char>> {
    if "http://"@.is_prefix_of(url) {
        Some(url.skip("http://"@.len() as int))
    } else if "https://"@.is_prefix_of(url) {
        Some(url.skip("https://"@.len() as int))
    } else {
        None
    }
}

/// Whether `host` and `path` are the two parts of `rest`: the text before
/// the first slash, and a slash with the text after it. Without a slash the
/// host is all of `rest` and the path is a single slash.
pub open spec fn splits_into(rest: Seq<char>, host: Seq<char>, path: Seq<char>) -> bool {
    if exists|i: int| 0 <= i < rest.len() && rest[i] == '/' {
        exists|i: int|
            0 <= i < rest.len() && rest[i] == '/' && (forall|j: int| 0 <= j < i ==> rest[j] != '/')
                && host == rest.take(i) && path == "/"@ + rest.skip(i + 1)
    } else {
        host == rest && path == "/"@
    }
}

/// Splits a webhook URL into host with port and path. A URL that starts with
/// neither `http://` nor `https://` is refused.
pub fn webhook_target(url: &str) -> (r: Result<(String, String), String>)
    ensures
        match r {
            Ok(parts) => url_rest(url@) is Some && splits_into(
                url_rest(url@)->0,
                parts.0@,
                parts.1@,
            ),
            Err(e) => url_rest(url@) is None && e@ == "Invalid URL protocol"@,
        },
{
    proof {
        reveal_strlit("http://");
        reveal_strlit("https://");
    }
    let n = char_count(url);
    let rest: &str = if starts_with(url, "http://") {
        assert(url@.subrange(7, n as int) =~= url@.skip(7));
        slice_chars(url, 7, n)
    } else if starts_with(url, "https://") {
        assert(url@.subrange(8, n as int) =~= url@.skip(8));
        slice_chars(url, 8, n)
    } else {
        return Err(owned("Invalid URL protocol"));
    };
    let m = char_count(rest);
    match find_char(rest, '/') {
        Some(i) => {
            let host = owned(slice_chars(rest, 0, i));
            let mut path = owned("/");
            path.append(slice_chars(rest, i + 1, m));
            proof {
                assert(rest@.subrange(0, i as int) =~= rest@.take(i as int));
                assert(rest@.subrange(i + 1, m as int) =~= rest@.skip(i + 1));
            }
            Ok((host, path))
        },
        None => Ok((owned(rest), owned("/"))),
    }
}

/// The text of the HTTP request that posts `body` to `path` on `host_port`.
pub open spec fn request_text(path: Seq<char>, host_port: Seq<char>, body: &str) -> Seq<char> {
    "POST "@ + path + " HTTP/1.1\r\nHost: "@ + host_port
        + "\r\nContent-Type: application/json\r\nContent-Length: "@ + decimal(
        body.spec_bytes().len(),
    ) + "\r\nConnection: close\r\n\r\n"@ + body@
}

/// Builds the HTTP request that posts a JSON body: the request line, the
/// headers `Host`, `Content-Type`, `Content-Length` with the body's length in
/// bytes, `Connection: close`, an empty line and the body.
pub fn webhook_request(path: &str, host_port: &str, body: &str) -> (r: String)
    ensures
        r@ == request_text(path@, host_port@, body),
{
    let mut out = owned("POST ");
    out.append(path);
    out.append(" HTTP/1.1\r\nHost: ");
    out.append(host_port);
    out.append("\r\nContent-Type: application/json\r\nContent-Length: ");
    let body_bytes = body.as_bytes();
    push_decimal(&mut out, body_bytes.len() as u64);
    out.append("\r\nConnection: close\r\n\r\n");
    out.append(body);
    out
}

/// Whether the start of an HTTP response shows a success: it holds `200`,
/// `201`, `202` or `204`.
pub fn webhook_succeeded(response: &str) -> (r: bool)
    ensures
        r == (contains_seq(response@, "200"@) || contains_seq(response@, "201"@) || contains_seq(
            response@,
            "202"@,
        ) || contains_seq(response@, "204"@)),
{
    contains_text(response, "200") || contains_text(response, "201") || contains_text(
        response,
        "202",
    ) || contains_text(response, "204")
}

/// The structured log line for a slow query, given the event as JSON.
pub fn slow_query_log_line(event_json: &str) -> (r: String)
    ensures
        r@ == "{\"level\":\"WARN\",\"event\":\"SLOW_QUERY\",\"details\":"@ + event_json@ + "}"@,
{
    let mut out = owned("{\"level\":\"WARN\",\"event\":\"SLOW_QUERY\",\"details\":");
    out.append(event_json);
    out.append("}");
    out
}

/// The structured log line for a webhook that failed.
pub fn webhook_failure_log_line(url: &str, error: &str) -> (r: String)
    ensures
        r@ == "{\"level\":\"ERROR\",\"event\":\"SLOW_QUERY_WEBHOOK_FAILED\",\"url\":\""@ + url@
            + "\",\"error\":\""@ + error@ + "\"}"@,
{
    let mut out = owned(
        "{\"level\":\"ERROR\",\"event\":\"SLOW_QUERY_WEBHOOK_FAILED\",\"url\":\"",
    );
    out.append(url);
    out.append("\",\"error\":\"");
    out.append(error);
    out.append("\"}");
    out
}

/// Slow query tracker.
#[derive(Debug)]
pub struct SlowQueryTracker {
    config: SlowQueryConfig,
}

impl SlowQueryTracker {
    /// The configuration.
    pub closed spec fn spec_config(&self) -> SlowQueryConfig {
        self.config
    }

    /// Create a new slow query tracker with the given configuration.
    pub fn new(config: SlowQueryConfig) -> (r: Self)
        ensures
            r.spec_config() == config,
    {
        SlowQueryTracker { config }
    }

    /// Create a disabled tracker.
    pub fn disabled() -> (r: Self)
        ensures
            r.spec_config() == SlowQueryConfig::spec_default(),
    {
        SlowQueryTracker { config: SlowQueryConfig::disabled() }
    }

    /// Check if slow query tracking is enabled.
    pub fn is_enabled(&self) -> (r: bool)
        ensures
            r == self.spec_config().enabled,
    {
        self.config.enabled
    }

    /// Get the configured threshold in milliseconds.
    pub fn threshold_ms(&self) -> (r: u64)
        ensures
            r == self.spec_config().threshold_ms,
    {
        self.config.threshold_ms
    }

    /// Check if a duration exceeds the slow query threshold. Nothing is slow
    /// while tracking is disabled; a duration equal to the threshold is not
    /// slow.
    pub fn is_slow(&self, duration_ms: u64) -> (r: bool)
        ensures
            r == (self.spec_config().enabled && duration_ms > self.spec_config().threshold_ms),
    {
        self.config.enabled && duration_ms > self.config.threshold_ms
    }

    /// Says what has to be done for a slow query event: nothing while
    /// tracking is disabled; otherwise a log line if logging is configured,
    /// and a post to the webhook if one is configured.
    pub fn track(&self, event: &SlowQueryEvent) -> (r: SlowQueryActions)
        ensures
            r.webhook_timeout_ms == self.spec_config().webhook_timeout_ms,
            !self.spec_config().enabled ==> !r.emit_log && r.webhook_url is None,
            self.spec_config().enabled ==> r.emit_log == self.spec_config().emit_log
                && r.webhook_url == self.spec_config().webhook_url,
    {
        let _ = event;
        if !self.config.enabled {
            return SlowQueryActions {
                emit_log: false,
                webhook_url: None,
                webhook_timeout_ms: self.config.webhook_timeout_ms,
            };
        }
        let webhook_url = match &self.config.webhook_url {
            Some(url) => Some(url.clone()),
            None => None,
        };
        SlowQueryActions {
            emit_log: self.config.emit_log,
            webhook_url,
            webhook_timeout_ms: self.config.webhook_timeout_ms,
        }
    }
}

} // verus!
