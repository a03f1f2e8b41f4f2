//! CloudWatch Logs client: its errors and the shaping of the log groups and
//! log events it returns.
use vstd::prelude::*;
use crate::services::aws::s3_client::{names_view, present, present_names};
use crate::text::{join2, join3, opt_text};

verus! {

/// Errors that can occur when interacting with CloudWatch Logs
pub enum CloudWatchClientError {
    /// Error returned from the AWS SDK
    AwsError(String),
    /// Authentication or connection error with AWS
    ConnectionFailed(String),
}

pub enum CloudWatchClientErrorView {
    AwsError(Seq<char>),
    ConnectionFailed(Seq<char>),
}

impl View for CloudWatchClientError {
    type V = CloudWatchClientErrorView;

    open spec fn view(&self) -> CloudWatchClientErrorView {
        match self {
            CloudWatchClientError::AwsError(s) => CloudWatchClientErrorView::AwsError(s@),
            CloudWatchClientError::ConnectionFailed(s) => CloudWatchClientErrorView::ConnectionFailed(
                s@,
            ),
        }
    }
}

impl CloudWatchClientErrorView {
    /// The error as reported to the user.
    pub open spec fn message(self) -> Seq<char> {
        match self {
            CloudWatchClientErrorView::AwsError(s) => "AWS SDK error: "@ + s,
            CloudWatchClientErrorView::ConnectionFailed(s) => "Failed to connect with profile: "@ + s,
        }
    }
}

impl CloudWatchClientError {
    /// The error as reported to the user.
    pub fn message(&self) -> (s: String)
        ensures
            s@ == self@.message(),
    {
        match self {
            CloudWatchClientError::AwsError(s) => join2("AWS SDK error: ", s.as_str()),
            CloudWatchClientError::ConnectionFailed(s) => join2(
                "Failed to connect with profile: ",
                s.as_str(),
            ),
        }
    }
}

/// The log group listing shown: the named groups, or a notice where there are none.
pub open spec fn log_group_listing_of(names: Seq<Option<Seq<char>>>) -> Seq<Seq<char>> {
    if present_names(names).len() == 0 {
        seq!["No log groups found"@]
    } else {
        present_names(names)
    }
}

/// The log group listing shown: the named groups, or a notice where there are none.
pub fn log_group_listing(names: Vec<Option<String>>) -> (r: Vec<String>)
    ensures
        r.deep_view() == log_group_listing_of(names_view(names@)),
{
    let groups = present(names);
    if groups.len() == 0 {
        let mut r = Vec::new();
        r.push("No log groups found".to_string());
        assert(r.deep_view() =~= seq!["No log groups found"@]);
        r
    } else {
        groups
    }
}

/// What chrono makes of a time in milliseconds since the Unix epoch, written
/// as `%Y-%m-%d %H:%M:%S` in UTC: `None` where the time is out of chrono's range.
pub uninterp spec fn utc_timestamp_text(millis: int) -> Option<Seq<char>>;

/// `chrono::DateTime::from_timestamp_millis` followed by `format` with the
/// pattern `%Y-%m-%d %H:%M:%S`: the UTC date and time of the instant, to the
/// second. `None` where chrono's range does not reach the instant. The text
/// itself is only named, not described.
#[verifier::external_body]
fn format_utc_timestamp(millis: i64) -> (r: Option<String>)
    ensures
        opt_text(r) == utc_timestamp_text(millis as int),
{
    chrono::DateTime::from_timestamp_millis(millis).map(
        |dt| dt.format("%Y-%m-%d %H:%M:%S").to_string(),
    )
}

/// A log event as the service reports it.
pub struct LogEvent {
    /// Milliseconds since the Unix epoch
    pub timestamp: Option<i64>,
    pub message: Option<String>,
}

/// A log line from its formatted time and its message: `[time] message`,
/// each part empty where missing.
pub open spec fn line_text(time: Option<Seq<char>>, message: Option<Seq<char>>) -> Seq<char> {
    let t = match time {
        Some(s) => s,
        None => Seq::empty(),
    };
    let m = match message {
        Some(m) => m,
        None => Seq::empty(),
    };
    "["@ + t + "] "@ + m
}

/// The line shown for a log event: `[time] message`, each part empty where missing.
pub open spec fn log_line(timestamp: Option<i64>, message: Option<Seq<char>>) -> Seq<char> {
    line_text(
        match timestamp {
            Some(t) => utc_timestamp_text(t as int),
            None => None,
        },
        message,
    )
}

pub open spec fn event_line(e: LogEvent) -> Seq<char> {
    log_line(
        e.timestamp,
        match e.message {
            Some(m) => Some(m@),
            None => None,
        },
    )
}

/// The log lines shown: one per event, or a notice where there are none
/// (the notice says whether a filter was applied).
pub open spec fn log_listing_of(events: Seq<LogEvent>, filtered: bool) -> Seq<Seq<char>> {
    if events.len() == 0 {
        if filtered {
            seq!["No matching logs found"@]
        } else {
            seq!["No log events found"@]
        }
    } else {
        Seq::new(events.len(), |i: int| event_line(events[i]))
    }
}

/// A log line from its formatted time and its message.
pub fn log_line_from(time: Option<String>, message: &Option<String>) -> (s: String)
    ensures
        s@ == line_text(opt_text(time), opt_text(*message)),
{
    let t = match time {
        Some(s) => s,
        None => String::new(),
    };
    let m = match message {
        Some(m) => m.clone(),
        None => String::new(),
    };
    let head = join3("[", t.as_str(), "] ");
    join2(head.as_str(), m.as_str())
}

/// The line shown for one log event.
pub fn format_log_event(event: &LogEvent) -> (s: String)
    ensures
        s@ == event_line(*event),
{
    let time = match event.timestamp {
        Some(t) => format_utc_timestamp(t),
        None => None,
    };
    log_line_from(time, &event.message)
}

/// The log lines shown for the events the service returned.
pub fn format_log_events(events: Vec<LogEvent>, filtered: bool) -> (r: Vec<String>)
    ensures
        r.deep_view() == log_listing_of(events@, filtered),
{
    let mut r: Vec<String> = Vec::new();
    if events.len() == 0 {
        if filtered {
            r.push("No matching logs found".to_string());
        } else {
            r.push("No log events found".to_string());
        }
        assert(r.deep_view() =~= log_listing_of(events@, filtered));
        return r;
    }
    let mut i: usize = 0;
    while i < events.len()
        invariant
            i <= events@.len(),
            r@.len() == i,
            forall|j: int| 0 <= j < i ==> #[trigger] r@[j]@ == event_line(events@[j]),
        decreases events@.len() - i,
    {
        r.push(format_log_event(&events[i]));
        i = i + 1;
    }
    assert(r.deep_view() =~= log_listing_of(events@, filtered));
    r
}

/// The most log events one request asks for.
pub const LOG_EVENTS_LIMIT: i32 = 100;

/// How log events are asked for: with a filter pattern, through
/// FilterLogEvents; without one, through GetLogEvents.
pub enum LogEventsRequest {
    Filter { pattern: String, limit: i32 },
    Latest { limit: i32 },
}

/// The request for the events of a log group: a nonempty pattern filters,
/// an empty one asks for the latest events; at most `LOG_EVENTS_LIMIT` either way.
pub fn log_events_request(filter_pattern: &str) -> (r: LogEventsRequest)
    ensures
        match r {
            LogEventsRequest::Filter { pattern, limit } => filter_pattern@.len() > 0 && pattern@
                == filter_pattern@ && limit == LOG_EVENTS_LIMIT,
            LogEventsRequest::Latest { limit } => filter_pattern@.len() == 0 && limit
                == LOG_EVENTS_LIMIT,
        },
{
    if filter_pattern.is_empty() {
        LogEventsRequest::Latest { limit: LOG_EVENTS_LIMIT }
    } else {
        LogEventsRequest::Filter { pattern: filter_pattern.to_string(), limit: LOG_EVENTS_LIMIT }
    }
}

} // verus!
