//! Log viewer: each line of fetched log text is split into a timestamp and a
//! message, and the message is classified by severity.

use vstd::prelude::*;
use crate::text::{
    chars_of, contains_seq, find_char, has_infix, index_of, line_ranges, lines_of, pieces,
    ranges_within, string_from, trim, trim_range,
};

verus! {

#[derive(PartialEq, Eq, Structural, Clone, Copy, Debug)]
pub enum LogLevel {
    Error,
    Warn,
    Info,
}

/// Severity of a message, given its upper-cased text: the first rule that
/// matches wins.
pub open spec fn level_of(upper: Seq<char>) -> LogLevel {
    if has_infix(upper, "ERROR"@) || has_infix(upper, "FAILED"@) {
        LogLevel::Error
    } else if has_infix(upper, "WARN"@) || has_infix(upper, "WARNING"@) {
        LogLevel::Warn
    } else {
        LogLevel::Info
    }
}

/// What `str::to_uppercase` makes of a text.
pub uninterp spec fn upper_of(s: Seq<char>) -> Seq<char>;

/// Relies on `str::to_uppercase`: the result depends on the characters alone.
#[verifier::external_body]
fn uppercase(s: &str) -> (r: String)
    ensures
        r@ == upper_of(s@),
{
    s.to_uppercase()
}

/// A line split at its first space: a first word ending in `Z` is a UTC
/// timestamp and the trimmed rest is the message; otherwise there is no
/// timestamp and the whole line is the message.
pub open spec fn log_parts(line: Seq<char>) -> (Seq<char>, Seq<char>) {
    let p = index_of(line, ' ');
    if p < line.len() && p > 0 && line[p - 1] == 'Z' {
        (line.take(p), trim(line.skip(p + 1)))
    } else {
        (Seq::empty(), line)
    }
}

/// A timestamp as shown: the part before any fractional-second separator.
pub open spec fn shown_timestamp(ts: Seq<char>) -> Seq<char> {
    ts.take(index_of(ts, '.'))
}

/// One log line ready for display.
pub struct LogEntry {
    pub timestamp: String,
    pub message: String,
    pub level: LogLevel,
}

pub open spec fn entry_of(e: LogEntry, line: Seq<char>) -> bool {
    &&& e.timestamp@ == shown_timestamp(log_parts(line).0)
    &&& e.message@ == log_parts(line).1
    &&& e.level == level_of(upper_of(log_parts(line).1))
}

/// Severity of an upper-cased message.
pub fn classify_upper(upper: &str) -> (r: LogLevel)
    ensures
        r == level_of(upper@),
{
    let u = chars_of(upper);
    let error = chars_of("ERROR");
    let failed = chars_of("FAILED");
    let warn = chars_of("WARN");
    let warning = chars_of("WARNING");
    if contains_seq(&u, &error) || contains_seq(&u, &failed) {
        LogLevel::Error
    } else if contains_seq(&u, &warn) || contains_seq(&u, &warning) {
        LogLevel::Warn
    } else {
        LogLevel::Info
    }
}

/// Severity of a message, matched without regard to case.
pub fn determine_log_level(message: &str) -> (r: LogLevel)
    ensures
        r == level_of(upper_of(message@)),
{
    let upper = uppercase(message);
    classify_upper(upper.as_str())
}

fn parse_range(v: &Vec<char>, from: usize, to: usize) -> (r: (String, String))
    requires
        from <= to <= v.len(),
    ensures
        (r.0@, r.1@) == log_parts(v@.subrange(from as int, to as int)),
{
    let ghost line = v@.subrange(from as int, to as int);
    let p = find_char(v, from, to, ' ');
    if p < to && p > from && v[p - 1] == 'Z' {
        let (a, b) = trim_range(v, p + 1, to);
        assert(line.take(p - from) =~= v@.subrange(from as int, p as int));
        assert(line.skip(p - from + 1) =~= v@.subrange(p + 1, to as int));
        (string_from(v, from, p), string_from(v, a, b))
    } else {
        (String::new(), string_from(v, from, to))
    }
}

/// Splits a log line into its timestamp (empty when there is none) and its
/// message.
pub fn parse_log_line(line: &str) -> (r: (String, String))
    ensures
        (r.0@, r.1@) == log_parts(line@),
{
    let v = chars_of(line);
    assert(v@.subrange(0, v.len() as int) =~= v@);
    parse_range(&v, 0, v.len())
}

/// The part of a timestamp before its first `.`.
pub fn format_timestamp(timestamp: &str) -> (r: String)
    ensures
        r@ == shown_timestamp(timestamp@),
{
    let v = chars_of(timestamp);
    let p = find_char(&v, 0, v.len(), '.');
    assert(v@.subrange(0, v.len() as int) =~= v@);
    string_from(&v, 0, p)
}

fn entry_of_range(v: &Vec<char>, from: usize, to: usize) -> (r: LogEntry)
    requires
        from <= to <= v.len(),
    ensures
        entry_of(r, v@.subrange(from as int, to as int)),
{
    let (ts, message) = parse_range(v, from, to);
    let timestamp = format_timestamp(ts.as_str());
    let level = determine_log_level(message.as_str());
    LogEntry { timestamp, message, level }
}

/// Parses and classifies one log line.
pub fn render_log_line(line: &str) -> (r: LogEntry)
    ensures
        entry_of(r, line@),
{
    let v = chars_of(line);
    assert(v@.subrange(0, v.len() as int) =~= v@);
    entry_of_range(&v, 0, v.len())
}

/// Every line of a log text, parsed and classified, in order.
pub fn render_log_text(text: &str) -> (r: Vec<LogEntry>)
    ensures
        r@.len() == lines_of(text@).len(),
        forall|k: int| 0 <= k < r@.len() ==> entry_of(#[trigger] r@[k], lines_of(text@)[k]),
{
    let v = chars_of(text);
    let ranges = line_ranges(&v);
    let mut out: Vec<LogEntry> = Vec::new();
    let mut k: usize = 0;
    while k < ranges.len()
        invariant
            k <= ranges.len(),
            ranges_within(ranges@, v.len() as int),
            pieces(v@, ranges@) == lines_of(text@),
            out@.len() == k,
            forall|t: int| 0 <= t < k ==> entry_of(#[trigger] out@[t], lines_of(text@)[t]),
        decreases ranges.len() - k,
    {
        let (a, b) = ranges[k];
        assert(ranges@[k as int].0 <= ranges@[k as int].1 <= v.len());
        let e = entry_of_range(&v, a, b);
        assert(pieces(v@, ranges@)[k as int] == v@.subrange(a as int, b as int));
        out.push(e);
        k = k + 1;
    }
    out
}

/// Classification goes by the first rule that matches: a message that
/// mentions both an error and a warning is an error.
pub proof fn lemma_error_rule_first(message: Seq<char>)
    requires
        has_infix(upper_of(message), "ERROR"@),
        has_infix(upper_of(message), "WARN"@),
    ensures
        level_of(upper_of(message)) == LogLevel::Error,
{
}

/// A line `<token>Z <rest>` whose token holds no space yields the timestamp
/// `<token>Z`, shown up to its first `.`, and the message `trim(<rest>)`.
pub proof fn lemma_timestamped_line(token: Seq<char>, rest: Seq<char>)
    requires
        forall|k: int| 0 <= k < token.len() ==> token[k] != ' ',
    ensures
        log_parts(token.push('Z') + seq![' '] + rest) == (token.push('Z'), trim(rest)),
        shown_timestamp(log_parts(token.push('Z') + seq![' '] + rest).0) == token.push('Z').take(
            index_of(token.push('Z'), '.'),
        ),
{
    let stamp = token.push('Z');
    let line = stamp + seq![' '] + rest;
    assert(!crate::text::has_char(stamp, ' ')) by {
        if crate::text::has_char(stamp, ' ') {
            let k = choose|k: int| 0 <= k < stamp.len() && stamp[k] == ' ';
            if k < token.len() {
                assert(stamp[k] == token[k]);
            }
        }
    }
    crate::text::lemma_index_of_concat(stamp, rest, ' ');
    assert(line[stamp.len() - 1] == 'Z');
    assert(line.take(stamp.len() as int) =~= stamp);
    assert(line.skip(stamp.len() as int + 1) =~= rest);
}

/// Any other line has no timestamp and is its own message.
pub proof fn lemma_untimestamped_line(line: Seq<char>)
    requires
        !(index_of(line, ' ') < line.len() && index_of(line, ' ') > 0 && line[index_of(line, ' ')
            - 1] == 'Z'),
    ensures
        log_parts(line) == (Seq::<char>::empty(), line),
{
}


/// The log card: logs are fetched only on request.
pub struct LogPanel {
    pub logs: Option<String>,
    pub error: Option<String>,
    pub loading: bool,
}

/// What the log card shows.
pub enum LogDisplay {
    /// The fetch failed with this message.
    Failed(String),
    /// Logs were fetched and are empty.
    Empty,
    /// Nothing was fetched yet.
    NotFetched,
    Lines(Vec<LogEntry>),
}

impl LogPanel {
    pub fn new() -> (r: LogPanel)
        ensures
            r.logs is None,
            r.error is None,
            !r.loading,
    {
        LogPanel { logs: None, error: None, loading: false }
    }

    /// The fetch button is pressed: whether to fetch now. The button is
    /// disabled while a fetch is pending.
    pub fn request(&mut self) -> (r: bool)
        ensures
            r == !old(self).loading,
            final(self).loading,
            final(self).logs == old(self).logs,
            r ==> final(self).error is None,
            !r ==> final(self).error == old(self).error,
    {
        if self.loading {
            return false;
        }
        self.loading = true;
        self.error = None;
        true
    }

    /// The fetch came back with the log text, or with an error message.
    pub fn fetched(&mut self, result: Result<String, String>)
        ensures
            !final(self).loading,
            match result {
                Ok(text) => final(self).logs == Some(text) && final(self).error == old(self).error,
                Err(message) => final(self).error == Some(message) && final(self).logs is None,
            },
    {
        self.loading = false;
        match result {
            Ok(text) => self.logs = Some(text),
            Err(message) => {
                self.error = Some(message);
                self.logs = None;
            },
        }
    }

    /// What the card shows: an error first, then the logs, then a
    /// placeholder.
    pub fn display(&self) -> (r: LogDisplay)
        ensures
            self.error matches Some(m) ==> (r matches LogDisplay::Failed(x) && x@ == m@),
            self.error is None ==> match self.logs {
                None => r is NotFetched,
                Some(t) => if t@.len() == 0 {
                    r is Empty
                } else {
                    r matches LogDisplay::Lines(es) && es@.len() == lines_of(t@).len() && forall|
                        k: int,
                    | 0 <= k < es@.len() ==> entry_of(#[trigger] es@[k], lines_of(t@)[k])
                },
            },
    {
        match &self.error {
            Some(m) => LogDisplay::Failed(String::from_str(m.as_str())),
            None => match &self.logs {
                Some(t) => if t.as_str().is_empty() {
                    LogDisplay::Empty
                } else {
                    LogDisplay::Lines(render_log_text(t.as_str()))
                },
                None => LogDisplay::NotFetched,
            },
        }
    }
}

} // verus!
