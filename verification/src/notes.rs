//! What the screen tells the user: the log, the status bar, and for how
//! long a connection has been up.

use crate::text::{decimal_digits, push_decimal};
use crate::vpn::{RecordView, StatusView, VpnConnection};
use vstd::prelude::*;

verus! {

/// The number of lines that the log keeps.
pub const MAX_LOGS: usize = 100;

/// The age in seconds from which a status message is no longer shown.
pub const MESSAGE_SECONDS: i64 = 10;

/// A line of the log: the time of day in brackets, then the message.
pub open spec fn log_line_of(time: Seq<char>, message: Seq<char>) -> Seq<char> {
    "["@ + time + "] "@ + message
}

/// The log after one more line: the newest `MAX_LOGS` lines are kept.
pub open spec fn log_with(logs: Seq<Seq<char>>, line: Seq<char>) -> Seq<Seq<char>> {
    if logs.len() + 1 > MAX_LOGS {
        logs.push(line).drop_first()
    } else {
        logs.push(line)
    }
}

/// A line of the log.
pub fn log_line(time: &str, message: &str) -> (line: String)
    ensures
        line@ == log_line_of(time@, message@),
{
    let mut line = String::from_str("[");
    line.append(time);
    line.append("] ");
    line.append(message);
    line
}

/// Adds a line to the log and drops the oldest line of a full log.
pub fn add_log(logs: &mut Vec<String>, line: String)
    ensures
        final(logs).deep_view() == log_with(old(logs).deep_view(), line@),
{
    logs.push(line);
    if logs.len() > MAX_LOGS {
        let _ = logs.remove(0);
    }
}

/// What the status bar says: the last message while it is fresh, `Ready`
/// otherwise.
pub open spec fn status_text_of(message: Option<Seq<char>>, age_seconds: i64) -> Seq<char> {
    match message {
        Some(text) if age_seconds < MESSAGE_SECONDS => text,
        _ => "Ready"@,
    }
}

/// What the status bar says, for a message that is `age_seconds` old.
pub fn status_text(message: Option<&str>, age_seconds: i64) -> (text: String)
    ensures
        text@ == status_text_of(
            match message {
                Some(m) => Some(m@),
                None => None,
            },
            age_seconds,
        ),
{
    match message {
        Some(m) => {
            if age_seconds < MESSAGE_SECONDS {
                String::from_str(m)
            } else {
                String::from_str("Ready")
            }
        },
        None => String::from_str("Ready"),
    }
}

/// How many of the first `n` records are connected.
pub open spec fn connected_within(records: Seq<RecordView>, n: int) -> int
    decreases n,
{
    if n <= 0 {
        0
    } else {
        connected_within(records, n - 1) + if records[n - 1].status == StatusView::Connected {
            1int
        } else {
            0int
        }
    }
}

/// How many connections are connected.
pub fn connected_count(connections: &Vec<VpnConnection>) -> (count: usize)
    ensures
        count == connected_within(connections.deep_view(), connections.len() as int),
{
    let mut count: usize = 0;
    let mut i: usize = 0;
    while i < connections.len()
        invariant
            i <= connections.len(),
            count <= i,
            count == connected_within(connections.deep_view(), i as int),
        decreases connections.len() - i,
    {
        if connections[i].status.is_connected() {
            count += 1;
        }
        i += 1;
    }
    count
}

/// Whether a status refresh is due: the refresh interval has passed since the
/// last one.
pub open spec fn refresh_due(last_ms: i64, now_ms: i64, interval_seconds: u64) -> bool {
    now_ms - last_ms >= interval_seconds * 1000
}

/// Whether a status refresh is due.
pub fn is_refresh_due(last_ms: i64, now_ms: i64, interval_seconds: u64) -> (due: bool)
    ensures
        due == refresh_due(last_ms, now_ms, interval_seconds),
{
    let passed: i128 = now_ms as i128 - last_ms as i128;
    let wanted: i128 = interval_seconds as i128 * 1000;
    passed >= wanted
}

/// The whole minutes between two moments in milliseconds, counted towards
/// zero.
pub open spec fn minutes_between(since_ms: i64, now_ms: i64) -> int {
    if now_ms >= since_ms {
        (now_ms - since_ms) / 60_000
    } else {
        -((since_ms - now_ms) / 60_000)
    }
}

/// The whole minutes from `since_ms` to `now_ms`.
pub fn minutes_since(since_ms: i64, now_ms: i64) -> (minutes: i64)
    ensures
        minutes == minutes_between(since_ms, now_ms),
{
    if now_ms >= since_ms {
        let passed: i128 = now_ms as i128 - since_ms as i128;
        (passed / 60_000) as i64
    } else {
        let ahead: i128 = since_ms as i128 - now_ms as i128;
        (-(ahead / 60_000)) as i64
    }
}

/// The text that shows a number of minutes: the number, with its sign where
/// it is negative, and the letter `m`.
pub open spec fn minutes_label_of(minutes: int) -> Seq<char> {
    if minutes < 0 {
        "-"@ + decimal_digits((-minutes) as nat) + "m"@
    } else {
        decimal_digits(minutes as nat) + "m"@
    }
}

/// The text that shows for how many minutes a connection has been up.
pub fn minutes_label(since_ms: i64, now_ms: i64) -> (label: String)
    ensures
        label@ == minutes_label_of(minutes_between(since_ms, now_ms)),
{
    let minutes = minutes_since(since_ms, now_ms);
    let mut label = String::new();
    if minutes < 0 {
        label.append("-");
        let size: i128 = -(minutes as i128);
        push_decimal(&mut label, size as u64);
    } else {
        assert(label@ + decimal_digits(minutes as nat) =~= decimal_digits(
            minutes as nat,
        ));
        push_decimal(&mut label, minutes as u64);
    }
    label.append("m");
    label
}

} // verus!
