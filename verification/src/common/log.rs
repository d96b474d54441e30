//! Log lines of an account and the choice of expired log files.
//!
//! Each account logs to `<logs_dir>/<qq>/YYYY-MM-DD.log`; files older than the retention
//! period are deleted. Writing the files and walking the directories is left to the
//! caller.
use chrono::Datelike;
use vstd::prelude::*;

use crate::text::{owned, push_str};

verus! {

/// The line written to the log file: `14:36:00 | task：result`.
pub fn format_file_line(time: &str, task_name: &str, result: &str) -> (r: String)
    ensures
        r@ == time@ + " | "@ + task_name@ + "："@ + result@,
{
    let mut s = String::new();
    push_str(&mut s, time);
    push_str(&mut s, " | ");
    push_str(&mut s, task_name);
    push_str(&mut s, "：");
    push_str(&mut s, result);
    s
}

/// The line shown on the console: `2026-06-15 14:36:00 | QQ | task：result`.
pub fn format_console_line(time: &str, qq: &str, task_name: &str, result: &str) -> (r: String)
    ensures
        r@ == time@ + " | "@ + qq@ + " | "@ + task_name@ + "："@ + result@,
{
    let mut s = String::new();
    push_str(&mut s, time);
    push_str(&mut s, " | ");
    push_str(&mut s, qq);
    push_str(&mut s, " | ");
    push_str(&mut s, task_name);
    push_str(&mut s, "：");
    push_str(&mut s, result);
    s
}

/// The logger of one account: where its logs go and the lines it writes.
#[derive(Debug, Clone)]
pub struct Logger {
    logs_dir: String,
    qq: String,
}

impl Logger {
    pub closed spec fn logs_dir_view(&self) -> Seq<char> {
        self.logs_dir@
    }

    pub closed spec fn qq_view(&self) -> Seq<char> {
        self.qq@
    }

    /// The logger of account `qq`, logging under `logs_dir`.
    pub fn new(logs_dir: &str, qq: &str) -> (r: Logger)
        ensures
            r.logs_dir_view() == logs_dir@,
            r.qq_view() == qq@,
    {
        Logger { logs_dir: owned(logs_dir), qq: owned(qq) }
    }

    pub fn logs_dir(&self) -> (r: &str)
        ensures
            r@ == self.logs_dir_view(),
    {
        self.logs_dir.as_str()
    }

    pub fn qq(&self) -> (r: &str)
        ensures
            r@ == self.qq_view(),
    {
        self.qq.as_str()
    }

    /// The console line of this account for a task's result.
    pub fn console_line(&self, time: &str, task_name: &str, result: &str) -> (r: String)
        ensures
            r@ == time@ + " | "@ + self.qq_view() + " | "@ + task_name@ + "："@ + result@,
    {
        format_console_line(time, self.qq.as_str(), task_name, result)
    }

    /// The file line of this account for a task's result.
    pub fn file_line(&self, time: &str, task_name: &str, result: &str) -> (r: String)
        ensures
            r@ == time@ + " | "@ + task_name@ + "："@ + result@,
    {
        format_file_line(time, task_name, result)
    }
}

/// The day (counted from 1 January of year 1 as day 1) named by a log file's stem
/// `YYYY-MM-DD`, or `None` when the stem is not such a date.
pub uninterp spec fn log_file_date(stem: Seq<char>) -> Option<int>;

/// Reads a log file's stem as a date with `chrono::NaiveDate::parse_from_str(stem, "%Y-%m-%d")`
/// and gives its day number (`Datelike::num_days_from_ce`). The contract claims that the
/// result is a function of the stem alone.
#[verifier::external_body]
fn parse_log_date(stem: &str) -> (r: Option<i32>)
    ensures
        match r {
            Some(d) => log_file_date(stem@) == Some(d as int),
            None => log_file_date(stem@) is None,
        },
{
    match chrono::NaiveDate::parse_from_str(stem, "%Y-%m-%d") {
        Ok(d) => Some(d.num_days_from_ce()),
        Err(_) => None,
    }
}

/// A log dated `day` is expired when it is older than the `retention_days` days that end
/// today: `day < today - (retention_days - 1)`.
pub open spec fn expired(day: int, today: int, retention_days: u8) -> bool {
    day < today - (retention_days - 1)
}

/// Whether the log file with this stem is to be deleted: its stem is a date and that date
/// is expired; other files are kept.
pub fn is_expired_log(stem: &str, today: i32, retention_days: u8) -> (r: bool)
    requires
        retention_days >= 1,
    ensures
        r == match log_file_date(stem@) {
            Some(d) => expired(d, today as int, retention_days),
            None => false,
        },
{
    match parse_log_date(stem) {
        Some(d) => (d as i64) < (today as i64) - ((retention_days - 1) as i64),
        None => false,
    }
}

/// For each log file stem of an account's log directory, whether it is to be deleted
/// (see `is_expired_log`); `today` is the day number of the current local date.
pub fn cleanup_old_logs(stems: &Vec<String>, today: i32, retention_days: u8) -> (r: Vec<bool>)
    requires
        retention_days >= 1,
    ensures
        r@.len() == stems@.len(),
        forall|i: int|
            0 <= i < r@.len() ==> #[trigger] r@[i] == match log_file_date(stems@[i]@) {
                Some(d) => expired(d, today as int, retention_days),
                None => false,
            },
{
    let mut out: Vec<bool> = Vec::new();
    let mut i: usize = 0;
    while i < stems.len()
        invariant
            retention_days >= 1,
            i <= stems@.len(),
            out@.len() == i,
            forall|j: int|
                0 <= j < i ==> #[trigger] out@[j] == match log_file_date(stems@[j]@) {
                    Some(d) => expired(d, today as int, retention_days),
                    None => false,
                },
        decreases stems@.len() - i,
    {
        out.push(is_expired_log(stems[i].as_str(), today, retention_days));
        i = i + 1;
    }
    out
}

/// With a retention of N days, today's log and the logs of the N - 1 days before are kept,
/// every older one is deleted; a longer retention never deletes more.
pub proof fn law_retention_window(day: int, today: int, n: u8, m: u8)
    requires
        n >= 1,
        m >= n,
    ensures
        today - (n - 1) <= day ==> !expired(day, today, n),
        day < today - (n - 1) ==> expired(day, today, n),
        expired(day, today, m) ==> expired(day, today, n),
{
}

} // verus!
