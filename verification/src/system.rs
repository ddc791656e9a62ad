//! Host resources and processes: the records the system service publishes,
//! and how a request to end a process is read and answered.
use vstd::prelude::*;
use crate::text::{chars_of, concat3, lit, parse_dec_exec, parse_unsigned};

verus! {

#[derive(Clone, Debug, PartialEq)]
pub struct DiskInfo {
    pub name: String,
    pub mount_point: String,
    pub total_space: u64,
    pub available_space: u64,
    pub file_system: String,
}

#[derive(Clone, Debug, PartialEq)]
pub struct NetworkInfo {
    pub name: String,
    pub received: u64,
    pub transmitted: u64,
    pub packets_recv: u64,
    pub packets_sent: u64,
    pub errors_on_recv: u64,
    pub errors_on_sent: u64,
}

#[derive(Clone, Copy, Debug, PartialEq, Eq)]
pub enum AlertLevel {
    Info,
    Warning,
    Critical,
}

#[derive(Clone, Debug, PartialEq)]
pub struct Alert {
    pub level: AlertLevel,
    pub title: String,
    pub message: String,
    pub timestamp: String,
}

impl AlertLevel {
    /// The level's name as it is sent to clients.
    pub fn as_str(&self) -> (r: &'static str)
        ensures
            r@ == (match *self {
                AlertLevel::Info => "info"@,
                AlertLevel::Warning => "warning"@,
                AlertLevel::Critical => "critical"@,
            }),
    {
        match self {
            AlertLevel::Info => "info",
            AlertLevel::Warning => "warning",
            AlertLevel::Critical => "critical",
        }
    }
}

/// The process id in a request, read as `usize` is read from text: an
/// optional `+` and decimal digits, with a value that fits.
pub fn parse_pid(pid: &str) -> (r: Option<usize>)
    ensures
        match parse_unsigned(pid@, 10, usize::MAX as nat) {
            Some(v) => r == Some(v as usize),
            None => r is None,
        },
{
    let c = chars_of(pid);
    match parse_dec_exec(&c, usize::MAX as u64) {
        Some(v) => Some(v as usize),
        None => None,
    }
}

/// The alert that answers a request to end process `pid` (named `name`):
/// informational when it ended, a warning when it could not be ended.
pub open spec fn kill_alert_spec(name: Seq<char>, pid: Seq<char>, killed: bool) -> (AlertLevel, Seq<char>, Seq<char>) {
    if killed {
        (AlertLevel::Info, "Process Killed"@, "Process "@ + name + " ("@ + pid + ") killed successfully"@)
    } else {
        (AlertLevel::Warning, "Kill Failed"@, "Failed to kill process "@ + pid)
    }
}

pub fn kill_alert(name: &String, pid: &String, killed: bool, timestamp: String) -> (r: Alert)
    ensures
        (r.level, r.title@, r.message@) == kill_alert_spec(name@, pid@, killed),
        r.timestamp == timestamp,
{
    proof {
        reveal_strlit("");
    }
    if killed {
        let a = concat3("Process ", name, " (");
        let b = concat3("", &a, "");
        let mut m = chars_of(b.as_str());
        m.extend_from_slice(&chars_of(pid.as_str()));
        m.extend_from_slice(&chars_of(") killed successfully"));
        Alert {
            level: AlertLevel::Info,
            title: lit("Process Killed"),
            message: crate::text::string_from_chars(&m),
            timestamp,
        }
    } else {
        Alert {
            level: AlertLevel::Warning,
            title: lit("Kill Failed"),
            message: concat3("Failed to kill process ", pid, ""),
            timestamp,
        }
    }
}

/// Alerts are checked when more than a minute has passed since the last
/// check.
pub fn alert_check_due(elapsed_nanos: u128) -> (r: bool)
    ensures
        r == (elapsed_nanos > 60_000_000_000),
{
    elapsed_nanos > 60_000_000_000
}

} // verus!
