//! The background scheduler process: where it keeps its files, and how its
//! state is judged from its PID file and the process table.

use vstd::prelude::*;

use crate::cron::{is_whitespace, is_ws};
use crate::system::{parse_u32, parse_u32_spec};

verus! {

/// State of the background process.
#[derive(Debug, Clone, PartialEq, Eq)]
pub enum DaemonStatus {
    Running { pid: u32 },
    Stopped,
    /// The PID file names a process that no longer exists.
    Stale { pid: u32 },
    Error(String),
}

/// What reading the PID file gave.
#[derive(Debug, Clone, PartialEq, Eq)]
pub enum PidFile {
    Found(u32),
    Missing,
    Unreadable(String),
}

/// `s` without its leading whitespace.
pub open spec fn trim_start(s: Seq<char>) -> Seq<char>
    decreases s.len(),
{
    if s.len() > 0 && is_ws(s[0]) { trim_start(s.drop_first()) } else { s }
}

/// `s` without its trailing whitespace.
pub open spec fn trim_end(s: Seq<char>) -> Seq<char>
    decreases s.len(),
{
    if s.len() > 0 && is_ws(s.last()) { trim_end(s.drop_last()) } else { s }
}

/// `s` without leading and trailing whitespace, as `str::trim` gives it.
pub open spec fn trimmed(s: Seq<char>) -> Seq<char> {
    trim_end(trim_start(s))
}

pub fn trim(s: &str) -> (r: &str)
    ensures
        r@ == trimmed(s@),
{
    let n = s.unicode_len();
    let mut i: usize = 0;
    proof {
        assert(s@.subrange(0, n as int) =~= s@);
    }
    while i < n && is_whitespace(s.get_char(i))
        invariant
            n == s@.len(),
            i <= n,
            trim_start(s@) == trim_start(s@.subrange(i as int, n as int)),
        decreases n - i,
    {
        proof {
            assert(s@.subrange(i as int, n as int).drop_first() =~= s@.subrange(i as int + 1, n as int));
        }
        i = i + 1;
    }
    let ghost t = s@.subrange(i as int, n as int);
    proof {
        assert(trim_start(s@) == t);
    }
    let mut j: usize = n;
    while j > i && is_whitespace(s.get_char(j - 1))
        invariant
            n == s@.len(),
            i <= j <= n,
            t == s@.subrange(i as int, n as int),
            trim_end(t) == trim_end(s@.subrange(i as int, j as int)),
        decreases j - i,
    {
        proof {
            assert(s@.subrange(i as int, j as int).drop_last() =~= s@.subrange(i as int, j as int - 1));
        }
        j = j - 1;
    }
    s.substring_char(i, j)
}

/// The process id a PID file holds: its text without surrounding
/// whitespace, read as a decimal number.
pub fn parse_pid(content: &str) -> (r: Option<u32>)
    ensures
        r == parse_u32_spec(trimmed(content@)),
{
    parse_u32(trim(content))
}

/// The files of the background process, under `<home>/.sker`.
#[derive(Debug, Clone)]
pub struct DaemonManager {
    data_dir: String,
    pid_file: String,
    log_file: String,
}

/// `dir/name`.
fn join(dir: &str, name: &str) -> (r: String)
    ensures
        r@ == dir@ + "/"@ + name@,
{
    let mut s = String::from_str(dir);
    s.append("/");
    s.append(name);
    s
}

impl DaemonManager {
    pub closed spec fn data_dir(&self) -> Seq<char> {
        self.data_dir@
    }

    pub closed spec fn pid_path(&self) -> Seq<char> {
        self.pid_file@
    }

    pub closed spec fn log_path(&self) -> Seq<char> {
        self.log_file@
    }

    /// The files under the given home directory, or under `.` without one.
    pub fn new(home: Option<String>) -> (r: Self)
        ensures
            r.data_dir() == (match home { Some(h) => h@, None => "."@ }) + "/"@ + ".sker"@,
            r.pid_path() == r.data_dir() + "/"@ + "daemon.pid"@,
            r.log_path() == r.data_dir() + "/"@ + "daemon.log"@,
    {
        let base = match home {
            Some(h) => h,
            None => String::from_str("."),
        };
        let data_dir = join(base.as_str(), ".sker");
        let pid_file = join(data_dir.as_str(), "daemon.pid");
        let log_file = join(data_dir.as_str(), "daemon.log");
        DaemonManager { data_dir, pid_file, log_file }
    }

    pub fn pid_file(&self) -> (r: &String)
        ensures
            r@ == self.pid_path(),
    {
        &self.pid_file
    }

    pub fn log_file(&self) -> (r: &String)
        ensures
            r@ == self.log_path(),
    {
        &self.log_file
    }

    /// The state of the process from its PID file and whether that process
    /// exists: running, stale, stopped (no PID file) or an error.
    pub fn status(&self, pid_file: PidFile, process_exists: bool) -> (r: DaemonStatus)
        ensures
            r == match pid_file {
                PidFile::Found(pid) => if process_exists {
                    DaemonStatus::Running { pid }
                } else {
                    DaemonStatus::Stale { pid }
                },
                PidFile::Missing => DaemonStatus::Stopped,
                PidFile::Unreadable(m) => DaemonStatus::Error(m),
            },
    {
        match pid_file {
            PidFile::Found(pid) => if process_exists {
                DaemonStatus::Running { pid }
            } else {
                DaemonStatus::Stale { pid }
            },
            PidFile::Missing => DaemonStatus::Stopped,
            PidFile::Unreadable(m) => DaemonStatus::Error(m),
        }
    }
}

} // verus!
