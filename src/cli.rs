//! The command-line tool's commands as plain data, and the small parsers that
//! turn their arguments into the scheduler's inputs.

use vstd::prelude::*;

use crate::types::LogLevel;

verus! {

/// The parsed command line.
#[derive(Debug, Clone)]
pub struct Cli {
    pub verbose: bool,
    pub command: Commands,
}

#[derive(Debug, Clone)]
pub enum Commands {
    Run { program: String, args: Vec<String>, work_dir: Option<String>, timeout: Option<u64>, shell: bool },
    Schedule { action: ScheduleAction },
    Power { action: PowerAction },
    Voice { action: VoiceAction },
    Config { action: ConfigAction },
}

#[derive(Debug, Clone)]
pub enum ScheduleAction {
    Add {
        cron: String,
        command: String,
        title: Option<String>,
        description: Option<String>,
        content: Option<String>,
        system: bool,
    },
    List { running: bool, system: bool, format: String },
    Remove { id: String, system: bool },
    Pause { id: String },
    Resume { id: String },
    Run { id: Option<String>, user: Vec<String>, run_id: Option<String> },
    Stop { run_id: String },
    Log { run_id: String, level: Option<String> },
    Status { id: String },
    Update {
        id: String,
        title: Option<String>,
        description: Option<String>,
        content: Option<String>,
        cron: Option<String>,
    },
    Destroy { id: String },
    Get { id: String },
    Clear { system: bool, force: bool },
    Daemon { action: DaemonAction },
}

#[derive(Debug, Clone)]
pub enum DaemonAction {
    Start,
    Stop,
    Restart,
    Kill,
    Status,
    Logs { lines: usize },
    Worker,
}

#[derive(Debug, Clone)]
pub enum PowerAction {
    Sleep,
    Hibernate,
    Shutdown,
    Reboot,
    Wake { seconds: u64 },
    CheckHibernate,
    CheckWake,
}

#[derive(Debug, Clone)]
pub enum VoiceAction {
    Speak { text: String },
    Transcribe { audio: Option<String>, url: Option<String>, language: Option<String> },
}

#[derive(Debug, Clone)]
pub enum ConfigAction {
    Show,
    SetValue { key: String, value: String },
}

/// Whether `c` is `d`, or the upper-case ASCII letter of `d`.
pub open spec fn same_letter(c: char, d: char) -> bool {
    c == d || ('A' <= c <= 'Z' && (c as u32) + 32 == (d as u32))
}

/// Whether `s` equals the lower-case ASCII word `w` up to ASCII case.
pub open spec fn matches_word(s: Seq<char>, w: Seq<char>) -> bool {
    s.len() == w.len() && forall|i: int| 0 <= i < s.len() ==> #[trigger] same_letter(s[i], w[i])
}

fn is_word(s: &str, w: &str) -> (r: bool)
    ensures
        r == matches_word(s@, w@),
{
    let n = s.unicode_len();
    if n != w.unicode_len() {
        return false;
    }
    let mut i: usize = 0;
    while i < n
        invariant
            n == s@.len() == w@.len(),
            i <= n,
            forall|k: int| 0 <= k < i ==> #[trigger] same_letter(s@[k], w@[k]),
        decreases n - i,
    {
        let c = s.get_char(i);
        let d = w.get_char(i);
        if !(c == d || ('A' <= c && c <= 'Z' && (c as u32) + 32 == (d as u32))) {
            proof {
                assert(!same_letter(s@[i as int], w@[i as int]));
            }
            return false;
        }
        i = i + 1;
    }
    true
}

/// The log level a name stands for, in any letter case.
pub open spec fn level_named(s: Seq<char>) -> Option<LogLevel> {
    if matches_word(s, "debug"@) {
        Some(LogLevel::Debug)
    } else if matches_word(s, "info"@) {
        Some(LogLevel::Info)
    } else if matches_word(s, "warn"@) {
        Some(LogLevel::Warn)
    } else if matches_word(s, "error"@) {
        Some(LogLevel::Error)
    } else {
        None
    }
}

/// Reads a log level given on the command line; an unknown name gives none.
pub fn parse_log_level(s: &str) -> (r: Option<LogLevel>)
    ensures
        r == level_named(s@),
{
    if is_word(s, "debug") {
        Some(LogLevel::Debug)
    } else if is_word(s, "info") {
        Some(LogLevel::Info)
    } else if is_word(s, "warn") {
        Some(LogLevel::Warn)
    } else if is_word(s, "error") {
        Some(LogLevel::Error)
    } else {
        None
    }
}

/// The position of the first `c` in `s`.
pub open spec fn first_index(s: Seq<char>, c: char) -> Option<int>
    decreases s.len(),
{
    if s.len() == 0 {
        None
    } else if s[0] == c {
        Some(0)
    } else {
        match first_index(s.drop_first(), c) {
            Some(i) => Some(i + 1),
            None => None,
        }
    }
}

proof fn lemma_first_index(s: Seq<char>, c: char, i: int)
    requires
        0 <= i <= s.len(),
        forall|k: int| 0 <= k < i ==> s[k] != c,
    ensures
        i < s.len() && s[i] == c ==> first_index(s, c) == Some(i),
        i == s.len() ==> first_index(s, c) is None,
    decreases i,
{
    if i > 0 {
        let d = s.drop_first();
        assert forall|k: int| 0 <= k < i - 1 implies d[k] != c by {
            assert(d[k] == s[k + 1]);
        }
        lemma_first_index(d, c, i - 1);
    }
}

/// `key=value` split at the first `=`; none without one.
pub open spec fn split_pair(s: Seq<char>) -> Option<(Seq<char>, Seq<char>)> {
    match first_index(s, '=') {
        Some(i) => Some((s.subrange(0, i), s.subrange(i + 1, s.len() as int))),
        None => None,
    }
}

/// Splits `key=value` at its first `=`.
pub fn split_param(s: &str) -> (r: Option<(String, String)>)
    ensures
        match split_pair(s@) {
            Some((k, v)) => r matches Some(kv) && kv.0@ == k && kv.1@ == v,
            None => r is None,
        },
{
    let n = s.unicode_len();
    let mut i: usize = 0;
    while i < n
        invariant
            n == s@.len(),
            i <= n,
            forall|k: int| 0 <= k < i ==> s@[k] != '=',
        decreases n - i,
    {
        if s.get_char(i) == '=' {
            proof {
                lemma_first_index(s@, '=', i as int);
            }
            let key = String::from_str(s.substring_char(0, i));
            let value = String::from_str(s.substring_char(i + 1, n));
            return Some((key, value));
        }
        i = i + 1;
    }
    proof {
        lemma_first_index(s@, '=', i as int);
    }
    None
}

/// The position of the first pair with key `k`.
pub open spec fn key_index(p: Seq<(Seq<char>, Seq<char>)>, k: Seq<char>) -> Option<int>
    decreases p.len(),
{
    if p.len() == 0 {
        None
    } else if p[0].0 == k {
        Some(0)
    } else {
        match key_index(p.drop_first(), k) {
            Some(i) => Some(i + 1),
            None => None,
        }
    }
}

proof fn lemma_key_index(p: Seq<(Seq<char>, Seq<char>)>, k: Seq<char>, i: int)
    requires
        0 <= i <= p.len(),
        forall|q: int| 0 <= q < i ==> p[q].0 != k,
    ensures
        i < p.len() && p[i].0 == k ==> key_index(p, k) == Some(i),
        i == p.len() ==> key_index(p, k) is None,
    decreases i,
{
    if i > 0 {
        let d = p.drop_first();
        assert forall|q: int| 0 <= q < i - 1 implies d[q].0 != k by {
            assert(d[q] == p[q + 1]);
        }
        lemma_key_index(d, k, i - 1);
    }
}

/// `p` with `k` set to `v`: in place where `k` is present, appended otherwise.
pub open spec fn put(p: Seq<(Seq<char>, Seq<char>)>, k: Seq<char>, v: Seq<char>) -> Seq<(Seq<char>, Seq<char>)> {
    match key_index(p, k) {
        Some(i) => p.update(i, (k, v)),
        None => p.push((k, v)),
    }
}

/// The parameters of `--user key=value` arguments, in order of first
/// appearance: arguments without `=` are skipped, and a later value of a key
/// replaces the earlier one.
pub open spec fn params_of(user: Seq<Seq<char>>) -> Seq<(Seq<char>, Seq<char>)>
    decreases user.len(),
{
    if user.len() == 0 {
        Seq::empty()
    } else {
        let prev = params_of(user.drop_last());
        match split_pair(user.last()) {
            Some((k, v)) => put(prev, k, v),
            None => prev,
        }
    }
}

pub open spec fn pair_view(p: (String, String)) -> (Seq<char>, Seq<char>) {
    (p.0@, p.1@)
}

/// Reads the user parameters of a manual run.
pub fn parse_user_params(user: &Vec<String>) -> (r: Vec<(String, String)>)
    ensures
        r@.map_values(|p: (String, String)| pair_view(p)) == params_of(user@.map_values(|s: String| s@)),
{
    let ghost uv = user@.map_values(|s: String| s@);
    let mut r: Vec<(String, String)> = Vec::new();
    let mut j: usize = 0;
    proof {
        assert(uv.subrange(0, 0) =~= Seq::<Seq<char>>::empty());
        assert(r@.map_values(|p: (String, String)| pair_view(p)) =~= Seq::<(Seq<char>, Seq<char>)>::empty());
    }
    while j < user.len()
        invariant
            j <= user@.len(),
            uv == user@.map_values(|s: String| s@),
            r@.map_values(|p: (String, String)| pair_view(p)) == params_of(uv.subrange(0, j as int)),
        decreases user@.len() - j,
    {
        let ghost before = r@.map_values(|p: (String, String)| pair_view(p));
        proof {
            let u = uv.subrange(0, j as int + 1);
            assert(u.drop_last() =~= uv.subrange(0, j as int));
            assert(u.last() == user@[j as int]@);
        }
        match split_param(user[j].as_str()) {
            None => {},
            Some((key, value)) => {
                let mut k: usize = 0;
                let mut found = false;
                while k < r.len() && !found
                    invariant
                        k <= r@.len(),
                        before == r@.map_values(|p: (String, String)| pair_view(p)),
                        forall|q: int| 0 <= q < k ==> before[q].0 != key@,
                        found ==> k < r@.len() && before[k as int].0 == key@,
                    decreases r@.len() - k + (if found { 0int } else { 1int }),
                {
                    if crate::platform::same_text(r[k].0.as_str(), key.as_str()) {
                        found = true;
                    } else {
                        k = k + 1;
                    }
                }
                proof {
                    lemma_key_index(before, key@, k as int);
                }
                let ghost kv = key@;
                let ghost vv = value@;
                if found {
                    r.set(k, (key, value));
                    proof {
                        assert(r@.map_values(|p: (String, String)| pair_view(p)) =~= before.update(k as int, (kv, vv)));
                    }
                } else {
                    r.push((key, value));
                    proof {
                        assert(r@.map_values(|p: (String, String)| pair_view(p)) =~= before.push((kv, vv)));
                    }
                }
            },
        }
        j = j + 1;
    }
    proof {
        assert(uv.subrange(0, j as int) =~= uv);
    }
    r
}

/// What `schedule add` makes of its arguments: the title, or the command
/// where none is given; a name made of the command with every character
/// that is not alphanumeric or `_` replaced by `_`; and the content, or the
/// command where none is given, which is what the task runs.
pub fn add_fields(command: &str, title: Option<String>, content: Option<String>) -> (r: (String, String, Option<String>))
    ensures
        r.0@ == (match title { Some(t) => t@, None => command@ }),
        r.1@.len() == command@.len(),
        forall|i: int| 0 <= i < command@.len() ==> #[trigger] r.1@[i] == crate::output::safe_char(command@[i]),
        r.2 matches Some(c) && c@ == (match content { Some(x) => x@, None => command@ }),
{
    let t = match title {
        Some(t) => t,
        None => String::from_str(command),
    };
    let name = crate::output::sanitize_task_name(command);
    let c = match content {
        Some(c) => c,
        None => String::from_str(command),
    };
    (t, name, Some(c))
}

} // verus!
