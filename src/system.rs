//! Operating-system schedulers (crontab, launchd, Windows task scheduler):
//! their task records, their naming rules, and the data a system-backed task
//! hands them.

use vstd::prelude::*;

use crate::cron::{fields, split_fields};
use crate::error::SchedulerError;
use crate::platform::{same_text, OS};
use crate::runtime::{id_text, id_to_string};
use crate::types::{ScheduledTask, TaskId};

verus! {

/// When a system task runs; times are `HH:MM`.
#[derive(Debug, Clone)]
pub enum TaskSchedule {
    Hourly,
    Daily(String),
    /// At a time on a day of the week.
    Weekly(String, u8),
    /// At a time on a day of the month.
    Monthly(String, u8),
    Once(String),
}

/// The value of a string of ASCII digits.
pub open spec fn digits_value(s: Seq<char>) -> int
    decreases s.len(),
{
    if s.len() == 0 {
        0
    } else {
        digits_value(s.drop_last()) * 10 + (s.last() as int - '0' as int)
    }
}

pub open spec fn all_digits(s: Seq<char>) -> bool {
    forall|i: int| 0 <= i < s.len() ==> '0' <= #[trigger] s[i] <= '9'
}

/// A `u8` in decimal, with an optional leading `+`, as `u8::from_str` reads it.
pub open spec fn parse_u8_spec(s: Seq<char>) -> Option<u8> {
    let d = if s.len() > 0 && s[0] == '+' { s.drop_first() } else { s };
    if d.len() > 0 && all_digits(d) && digits_value(d) <= 255 {
        Some(digits_value(d) as u8)
    } else {
        None
    }
}

proof fn lemma_digits_value_nonneg(s: Seq<char>)
    requires
        all_digits(s),
    ensures
        digits_value(s) >= 0,
    decreases s.len(),
{
    if s.len() > 0 {
        assert(all_digits(s.drop_last())) by {
            assert forall|i: int| 0 <= i < s.drop_last().len() implies '0' <= #[trigger] s.drop_last()[i] <= '9' by {
                assert(s.drop_last()[i] == s[i]);
            }
        }
        lemma_digits_value_nonneg(s.drop_last());
    }
}

/// Reads a day number.
pub fn parse_u8(s: &str) -> (r: Option<u8>)
    ensures
        r == parse_u8_spec(s@),
{
    let n = s.unicode_len();
    let start: usize = if n > 0 && s.get_char(0) == '+' { 1 } else { 0 };
    let ghost d = if s@.len() > 0 && s@[0] == '+' { s@.drop_first() } else { s@ };
    proof {
        assert(d =~= s@.subrange(start as int, n as int));
    }
    if start >= n {
        return None;
    }
    let mut value: u32 = 0;
    let mut i: usize = start;
    while i < n
        invariant
            n == s@.len(),
            start <= i <= n,
            d == s@.subrange(start as int, n as int),
            d == (if s@.len() > 0 && s@[0] == '+' { s@.drop_first() } else { s@ }),
            all_digits(s@.subrange(start as int, i as int)),
            value as int == digits_value(s@.subrange(start as int, i as int)),
            value <= 255,
        decreases n - i,
    {
        let c = s.get_char(i);
        let ghost p = s@.subrange(start as int, i as int + 1);
        proof {
            assert(p.drop_last() =~= s@.subrange(start as int, i as int));
            assert(p.last() == c);
        }
        if !('0' <= c && c <= '9') {
            proof {
                assert(d[i - start] == c);
                assert(!all_digits(d));
            }
            return None;
        }
        value = value * 10 + (c as u32 - '0' as u32);
        proof {
            assert(all_digits(p)) by {
                assert forall|k: int| 0 <= k < p.len() implies '0' <= #[trigger] p[k] <= '9' by {
                    if k < p.len() - 1 {
                        assert(p[k] == s@.subrange(start as int, i as int)[k]);
                    }
                }
            }
        }
        proof {
            assert(value as int == digits_value(p));
        }
        if value > 255 {
            proof {
                assert(d.subrange(0, (i + 1 - start) as int) =~= p);
                lemma_prefix_value(d, (i + 1 - start) as int);
            }
            return None;
        }
        i = i + 1;
    }
    proof {
        assert(s@.subrange(start as int, n as int) == d);
    }
    Some(value as u8)
}

/// A `u32` in decimal, with an optional leading `+`, as `u32::from_str` reads it.
pub open spec fn parse_u32_spec(s: Seq<char>) -> Option<u32> {
    let d = if s.len() > 0 && s[0] == '+' { s.drop_first() } else { s };
    if d.len() > 0 && all_digits(d) && digits_value(d) <= u32::MAX {
        Some(digits_value(d) as u32)
    } else {
        None
    }
}

/// Reads a process id.
pub fn parse_u32(s: &str) -> (r: Option<u32>)
    ensures
        r == parse_u32_spec(s@),
{
    let n = s.unicode_len();
    let start: usize = if n > 0 && s.get_char(0) == '+' { 1 } else { 0 };
    let ghost d = if s@.len() > 0 && s@[0] == '+' { s@.drop_first() } else { s@ };
    proof {
        assert(d =~= s@.subrange(start as int, n as int));
    }
    if start >= n {
        return None;
    }
    let mut value: u64 = 0;
    let mut i: usize = start;
    while i < n
        invariant
            n == s@.len(),
            start <= i <= n,
            d == s@.subrange(start as int, n as int),
            d == (if s@.len() > 0 && s@[0] == '+' { s@.drop_first() } else { s@ }),
            all_digits(s@.subrange(start as int, i as int)),
            value as int == digits_value(s@.subrange(start as int, i as int)),
            value <= u32::MAX,
        decreases n - i,
    {
        let c = s.get_char(i);
        let ghost p = s@.subrange(start as int, i as int + 1);
        proof {
            assert(p.drop_last() =~= s@.subrange(start as int, i as int));
            assert(p.last() == c);
        }
        if !('0' <= c && c <= '9') {
            proof {
                assert(d[i - start] == c);
                assert(!all_digits(d));
            }
            return None;
        }
        value = value * 10 + (c as u32 - '0' as u32) as u64;
        proof {
            assert(all_digits(p)) by {
                assert forall|k: int| 0 <= k < p.len() implies '0' <= #[trigger] p[k] <= '9' by {
                    if k < p.len() - 1 {
                        assert(p[k] == s@.subrange(start as int, i as int)[k]);
                    }
                }
            }
            assert(value as int == digits_value(p));
        }
        if value > 4294967295 {
            proof {
                assert(d.subrange(0, (i + 1 - start) as int) =~= p);
                lemma_prefix_value(d, (i + 1 - start) as int);
            }
            return None;
        }
        i = i + 1;
    }
    proof {
        assert(s@.subrange(start as int, n as int) == d);
    }
    Some(value as u32)
}

proof fn lemma_prefix_value(d: Seq<char>, k: int)
    requires
        0 < k <= d.len(),
        all_digits(d.subrange(0, k)),
    ensures
        all_digits(d) ==> digits_value(d) >= digits_value(d.subrange(0, k)),
    decreases d.len(),
{
    if all_digits(d) && k < d.len() {
        let e = d.drop_last();
        assert(e.subrange(0, k) =~= d.subrange(0, k));
        assert(all_digits(e)) by {
            assert forall|i: int| 0 <= i < e.len() implies '0' <= #[trigger] e[i] <= '9' by {
                assert(e[i] == d[i]);
            }
        }
        lemma_prefix_value(e, k);
        lemma_digits_value_nonneg(e);
        assert('0' <= d[d.len() - 1] <= '9');
    } else if all_digits(d) {
        assert(d.subrange(0, k) =~= d);
    }
}

pub open spec fn star(s: Seq<char>) -> bool {
    s == "*"@
}

/// `x` with a leading `0` where it is one ASCII character long.
pub open spec fn two_digit(x: Seq<char>) -> Seq<char> {
    if x.len() == 1 && (x[0] as u32) < 128 { "0"@ + x } else { x }
}

/// The `HH:MM` time of a cron line's minute and hour fields.
pub open spec fn time_of(minute: Seq<char>, hour: Seq<char>) -> Seq<char> {
    if star(hour) && star(minute) {
        "00:00"@
    } else if star(hour) {
        "00:"@ + minute
    } else if star(minute) {
        hour + ":00"@
    } else {
        two_digit(hour) + ":"@ + two_digit(minute)
    }
}

/// The schedule a cron line stands for, as kind and time and day:
/// kind 0 hourly, 1 daily, 2 weekly, 3 monthly.
pub open spec fn schedule_of(f: Seq<Seq<char>>) -> Option<(int, Seq<char>, u8)> {
    if f.len() < 5 {
        None
    } else {
        let (minute, hour, day, month, dow) = (f[0], f[1], f[2], f[3], f[4]);
        let time = time_of(minute, hour);
        if !star(day) && !star(month) {
            match parse_u8_spec(day) { Some(n) => Some((3, time, n)), None => None }
        } else if !star(dow) {
            match parse_u8_spec(dow) { Some(n) => Some((2, time, n)), None => None }
        } else if !star(day) {
            match parse_u8_spec(day) { Some(n) => Some((3, time, n)), None => None }
        } else if star(hour) {
            Some((0, Seq::empty(), 0))
        } else {
            Some((1, time, 0))
        }
    }
}

impl TaskSchedule {
    /// The kind, time and day of a schedule, as `schedule_of` gives them.
    pub open spec fn view_of(s: TaskSchedule) -> (int, Seq<char>, u8) {
        match s {
            TaskSchedule::Hourly => (0, Seq::empty(), 0),
            TaskSchedule::Daily(t) => (1, t@, 0),
            TaskSchedule::Weekly(t, d) => (2, t@, d),
            TaskSchedule::Monthly(t, d) => (3, t@, d),
            TaskSchedule::Once(t) => (4, t@, 0),
        }
    }

    /// The system schedule of a five- or six-field cron line; none where it
    /// has fewer fields or its day is not a number.
    pub fn from_cron(cron: &str) -> (r: Option<TaskSchedule>)
        ensures
            match schedule_of(fields(cron@)) {
                Some(v) => r matches Some(t) && Self::view_of(t) == v,
                None => r is None,
            },
    {
        let parts = split_fields(cron);
        proof {
            assert(parts@.len() == fields(cron@).len());
        }
        if parts.len() < 5 {
            return None;
        }
        proof {
            assert forall|k: int| 0 <= k < 5 implies parts@[k]@ == fields(cron@)[k] by {
                assert(parts@.map_values(|w: String| w@)[k] == parts@[k]@);
            }
        }
        let minute = parts[0].as_str();
        let hour = parts[1].as_str();
        let day = parts[2].as_str();
        let month = parts[3].as_str();
        let dow = parts[4].as_str();
        let time = time_text(minute, hour);
        if !is_star(day) && !is_star(month) {
            match parse_u8(day) {
                Some(n) => Some(TaskSchedule::Monthly(time, n)),
                None => None,
            }
        } else if !is_star(dow) {
            match parse_u8(dow) {
                Some(n) => Some(TaskSchedule::Weekly(time, n)),
                None => None,
            }
        } else if !is_star(day) {
            match parse_u8(day) {
                Some(n) => Some(TaskSchedule::Monthly(time, n)),
                None => None,
            }
        } else if is_star(hour) {
            Some(TaskSchedule::Hourly)
        } else {
            Some(TaskSchedule::Daily(time))
        }
    }
}

fn is_star(s: &str) -> (r: bool)
    ensures
        r == star(s@),
{
    same_text(s, "*")
}

fn two_digit_text(x: &str) -> (r: String)
    ensures
        r@ == two_digit(x@),
{
    if x.unicode_len() == 1 && (x.get_char(0) as u32) < 128 {
        String::from_str("0").concat(x)
    } else {
        String::from_str(x)
    }
}

fn time_text(minute: &str, hour: &str) -> (r: String)
    ensures
        r@ == time_of(minute@, hour@),
{
    if is_star(hour) && is_star(minute) {
        String::from_str("00:00")
    } else if is_star(hour) {
        String::from_str("00:").concat(minute)
    } else if is_star(minute) {
        String::from_str(hour).concat(":00")
    } else {
        let mut t = two_digit_text(hour);
        t.append(":");
        let m = two_digit_text(minute);
        t.append(m.as_str());
        t
    }
}

/// State of a task in the system scheduler.
#[derive(Debug, Clone, PartialEq)]
pub enum TaskStatus {
    Ready,
    Running,
    Disabled,
    Unknown(String),
}

impl TaskStatus {
    pub open spec fn text(&self) -> Seq<char> {
        match self {
            TaskStatus::Ready => "Ready"@,
            TaskStatus::Running => "Running"@,
            TaskStatus::Disabled => "Disabled"@,
            TaskStatus::Unknown(s) => s@,
        }
    }

    pub fn to_string(&self) -> (r: String)
        ensures
            r@ == self.text(),
    {
        match self {
            TaskStatus::Ready => String::from_str("Ready"),
            TaskStatus::Running => String::from_str("Running"),
            TaskStatus::Disabled => String::from_str("Disabled"),
            TaskStatus::Unknown(s) => s.clone(),
        }
    }
}

/// A task as the system scheduler lists it.
#[derive(Debug, Clone)]
pub struct SystemTask {
    pub name: String,
    pub next_run: Option<String>,
    pub status: TaskStatus,
    pub command: Option<String>,
}

/// `prefix` followed by `name`.
fn prefixed(prefix: &str, name: &str) -> (r: String)
    ensures
        r@ == prefix@ + name@,
{
    let mut s = String::from_str(prefix);
    s.append(name);
    s
}

/// The crontab-backed scheduler of Linux.
#[derive(Debug, Clone)]
pub struct LinuxSystemScheduler {
    task_prefix: String,
}

impl LinuxSystemScheduler {
    pub closed spec fn prefix(&self) -> Seq<char> {
        self.task_prefix@
    }

    pub fn new() -> (r: Self)
        ensures
            r.prefix() == "# Sker_"@,
    {
        LinuxSystemScheduler { task_prefix: String::from_str("# Sker_") }
    }

    /// The crontab comment that marks a task: `<prefix>:<name>`.
    pub fn get_task_comment(&self, name: &str) -> (r: String)
        ensures
            r@ == self.prefix() + ":"@ + name@,
    {
        let mut s = self.task_prefix.clone();
        s.append(":");
        s.append(name);
        s
    }
}

/// The launchd-backed scheduler of macOS.
#[derive(Debug, Clone)]
pub struct MacosSystemScheduler {
    task_prefix: String,
}

impl MacosSystemScheduler {
    pub closed spec fn prefix(&self) -> Seq<char> {
        self.task_prefix@
    }

    pub fn new() -> (r: Self)
        ensures
            r.prefix() == "com.sker."@,
    {
        MacosSystemScheduler { task_prefix: String::from_str("com.sker.") }
    }

    /// The launchd label of a task: `<prefix><name>`.
    pub fn get_label(&self, name: &str) -> (r: String)
        ensures
            r@ == self.prefix() + name@,
    {
        prefixed(self.task_prefix.as_str(), name)
    }
}

/// The scheduler of Windows' task scheduler.
#[derive(Debug, Clone)]
pub struct WindowsSystemScheduler {
    task_prefix: String,
}

impl WindowsSystemScheduler {
    pub closed spec fn prefix(&self) -> Seq<char> {
        self.task_prefix@
    }

    pub fn new() -> (r: Self)
        ensures
            r.prefix() == "Sker_"@,
    {
        WindowsSystemScheduler { task_prefix: String::from_str("Sker_") }
    }

    /// The full task name: `<prefix><name>`.
    pub fn get_full_name(&self, name: &str) -> (r: String)
        ensures
            r@ == self.prefix() + name@,
    {
        prefixed(self.task_prefix.as_str(), name)
    }

    /// The `/sc` argument of a schedule, and no further arguments.
    pub fn schedule_to_args(&self, schedule: &TaskSchedule) -> (r: (String, Vec<String>))
        ensures
            r.0@ == schedule_arg(*schedule),
            r.1@.len() == 0,
    {
        let a = match schedule {
            TaskSchedule::Hourly => String::from_str("HOURLY"),
            TaskSchedule::Daily(t) => String::from_str("DAILY /st ").concat(t.as_str()),
            TaskSchedule::Weekly(t, d) => {
                let mut s = String::from_str("WEEKLY /st ");
                s.append(t.as_str());
                s.append(" /d ");
                s.append(weekday(*d));
                s
            },
            TaskSchedule::Monthly(t, d) => {
                let mut s = String::from_str("MONTHLY /st ");
                s.append(t.as_str());
                s.append(" /d ");
                let n = u8_to_string(*d);
                s.append(n.as_str());
                s
            },
            TaskSchedule::Once(t) => String::from_str("ONCE /st ").concat(t.as_str()),
        };
        (a, Vec::new())
    }

    /// The `schtasks` arguments that create a task:
    /// `/create /tn "<full name>" /tr "<command>" /sc <schedule> /f`.
    pub fn create_args(&self, name: &str, command: &str, schedule: &TaskSchedule) -> (r: String)
        ensures
            r@ == "/create /tn \""@ + self.prefix() + name@ + "\" /tr \""@ + command@ + "\" /sc "@
                + schedule_arg(*schedule) + " /f"@,
    {
        let full = self.get_full_name(name);
        let (sc, _) = self.schedule_to_args(schedule);
        let mut s = String::from_str("/create /tn \"");
        s.append(full.as_str());
        s.append("\" /tr \"");
        s.append(command);
        s.append("\" /sc ");
        s.append(sc.as_str());
        s.append(" /f");
        s
    }
}

/// The decimal digits of `n`.
pub open spec fn decimal(n: nat) -> Seq<char>
    decreases n,
{
    if n < 10 {
        seq![(('0' as nat) + n) as char]
    } else {
        decimal(n / 10).push((('0' as nat) + n % 10) as char)
    }
}

fn digit_char(d: u8) -> (r: char)
    requires
        d < 10,
    ensures
        r == (('0' as nat) + d as nat) as char,
{
    match d {
        0 => '0',
        1 => '1',
        2 => '2',
        3 => '3',
        4 => '4',
        5 => '5',
        6 => '6',
        7 => '7',
        8 => '8',
        _ => '9',
    }
}

/// `n` in decimal.
pub fn u8_to_string(n: u8) -> (r: String)
    ensures
        r@ == decimal(n as nat),
{
    let mut v: Vec<char> = Vec::new();
    let ghost m = n as nat;
    if n >= 100 {
        v.push(digit_char(n / 100));
        v.push(digit_char((n / 10) % 10));
        proof {
            assert((m / 10) / 10 == m / 100);
            assert(decimal(m / 100) == seq![(('0' as nat) + m / 100) as char]);
            assert(decimal(m / 10) == decimal(m / 100).push((('0' as nat) + (m / 10) % 10) as char));
        }
    } else if n >= 10 {
        v.push(digit_char(n / 10));
        proof {
            assert(decimal(m / 10) == seq![(('0' as nat) + m / 10) as char]);
        }
    }
    v.push(digit_char(n % 10));
    proof {
        if n >= 10 {
            assert(decimal(m) == decimal(m / 10).push((('0' as nat) + m % 10) as char));
        }
        assert(v@ =~= decimal(m));
    }
    crate::output::string_of_chars(&v)
}

/// The three-letter name of a day of the week, Sunday being 0 and 7; an
/// out-of-range day is read as Monday.
pub open spec fn weekday_name(d: u8) -> Seq<char> {
    if d == 0 || d == 7 { "SUN"@ } else if d == 1 { "MON"@ } else if d == 2 { "TUE"@ } else if d == 3 {
        "WED"@
    } else if d == 4 { "THU"@ } else if d == 5 { "FRI"@ } else if d == 6 { "SAT"@ } else { "MON"@ }
}

fn weekday(d: u8) -> (r: &'static str)
    ensures
        r@ == weekday_name(d),
{
    match d {
        0 => "SUN",
        1 => "MON",
        2 => "TUE",
        3 => "WED",
        4 => "THU",
        5 => "FRI",
        6 => "SAT",
        7 => "SUN",
        _ => "MON",
    }
}

/// The `/sc` argument of `schtasks` for a schedule.
pub open spec fn schedule_arg(s: TaskSchedule) -> Seq<char> {
    match s {
        TaskSchedule::Hourly => "HOURLY"@,
        TaskSchedule::Daily(t) => "DAILY /st "@ + t@,
        TaskSchedule::Weekly(t, d) => "WEEKLY /st "@ + t@ + " /d "@ + weekday_name(d),
        TaskSchedule::Monthly(t, d) => "MONTHLY /st "@ + t@ + " /d "@ + decimal(d as nat),
        TaskSchedule::Once(t) => "ONCE /st "@ + t@,
    }
}

/// The stand-in for platforms without a system scheduler.
#[derive(Debug, Clone, Copy)]
pub struct UnsupportedSystemScheduler;

impl UnsupportedSystemScheduler {
    pub fn new() -> (r: Self) {
        UnsupportedSystemScheduler
    }
}

/// The system scheduler of some platform.
#[derive(Debug, Clone)]
pub enum PlatformScheduler {
    Linux(LinuxSystemScheduler),
    Macos(MacosSystemScheduler),
    Windows(WindowsSystemScheduler),
    Unsupported(UnsupportedSystemScheduler),
}

/// The system scheduler of the given platform.
pub fn create_scheduler(os: OS) -> (r: PlatformScheduler)
    ensures
        match os {
            OS::Linux => r matches PlatformScheduler::Linux(s) && s.prefix() == "# Sker_"@,
            OS::MacOS => r matches PlatformScheduler::Macos(s) && s.prefix() == "com.sker."@,
            OS::Windows => r matches PlatformScheduler::Windows(s) && s.prefix() == "Sker_"@,
            OS::Unknown => r is Unsupported,
        },
{
    match os {
        OS::Linux => PlatformScheduler::Linux(LinuxSystemScheduler::new()),
        OS::MacOS => PlatformScheduler::Macos(MacosSystemScheduler::new()),
        OS::Windows => PlatformScheduler::Windows(WindowsSystemScheduler::new()),
        OS::Unknown => PlatformScheduler::Unsupported(UnsupportedSystemScheduler::new()),
    }
}

/// Keeps the system-scheduler side of system-backed tasks: which program the
/// trigger runs, and under which name.
#[derive(Debug, Clone)]
pub struct SystemTaskManager {
    exe_path: String,
}

impl SystemTaskManager {
    pub closed spec fn exe(&self) -> Seq<char> {
        self.exe_path@
    }

    /// A manager whose triggers run the program at `exe_path`.
    pub fn with_exe_path(exe_path: String) -> (r: Result<Self, SchedulerError>)
        ensures
            r matches Ok(m) && m.exe() == exe_path@,
    {
        Ok(SystemTaskManager { exe_path })
    }

    pub fn exe_path(&self) -> (r: &String)
        ensures
            r@ == self.exe(),
    {
        &self.exe_path
    }

    /// The system task's name: the task id's text.
    pub fn get_task_name(task_id: TaskId) -> (r: String)
        ensures
            r@ == id_text(task_id),
    {
        id_to_string(task_id)
    }

    /// The command line the trigger runs: `"<exe>" schedule run --run-id=<id>`.
    pub fn run_command(&self, task_id: TaskId) -> (r: String)
        ensures
            r@ == "\""@ + self.exe() + "\" schedule run --run-id="@ + id_text(task_id),
    {
        let mut s = String::from_str("\"");
        s.append(self.exe_path.as_str());
        s.append("\" schedule run --run-id=");
        let id = id_to_string(task_id);
        s.append(id.as_str());
        s
    }

    /// What the system scheduler is handed for a system-backed task: its
    /// name, the command line that runs it, and its schedule; a cron line
    /// without a system schedule is rejected.
    pub fn system_task_of(&self, task: &ScheduledTask) -> (r: Result<(String, String, TaskSchedule), SchedulerError>)
        ensures
            match schedule_of(fields(task.cron_expression@)) {
                Some(v) => r matches Ok((name, command, schedule)) && name@ == id_text(task.id)
                    && command@ == "\""@ + self.exe() + "\" schedule run --run-id="@ + id_text(task.id)
                    && TaskSchedule::view_of(schedule) == v,
                None => r matches Err(SchedulerError::InvalidCronExpression(m)) && m == task.cron_expression,
            },
    {
        match TaskSchedule::from_cron(task.cron_expression.as_str()) {
            Some(schedule) => Ok((Self::get_task_name(task.id), self.run_command(task.id), schedule)),
            None => Err(SchedulerError::InvalidCronExpression(task.cron_expression.clone())),
        }
    }
}

} // verus!
