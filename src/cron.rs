//! Cron expressions: the field-count rule and the trigger engine's parser,
//! and the next firing time of a schedule.

use vstd::prelude::*;

use crate::error::SchedulerError;
use crate::output::string_of_chars;
use crate::types::Timestamp;

verus! {

/// The characters that Unicode classes as White_Space.
pub open spec fn is_ws(c: char) -> bool {
    ('\u{9}' <= c && c <= '\u{d}') || c == ' ' || c == '\u{85}' || c == '\u{a0}' || c == '\u{1680}'
        || ('\u{2000}' <= c && c <= '\u{200a}') || c == '\u{2028}' || c == '\u{2029}'
        || c == '\u{202f}' || c == '\u{205f}' || c == '\u{3000}'
}

pub fn is_whitespace(c: char) -> (r: bool)
    ensures
        r == is_ws(c),
{
    ('\u{9}' <= c && c <= '\u{d}') || c == ' ' || c == '\u{85}' || c == '\u{a0}' || c == '\u{1680}'
        || ('\u{2000}' <= c && c <= '\u{200a}') || c == '\u{2028}' || c == '\u{2029}'
        || c == '\u{202f}' || c == '\u{205f}' || c == '\u{3000}'
}

/// The whitespace-separated fields of `s`, in order.
pub open spec fn fields(s: Seq<char>) -> Seq<Seq<char>>
    decreases s.len(),
{
    if s.len() == 0 {
        Seq::empty()
    } else {
        let prev = fields(s.drop_last());
        let c = s.last();
        if is_ws(c) {
            prev
        } else if s.len() == 1 || is_ws(s[s.len() - 2]) {
            prev.push(seq![c])
        } else {
            prev.update(prev.len() - 1, prev.last().push(c))
        }
    }
}

proof fn lemma_fields_nonempty(s: Seq<char>)
    requires
        s.len() > 0,
        !is_ws(s.last()),
    ensures
        fields(s).len() > 0,
    decreases s.len(),
{
    if s.len() > 1 && !is_ws(s[s.len() - 2]) {
        assert(s.drop_last().last() == s[s.len() - 2]);
        lemma_fields_nonempty(s.drop_last());
    }
}

/// Splits `s` into its whitespace-separated fields.
pub fn split_fields(s: &str) -> (r: Vec<String>)
    ensures
        r@.map_values(|w: String| w@) == fields(s@),
{
    let n = s.unicode_len();
    let mut words: Vec<String> = Vec::new();
    let mut current: Vec<char> = Vec::new();
    let mut in_word = false;
    let mut i: usize = 0;
    while i < n
        invariant
            n == s@.len(),
            i <= n,
            in_word == (i > 0 && !is_ws(s@[i - 1])),
            in_word ==> fields(s@.subrange(0, i as int)).len() > 0
                && words@.map_values(|w: String| w@) == fields(s@.subrange(0, i as int)).drop_last()
                && current@ == fields(s@.subrange(0, i as int)).last(),
            !in_word ==> words@.map_values(|w: String| w@) == fields(s@.subrange(0, i as int)),
        decreases n - i,
    {
        let c = s.get_char(i);
        let ghost p = s@.subrange(0, i as int + 1);
        proof {
            assert(p.drop_last() =~= s@.subrange(0, i as int));
            assert(p.last() == c);
            if i > 0 {
                assert(p[p.len() - 2] == s@[i - 1]);
            }
        }
        if is_whitespace(c) {
            if in_word {
                let ghost before = words@.map_values(|w: String| w@);
                words.push(string_of_chars(&current));
                proof {
                    let f = fields(s@.subrange(0, i as int));
                    assert(words@.map_values(|w: String| w@) =~= before.push(current@));
                    assert(before.push(current@) =~= f);
                }
                current = Vec::new();
            }
            in_word = false;
        } else {
            if !in_word {
                current = Vec::new();
                proof {
                    assert(current@.push(c) =~= seq![c]);
                }
            }
            current.push(c);
            proof {
                lemma_fields_nonempty(p);
                if in_word {
                    let f = fields(s@.subrange(0, i as int));
                    assert(fields(p).drop_last() =~= f.drop_last());
                }
            }
            in_word = true;
        }
        i = i + 1;
    }
    if in_word {
        let ghost before = words@.map_values(|w: String| w@);
        words.push(string_of_chars(&current));
        proof {
            let f = fields(s@.subrange(0, n as int));
            assert(words@.map_values(|w: String| w@) =~= before.push(current@));
            assert(before.push(current@) =~= f);
        }
    }
    proof {
        assert(s@.subrange(0, n as int) =~= s@);
    }
    words
}

/// Whether the trigger engine's parser accepts the expression as a schedule.
pub uninterp spec fn job_schedule_accepts(expr: Seq<char>) -> bool;

/// Relies on tokio_cron_scheduler::Job::new: whether it builds a job for
/// the expression, which depends on the expression alone.
#[verifier::external_body]
fn job_accepts(expr: &str) -> (r: bool)
    ensures
        r == job_schedule_accepts(expr@),
{
    tokio_cron_scheduler::Job::new(expr, |_id, _lock| {}).is_ok()
}

/// The first time strictly after `after` (milliseconds) at which the schedule
/// fires, as the cron crate computes it; `None` where it does not parse.
pub uninterp spec fn cron_next_fire(expr: Seq<char>, after: Timestamp) -> Option<Timestamp>;

/// The last millisecond of the year 9999: the cron crate steps a second past
/// the time it is given, which must stay within chrono's range.
pub const LAST_SCHEDULABLE: Timestamp = 253402300799999;

/// Relies on cron::Schedule::from_str and Schedule::after: the schedule's
/// first firing after the given time, which the crate starts one second later.
#[verifier::external_body]
fn schedule_after(expr: &str, after: Timestamp) -> (r: Option<Timestamp>)
    requires
        after <= LAST_SCHEDULABLE,
    ensures
        r == cron_next_fire(expr@, after),
        r matches Some(t) ==> t > after,
{
    let schedule = <cron::Schedule as std::str::FromStr>::from_str(expr).ok()?;
    let start = <chrono::Utc as chrono::TimeZone>::timestamp_millis_opt(&chrono::Utc, after).single()?;
    schedule.after(&start).next().map(|t| t.timestamp_millis())
}

/// The expression with seconds: a five-field expression (minute to day of
/// week) fires at second 0, so `0 ` is put in front of it; any other is kept.
pub open spec fn with_seconds(expr: Seq<char>) -> Seq<char> {
    if fields(expr).len() == 5 { "0 "@ + expr } else { expr }
}

fn seconds_form(expr: &str) -> (r: String)
    ensures
        r@ == with_seconds(expr@),
{
    if split_fields(expr).len() == 5 {
        String::from_str("0 ").concat(expr)
    } else {
        String::from_str(expr)
    }
}

/// The next run of a schedule after `now`; none past the year 9999.
pub open spec fn next_run_at(expr: Seq<char>, now: Timestamp) -> Option<Timestamp> {
    if now <= LAST_SCHEDULABLE { cron_next_fire(with_seconds(expr), now) } else { None }
}

/// The first time strictly after `after` at which the schedule fires.
pub fn next_fire_after(expr: &str, after: Timestamp) -> (r: Option<Timestamp>)
    ensures
        r == next_run_at(expr@, after),
        r matches Some(t) ==> t > after,
{
    if after <= LAST_SCHEDULABLE {
        let full = seconds_form(expr);
        schedule_after(full.as_str(), after)
    } else {
        None
    }
}

/// A cron expression that the scheduler accepts: five or six fields, and
/// accepted by the trigger engine's parser once it has a seconds field.
pub open spec fn cron_valid(expr: Seq<char>) -> bool {
    5 <= fields(expr).len() <= 6 && job_schedule_accepts(with_seconds(expr))
}

/// Checks a cron expression before any state is changed.
pub fn validate_cron(expr: &str) -> (r: Result<(), SchedulerError>)
    ensures
        r is Ok <==> cron_valid(expr@),
        r matches Err(e) ==> e matches SchedulerError::InvalidCronExpression(m) && m@ == expr@,
{
    let n = split_fields(expr).len();
    if n < 5 || n > 6 {
        return Err(SchedulerError::InvalidCronExpression(String::from_str(expr)));
    }
    let full = seconds_form(expr);
    if !job_accepts(full.as_str()) {
        return Err(SchedulerError::InvalidCronExpression(String::from_str(expr)));
    }
    Ok(())
}

} // verus!
