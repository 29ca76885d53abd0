//! Decisions of the lane race: what to log after each attempt, which
//! failures to retry, what the retries report, and the final error when
//! every lane has failed. The waiting, sleeping and threads are the
//! caller's.

use vstd::prelude::*;
use crate::engine::{Translation, TranslationView};
use crate::error::{message_of, Error, ErrorView};
use crate::text::{concat, join, join_strings, opt_string, owned};

verus! {

/// The detail of an error, without the kind prefix for network and
/// response errors.
pub open spec fn reason_of(e: Error) -> Seq<char> {
    match e {
        Error::Network(m) => m@,
        Error::Parse(m) => m@,
        other => message_of(other),
    }
}

pub fn reason(e: &Error) -> (r: String)
    ensures
        r@ == reason_of(*e),
{
    match e {
        Error::Network(m) => m.clone(),
        Error::Parse(m) => m.clone(),
        other => other.message(),
    }
}

/// Something a retrying lane reports back.
pub enum Event {
    Log(String),
    Done(String, Result<Translation, Error>),
}

/// What the race does next.
pub enum Step {
    /// A translation arrived: return it.
    Won(Translation),
    /// Go on, after printing the line if there is one, and starting
    /// background retries of the lane when asked.
    Going { log: Option<String>, retry: bool },
}

/// The failures of a race so far, in the order they happened.
pub struct Race {
    failures: Vec<String>,
}

/// The views of a list of strings.
pub open spec fn strings_of(v: Seq<String>) -> Seq<Seq<char>> {
    v.map_values(|s: String| s@)
}

/// The line logged when a lane's first attempt fails with a network error.
pub open spec fn network_line_of(name: Seq<char>, why: Seq<char>, next: Option<Seq<char>>) -> Seq<char> {
    name + " failed: "@ + why + ", "@ + match next {
        Some(n) => "trying "@ + n,
        None => "waiting for retries"@,
    }
}

/// The line logged when a lane fails in a way retrying cannot fix.
pub open spec fn skip_line_of(name: Seq<char>, why: Seq<char>) -> Seq<char> {
    name + " failed: "@ + why + ", skipping"@
}

/// How a failure is listed in the final error.
pub open spec fn failure_of(name: Seq<char>, why: Seq<char>) -> Seq<char> {
    name + ": "@ + why
}

impl Race {
    /// The failures recorded so far.
    pub closed spec fn failures(self) -> Seq<Seq<char>> {
        strings_of(self.failures@)
    }

    pub fn new() -> (r: Race)
        ensures
            r.failures() == Seq::<Seq<char>>::empty(),
    {
        let r = Race { failures: Vec::new() };
        assert(r.failures() =~= Seq::<Seq<char>>::empty());
        r
    }

    fn record(&mut self, f: String)
        ensures
            final(self).failures() == old(self).failures().push(f@),
    {
        self.failures.push(f);
        assert(self.failures() =~= old(self).failures().push(f@));
    }

    /// A lane's first attempt: a translation wins; a network error is logged
    /// and retried in the background when retries are enabled (recorded as
    /// a failure otherwise); any other error is logged, recorded and never
    /// retried.
    pub fn first_try(
        &mut self,
        name: &str,
        next: Option<&str>,
        retries: bool,
        result: Result<Translation, Error>,
    ) -> (s: Step)
        ensures
            match result {
                Ok(t) => s == Step::Won(t) && final(self).failures() == old(self).failures(),
                Err(Error::Network(why)) => {
                    let line = network_line_of(
                        name@,
                        why@,
                        match next {
                            Some(n) => Some(n@),
                            None => None,
                        },
                    );
                    &&& s matches Step::Going { log, retry }
                    &&& opt_string(log) == Some(line)
                    &&& retry == retries
                    &&& final(self).failures() == if retries {
                        old(self).failures()
                    } else {
                        old(self).failures().push(failure_of(name@, why@))
                    }
                },
                Err(e) => {
                    &&& s matches Step::Going { log, retry }
                    &&& opt_string(log) == Some(skip_line_of(name@, reason_of(e)))
                    &&& !retry
                    &&& final(self).failures() == old(self).failures().push(
                        failure_of(name@, reason_of(e)),
                    )
                },
            },
    {
        match result {
            Ok(t) => Step::Won(t),
            Err(Error::Network(why)) => {
                let mut line = concat(name, " failed: ");
                line.append(why.as_str());
                line.append(", ");
                match next {
                    Some(n) => {
                        line.append("trying ");
                        line.append(n);
                    },
                    None => {
                        line.append("waiting for retries");
                    },
                }
                if !retries {
                    let mut f = concat(name, ": ");
                    f.append(why.as_str());
                    self.record(f);
                }
                Step::Going { log: Some(line), retry: retries }
            },
            Err(e) => {
                let why = reason(&e);
                let mut line = concat(name, " failed: ");
                line.append(why.as_str());
                line.append(", skipping");
                let mut f = concat(name, ": ");
                f.append(why.as_str());
                self.record(f);
                Step::Going { log: Some(line), retry: false }
            },
        }
    }

    /// A report from a retrying lane: a line to log, a translation that
    /// wins, or a final failure to record.
    pub fn absorb(&mut self, event: Event) -> (s: Step)
        ensures
            match event {
                Event::Log(line) => {
                    &&& s matches Step::Going { log, retry }
                    &&& opt_string(log) == Some(line@)
                    &&& !retry
                    &&& final(self).failures() == old(self).failures()
                },
                Event::Done(_, Ok(t)) => s == Step::Won(t) && final(self).failures()
                    == old(self).failures(),
                Event::Done(name, Err(e)) => {
                    &&& s matches Step::Going { log, retry }
                    &&& log is None
                    &&& !retry
                    &&& final(self).failures() == old(self).failures().push(
                        failure_of(name@, reason_of(e)),
                    )
                },
            },
    {
        match event {
            Event::Log(line) => Step::Going { log: Some(line), retry: false },
            Event::Done(_, Ok(t)) => Step::Won(t),
            Event::Done(name, Err(e)) => {
                let why = reason(&e);
                let mut f = concat(name.as_str(), ": ");
                f.append(why.as_str());
                self.record(f);
                Step::Going { log: None, retry: false }
            },
        }
    }

    /// The deadline passed with retries still pending.
    pub fn deadline(&mut self, deadline_text: &str)
        ensures
            final(self).failures() == old(self).failures().push(
                "deadline of "@ + deadline_text@ + " reached"@,
            ),
    {
        let mut f = concat("deadline of ", deadline_text);
        f.append(" reached");
        self.record(f);
    }

    /// The error when no lane produced a translation: every failure, in order.
    pub fn finish(&self) -> (e: Error)
        ensures
            e@ == ErrorView::Network("all lanes failed: "@ + join(self.failures(), "; "@)),
    {
        let all = join_strings(&self.failures, "; ");
        Error::Network(concat("all lanes failed: ", all.as_str()))
    }
}

/// Which lane makes its first attempt next, once `started` lanes have made
/// theirs: the lanes go in their order, each once, and then none.
pub fn next_lane(started: usize, lanes: usize) -> (r: Option<usize>)
    ensures
        started < lanes ==> r == Some(started),
        started >= lanes ==> r is None,
{
    if started < lanes {
        Some(started)
    } else {
        None
    }
}

/// Which delay a failing lane waits before its next retry, once `done`
/// retries are behind it: one retry per delay, in order, and then none.
pub fn next_retry(done: usize, delays: usize) -> (r: Option<usize>)
    ensures
        done < delays ==> r == Some(done),
        done >= delays ==> r is None,
{
    if done < delays {
        Some(done)
    } else {
        None
    }
}

/// What a background retry does after an attempt.
pub enum RetryStep {
    /// The retry succeeded: report the translation.
    Won(Translation),
    /// Still failing with a network error: log it and wait for the next delay.
    Again { log: String, why: String },
    /// A failure retrying cannot fix: log it and report the lane as failed.
    GiveUp { log: String, done: Event },
}

/// The line logged before each retry.
pub fn retrying_line(name: &str, delay_text: &str) -> (r: String)
    ensures
        r@ == "retrying "@ + name@ + " in "@ + delay_text@,
{
    let mut r = concat("retrying ", name);
    r.append(" in ");
    r.append(delay_text);
    r
}

/// One retry attempt of a lane.
pub fn retry_step(name: &str, result: Result<Translation, Error>) -> (s: RetryStep)
    ensures
        match result {
            Ok(t) => s == RetryStep::Won(t),
            Err(Error::Network(why)) => {
                &&& s matches RetryStep::Again { log, why: w }
                &&& log@ == "retry of "@ + name@ + " failed: "@ + why@
                &&& w@ == why@
            },
            Err(e) => {
                &&& s matches RetryStep::GiveUp { log, done }
                &&& log@ == "retry of "@ + name@ + " failed: "@ + reason_of(e) + ", giving up"@
                &&& done matches Event::Done(n, Err(Error::Parse(m)))
                &&& n@ == name@
                &&& m@ == reason_of(e)
            },
        },
{
    match result {
        Ok(t) => RetryStep::Won(t),
        Err(Error::Network(why)) => {
            let mut log = concat("retry of ", name);
            log.append(" failed: ");
            log.append(why.as_str());
            RetryStep::Again { log, why }
        },
        Err(e) => {
            let why = reason(&e);
            let mut log = concat("retry of ", name);
            log.append(" failed: ");
            log.append(why.as_str());
            log.append(", giving up");
            RetryStep::GiveUp { log, done: Event::Done(owned(name), Err(Error::Parse(why))) }
        },
    }
}

/// The report of a lane whose retries all failed: its last network error.
pub fn retries_exhausted(name: &str, last: String) -> (e: Event)
    ensures
        ({
            &&& e matches Event::Done(n, Err(Error::Network(m)))
            &&& n@ == name@
            &&& m@ == last@
        }),
{
    Event::Done(owned(name), Err(Error::Network(last)))
}

} // verus!
