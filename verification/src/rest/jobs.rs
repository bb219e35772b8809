//! Jobs: runs of an external tool that are too slow to answer inside a request.
//!
//! It is deliberately not a general task system: there is one producer, the log
//! is the whole state, and the registry dies with the listener.
use vstd::prelude::*;
use vstd::string::*;

use crate::json;
use crate::json::json_string;
use crate::protocol::ResponsePayload;
use crate::rest::routes::Event;
use crate::rest::{problem, Problem, Status};
use crate::text;
use crate::text::{concat2, concat3, decimal_usize, hex_digit_of, parse_usize, same};

verus! {

/// How many finished jobs the registry keeps.
///
/// A finished job stays so a client that reconnects can still read the outcome.
/// Without a cap, a daemon that flashes all day would hold every run it ever
/// made.
pub const JOBS_KEPT: usize = 16;

/// What a job has printed, and how it ended.
#[derive(Debug)]
pub struct JobLog {
    pub lines: Vec<String>,
    pub outcome: Option<Result<String, String>>,
}

fn copy_outcome(outcome: &Option<Result<String, String>>) -> (r: Option<Result<String, String>>)
    ensures
        r == *outcome,
{
    match outcome {
        None => None,
        Some(Ok(s)) => Some(Ok(s.clone())),
        Some(Err(s)) => Some(Err(s.clone())),
    }
}

impl JobLog {
    /// A job that has printed nothing and not ended.
    pub fn new() -> (r: JobLog)
        ensures
            r.lines@.len() == 0,
            r.outcome is None,
    {
        JobLog { lines: Vec::new(), outcome: None }
    }

    /// Take down a line of output.
    pub fn push(&mut self, text: String)
        ensures
            final(self).lines@ == old(self).lines@.push(text),
            final(self).outcome == old(self).outcome,
    {
        self.lines.push(text);
    }

    /// Take down how the job ended.
    pub fn finish(&mut self, outcome: Result<String, String>)
        ensures
            final(self).lines == old(self).lines,
            final(self).outcome == Some(outcome),
    {
        self.outcome = Some(outcome);
    }

    /// What a job wrote since then, and how it ended.
    pub open spec fn gives_since(
        self,
        sent: usize,
        r: (Vec<String>, Option<Result<String, String>>),
    ) -> bool {
        &&& text::texts(r.0@) == (if sent <= self.lines@.len() {
            text::texts(self.lines@.skip(sent as int))
        } else {
            Seq::empty()
        })
        &&& r.1 == self.outcome
    }

    /// Everything past `sent`, and the outcome when there is one.
    ///
    /// Both come from one look at the log on purpose. The outcome is set after
    /// the last line, so an answer carrying it carries every line before it, and
    /// a reader can end the stream without wondering what it missed.
    pub fn since(&self, sent: usize) -> (r: (Vec<String>, Option<Result<String, String>>))
        ensures
            self.gives_since(sent, r),
    {
        let mut v: Vec<String> = Vec::new();
        let mut i: usize = sent;
        assert(text::texts(v@) =~= Seq::<Seq<char>>::empty());
        if sent <= self.lines.len() {
            assert(text::texts(v@) =~= text::texts(self.lines@.subrange(sent as int, i as int)));
            while i < self.lines.len()
                invariant
                    sent <= i <= self.lines@.len(),
                    text::texts(v@) == text::texts(self.lines@.subrange(sent as int, i as int)),
                decreases self.lines@.len() - i,
            {
                let ghost had = text::texts(v@);
                v.push(self.lines[i].clone());
                proof {
                    assert(text::texts(v@) =~= had.push(self.lines@[i as int]@));
                    assert(text::texts(self.lines@.subrange(sent as int, i + 1)) =~= had.push(
                        self.lines@[i as int]@,
                    ));
                }
                i = i + 1;
            }
            assert(self.lines@.subrange(sent as int, i as int) =~= self.lines@.skip(sent as int));
        }
        (v, copy_outcome(&self.outcome))
    }

    /// Whether the job has ended.
    pub fn is_finished(&self) -> (r: bool)
        ensures
            r == self.outcome is Some,
    {
        self.outcome.is_some()
    }
}

/// How a job ends.
pub open spec fn ends(answer: Result<ResponsePayload, String>, r: Result<String, String>) -> bool {
    match answer {
        Ok(ResponsePayload::EspSuccess(output)) => r == Ok::<String, String>(output),
        Ok(_) => r matches Err(m) && m@
            == "the engine answered with something this route does not serve"@,
        Err(e) => r == Err::<String, String>(e),
    }
}

/// How a flash ended, from what the engine answered.
pub fn flash_outcome(answer: Result<ResponsePayload, String>) -> (r: Result<String, String>)
    ensures
        ends(answer, r),
{
    match answer {
        Ok(ResponsePayload::EspSuccess(output)) => Ok(output),
        Ok(_) => Err("the engine answered with something this route does not serve".to_owned()),
        Err(e) => Err(e),
    }
}

// ---------------------------------------------------------------------------
// The registry
// ---------------------------------------------------------------------------

/// The jobs a listener knows, oldest first, each under its id. `H` is what holds
/// the log of a job.
#[derive(Debug)]
pub struct Jobs<H> {
    pub known: Vec<(String, H)>,
}

/// How many of the oldest jobs go when there are as many as `finished`, and
/// each has ended or not: while there are too many, the oldest, as long as it
/// has ended. A running job is somebody's stream.
pub open spec fn outdated(finished: Seq<bool>) -> nat
    decreases finished.len(),
{
    if finished.len() > JOBS_KEPT && finished[0] {
        1 + outdated(finished.skip(1))
    } else {
        0
    }
}

proof fn lemma_outdated(finished: Seq<bool>)
    ensures
        outdated(finished) <= finished.len(),
        forall|i: int| 0 <= i < outdated(finished) ==> finished[i],
        outdated(finished) > 0 ==> finished.len() - outdated(finished) >= JOBS_KEPT,
    decreases finished.len(),
{
    if finished.len() > JOBS_KEPT && finished[0] {
        let rest = finished.skip(1);
        lemma_outdated(rest);
        assert forall|i: int| 0 <= i < outdated(finished) implies finished[i] by {
            if i > 0 {
                assert(rest[i - 1] == finished[i]);
            }
        }
    }
}

impl<H> Jobs<H> {
    /// A registry without jobs.
    pub fn new() -> (r: Jobs<H>)
        ensures
            r.known@.len() == 0,
    {
        Jobs { known: Vec::new() }
    }

    /// Put a job in the registry, dropping old finished ones. `finished` says of
    /// every job, the new one last, whether it has ended.
    pub fn remember(&mut self, id: String, job: H, finished: &Vec<bool>)
        requires
            finished@.len() == old(self).known@.len() + 1,
        ensures
            final(self).known@ == old(self).known@.push((id, job)).skip(
                outdated(finished@) as int,
            ),
    {
        self.known.push((id, job));
        let ghost all = self.known@;
        let n = finished.len();
        let mut gone: usize = 0;
        assert(finished@.skip(0) =~= finished@);
        assert(all.skip(0) =~= all);
        while n - gone > JOBS_KEPT && finished[gone]
            invariant
                gone <= n == finished@.len() == all.len(),
                self.known@ == all.skip(gone as int),
                outdated(finished@) == gone + outdated(finished@.skip(gone as int)),
            decreases n - gone,
        {
            proof {
                let rest = finished@.skip(gone as int);
                assert(rest[0] == finished@[gone as int]);
                assert(rest.skip(1) =~= finished@.skip(gone + 1));
                assert(all.skip(gone as int).remove(0) =~= all.skip(gone + 1));
            }
            let _oldest = self.known.remove(0);
            gone = gone + 1;
        }
        assert(outdated(finished@.skip(gone as int)) == 0) by {
            let rest = finished@.skip(gone as int);
            if rest.len() > JOBS_KEPT {
                assert(rest[0] == finished@[gone as int]);
            }
        }
    }

    /// The job with this id, if the registry still has it: the first under it.
    pub fn find(&self, id: &str) -> (r: Option<&H>)
        ensures
            match r {
                Some(job) => exists|i: int|
                    0 <= i < self.known@.len() && (#[trigger] self.known@[i]).0@ == id@
                        && self.known@[i].1 == *job && forall|j: int|
                        0 <= j < i ==> (#[trigger] self.known@[j]).0@ != id@,
                None => forall|j: int|
                    0 <= j < self.known@.len() ==> (#[trigger] self.known@[j]).0@ != id@,
            },
    {
        let mut i: usize = 0;
        while i < self.known.len()
            invariant
                i <= self.known@.len(),
                forall|j: int| 0 <= j < i ==> (#[trigger] self.known@[j]).0@ != id@,
            decreases self.known@.len() - i,
        {
            let entry = &self.known[i];
            if same(entry.0.as_str(), id) {
                assert(self.known@[i as int].0@ == id@);
                return Some(&entry.1);
            }
            i = i + 1;
        }
        None
    }
}

/// A running job is never dropped: what goes has ended, and what is kept are the
/// newest.
pub proof fn a_running_job_is_kept(finished: Seq<bool>, i: int)
    requires
        0 <= i < finished.len(),
        !finished[i],
    ensures
        outdated(finished) <= i,
{
    lemma_outdated(finished);
}

/// The newest jobs are kept: dropping never goes below the number of jobs that
/// a client can come back to.
pub proof fn the_latest_jobs_are_kept(finished: Seq<bool>)
    requires
        finished.len() > 0,
    ensures
        outdated(finished) < finished.len(),
        finished.len() <= JOBS_KEPT ==> outdated(finished) == 0,
        outdated(finished) > 0 ==> finished.len() - outdated(finished) >= JOBS_KEPT,
{
    lemma_outdated(finished);
}

/// Where every job has ended, no more than the cap are kept.
pub proof fn finished_jobs_are_capped(finished: Seq<bool>)
    requires
        forall|i: int| 0 <= i < finished.len() ==> finished[i],
    ensures
        finished.len() - outdated(finished) <= JOBS_KEPT,
    decreases finished.len(),
{
    if finished.len() > JOBS_KEPT {
        assert(finished[0]);
        let rest = finished.skip(1);
        assert forall|i: int| 0 <= i < rest.len() implies rest[i] by {
            assert(rest[i] == finished[i + 1]);
        }
        finished_jobs_are_capped(rest);
    }
}

// ---------------------------------------------------------------------------
// Ids
// ---------------------------------------------------------------------------

/// A number in hexadecimal.
pub open spec fn hex_nat(n: nat) -> Seq<char>
    decreases n,
{
    if n < 16 {
        seq![text::hex_digit(n as int)]
    } else {
        hex_nat(n / 16).push(text::hex_digit((n % 16) as int))
    }
}

fn push_hex(out: &mut String, n: u64)
    ensures
        final(out)@ == old(out)@ + hex_nat(n as nat),
    decreases n,
{
    if n < 16 {
        out.push(hex_digit_of(n as u8));
    } else {
        push_hex(out, n / 16);
        out.push(hex_digit_of((n % 16) as u8));
    }
    assert(out@ =~= old(out)@ + hex_nat(n as nat));
}

/// The name of a job.
pub open spec fn is_job_id(clock: u64, count: u64, r: String) -> bool {
    r@ == hex_nat(clock as nat) + hex_nat(count as nat)
}

/// The id of a job: the clock and a counter, one behind the other.
pub fn job_id(clock: u64, count: u64) -> (r: String)
    ensures
        is_job_id(clock, count, r),
{
    let mut out = String::new();
    push_hex(&mut out, clock);
    push_hex(&mut out, count);
    assert(out@ =~= hex_nat(clock as nat) + hex_nat(count as nat));
    out
}

proof fn lemma_hex_digit(a: int, b: int)
    requires
        0 <= a < 16,
        0 <= b < 16,
        text::hex_digit(a) == text::hex_digit(b),
    ensures
        a == b,
{
    assert(text::hex_digit(a) as int == if a < 10 {
        48 + a
    } else {
        87 + a
    });
    assert(text::hex_digit(b) as int == if b < 10 {
        48 + b
    } else {
        87 + b
    });
}

proof fn lemma_hex_nat_length(n: nat)
    ensures
        hex_nat(n).len() >= 1,
        n >= 16 ==> hex_nat(n).len() >= 2,
    decreases n,
{
    if n >= 16 {
        lemma_hex_nat_length(n / 16);
    }
}

proof fn lemma_hex_nat(a: nat, b: nat)
    requires
        hex_nat(a) == hex_nat(b),
    ensures
        a == b,
    decreases a,
{
    lemma_hex_nat_length(a);
    lemma_hex_nat_length(b);
    assert(hex_nat(a).last() == text::hex_digit((a % 16) as int));
    assert(hex_nat(b).last() == text::hex_digit((b % 16) as int));
    lemma_hex_digit((a % 16) as int, (b % 16) as int);
    if a >= 16 {
        assert(b >= 16);
        assert(hex_nat(a).drop_last() =~= hex_nat(a / 16));
        assert(hex_nat(b).drop_last() =~= hex_nat(b / 16));
        lemma_hex_nat(a / 16, b / 16);
    }
}

/// Two jobs started in the same nanosecond have different ids.
pub proof fn the_counter_keeps_jobs_apart(clock: u64, a: u64, b: u64)
    requires
        a != b,
    ensures
        hex_nat(clock as nat) + hex_nat(a as nat) != hex_nat(clock as nat) + hex_nat(b as nat),
{
    let c = hex_nat(clock as nat);
    let x = c + hex_nat(a as nat);
    let y = c + hex_nat(b as nat);
    if x == y {
        assert(x.skip(c.len() as int) =~= hex_nat(a as nat));
        assert(y.skip(c.len() as int) =~= hex_nat(b as nat));
        lemma_hex_nat(a as nat, b as nat);
    }
}

// ---------------------------------------------------------------------------
// The stream of a job
// ---------------------------------------------------------------------------

/// What is said of a job that was started.
pub open spec fn tells_started(id: &str, r: String) -> bool {
    r@ == "{\"job\":"@ + json::json_text(id@) + ",\"stream\":"@ + json::json_text(
        "/v1/jobs/"@ + id@ + "/stream"@,
    ) + "}"@
}

/// The answer to a flash: the job, and the stream where its output arrives.
pub fn job_started(id: &str) -> (r: String)
    ensures
        tells_started(id, r),
{
    let mut out = concat2("{\"job\":", json_string(id).as_str());
    out.append(",\"stream\":");
    out.append(json_string(concat3("/v1/jobs/", id, "/stream").as_str()).as_str());
    out.append("}");
    out
}

/// What is said of a job that is not known.
pub open spec fn tells_unknown(id: &str, r: Problem) -> bool {
    r.is(Status::NotFound, "no-such-job"@, "no job '"@ + id@ + "' is known"@)
}

/// The refusal for a job that is not known.
pub fn no_such_job(id: &str) -> (r: Problem)
    ensures
        tells_unknown(id, r),
{
    problem(Status::NotFound, "no-such-job", concat3("no job '", id, "' is known").as_str())
}

/// How many lines of a job were sent before.
pub open spec fn is_sent(after: Option<usize>, last_event_id: Option<&str>, r: usize) -> bool {
    r == (match (after, last_event_id) {
        (Some(n), _) => n,
        (None, Some(id)) => match text::parse_nat(id@, usize::MAX as nat) {
            Some(n) => n as usize,
            None => 0,
        },
        (None, None) => 0,
    })
}

/// How many lines a client has already: what it says, or else the id it saw
/// last, which is the line's position counted from one.
pub fn already_sent(after: Option<usize>, last_event_id: Option<&str>) -> (r: usize)
    ensures
        is_sent(after, last_event_id, r),
{
    match (after, last_event_id) {
        (Some(n), _) => n,
        (None, Some(id)) => match parse_usize(id) {
            Some(n) => n,
            None => 0,
        },
        (None, None) => 0,
    }
}

/// Whether an event carries a line of a job.
pub open spec fn carries_output(event: Event, position: nat, line: Seq<char>) -> bool {
    &&& event.id matches Some(id) && id@ == text::dec_nat(position)
    &&& event.event@ == "line"@
    &&& event.data@ == "{\"text\":"@ + json::json_text(line) + "}"@
}

/// Whether an event carries the outcome of a job.
pub open spec fn carries_outcome(event: Event, outcome: Result<String, String>) -> bool {
    &&& event.id is None
    &&& event.event@ == "done"@
    &&& event.data@ == (match outcome {
        Ok(output) => "{\"ok\":true,\"output\":"@ + json::json_text(output@) + "}"@,
        Err(error) => "{\"error\":"@ + json::json_text(error@) + ",\"ok\":false}"@,
    })
}

fn outcome_event(outcome: &Result<String, String>) -> (r: Event)
    ensures
        carries_outcome(r, *outcome),
{
    let data = match outcome {
        Ok(output) => concat3(
            "{\"ok\":true,\"output\":",
            json_string(output.as_str()).as_str(),
            "}",
        ),
        Err(error) => concat3(
            "{\"error\":",
            json_string(error.as_str()).as_str(),
            ",\"ok\":false}",
        ),
    };
    Event { id: None, event: "done".to_owned(), data }
}

/// The events of a job.
pub open spec fn are_events(
    sent: usize,
    lines: &Vec<String>,
    outcome: &Option<Result<String, String>>,
    r: Vec<Event>,
) -> bool {
    &&& r@.len() == lines@.len() + (if outcome is Some {
        1int
    } else {
        0int
    })
    &&& forall|i: int|
        0 <= i < lines@.len() ==> carries_output(
            #[trigger] r@[i],
            (sent + i + 1) as nat,
            lines@[i]@,
        )
    &&& outcome is Some ==> carries_outcome(r@.last(), outcome->0)
}

/// The events for what a job printed since the client has `sent` lines of it.
/// The last one is the outcome, where there is one, and with it the stream ends.
pub fn job_events(sent: usize, lines: &Vec<String>, outcome: &Option<Result<String, String>>) -> (r:
    Vec<Event>)
    requires
        sent + lines@.len() <= usize::MAX,
    ensures
        are_events(sent, lines, outcome, r),
{
    let mut v: Vec<Event> = Vec::new();
    let mut i: usize = 0;
    while i < lines.len()
        invariant
            i <= lines@.len() == lines.len(),
            sent + lines@.len() <= usize::MAX,
            v@.len() == i,
            forall|j: int|
                0 <= j < i ==> carries_output(
                    #[trigger] v@[j],
                    (sent + j + 1) as nat,
                    lines@[j]@,
                ),
        decreases lines@.len() - i,
    {
        v.push(
            Event {
                id: Some(decimal_usize(sent + i + 1)),
                event: "line".to_owned(),
                data: concat3("{\"text\":", json_string(lines[i].as_str()).as_str(), "}"),
            },
        );
        i = i + 1;
    }
    if let Some(o) = outcome {
        v.push(outcome_event(o));
    }
    v
}

/// A client that comes back with the id it saw last gets exactly what followed:
/// together with what it had, that is the whole log.
pub proof fn resuming_a_job_leaves_no_gap(log: JobLog, seen: int)
    requires
        0 <= seen <= log.lines@.len(),
    ensures
        text::texts(log.lines@.take(seen)) + text::texts(log.lines@.skip(seen)) == text::texts(
            log.lines@,
        ),
{
    assert(text::texts(log.lines@.take(seen)) + text::texts(log.lines@.skip(seen)) =~= text::texts(
        log.lines@,
    ));
}

} // verus!
