//! Writing, breaks, control lines and macros.
use vstd::prelude::*;
use vstd::string::*;

use crate::config;
use crate::config::{MacroStep, StepView};
use crate::engine::{
    CommandEngine, DeviceAction, EngineError, Event, Operation, Progress, Work,
};
use crate::hex;
use crate::hex::{decode, has_prefix};
use crate::port_manager::PortCommand;
use crate::protocol::ResponsePayload;
use crate::text;
use crate::text::{bytes_of, concat2, concat3, decimal, decimal_usize, join};

verus! {

/// Where an operation on the device of a port stands.
pub enum DeviceOp {
    /// Bytes are being written.
    Write { port: String, data: String, bytes: usize },
    /// The device is asked for, to send a break.
    Break { port: String, ms: u64 },
    /// The break is being set.
    BreakOn { port: String, ms: u64 },
    /// The break is being held.
    BreakHeld { port: String, ms: u64 },
    /// The break is being cleared.
    BreakOff { port: String, ms: u64 },
    /// The device is asked for, to run some steps.
    Ready(Run),
    /// A step is under way, which writes so many bytes.
    Step { run: Run, bytes: usize },
}

/// Steps to carry out on the device of a port.
pub struct Run {
    pub port: String,
    pub steps: Vec<MacroStep>,
    /// The step that is next or under way.
    pub next: usize,
    /// What was done so far.
    pub done: Vec<String>,
    pub goal: Goal,
}

/// What steps are carried out for.
#[derive(Debug, PartialEq, Eq)]
pub enum Goal {
    /// To set control lines.
    Signal,
    /// To execute the macro of this name.
    Macro(String),
}

impl Run {
    /// Whether what was done belongs to the steps in front of the next one.
    pub open spec fn wf(self) -> bool {
        &&& self.next <= self.steps@.len()
        &&& text::texts(self.done@) == told(config::step_views(self.steps@).take(self.next as int))
    }

    /// Whether a step is under way that writes so many bytes.
    pub open spec fn under_way(self, bytes: usize) -> bool {
        &&& self.wf()
        &&& self.next < self.steps@.len()
        &&& self.steps@[self.next as int]@ matches StepView::Write { value } ==> bytes
            == payload_len(value)
    }
}

// ---------------------------------------------------------------------------
// Words
// ---------------------------------------------------------------------------

/// The level of a control line in words.
pub open spec fn level_text(value: bool) -> Seq<char> {
    if value {
        "HIGH"@
    } else {
        "LOW"@
    }
}

/// The level of a control line in words.
pub fn level(value: bool) -> (r: &'static str)
    ensures
        r@ == level_text(value),
{
    if value {
        "HIGH"
    } else {
        "LOW"
    }
}

/// Whether these are the bytes that a payload stands for: those a hex string
/// denotes, or else the text itself.
pub open spec fn payload(data: Seq<char>, is_hex: bool, r: Result<Vec<u8>, EngineError>) -> bool {
    if is_hex || hex::prefixed(data) {
        match r {
            Ok(bytes) => hex::decoding(data, Ok(bytes)),
            Err(EngineError::Hex(e)) => hex::decoding(data, Err(e)),
            Err(_) => false,
        }
    } else {
        r matches Ok(bytes) && bytes@ == vstd::utf8::encode_utf8(data)
    }
}

/// The bytes that a payload stands for. An unparseable hex string is refused
/// instead of silently sending nothing.
pub fn payload_bytes(data: &str, is_hex: bool) -> (r: Result<Vec<u8>, EngineError>)
    ensures
        payload(data@, is_hex, r),
{
    if is_hex || has_prefix(data) {
        match decode(data) {
            Ok(bytes) => Ok(bytes),
            Err(e) => Err(EngineError::Hex(e)),
        }
    } else {
        Ok(bytes_of(data))
    }
}

/// How many bytes a macro writes for a payload that can be parsed.
pub open spec fn payload_len(data: Seq<char>) -> nat {
    if hex::prefixed(data) {
        hex::digits_of(data).len() / 2
    } else {
        vstd::utf8::encode_utf8(data).len()
    }
}

/// A step that was carried out, in words.
pub open spec fn told_step(step: StepView) -> Seq<char> {
    match step {
        StepView::Dtr { value } => "DTR="@ + level_text(value),
        StepView::Rts { value } => "RTS="@ + level_text(value),
        StepView::Delay { ms } => "delay "@ + text::dec_nat(ms as nat) + "ms"@,
        StepView::Write { value } => "write "@ + text::dec_nat(payload_len(value)) + " bytes"@,
    }
}

/// Steps that were carried out, in words.
pub open spec fn told(steps: Seq<StepView>) -> Seq<Seq<char>> {
    steps.map_values(|s: StepView| told_step(s))
}

fn tell_step(step: &MacroStep, bytes: usize) -> (r: String)
    requires
        step@ matches StepView::Write { value } ==> bytes == payload_len(value),
    ensures
        r@ == told_step(step@),
{
    match step {
        MacroStep::Dtr { value } => concat2("DTR=", level(*value)),
        MacroStep::Rts { value } => concat2("RTS=", level(*value)),
        MacroStep::Delay { ms } => concat3("delay ", decimal(*ms).as_str(), "ms"),
        MacroStep::Write { .. } => concat3("write ", decimal_usize(bytes).as_str(), " bytes"),
    }
}

/// Why a step failed, in words.
pub open spec fn step_fault(goal: Goal, step: StepView, error: Seq<char>) -> Seq<char> {
    match (goal, step) {
        (Goal::Signal, StepView::Dtr { .. }) => "failed to set DTR: "@ + error,
        (Goal::Signal, StepView::Rts { .. }) => "failed to set RTS: "@ + error,
        (_, StepView::Dtr { .. }) => "DTR error: "@ + error,
        (_, StepView::Rts { .. }) => "RTS error: "@ + error,
        (_, StepView::Write { .. }) => "write error: "@ + error,
        (_, StepView::Delay { .. }) => error,
    }
}

fn tell_fault(goal: &Goal, step: &MacroStep, error: String) -> (r: String)
    ensures
        r@ == step_fault(*goal, step@, error@),
{
    match (goal, step) {
        (Goal::Signal, MacroStep::Dtr { .. }) => concat2("failed to set DTR: ", error.as_str()),
        (Goal::Signal, MacroStep::Rts { .. }) => concat2("failed to set RTS: ", error.as_str()),
        (_, MacroStep::Dtr { .. }) => concat2("DTR error: ", error.as_str()),
        (_, MacroStep::Rts { .. }) => concat2("RTS error: ", error.as_str()),
        (_, MacroStep::Write { .. }) => concat2("write error: ", error.as_str()),
        (_, MacroStep::Delay { .. }) => error,
    }
}

// ---------------------------------------------------------------------------
// Steps
// ---------------------------------------------------------------------------

/// Whether a run goes on with its next step, or ends.
pub open spec fn run_goes_on(run: Run, r: Progress) -> bool {
    if run.next == run.steps@.len() {
        match run.goal {
            Goal::Signal => r matches Progress::Done(
                Ok(ResponsePayload::SignalSuccess { applied }),
            ) && applied == run.done,
            Goal::Macro(name) => {
                &&& r matches Progress::Do(
                    Work::Log { port, message },
                    Operation::Finish(ResponsePayload::MacroSuccess { executed_steps }),
                )
                &&& port@ == run.port@
                &&& message@ == "━━━ MACRO '"@ + name@ + "' executed ("@ + text::joined(
                    text::texts(run.done@),
                    " → "@,
                ) + ") ━━━"@
                &&& executed_steps == run.done
            },
        }
    } else {
        let keep = run.goal is Signal;
        match run.steps@[run.next as int] {
            MacroStep::Dtr { value } => r matches Progress::Do(
                Work::Device { port, action, keep: k },
                Operation::Device(DeviceOp::Step { run: next, bytes }),
            ) && port@ == run.port@ && action == DeviceAction::SetDtr(value) && k == keep && next
                == run,
            MacroStep::Rts { value } => r matches Progress::Do(
                Work::Device { port, action, keep: k },
                Operation::Device(DeviceOp::Step { run: next, bytes }),
            ) && port@ == run.port@ && action == DeviceAction::SetRts(value) && k == keep && next
                == run,
            MacroStep::Delay { ms } => r matches Progress::Do(
                Work::Sleep(t),
                Operation::Device(DeviceOp::Step { run: next, bytes }),
            ) && t == ms && next == run,
            // An unparseable step aborts the macro.
            MacroStep::Write { value } => {
                ||| (r matches Progress::Do(
                    Work::Device { port, action: DeviceAction::WriteAll(data), keep: k },
                    Operation::Device(DeviceOp::Step { run: next, bytes }),
                ) && port@ == run.port@ && payload(value@, false, Ok(data)) && bytes
                    == data@.len() && k == keep && next == run)
                ||| (r matches Progress::Done(Err(e)) && payload(value@, false, Err(e)))
            },
        }
    }
}

fn go_on(run: Run) -> (r: Progress)
    requires
        run.wf(),
    ensures
        run_goes_on(run, r),
        r matches Progress::Do(_, Operation::Device(DeviceOp::Step { run: next, bytes }))
            ==> next.under_way(bytes),
{
    if run.next == run.steps.len() {
        return match run.goal {
            Goal::Signal => Progress::Done(
                Ok(ResponsePayload::SignalSuccess { applied: run.done }),
            ),
            Goal::Macro(name) => {
                let mut message = concat3("━━━ MACRO '", name.as_str(), "' executed (");
                message.append(join(&run.done, " → ").as_str());
                message.append(") ━━━");
                Progress::Do(
                    Work::Log { port: run.port, message },
                    Operation::Finish(
                        ResponsePayload::MacroSuccess { executed_steps: run.done },
                    ),
                )
            },
        };
    }
    let keep = match run.goal {
        Goal::Signal => true,
        Goal::Macro(_) => false,
    };
    let port = run.port.clone();
    match run.steps[run.next].clone() {
        MacroStep::Dtr { value } => Progress::Do(
            Work::Device { port, action: DeviceAction::SetDtr(value), keep },
            Operation::Device(DeviceOp::Step { run, bytes: 0 }),
        ),
        MacroStep::Rts { value } => Progress::Do(
            Work::Device { port, action: DeviceAction::SetRts(value), keep },
            Operation::Device(DeviceOp::Step { run, bytes: 0 }),
        ),
        MacroStep::Delay { ms } => Progress::Do(
            Work::Sleep(ms),
            Operation::Device(DeviceOp::Step { run, bytes: 0 }),
        ),
        MacroStep::Write { value } => match payload_bytes(value.as_str(), false) {
            Ok(data) => {
                let bytes = data.len();
                Progress::Do(
                    Work::Device { port, action: DeviceAction::WriteAll(data), keep },
                    Operation::Device(DeviceOp::Step { run, bytes }),
                )
            },
            Err(e) => Progress::Done(Err(e)),
        },
    }
}

/// A run one step further: the step that was under way is told.
pub open spec fn one_further(run: Run, next: Run) -> bool {
    &&& next.port == run.port
    &&& next.steps == run.steps
    &&& next.goal == run.goal
    &&& next.next == run.next + 1
    &&& text::texts(next.done@) == text::texts(run.done@).push(
        told_step(run.steps@[run.next as int]@),
    )
}

fn step_done(run: Run, bytes: usize) -> (r: Run)
    requires
        run.under_way(bytes),
    ensures
        one_further(run, r),
        r.wf(),
{
    let step = run.steps[run.next].clone();
    let words = tell_step(&step, bytes);
    let mut done = run.done;
    let ghost before = done@;
    done.push(words);
    let total = run.steps.len();
    assert(run.next < total);
    let next: usize = run.next + 1;
    proof {
        assert(text::texts(done@) =~= text::texts(before).push(words@));
        let views = config::step_views(run.steps@);
        assert(views.take(next as int) =~= views.take(run.next as int).push(step@));
        assert(told(views.take(next as int)) =~= told(views.take(run.next as int)).push(
            told_step(step@),
        ));
    }
    Run { port: run.port, steps: run.steps, next, done, goal: run.goal }
}

/// What a step of an operation on a device waits for.
pub open spec fn device_expects(op: DeviceOp, ev: Event) -> bool {
    match op {
        DeviceOp::Write { .. } => ev is Done || ev is Failed,
        DeviceOp::Break { .. } => ev is Done || ev is Failed,
        DeviceOp::BreakOn { .. } => ev is Done || ev is Error,
        DeviceOp::BreakHeld { .. } => ev is Done,
        DeviceOp::BreakOff { .. } => ev is Done || ev is Error,
        DeviceOp::Ready(run) => run.wf() && (ev is Done || ev is Failed),
        DeviceOp::Step { run, bytes } => run.under_way(bytes) && (ev is Done || ev is Error),
    }
}

/// How an operation on a device goes on.
pub open spec fn device_next(op: DeviceOp, ev: Event, r: Progress) -> bool {
    match (op, ev) {
        // Recorded for every transport, so that the history is complete no
        // matter which client sent the command.
        (DeviceOp::Write { port, data, bytes }, Event::Done) => {
            &&& r matches Progress::Do(
                Work::AppendHistory { port: p, command },
                Operation::Record(ResponsePayload::WriteSuccess { bytes_written }),
            )
            &&& p@ == port@
            &&& command@ == data@
            &&& bytes_written == bytes
        },
        (DeviceOp::Break { port, ms }, Event::Done) => {
            &&& r matches Progress::Do(
                Work::Device { port: p, action, keep },
                Operation::Device(DeviceOp::BreakOn { port: q, ms: t }),
            )
            &&& p@ == port@
            &&& q@ == port@
            &&& t == ms
            &&& action == DeviceAction::SetBreak(true)
            &&& keep
        },
        (DeviceOp::BreakOn { port, ms }, Event::Done) => {
            &&& r matches Progress::Do(
                Work::Device { port: p, action, keep },
                Operation::Device(DeviceOp::BreakHeld { port: q, ms: t }),
            )
            &&& p@ == port@
            &&& q@ == port@
            &&& t == ms
            &&& action == DeviceAction::Sleep(ms)
            &&& keep
        },
        (DeviceOp::BreakOn { port, ms }, Event::Error(e)) => r matches Progress::Done(
            Err(EngineError::Tool(m)),
        ) && m@ == "failed to set serial break: "@ + e@,
        (DeviceOp::BreakHeld { port, ms }, Event::Done) => {
            &&& r matches Progress::Do(
                Work::Device { port: p, action, keep },
                Operation::Device(DeviceOp::BreakOff { port: q, ms: t }),
            )
            &&& p@ == port@
            &&& q@ == port@
            &&& t == ms
            &&& action == DeviceAction::SetBreak(false)
            &&& !keep
        },
        (DeviceOp::BreakOff { port, ms }, Event::Done) => {
            &&& r matches Progress::Do(
                Work::Log { port: p, message },
                Operation::Finish(ResponsePayload::BreakSuccess { duration_ms }),
            )
            &&& p@ == port@
            &&& message@ == "━━━ SERIAL BREAK ("@ + text::dec_nat(ms as nat) + "ms) SENT ━━━"@
            &&& duration_ms == ms
        },
        (DeviceOp::BreakOff { port, ms }, Event::Error(e)) => r matches Progress::Done(
            Err(EngineError::Tool(m)),
        ) && m@ == "failed to clear serial break: "@ + e@,
        (DeviceOp::Ready(run), Event::Done) => run_goes_on(run, r),
        (DeviceOp::Step { run, bytes }, Event::Done) => exists|next: Run|
            one_further(run, next) && next.wf() && #[trigger] run_goes_on(next, r),
        (DeviceOp::Step { run, bytes }, Event::Error(e)) => r matches Progress::Done(
            Err(EngineError::Tool(m)),
        ) && m@ == step_fault(run.goal, run.steps@[run.next as int]@, e@),
        (_, Event::Failed(f)) => r == Progress::Done(Err(f)),
        _ => false,
    }
}

/// Whether the next step is to ask for the device of a port.
pub open spec fn asks_device(work: Work, port: Seq<char>) -> bool {
    work matches Work::Port(PortCommand::GetSerialPort { name }) && name@ == port
}

/// How a write begins.
pub open spec fn write_begins(
    port: Seq<char>,
    data: Seq<char>,
    is_hex: bool,
    r: Progress,
) -> bool {
    ||| (r matches Progress::Do(
        Work::Port(PortCommand::Write { name, data: bytes }),
        Operation::Device(DeviceOp::Write { port: p, data: d, bytes: n }),
    ) && name@ == port && payload(data, is_hex, Ok(bytes)) && p@ == port && d@ == data && n
        == bytes@.len())
    ||| (r matches Progress::Done(Err(e)) && payload(data, is_hex, Err(e)))
}

/// The first step of a write.
pub fn write_data(port: String, data: String, is_hex: bool) -> (r: Progress)
    ensures
        write_begins(port@, data@, is_hex, r),
{
    match payload_bytes(data.as_str(), is_hex) {
        Ok(bytes) => {
            let n = bytes.len();
            Progress::Do(
                Work::Port(PortCommand::Write { name: port.clone(), data: bytes }),
                Operation::Device(DeviceOp::Write { port, data, bytes: n }),
            )
        },
        Err(e) => Progress::Done(Err(e)),
    }
}

/// The steps that set the control lines that are named.
pub open spec fn signal_steps(dtr: Option<bool>, rts: Option<bool>) -> Seq<StepView> {
    (match dtr {
        Some(value) => seq![StepView::Dtr { value }],
        None => Seq::empty(),
    }) + (match rts {
        Some(value) => seq![StepView::Rts { value }],
        None => Seq::empty(),
    })
}

/// Whether a run is at its beginning.
pub open spec fn run_begins(
    port: Seq<char>,
    steps: Seq<StepView>,
    goal: Goal,
    r: Progress,
) -> bool {
    &&& r matches Progress::Do(work, Operation::Device(DeviceOp::Ready(run)))
    &&& asks_device(work, port)
    &&& run.port@ == port
    &&& config::step_views(run.steps@) == steps
    &&& run.next == 0
    &&& run.done@.len() == 0
    &&& run.wf()
    &&& match (run.goal, goal) {
        (Goal::Signal, Goal::Signal) => true,
        (Goal::Macro(a), Goal::Macro(b)) => a@ == b@,
        _ => false,
    }
}

fn begin(port: String, steps: Vec<MacroStep>, goal: Goal) -> (r: Progress)
    ensures
        run_begins(port@, config::step_views(steps@), goal, r),
{
    let done: Vec<String> = Vec::new();
    proof {
        let views = config::step_views(steps@);
        assert(text::texts(done@) =~= told(views.take(0)));
    }
    let run = Run { port: port.clone(), steps, next: 0, done, goal };
    Progress::Do(
        Work::Port(PortCommand::GetSerialPort { name: port }),
        Operation::Device(DeviceOp::Ready(run)),
    )
}

/// The first step of setting control lines.
pub fn set_signal(port: String, dtr: Option<bool>, rts: Option<bool>) -> (r: Progress)
    ensures
        if dtr is None && rts is None {
            r matches Progress::Done(Err(EngineError::Invalid(m))) && m@
                == "at least one of dtr or rts must be specified"@
        } else {
            run_begins(port@, signal_steps(dtr, rts), Goal::Signal, r)
        },
{
    if dtr.is_none() && rts.is_none() {
        return Progress::Done(
            Err(EngineError::Invalid("at least one of dtr or rts must be specified".to_owned())),
        );
    }
    let mut steps: Vec<MacroStep> = Vec::new();
    if let Some(value) = dtr {
        steps.push(MacroStep::Dtr { value });
    }
    if let Some(value) = rts {
        steps.push(MacroStep::Rts { value });
    }
    assert(config::step_views(steps@) =~= signal_steps(dtr, rts));
    begin(port, steps, Goal::Signal)
}

impl CommandEngine {
    /// How a macro begins; an unknown one is answered with those there are.
    pub open spec fn macro_begins(self, port: Seq<char>, name: String, r: Progress) -> bool {
        match self.config.spec_steps(name@) {
            Some(steps) => run_begins(port, steps, Goal::Macro(name), r),
            None => r matches Progress::Done(
                Err(EngineError::UnknownMacro { name: n, available }),
            ) && n@ == name@ && exists|names: Seq<String>| #[trigger]
                self.config.lists_macros(names) && available@ == text::joined(
                    text::texts(names),
                    ", "@,
                ),
        }
    }

    /// The first step of a macro.
    pub fn execute_macro(&self, port: String, macro_name: String) -> (r: Progress)
        ensures
            self.macro_begins(port@, macro_name, r),
    {
        match self.config.macro_steps(macro_name.as_str()) {
            Some(steps) => begin(port, steps, Goal::Macro(macro_name)),
            None => {
                let names = self.config.available_macros();
                assert(self.config.lists_macros(names@));
                Progress::Done(
                    Err(
                        EngineError::UnknownMacro {
                            name: macro_name,
                            available: join(&names, ", "),
                        },
                    ),
                )
            },
        }
    }
}

/// Go on with an operation on a device.
pub fn device_step(op: DeviceOp, ev: Event) -> (r: Progress)
    requires
        device_expects(op, ev),
    ensures
        device_next(op, ev, r),
{
    match (op, ev) {
        (DeviceOp::Write { port, data, bytes }, Event::Done) => Progress::Do(
            Work::AppendHistory { port, command: data },
            Operation::Record(ResponsePayload::WriteSuccess { bytes_written: bytes }),
        ),
        (DeviceOp::Break { port, ms }, Event::Done) => Progress::Do(
            Work::Device { port: port.clone(), action: DeviceAction::SetBreak(true), keep: true },
            Operation::Device(DeviceOp::BreakOn { port, ms }),
        ),
        (DeviceOp::BreakOn { port, ms }, Event::Done) => Progress::Do(
            Work::Device { port: port.clone(), action: DeviceAction::Sleep(ms), keep: true },
            Operation::Device(DeviceOp::BreakHeld { port, ms }),
        ),
        (DeviceOp::BreakOn { .. }, Event::Error(e)) => Progress::Done(
            Err(EngineError::Tool(concat2("failed to set serial break: ", e.as_str()))),
        ),
        (DeviceOp::BreakHeld { port, ms }, Event::Done) => Progress::Do(
            Work::Device { port: port.clone(), action: DeviceAction::SetBreak(false), keep: false },
            Operation::Device(DeviceOp::BreakOff { port, ms }),
        ),
        (DeviceOp::BreakOff { port, ms }, Event::Done) => Progress::Do(
            Work::Log {
                port,
                message: concat3("━━━ SERIAL BREAK (", decimal(ms).as_str(), "ms) SENT ━━━"),
            },
            Operation::Finish(ResponsePayload::BreakSuccess { duration_ms: ms }),
        ),
        (DeviceOp::BreakOff { .. }, Event::Error(e)) => Progress::Done(
            Err(EngineError::Tool(concat2("failed to clear serial break: ", e.as_str()))),
        ),
        (DeviceOp::Ready(run), Event::Done) => go_on(run),
        (DeviceOp::Step { run, bytes }, Event::Done) => {
            let next = step_done(run, bytes);
            go_on(next)
        },
        (DeviceOp::Step { run, bytes: _ }, Event::Error(e)) => {
            let m = tell_fault(&run.goal, &run.steps[run.next], e);
            Progress::Done(Err(EngineError::Tool(m)))
        },
        (_, Event::Failed(f)) => Progress::Done(Err(f)),
        // Nothing else is reported to these steps.
        (_, _) => {
            assert(false);
            Progress::Done(Ok(ResponsePayload::Pong))
        },
    }
}

} // verus!
