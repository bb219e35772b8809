//! Running the ESP tool on a port that is released for it.
use vstd::prelude::*;
use vstd::string::*;

use crate::config::PortConfig;
use crate::engine::{CommandEngine, EngineError, Event, Operation, Progress, Work};
use crate::port_manager::PortCommand;
use crate::protocol::ResponsePayload;
use crate::text;

verus! {

/// How long the daemon waits before reopening a port after an ESP operation, in
/// milliseconds.
pub const ESP_REOPEN_DELAY_MS: u64 = 500;

/// What is done with the tool.
pub struct Job {
    pub port: String,
    /// What a marker in the buffer says of it, if there is to be one.
    pub log: Option<String>,
    /// The arguments for the tool.
    pub args: Vec<String>,
}

/// Where an operation with the tool stands.
pub enum ToolOp {
    /// The tool is being looked for.
    Find(Job),
    /// The state of the port is asked for, to see whether it is open.
    State(Job),
    /// The port is being released.
    Release(Job),
    /// The tool is running; then the port is reopened with these settings.
    Run { job: Job, reopen: Option<PortConfig> },
    /// The tool is done; after a pause the port is reopened.
    Pause { job: Job, config: PortConfig, result: Result<String, String> },
    /// The port is being reopened.
    Reopen { job: Job, result: Result<String, String> },
    /// A marker is being put into the buffer.
    Log { result: Result<String, String> },
}

/// The marker of an operation with the tool.
pub open spec fn tool_marker(log: Seq<char>, ok: bool) -> Seq<char> {
    "━━━ "@ + log + " → "@ + (if ok {
        "OK"@
    } else {
        "FAILED"@
    }) + " ━━━"@
}

/// What a step of an operation with the tool waits for.
pub open spec fn tool_expects(op: ToolOp, ev: Event) -> bool {
    match op {
        ToolOp::Find(_) => ev is Tool,
        ToolOp::State(_) => ev is State || ev is Failed,
        ToolOp::Release(_) => ev is Config || ev is Failed,
        ToolOp::Run { .. } => ev is Output,
        ToolOp::Pause { .. } => ev is Done,
        ToolOp::Reopen { .. } => true,
        ToolOp::Log { .. } => true,
    }
}

/// Whether an operation ends with what the tool said.
pub open spec fn tool_answer(result: Result<String, String>, r: Progress) -> bool {
    match result {
        Ok(m) => r == Progress::Done(Ok(ResponsePayload::EspSuccess(m))),
        Err(m) => r == Progress::Done(Err(EngineError::Tool(m))),
    }
}

/// Whether an operation goes on with its marker, where it has one.
pub open spec fn tool_logs(job: Job, result: Result<String, String>, r: Progress) -> bool {
    match job.log {
        Some(log) => {
            &&& r matches Progress::Do(
                Work::Log { port, message },
                Operation::Tool(ToolOp::Log { result: s }),
            )
            &&& port@ == job.port@
            &&& message@ == tool_marker(log@, result is Ok)
            &&& s == result
        },
        None => tool_answer(result, r),
    }
}

/// Whether the tool is run next.
pub open spec fn tool_runs(job: Job, reopen: Option<PortConfig>, r: Progress) -> bool {
    &&& r matches Progress::Do(
        Work::RunTool { args },
        Operation::Tool(ToolOp::Run { job: j, reopen: c }),
    )
    &&& text::texts(args@) == text::texts(job.args@)
    &&& j.port@ == job.port@
    &&& j.log == job.log
    &&& c == reopen
}

/// How an operation with the tool goes on.
pub open spec fn tool_next(e: CommandEngine, op: ToolOp, ev: Event, r: Progress) -> bool {
    match (op, ev) {
        (ToolOp::Find(job), Event::Tool(found)) => if found {
            r matches Progress::Do(
                Work::Port(PortCommand::GetState { name }),
                Operation::Tool(ToolOp::State(j)),
            ) && name@ == job.port@ && j == job
        } else {
            r matches Progress::Done(Err(EngineError::Tool(m))) && m@
                == "espflash not found in PATH. Install with: cargo install espflash"@
        },
        // An open port is released, so that the tool can use it.
        (ToolOp::State(job), Event::State(_)) => r matches Progress::Do(
            Work::Port(PortCommand::CloseWithConfig { name }),
            Operation::Tool(ToolOp::Release(j)),
        ) && name@ == job.port@ && j == job,
        (ToolOp::State(job), Event::Failed(_)) => tool_runs(job, None, r),
        (ToolOp::Release(job), Event::Config(c)) => tool_runs(job, Some(c), r),
        (ToolOp::Release(job), Event::Failed(_)) => tool_runs(job, None, r),
        // Only a port that was released is reopened, whatever the tool said.
        (ToolOp::Run { job, reopen }, Event::Output(result)) => match reopen {
            Some(c) => {
                &&& r matches Progress::Do(
                    Work::Sleep(ms),
                    Operation::Tool(ToolOp::Pause { job: j, config, result: s }),
                )
                &&& ms == ESP_REOPEN_DELAY_MS
                &&& j == job
                &&& config == c
                &&& s == result
            },
            None => tool_logs(job, result, r),
        },
        (ToolOp::Pause { job, config, result }, Event::Done) => {
            &&& r matches Progress::Do(
                Work::Port(PortCommand::OpenReal { name, config: c, data_dir }),
                Operation::Tool(ToolOp::Reopen { job: j, result: s }),
            )
            &&& name@ == job.port@
            &&& c == config
            &&& data_dir@ == e.config.global.data_dir@
            &&& j == job
            &&& s == result
        },
        (ToolOp::Reopen { job, result }, _) => tool_logs(job, result, r),
        (ToolOp::Log { result }, _) => tool_answer(result, r),
        _ => false,
    }
}

/// The first step of an operation with the tool: it is looked for.
pub fn esp_operation(port: String, log: Option<String>, args: Vec<String>) -> (r: Progress)
    ensures
        r == Progress::Do(Work::FindTool, Operation::Tool(ToolOp::Find(Job { port, log, args }))),
{
    Progress::Do(Work::FindTool, Operation::Tool(ToolOp::Find(Job { port, log, args })))
}

fn answer(result: Result<String, String>) -> (r: Progress)
    ensures
        tool_answer(result, r),
{
    match result {
        Ok(m) => Progress::Done(Ok(ResponsePayload::EspSuccess(m))),
        Err(m) => Progress::Done(Err(EngineError::Tool(m))),
    }
}

fn log_result(job: Job, result: Result<String, String>) -> (r: Progress)
    ensures
        tool_logs(job, result, r),
{
    match job.log {
        Some(log) => {
            let mut m = "━━━ ".to_owned();
            m.append(log.as_str());
            m.append(" → ");
            m.append(
                if result.is_ok() {
                    "OK"
                } else {
                    "FAILED"
                },
            );
            m.append(" ━━━");
            Progress::Do(
                Work::Log { port: job.port, message: m },
                Operation::Tool(ToolOp::Log { result }),
            )
        },
        None => answer(result),
    }
}

fn run_tool(job: Job, reopen: Option<PortConfig>) -> (r: Progress)
    ensures
        tool_runs(job, reopen, r),
{
    Progress::Do(
        Work::RunTool { args: job.args },
        Operation::Tool(
            ToolOp::Run { job: Job { port: job.port, log: job.log, args: Vec::new() }, reopen },
        ),
    )
}

impl CommandEngine {
    /// Go on with an operation with the tool.
    pub fn tool_step(&self, op: ToolOp, ev: Event) -> (r: Progress)
        requires
            tool_expects(op, ev),
        ensures
            tool_next(*self, op, ev, r),
    {
        match (op, ev) {
            (ToolOp::Find(job), Event::Tool(found)) => if found {
                Progress::Do(
                    Work::Port(PortCommand::GetState { name: job.port.clone() }),
                    Operation::Tool(ToolOp::State(job)),
                )
            } else {
                Progress::Done(
                    Err(
                        EngineError::Tool(
                            "espflash not found in PATH. Install with: cargo install espflash".to_owned(),
                        ),
                    ),
                )
            },
            (ToolOp::State(job), Event::State(_)) => Progress::Do(
                Work::Port(PortCommand::CloseWithConfig { name: job.port.clone() }),
                Operation::Tool(ToolOp::Release(job)),
            ),
            (ToolOp::State(job), _) => run_tool(job, None),
            (ToolOp::Release(job), Event::Config(c)) => run_tool(job, Some(c)),
            (ToolOp::Release(job), _) => run_tool(job, None),
            (ToolOp::Run { job, reopen }, Event::Output(result)) => match reopen {
                Some(config) => Progress::Do(
                    Work::Sleep(ESP_REOPEN_DELAY_MS),
                    Operation::Tool(ToolOp::Pause { job, config, result }),
                ),
                None => log_result(job, result),
            },
            (ToolOp::Pause { job, config, result }, _) => Progress::Do(
                Work::Port(
                    PortCommand::OpenReal {
                        name: job.port.clone(),
                        config,
                        data_dir: self.config.global.data_dir.clone(),
                    },
                ),
                Operation::Tool(ToolOp::Reopen { job, result }),
            ),
            (ToolOp::Reopen { job, result }, _) => log_result(job, result),
            (ToolOp::Log { result }, _) => answer(result),
            // Nothing else is reported to these steps.
            (_, _) => {
                assert(false);
                Progress::Done(Ok(ResponsePayload::Pong))
            },
        }
    }
}

} // verus!
