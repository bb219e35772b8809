//! Opening, changing, closing and listing ports.
use vstd::prelude::*;
use vstd::string::*;

use crate::config::PortConfig;
use crate::engine::{CommandEngine, EngineError, Event, Operation, Progress, Work};
use crate::port_manager;
use crate::port_manager::{available_ports, PortCommand, PortInfo};
use crate::protocol::{PortInfoResponse, PortSettings, ResponsePayload};
use crate::serial_params::{validate_baud, ParamError};
use crate::text::concat3;

verus! {

/// Where an operation on the port table stands.
pub enum PortsOp {
    /// The managed ports are being listed.
    List,
    /// The devices of the machine are being listed.
    Hardware,
    /// The state of the port is asked for, to see whether it is open.
    Open { name: String, settings: PortSettings },
    /// The port is being opened.
    OpenSerial { name: String, config: PortConfig },
    /// The settings of the open port are asked for.
    Current { name: String, settings: PortSettings },
    /// The open port is being given other settings.
    Reconfigure { name: String, config: PortConfig },
    /// The port is being closed.
    Close { name: String },
}

/// The settings of a port after a change: what the change names is taken from
/// it, the rest stays.
pub open spec fn merged(base: PortConfig, settings: PortSettings) -> PortConfig {
    PortConfig {
        baudrate: match settings.baudrate {
            Some(v) => v,
            None => base.baudrate,
        },
        data_bits: match settings.data_bits {
            Some(v) => v,
            None => base.data_bits,
        },
        parity: match settings.parity {
            Some(v) => v,
            None => base.parity,
        },
        stop_bits: match settings.stop_bits {
            Some(v) => v,
            None => base.stop_bits,
        },
        flow_control: match settings.flow_control {
            Some(v) => v,
            None => base.flow_control,
        },
        ..base
    }
}

/// Apply a change to the settings of a port. A baud rate of zero is refused.
pub fn merge(base: PortConfig, settings: PortSettings) -> (r: Result<PortConfig, EngineError>)
    ensures
        match r {
            Ok(c) => settings.baudrate != Some(0u32) && c == merged(base, settings),
            Err(e) => settings.baudrate == Some(0u32) && e == EngineError::Param(
                ParamError::Baud(0),
            ),
        },
{
    if let Some(baud) = settings.baudrate {
        if let Err(e) = validate_baud(baud) {
            return Err(EngineError::Param(e));
        }
    }
    let mut config = base;
    if let Some(v) = settings.baudrate {
        config.baudrate = v;
    }
    if let Some(v) = settings.data_bits {
        config.data_bits = v;
    }
    if let Some(v) = settings.parity {
        config.parity = v;
    }
    if let Some(v) = settings.stop_bits {
        config.stop_bits = v;
    }
    if let Some(v) = settings.flow_control {
        config.flow_control = v;
    }
    Ok(config)
}

/// Settings that name nothing change nothing.
pub proof fn no_settings_change_nothing(base: PortConfig)
    ensures
        merged(base, crate::protocol::no_settings()) == base,
{
}

/// Applying a change twice is applying it once.
pub proof fn settings_applied_twice(base: PortConfig, settings: PortSettings)
    ensures
        merged(merged(base, settings), settings) == merged(base, settings),
{
}

impl CommandEngine {
    /// Merge requested settings onto the configured base for a port.
    pub fn merge_settings(&self, name: &str, settings: PortSettings) -> (r: Result<
        PortConfig,
        EngineError,
    >)
        ensures
            match r {
                Ok(c) => settings.baudrate != Some(0u32) && c == merged(
                    self.config.spec_port(name@),
                    settings,
                ),
                Err(e) => settings.baudrate == Some(0u32) && e == EngineError::Param(
                    ParamError::Baud(0),
                ),
            },
    {
        merge(self.config.port(name), settings)
    }
}

/// Whether ports are reported one for one.
pub open spec fn reported(infos: Seq<PortInfo>, out: Seq<PortInfoResponse>) -> bool {
    &&& out.len() == infos.len()
    &&& forall|i: int|
        0 <= i < infos.len() ==> (#[trigger] out[i]).name@ == infos[i].name@ && out[i].state
            == infos[i].state && out[i].total_lines == infos[i].total_lines
}

/// Managed ports as they are reported.
pub fn report(infos: &Vec<PortInfo>) -> (r: Vec<PortInfoResponse>)
    ensures
        reported(infos@, r@),
{
    let mut out: Vec<PortInfoResponse> = Vec::new();
    let mut i: usize = 0;
    while i < infos.len()
        invariant
            i <= infos.len(),
            reported(infos@.take(i as int), out@),
        decreases infos.len() - i,
    {
        let p = &infos[i];
        out.push(
            PortInfoResponse { name: p.name.clone(), state: p.state, total_lines: p.total_lines },
        );
        i = i + 1;
    }
    assert(infos@.take(infos@.len() as int) =~= infos@);
    out
}

/// What a step of an operation on the port table waits for.
pub open spec fn ports_expects(op: PortsOp, ev: Event) -> bool {
    match op {
        PortsOp::List => ev is Ports,
        PortsOp::Hardware => ev is Devices,
        PortsOp::Open { .. } => ev is State || ev is Failed,
        PortsOp::Current { .. } => ev is Config || ev is Failed,
        _ => ev is Done || ev is Failed,
    }
}

/// Whether the next step is to ask for the settings of an open port.
pub open spec fn asks_current(name: Seq<char>, settings: PortSettings, r: Progress) -> bool {
    &&& r matches Progress::Do(
        Work::Port(PortCommand::GetConfig { name: n }),
        Operation::Ports(PortsOp::Current { name: m, settings: s }),
    )
    &&& n@ == name
    &&& m@ == name
    &&& s == settings
}

/// How an operation on the port table goes on.
pub open spec fn ports_next(e: CommandEngine, op: PortsOp, ev: Event, r: Progress) -> bool {
    match (op, ev) {
        (PortsOp::List, Event::Ports(infos)) => r matches Progress::Done(
            Ok(ResponsePayload::PortList(out)),
        ) && reported(infos@, out@),
        (PortsOp::Hardware, Event::Devices(v)) => r matches Progress::Done(
            Ok(ResponsePayload::HardwarePorts(out)),
        ) && port_manager::offer(v@, e.nodes, out@),
        // An open port is reconfigured.
        (PortsOp::Open { name, settings }, Event::State(_)) => asks_current(name@, settings, r),
        // Any other is opened, with the settings configured for it as base.
        (PortsOp::Open { name, settings }, Event::Failed(_)) => if settings.baudrate == Some(0u32) {
            r == Progress::Done(Err(EngineError::Param(ParamError::Baud(0))))
        } else {
            let config = merged(e.config.spec_port(name@), settings);
            &&& r matches Progress::Do(
                Work::Port(PortCommand::OpenReal { name: n, config: c, data_dir }),
                Operation::Ports(PortsOp::OpenSerial { name: m, config: d }),
            )
            &&& n@ == name@
            &&& m@ == name@
            &&& c == config
            &&& d == config
            &&& data_dir@ == e.config.global.data_dir@
        },
        (PortsOp::OpenSerial { name, config }, Event::Done) => {
            &&& r matches Progress::Do(
                Work::Remember { name: n, config: c },
                Operation::Finish(ResponsePayload::PortOpened { name: m, config_summary }),
            )
            &&& n@ == name@
            &&& c == config
            &&& m@ == name@
            &&& config_summary@ == config.summary()
        },
        (PortsOp::Current { name, settings }, Event::Config(current)) => if settings.baudrate
            == Some(0u32) {
            r == Progress::Done(Err(EngineError::Param(ParamError::Baud(0))))
        } else {
            &&& r matches Progress::Do(
                Work::Port(PortCommand::Reconfigure { name: n, config: c }),
                Operation::Ports(PortsOp::Reconfigure { name: m, config: d }),
            )
            &&& n@ == name@
            &&& m@ == name@
            &&& c == merged(current, settings)
            &&& d == merged(current, settings)
        },
        (PortsOp::Reconfigure { name, config }, Event::Done) => {
            &&& r matches Progress::Do(
                Work::Remember { name: n, config: c },
                Operation::LogThen {
                    port,
                    message,
                    answer: ResponsePayload::PortReconfigured { name: m, config_summary },
                },
            )
            &&& n@ == name@
            &&& c == config
            &&& port@ == name@
            &&& message@ == "━━━ RECONFIGURED: "@ + config.summary() + " ━━━"@
            &&& m@ == name@
            &&& config_summary@ == config.summary()
        },
        (PortsOp::Close { name }, Event::Done) => {
            &&& r matches Progress::Do(
                Work::Forget { name: n },
                Operation::Finish(ResponsePayload::PortClosed { name: m }),
            )
            &&& n@ == name@
            &&& m@ == name@
        },
        (_, Event::Failed(f)) => r == Progress::Done(Err(f)),
        _ => false,
    }
}

/// The first step of a change of settings of an open port.
pub fn reconfigure_port(name: String, settings: PortSettings) -> (r: Progress)
    ensures
        asks_current(name@, settings, r),
{
    Progress::Do(
        Work::Port(PortCommand::GetConfig { name: name.clone() }),
        Operation::Ports(PortsOp::Current { name, settings }),
    )
}

impl CommandEngine {
    /// Go on with an operation on the port table.
    pub fn ports_step(&self, op: PortsOp, ev: Event) -> (r: Progress)
        requires
            ports_expects(op, ev),
        ensures
            ports_next(*self, op, ev, r),
    {
        match (op, ev) {
            (PortsOp::List, Event::Ports(infos)) => Progress::Done(
                Ok(ResponsePayload::PortList(report(&infos))),
            ),
            (PortsOp::Hardware, Event::Devices(v)) => Progress::Done(
                Ok(ResponsePayload::HardwarePorts(available_ports(v.as_slice(), self.nodes))),
            ),
            (PortsOp::Open { name, settings }, Event::State(_)) => reconfigure_port(name, settings),
            (PortsOp::Open { name, settings }, Event::Failed(_)) => match self.merge_settings(
                name.as_str(),
                settings,
            ) {
                Ok(config) => Progress::Do(
                    Work::Port(
                        PortCommand::OpenReal {
                            name: name.clone(),
                            config,
                            data_dir: self.config.global.data_dir.clone(),
                        },
                    ),
                    Operation::Ports(PortsOp::OpenSerial { name, config }),
                ),
                Err(e) => Progress::Done(Err(e)),
            },
            (PortsOp::OpenSerial { name, config }, Event::Done) => Progress::Do(
                Work::Remember { name: name.clone(), config },
                Operation::Finish(
                    ResponsePayload::PortOpened { name, config_summary: config.framing_summary() },
                ),
            ),
            (PortsOp::Current { name, settings }, Event::Config(current)) => match merge(
                current,
                settings,
            ) {
                Ok(config) => Progress::Do(
                    Work::Port(PortCommand::Reconfigure { name: name.clone(), config }),
                    Operation::Ports(PortsOp::Reconfigure { name, config }),
                ),
                Err(e) => Progress::Done(Err(e)),
            },
            (PortsOp::Reconfigure { name, config }, Event::Done) => {
                let summary = config.framing_summary();
                Progress::Do(
                    Work::Remember { name: name.clone(), config },
                    Operation::LogThen {
                        port: name.clone(),
                        message: concat3("━━━ RECONFIGURED: ", summary.as_str(), " ━━━"),
                        answer: ResponsePayload::PortReconfigured {
                            name,
                            config_summary: summary,
                        },
                    },
                )
            },
            (PortsOp::Close { name }, Event::Done) => Progress::Do(
                Work::Forget { name: name.clone() },
                Operation::Finish(ResponsePayload::PortClosed { name }),
            ),
            (_, Event::Failed(f)) => Progress::Done(Err(f)),
            // Nothing else is reported to these steps.
            (_, _) => {
                assert(false);
                Progress::Done(Ok(ResponsePayload::Pong))
            },
        }
    }
}

} // verus!
