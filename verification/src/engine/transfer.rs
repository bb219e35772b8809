//! Sending and receiving files.
use vstd::prelude::*;
use vstd::string::*;

use crate::engine::device;
use crate::engine::{EngineError, Event, Operation, Progress, Work};
use crate::modem::FileTransferProtocol;
use crate::paths;
use crate::paths::{file_name, join};
use crate::port_manager::PortCommand;
use crate::protocol::ResponsePayload;
use crate::text;
use crate::text::decimal;

verus! {

/// Where a file transfer stands.
pub enum TransferOp {
    /// The file is being read.
    SendFile { port: String, path: String, name: String, protocol: FileTransferProtocol },
    /// The device is asked for.
    SendDevice {
        port: String,
        path: String,
        name: String,
        protocol: FileTransferProtocol,
        data: Vec<u8>,
    },
    /// The file is being sent.
    Send { port: String, path: String, name: String, protocol: FileTransferProtocol },
    /// The device is asked for.
    ReceiveDevice { port: String, dir: String, protocol: FileTransferProtocol },
    /// A file is being received.
    Receive { port: String, dir: String, protocol: FileTransferProtocol },
    /// The directory for the file is being created.
    ReceiveDir {
        port: String,
        dir: String,
        protocol: FileTransferProtocol,
        name: String,
        data: Vec<u8>,
    },
    /// The file is being written.
    ReceiveWrite {
        port: String,
        path: String,
        protocol: FileTransferProtocol,
        name: String,
        bytes: u64,
    },
}

/// The name of a protocol in a marker.
pub open spec fn protocol_label(p: FileTransferProtocol) -> Seq<char> {
    match p {
        FileTransferProtocol::Xmodem => "Xmodem"@,
        FileTransferProtocol::XmodemCrc => "XmodemCrc"@,
        FileTransferProtocol::Xmodem1k => "Xmodem1k"@,
        FileTransferProtocol::Ymodem => "Ymodem"@,
        FileTransferProtocol::Zmodem => "Zmodem"@,
    }
}

/// The name of a protocol in a marker.
pub fn label(p: FileTransferProtocol) -> (r: &'static str)
    ensures
        r@ == protocol_label(p),
{
    match p {
        FileTransferProtocol::Xmodem => "Xmodem",
        FileTransferProtocol::XmodemCrc => "XmodemCrc",
        FileTransferProtocol::Xmodem1k => "Xmodem1k",
        FileTransferProtocol::Ymodem => "Ymodem",
        FileTransferProtocol::Zmodem => "Zmodem",
    }
}

/// The marker of a completed transfer.
pub open spec fn transfer_marker(
    direction: Seq<char>,
    protocol: FileTransferProtocol,
    name: Seq<char>,
    bytes: u64,
) -> Seq<char> {
    "━━━ TRANSFER "@ + direction + " "@ + protocol_label(protocol) + " '"@ + name + "' ("@
        + text::dec_nat(bytes as nat) + " bytes) → OK ━━━"@
}

fn marker(direction: &str, protocol: FileTransferProtocol, name: &str, bytes: u64) -> (r: String)
    ensures
        r@ == transfer_marker(direction@, protocol, name@, bytes),
{
    let mut m = "━━━ TRANSFER ".to_owned();
    m.append(direction);
    m.append(" ");
    m.append(label(protocol));
    m.append(" '");
    m.append(name);
    m.append("' (");
    m.append(decimal(bytes).as_str());
    m.append(" bytes) → OK ━━━");
    m
}

/// The name under which a file is sent: that of the file, where its path has
/// one.
pub open spec fn sent_name(path: Seq<char>) -> Seq<char> {
    match paths::file_name_of(path) {
        Some(n) => n,
        None => "file.bin"@,
    }
}

/// What a step of a transfer waits for.
pub open spec fn transfer_expects(op: TransferOp, ev: Event) -> bool {
    match op {
        TransferOp::SendFile { .. } => ev is Bytes || ev is Error,
        TransferOp::SendDevice { .. } => ev is Done || ev is Failed,
        TransferOp::Send { .. } => ev is Sent || ev is Error,
        TransferOp::ReceiveDevice { .. } => ev is Done || ev is Failed,
        TransferOp::Receive { .. } => ev is Received || ev is Error,
        TransferOp::ReceiveDir { .. } => ev is Done || ev is Error,
        TransferOp::ReceiveWrite { .. } => ev is Done || ev is Error,
    }
}

/// Whether an operation ends because of a file.
pub open spec fn file_fault(path: Seq<char>, error: Seq<char>, r: Progress) -> bool {
    r matches Progress::Done(Err(EngineError::Io { path: p, source })) && p@ == path && source@
        == error
}

/// Whether a transfer is complete: a marker goes into the buffer, then it is
/// answered.
pub open spec fn completed(
    direction: Seq<char>,
    port: Seq<char>,
    protocol: FileTransferProtocol,
    name: Seq<char>,
    path: Seq<char>,
    bytes: u64,
    r: Progress,
) -> bool {
    &&& r matches Progress::Do(
        Work::Log { port: p, message },
        Operation::Finish(
            ResponsePayload::TransferSuccess {
                bytes_transferred,
                file_name: f,
                protocol: q,
                path: Some(t),
            },
        ),
    )
    &&& p@ == port
    &&& message@ == transfer_marker(direction, protocol, name, bytes)
    &&& bytes_transferred == bytes
    &&& f@ == name
    &&& q == protocol
    &&& t@ == path
}

/// How a transfer goes on.
pub open spec fn transfer_next(op: TransferOp, ev: Event, r: Progress) -> bool {
    match (op, ev) {
        (TransferOp::SendFile { port, path, name, protocol }, Event::Bytes(data)) => {
            &&& r matches Progress::Do(
                work,
                Operation::Transfer(
                    TransferOp::SendDevice { port: p, path: q, name: n, protocol: t, data: d },
                ),
            )
            &&& device::asks_device(work, port@)
            &&& p@ == port@
            &&& q@ == path@
            &&& n@ == name@
            &&& t == protocol
            &&& d == data
        },
        (TransferOp::SendFile { port, path, name, protocol }, Event::Error(e)) => file_fault(
            path@,
            e@,
            r,
        ),
        (TransferOp::SendDevice { port, path, name, protocol, data }, Event::Done) => {
            &&& r matches Progress::Do(
                Work::Send { port: p, protocol: t, file_name: n, data: d },
                Operation::Transfer(TransferOp::Send { port: q, path: s, name: m, protocol: u }),
            )
            &&& p@ == port@
            &&& t == protocol
            &&& n@ == name@
            &&& d == data
            &&& q@ == port@
            &&& s@ == path@
            &&& m@ == name@
            &&& u == protocol
        },
        (TransferOp::Send { port, path, name, protocol }, Event::Sent(n)) => completed(
            "SEND"@,
            port@,
            protocol,
            name@,
            path@,
            n as u64,
            r,
        ),
        (TransferOp::Send { port, path, name, protocol }, Event::Error(e)) => r
            matches Progress::Done(Err(EngineError::Transfer(m))) && m@ == e@,
        (TransferOp::ReceiveDevice { port, dir, protocol }, Event::Done) => {
            &&& r matches Progress::Do(
                Work::Receive { port: p, protocol: t },
                Operation::Transfer(TransferOp::Receive { port: q, dir: d, protocol: u }),
            )
            &&& p@ == port@
            &&& t == protocol
            &&& q@ == port@
            &&& d@ == dir@
            &&& u == protocol
        },
        (TransferOp::Receive { port, dir, protocol }, Event::Received(name, data)) => {
            &&& r matches Progress::Do(
                Work::CreateDir { path },
                Operation::Transfer(
                    TransferOp::ReceiveDir { port: p, dir: d, protocol: t, name: n, data: b },
                ),
            )
            &&& path@ == dir@
            &&& p@ == port@
            &&& d@ == dir@
            &&& t == protocol
            &&& n == name
            &&& b == data
        },
        (TransferOp::Receive { port, dir, protocol }, Event::Error(e)) => r
            matches Progress::Done(Err(EngineError::Transfer(m))) && m@ == e@,
        (TransferOp::ReceiveDir { port, dir, protocol, name, data }, Event::Done) => {
            &&& r matches Progress::Do(
                Work::WriteFile { path, data: b },
                Operation::Transfer(
                    TransferOp::ReceiveWrite { port: p, path: q, protocol: t, name: n, bytes },
                ),
            )
            &&& path@ == paths::joined(dir@, name@)
            &&& b == data
            &&& p@ == port@
            &&& q@ == paths::joined(dir@, name@)
            &&& t == protocol
            &&& n@ == name@
            &&& bytes == data@.len()
        },
        (TransferOp::ReceiveDir { port, dir, protocol, name, data }, Event::Error(e)) => file_fault(
            dir@,
            e@,
            r,
        ),
        (TransferOp::ReceiveWrite { port, path, protocol, name, bytes }, Event::Done) => completed(
            "RECV"@,
            port@,
            protocol,
            name@,
            path@,
            bytes,
            r,
        ),
        (TransferOp::ReceiveWrite { port, path, protocol, name, bytes }, Event::Error(e)) =>
        file_fault(path@, e@, r),
        (_, Event::Failed(f)) => r == Progress::Done(Err(f)),
        _ => false,
    }
}

/// The first step of sending a file: it is read.
pub fn send_file(port: String, file_path: String, protocol: FileTransferProtocol) -> (r: Progress)
    ensures
        r matches Progress::Do(
            Work::ReadFile { path },
            Operation::Transfer(TransferOp::SendFile { port: p, path: q, name: n, protocol: t }),
        ) && path@ == file_path@ && p@ == port@ && q@ == file_path@ && n@ == sent_name(
            file_path@,
        ) && t == protocol,
{
    let name = match file_name(file_path.as_str()) {
        Some(n) => n,
        None => "file.bin".to_owned(),
    };
    Progress::Do(
        Work::ReadFile { path: file_path.clone() },
        Operation::Transfer(TransferOp::SendFile { port, path: file_path, name, protocol }),
    )
}

/// The first step of receiving a file: the device is asked for.
pub fn receive_file(port: String, output_dir: String, protocol: FileTransferProtocol) -> (r:
    Progress)
    ensures
        r matches Progress::Do(
            work,
            Operation::Transfer(TransferOp::ReceiveDevice { port: p, dir: d, protocol: t }),
        ) && device::asks_device(work, port@) && p@ == port@ && d@ == output_dir@ && t == protocol,
{
    Progress::Do(
        Work::Port(PortCommand::GetSerialPort { name: port.clone() }),
        Operation::Transfer(TransferOp::ReceiveDevice { port, dir: output_dir, protocol }),
    )
}

fn complete(
    direction: &str,
    port: String,
    protocol: FileTransferProtocol,
    name: String,
    path: String,
    bytes: u64,
) -> (r: Progress)
    ensures
        completed(direction@, port@, protocol, name@, path@, bytes, r),
{
    Progress::Do(
        Work::Log { port, message: marker(direction, protocol, name.as_str(), bytes) },
        Operation::Finish(
            ResponsePayload::TransferSuccess {
                bytes_transferred: bytes,
                file_name: name,
                protocol,
                path: Some(path),
            },
        ),
    )
}

/// Go on with a transfer.
pub fn transfer_step(op: TransferOp, ev: Event) -> (r: Progress)
    requires
        transfer_expects(op, ev),
    ensures
        transfer_next(op, ev, r),
{
    match (op, ev) {
        (TransferOp::SendFile { port, path, name, protocol }, Event::Bytes(data)) => Progress::Do(
            Work::Port(PortCommand::GetSerialPort { name: port.clone() }),
            Operation::Transfer(TransferOp::SendDevice { port, path, name, protocol, data }),
        ),
        (TransferOp::SendFile { path, .. }, Event::Error(e)) => Progress::Done(
            Err(EngineError::Io { path, source: e }),
        ),
        (TransferOp::SendDevice { port, path, name, protocol, data }, Event::Done) => Progress::Do(
            Work::Send { port: port.clone(), protocol, file_name: name.clone(), data },
            Operation::Transfer(TransferOp::Send { port, path, name, protocol }),
        ),
        (TransferOp::Send { port, path, name, protocol }, Event::Sent(n)) => complete(
            "SEND",
            port,
            protocol,
            name,
            path,
            n as u64,
        ),
        (TransferOp::Send { .. }, Event::Error(e)) => Progress::Done(
            Err(EngineError::Transfer(e)),
        ),
        (TransferOp::ReceiveDevice { port, dir, protocol }, Event::Done) => Progress::Do(
            Work::Receive { port: port.clone(), protocol },
            Operation::Transfer(TransferOp::Receive { port, dir, protocol }),
        ),
        (TransferOp::Receive { port, dir, protocol }, Event::Received(name, data)) => Progress::Do(
            Work::CreateDir { path: dir.clone() },
            Operation::Transfer(TransferOp::ReceiveDir { port, dir, protocol, name, data }),
        ),
        (TransferOp::Receive { .. }, Event::Error(e)) => Progress::Done(
            Err(EngineError::Transfer(e)),
        ),
        (TransferOp::ReceiveDir { port, dir, protocol, name, data }, Event::Done) => {
            let path = join(dir.as_str(), name.as_str());
            let bytes = data.len() as u64;
            Progress::Do(
                Work::WriteFile { path: path.clone(), data },
                Operation::Transfer(
                    TransferOp::ReceiveWrite { port, path, protocol, name, bytes },
                ),
            )
        },
        (TransferOp::ReceiveDir { dir, .. }, Event::Error(e)) => Progress::Done(
            Err(EngineError::Io { path: dir, source: e }),
        ),
        (TransferOp::ReceiveWrite { port, path, protocol, name, bytes }, Event::Done) => complete(
            "RECV",
            port,
            protocol,
            name,
            path,
            bytes,
        ),
        (TransferOp::ReceiveWrite { path, .. }, Event::Error(e)) => Progress::Done(
            Err(EngineError::Io { path, source: e }),
        ),
        (_, Event::Failed(f)) => Progress::Done(Err(f)),
        // Nothing else is reported to these steps.
        (_, _) => {
            assert(false);
            Progress::Done(Ok(ResponsePayload::Pong))
        },
    }
}

} // verus!
