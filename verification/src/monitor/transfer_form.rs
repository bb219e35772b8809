//! The dialog in which files are transferred.
use vstd::prelude::*;
use vstd::string::*;

use crate::engine::transfer;
use crate::engine::transfer::label;
use crate::gui_ipc::MonitorEvent;
use crate::modem::FileTransferProtocol;
use crate::text;
use crate::text::{concat2, is_blank, trim};

verus! {

/// The dialog in which files are transferred.
#[derive(Debug)]
pub struct TransferForm {
    pub is_open: bool,
    pub path: String,
    pub protocol: FileTransferProtocol,
    pub status: Option<String>,
}

/// The directory that a file is received into; an empty field stands for the
/// present one.
pub open spec fn receive_dir(path: Seq<char>) -> Seq<char> {
    if text::trimmed(path).len() == 0 {
        "."@
    } else {
        text::trimmed(path)
    }
}

impl TransferForm {
    /// A form that nothing was entered in.
    pub open spec fn is_new(r: TransferForm) -> bool {
        &&& !r.is_open
        &&& r.path@.len() == 0
        &&& r.protocol == FileTransferProtocol::Zmodem
        &&& r.status is None
    }

    /// A closed dialog.
    pub fn new() -> (r: TransferForm)
        ensures
            Self::is_new(r),
    {
        TransferForm {
            is_open: false,
            path: String::new(),
            protocol: FileTransferProtocol::Zmodem,
            status: None,
        }
    }

    /// How a file is asked for.
    pub open spec fn receives(self, after: Self, r: MonitorEvent) -> bool {
        &&& after == (TransferForm { status: after.status, ..self })
        &&& after.status matches Some(m) && m@ == "Waiting to receive via "@
            + transfer::protocol_label(self.protocol) + " into '"@ + receive_dir(
            self.path@,
        ) + "'..."@
        &&& r matches MonitorEvent::ReceiveFile { dir, protocol } && dir@ == receive_dir(
            self.path@,
        ) && protocol == self.protocol
    }

    /// Begin to receive a file: the event for the process that owns the port.
    pub fn receive(&mut self) -> (r: MonitorEvent)
        ensures
            old(self).receives(*final(self), r),
    {
        let dir = if is_blank(self.path.as_str()) {
            ".".to_owned()
        } else {
            trim(self.path.as_str())
        };
        let mut m = concat2("Waiting to receive via ", label(self.protocol));
        m.append(" into '");
        m.append(dir.as_str());
        m.append("'...");
        self.status = Some(m);
        MonitorEvent::ReceiveFile { dir, protocol: self.protocol }
    }

    /// How a file is sent.
    pub open spec fn sends(self, after: Self, r: Option<MonitorEvent>) -> bool {
        &&& after == (TransferForm { status: after.status, ..self })
        &&& ({
            let path = text::trimmed(self.path@);
            match r {
                Some(e) => {
                    &&& path.len() > 0
                    &&& e matches MonitorEvent::SendFile { path: p, protocol }
                    &&& p@ == path
                    &&& protocol == self.protocol
                    &&& after.status matches Some(m)
                    &&& m@ == "Initiating "@ + transfer::protocol_label(self.protocol)
                        + " send for '"@ + path + "'..."@
                },
                None => {
                    &&& path.len() == 0
                    &&& after.status matches Some(m)
                    &&& m@ == "Error: please specify file path"@
                },
            }
        })
    }

    /// Begin to send a file: the event for the process that owns the port, where
    /// a file is named.
    pub fn send(&mut self) -> (r: Option<MonitorEvent>)
        ensures
            old(self).sends(*final(self), r),
    {
        let path = trim(self.path.as_str());
        if path.as_str().is_empty() {
            self.status = Some("Error: please specify file path".to_owned());
            return None;
        }
        let mut m = concat2("Initiating ", label(self.protocol));
        m.append(" send for '");
        m.append(path.as_str());
        m.append("'...");
        self.status = Some(m);
        Some(MonitorEvent::SendFile { path, protocol: self.protocol })
    }

    /// What is said of a file that did not go through.
    pub open spec fn fails(self, error: &str, after: Self) -> bool {
        &&& after == (TransferForm { status: after.status, ..self })
        &&& after.status matches Some(m) && m@ == "Transfer failed: "@ + error@
    }

    /// Say why a transfer could not be begun.
    pub fn failed(&mut self, error: &str)
        ensures
            old(self).fails(error, *final(self)),
    {
        self.status = Some(concat2("Transfer failed: ", error));
    }
}

/// The protocols in the order in which the dialog offers them, with what it says
/// of each.
pub fn protocol_choices() -> (r: [(FileTransferProtocol, &'static str); 5])
    ensures
        r@ == seq![
            (FileTransferProtocol::Zmodem, "ZMODEM (Streaming, 32-bit CRC)"),
            (FileTransferProtocol::Ymodem, "YMODEM (Batch, 1K CRC)"),
            (FileTransferProtocol::Xmodem1k, "XMODEM-1K (1024-byte blocks)"),
            (FileTransferProtocol::XmodemCrc, "XMODEM-CRC (128-byte blocks)"),
            (FileTransferProtocol::Xmodem, "XMODEM (Standard Checksum)"),
        ],
{
    let r = [
        (FileTransferProtocol::Zmodem, "ZMODEM (Streaming, 32-bit CRC)"),
        (FileTransferProtocol::Ymodem, "YMODEM (Batch, 1K CRC)"),
        (FileTransferProtocol::Xmodem1k, "XMODEM-1K (1024-byte blocks)"),
        (FileTransferProtocol::XmodemCrc, "XMODEM-CRC (128-byte blocks)"),
        (FileTransferProtocol::Xmodem, "XMODEM (Standard Checksum)"),
    ];
    assert(r@ =~= seq![
        (FileTransferProtocol::Zmodem, "ZMODEM (Streaming, 32-bit CRC)"),
        (FileTransferProtocol::Ymodem, "YMODEM (Batch, 1K CRC)"),
        (FileTransferProtocol::Xmodem1k, "XMODEM-1K (1024-byte blocks)"),
        (FileTransferProtocol::XmodemCrc, "XMODEM-CRC (128-byte blocks)"),
        (FileTransferProtocol::Xmodem, "XMODEM (Standard Checksum)"),
    ]);
    r
}

} // verus!
