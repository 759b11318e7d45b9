//! Pairing and inquiry: what the reports of the two access layers lead to.

use crate::hidd::Notice;
use vstd::prelude::*;

verus! {

/// What the access layer of the low-energy side reports.
#[derive(Clone, Copy, Debug, PartialEq, Eq, Structural)]
pub enum BleGapEvent {
    Key,
    /// The peer asks for security.
    SecurityRequest,
    /// Authentication has ended.
    AuthComplete { success: bool },
    UpdateConnParams,
    Other,
}

/// What a report of the low-energy access layer leads to.
#[derive(Clone, Copy, Debug, PartialEq, Eq, Structural)]
pub enum BleGapAction {
    /// The report is for the log only.
    Nothing,
    /// The request for security is granted.
    AcceptSecurity,
    /// The handler of the peripheral is told.
    Notify(Notice),
}

/// A request for security is always granted; a successful authentication
/// resumes the handler; every other report is for the log only.
pub open spec fn ble_gap_action(event: BleGapEvent) -> BleGapAction {
    match event {
        BleGapEvent::SecurityRequest => BleGapAction::AcceptSecurity,
        BleGapEvent::AuthComplete { success } => if success {
            BleGapAction::Notify(Notice::Resume)
        } else {
            BleGapAction::Nothing
        },
        _ => BleGapAction::Nothing,
    }
}

/// Decides what a report of the low-energy access layer leads to.
pub fn on_ble_gap_event(event: BleGapEvent) -> (action: BleGapAction)
    ensures
        action == ble_gap_action(event),
{
    match event {
        BleGapEvent::SecurityRequest => BleGapAction::AcceptSecurity,
        BleGapEvent::AuthComplete { success } => {
            if success {
                BleGapAction::Notify(Notice::Resume)
            } else {
                BleGapAction::Nothing
            }
        },
        _ => BleGapAction::Nothing,
    }
}

/// The answer to a request for a PIN.
#[derive(Clone, Copy, Debug)]
pub struct PinReply {
    /// The request is answered, not refused.
    pub accept: bool,
    /// Number of digits of the PIN.
    pub len: u8,
    /// The digits: the first `len` bytes count.
    pub code: [u8; 16],
}

/// What the access layer of the classic side reports.
#[derive(Clone, Copy, Debug, PartialEq, Eq, Structural)]
pub enum BtGapEvent {
    /// An inquiry has started (`state` is not 0) or stopped (`state` is 0).
    DiscoveryStateChanged { state: u32 },
    /// An inquiry has found a device.
    DiscoveryResult,
    ModeChange,
    /// The peer asks for a PIN, of sixteen digits or of any length.
    PinRequest { min_16_digit: bool },
    Other,
}

/// What a report of the classic access layer leads to.
#[derive(Clone, Copy, Debug)]
pub enum BtGapAction {
    /// The report is for the log only.
    Nothing,
    /// The discovery cycle ends.
    FinishDiscovery,
    /// The result goes to the discovery cycle.
    AddResult,
    /// The request for a PIN is answered.
    ReplyPin(PinReply),
}

/// Number of digits of the PIN that answers a request.
pub open spec fn pin_len(min_16_digit: bool) -> u8 {
    if min_16_digit {
        16
    } else {
        4
    }
}

/// The PIN that answers every request: zeros only, sixteen digits if the peer
/// asked for sixteen and four if not.
pub fn pin_reply(min_16_digit: bool) -> (reply: PinReply)
    ensures
        reply.accept,
        reply.len == pin_len(min_16_digit),
        forall|i: int| 0 <= i < 16 ==> reply.code[i] == 0,
{
    PinReply {
        accept: true,
        len: if min_16_digit {
            16
        } else {
            4
        },
        code: [0u8; 16],
    }
}

/// Decides what a report of the classic access layer leads to: the end of an
/// inquiry ends the discovery cycle, a result goes to the cycle, a request for
/// a PIN is answered, and every other report is for the log only.
pub fn on_bt_gap_event(event: BtGapEvent) -> (action: BtGapAction)
    ensures
        match event {
            BtGapEvent::DiscoveryStateChanged { state } => if state == 0 {
                action is FinishDiscovery
            } else {
                action is Nothing
            },
            BtGapEvent::DiscoveryResult => action is AddResult,
            BtGapEvent::PinRequest { min_16_digit } => {
                &&& action matches BtGapAction::ReplyPin(reply)
                &&& reply.accept
                &&& reply.len == pin_len(min_16_digit)
                &&& forall|i: int| 0 <= i < 16 ==> reply.code[i] == 0
            },
            _ => action is Nothing,
        },
{
    match event {
        BtGapEvent::DiscoveryStateChanged { state } => {
            if state == 0 {
                BtGapAction::FinishDiscovery
            } else {
                BtGapAction::Nothing
            }
        },
        BtGapEvent::DiscoveryResult => BtGapAction::AddResult,
        BtGapEvent::PinRequest { min_16_digit } => BtGapAction::ReplyPin(pin_reply(min_16_digit)),
        _ => BtGapAction::Nothing,
    }
}

} // verus!
