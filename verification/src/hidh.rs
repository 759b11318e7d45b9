//! The host side: what the stack reports of the keyboard it is connected to,
//! and which callback of the handler answers each report.

use vstd::prelude::*;

verus! {

/// The usage bit of a keyboard.
pub const USAGE_KEYBOARD: u32 = 1;

/// The status with which the stack reports success.
pub const STATUS_OK: i32 = 0;

/// The usages of a report, one bit for each.
#[derive(Clone, Copy, Debug)]
pub struct HidUsage(pub u32);

impl HidUsage {
    /// The usage bits.
    pub fn raw(&self) -> (bits: u32)
        ensures
            bits == self.0,
    {
        self.0
    }

    /// The keyboard bit is among the usage bits.
    pub open spec fn keyboard(&self) -> bool {
        self.0 & USAGE_KEYBOARD != 0
    }

    /// Tells whether the report comes from a keyboard.
    pub fn is_keyboard(&self) -> (r: bool)
        ensures
            r == self.keyboard(),
    {
        self.raw() & USAGE_KEYBOARD != 0
    }
}

impl From<u32> for HidUsage {
    fn from(value: u32) -> (usage: HidUsage) {
        HidUsage(value)
    }
}

impl vstd::std_specs::convert::FromSpecImpl<u32> for HidUsage {
    open spec fn obeys_from_spec() -> bool {
        true
    }

    open spec fn from_spec(value: u32) -> HidUsage {
        HidUsage(value)
    }
}

/// What the host stack reports.
#[derive(Clone, Copy, Debug, PartialEq, Eq, Structural)]
pub enum HostEvent {
    Start,
    /// An attempt to open a device has ended with this status.
    Open { status: i32 },
    Battery,
    /// The device has sent an input report.
    Input,
    Feature,
    /// The connection is closed.
    Close,
    Stop,
    Other,
}

/// The callback of the handler that answers a report of the stack.
#[derive(Clone, Copy, Debug, PartialEq, Eq, Structural)]
pub enum HostCall {
    /// The report is for the log only.
    Nothing,
    OnOpen,
    OnOpenFailed { error: i32 },
    OnInput,
    OnClose,
}

/// The callback that answers `event`.
pub open spec fn call_for(event: HostEvent) -> HostCall {
    match event {
        HostEvent::Open { status } => if status == STATUS_OK {
            HostCall::OnOpen
        } else {
            HostCall::OnOpenFailed { error: status }
        },
        HostEvent::Input => HostCall::OnInput,
        HostEvent::Close => HostCall::OnClose,
        _ => HostCall::Nothing,
    }
}

/// Chooses the callback of the handler that answers a report of the stack.
pub fn host_call(event: HostEvent) -> (call: HostCall)
    ensures
        call == call_for(event),
{
    match event {
        HostEvent::Open { status } => {
            if status == STATUS_OK {
                HostCall::OnOpen
            } else {
                HostCall::OnOpenFailed { error: status }
            }
        },
        HostEvent::Input => HostCall::OnInput,
        HostEvent::Close => HostCall::OnClose,
        _ => HostCall::Nothing,
    }
}

} // verus!
