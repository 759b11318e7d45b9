//! The peripheral side: the identity that is advertised, the security that is
//! asked for, and what each report of the stack leads to.

use vstd::prelude::*;

verus! {

/// The appearance of a keyboard.
pub const APPEARANCE_KEYBOARD: u16 = 0x03C1;

/// The identifier of the human interface device service, lowest byte first.
pub const HID_SERVICE_UUID: [u8; 16] = [
    0xfb,
    0x34,
    0x9b,
    0x5f,
    0x80,
    0x00,
    0x00,
    0x80,
    0x00,
    0x10,
    0x00,
    0x00,
    0x12,
    0x18,
    0x00,
    0x00,
];

/// Bonding is asked for.
pub const AUTH_BOND: u8 = 0x01;

/// Protection against a man in the middle is asked for.
pub const AUTH_MITM: u8 = 0x04;

/// Secure connections are asked for.
pub const AUTH_SECURE_CONNECTIONS: u8 = 0x08;

/// The device has neither input nor output for pairing.
pub const IO_CAP_NONE: u8 = 3;

/// The encryption key is distributed.
pub const KEY_MASK_ENC: u8 = 0x01;

/// The identity key is distributed.
pub const KEY_MASK_ID: u8 = 0x02;

/// The vendor and product under which the device shows up, and its version.
pub const VENDOR_ID: u16 = 0x16c0;

pub const PRODUCT_ID: u16 = 0x05df;

pub const VERSION: u16 = 0x0100;

/// What the device advertises.
#[derive(Clone, Copy, Debug)]
pub struct AdvertisingData {
    pub set_scan_rsp: bool,
    pub include_name: bool,
    pub include_txpower: bool,
    /// Shortest connection interval, in units of 1.25 ms.
    pub min_interval: u16,
    /// Longest connection interval, in units of 1.25 ms.
    pub max_interval: u16,
    pub appearance: u16,
    pub service_uuid: [u8; 16],
    pub flag: u8,
}

/// How the device advertises.
#[derive(Clone, Copy, Debug, PartialEq, Eq, Structural)]
pub struct AdvertisingParams {
    /// Shortest advertising interval, in units of 0.625 ms.
    pub adv_int_min: u16,
    /// Longest advertising interval, in units of 0.625 ms.
    pub adv_int_max: u16,
}

/// The security that the device asks of a peer.
#[derive(Clone, Copy, Debug, PartialEq, Eq, Structural)]
pub struct SecurityParams {
    pub auth_req: u8,
    pub io_cap: u8,
    pub init_key: u8,
    pub rsp_key: u8,
    pub key_size: u8,
    pub passkey: u32,
}

/// The advertised identity: a keyboard that offers the human interface device
/// service, with its name and its transmit power, general discoverable and
/// without classic Bluetooth.
pub fn advertising_data() -> (data: AdvertisingData)
    ensures
        !data.set_scan_rsp,
        data.include_name,
        data.include_txpower,
        data.min_interval == 0x0006,
        data.max_interval == 0x0010,
        data.appearance == APPEARANCE_KEYBOARD,
        data.service_uuid == HID_SERVICE_UUID,
        data.flag == 0x06,
{
    AdvertisingData {
        set_scan_rsp: false,
        include_name: true,
        include_txpower: true,
        min_interval: 0x0006,
        max_interval: 0x0010,
        appearance: APPEARANCE_KEYBOARD,
        service_uuid: HID_SERVICE_UUID,
        flag: 0x06,
    }
}

/// The advertising intervals.
pub fn advertising_params() -> (params: AdvertisingParams)
    ensures
        params == (AdvertisingParams { adv_int_min: 0x20, adv_int_max: 0x30 }),
{
    AdvertisingParams { adv_int_min: 0x20, adv_int_max: 0x30 }
}

/// The security policy: bonding with secure connections and protection
/// against a man in the middle, no input or output for pairing, encryption
/// and identity keys handed out in both directions, keys of sixteen bytes and
/// the fixed passkey zero.
pub fn security_params() -> (params: SecurityParams)
    ensures
        params == (SecurityParams {
            auth_req: 0x0D,
            io_cap: IO_CAP_NONE,
            init_key: 0x03,
            rsp_key: 0x03,
            key_size: 16,
            passkey: 0,
        }),
{
    assert(AUTH_SECURE_CONNECTIONS | AUTH_MITM | AUTH_BOND == 0x0D) by (bit_vector);
    assert(KEY_MASK_ENC | KEY_MASK_ID == 0x03) by (bit_vector);
    SecurityParams {
        auth_req: AUTH_SECURE_CONNECTIONS | AUTH_MITM | AUTH_BOND,
        io_cap: IO_CAP_NONE,
        init_key: KEY_MASK_ENC | KEY_MASK_ID,
        rsp_key: KEY_MASK_ENC | KEY_MASK_ID,
        key_size: 16,
        passkey: 0,
    }
}

/// Where the peripheral stands.
#[derive(Clone, Copy, Debug, PartialEq, Eq, Structural)]
pub enum PeripheralState {
    Idle,
    Advertising,
    Connected,
}

/// What the peripheral stack reports.
#[derive(Clone, Copy, Debug, PartialEq, Eq, Structural)]
pub enum HiddEvent {
    Start,
    Connect,
    ProtocolMode,
    /// The host leaves the suspended state (`control` is 1) or enters it.
    Control { control: u8 },
    Output,
    Feature,
    Disconnect,
    Stop,
    Other,
}

/// What the handler is told.
#[derive(Clone, Copy, Debug, PartialEq, Eq, Structural)]
pub enum Notice {
    Resume,
    Pause,
}

/// What a report of the stack leads to.
#[derive(Clone, Copy, Debug, PartialEq, Eq, Structural)]
pub struct Reaction {
    /// The state after the report.
    pub state: PeripheralState,
    /// What the handler is told, before anything else is done.
    pub notice: Option<Notice>,
    /// Advertising is started.
    pub advertise: bool,
}

/// The reaction to `event` in `state`. A start leads to advertising and a
/// connection to the connected state; a control report resumes or pauses the
/// handler; a disconnection pauses it and leads back to advertising. Every
/// other report is for the log only.
pub open spec fn reaction(state: PeripheralState, event: HiddEvent) -> Reaction {
    match event {
        HiddEvent::Start => Reaction {
            state: PeripheralState::Advertising,
            notice: None,
            advertise: true,
        },
        HiddEvent::Connect => Reaction {
            state: PeripheralState::Connected,
            notice: None,
            advertise: false,
        },
        HiddEvent::Control { control } => Reaction {
            state,
            notice: Some(
                if control == 1 {
                    Notice::Resume
                } else {
                    Notice::Pause
                },
            ),
            advertise: false,
        },
        HiddEvent::Disconnect => Reaction {
            state: PeripheralState::Advertising,
            notice: Some(Notice::Pause),
            advertise: true,
        },
        _ => Reaction { state, notice: None, advertise: false },
    }
}

/// Decides what a report of the peripheral stack leads to.
pub fn on_hidd_event(state: PeripheralState, event: HiddEvent) -> (r: Reaction)
    ensures
        r == reaction(state, event),
{
    match event {
        HiddEvent::Start => Reaction {
            state: PeripheralState::Advertising,
            notice: None,
            advertise: true,
        },
        HiddEvent::Connect => Reaction {
            state: PeripheralState::Connected,
            notice: None,
            advertise: false,
        },
        HiddEvent::Control { control } => {
            let notice = if control == 1 {
                Notice::Resume
            } else {
                Notice::Pause
            };
            Reaction { state, notice: Some(notice), advertise: false }
        },
        HiddEvent::Disconnect => Reaction {
            state: PeripheralState::Advertising,
            notice: Some(Notice::Pause),
            advertise: true,
        },
        _ => Reaction { state, notice: None, advertise: false },
    }
}

} // verus!
