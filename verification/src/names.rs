//! The names under which the reports of the two access layers appear in the
//! log.

use crate::text::{decimal, decimal_text};
use vstd::prelude::*;
use vstd::string::StringExecFns;

verus! {

/// The reports of the low-energy access layer, by number.
pub open spec fn ble_gap_event_names() -> Seq<Seq<char>> {
    seq![
        "ADV_DATA_SET_COMPLETE"@,
        "SCAN_RSP_DATA_SET_COMPLETE"@,
        "SCAN_PARAM_SET_COMPLETE"@,
        "SCAN_RESULT"@,
        "ADV_DATA_RAW_SET_COMPLETE"@,
        "SCAN_RSP_DATA_RAW_SET_COMPLETE"@,
        "ADV_START_COMPLETE"@,
        "SCAN_START_COMPLETE"@,
        "AUTH_CMPL"@,
        "KEY"@,
        "SEC_REQ"@,
        "PASSKEY_NOTIF"@,
        "PASSKEY_REQ"@,
        "OOB_REQ"@,
        "LOCAL_IR"@,
        "LOCAL_ER"@,
        "NC_REQ"@,
        "ADV_STOP_COMPLETE"@,
        "SCAN_STOP_COMPLETE"@,
        "SET_STATIC_RAND_ADDR"@,
        "UPDATE_CONN_PARAMS"@,
        "SET_PKT_LENGTH_COMPLETE"@,
        "SET_LOCAL_PRIVACY_COMPLETE"@,
        "REMOVE_BOND_DEV_COMPLETE"@,
        "CLEAR_BOND_DEV_COMPLETE"@,
        "GET_BOND_DEV_COMPLETE"@,
        "READ_RSSI_COMPLETE"@,
        "UPDATE_WHITELIST_COMPLETE"@,
    ]
}

/// The reports of the classic access layer, by number.
pub open spec fn bt_gap_event_names() -> Seq<Seq<char>> {
    seq![
        "DISC_RES"@,
        "DISC_STATE_CHANGED"@,
        "RMT_SRVCS"@,
        "RMT_SRVC_REC"@,
        "AUTH_CMPL"@,
        "PIN_REQ"@,
        "CFM_REQ"@,
        "KEY_NOTIF"@,
        "KEY_REQ"@,
        "READ_RSSI_DELTA"@,
        "CONFIG_EIR_DATA"@,
        "SET_AFH_CHANNELS"@,
        "READ_REMOTE_NAME"@,
        "MODE_CHG"@,
        "REMOVE_BOND_DEV_COMPLETE"@,
        "QOS_CMPL"@,
        "ACL_CONN_CMPL_STAT"@,
        "ACL_DISCONN_CMPL_STAT"@,
        "ACL_PKT_TYPE_CHANGED"@,
    ]
}

/// The name of report number `event`, or `Unknown` with the number in
/// brackets where the table holds no such report.
pub open spec fn event_text(names: Seq<Seq<char>>, event: u32) -> Seq<char> {
    if event < names.len() {
        names[event as int]
    } else {
        "Unknown("@ + decimal_text(event as nat) + ")"@
    }
}

fn ble_gap_name(event: u32) -> (name: Option<&'static str>)
    ensures
        match name {
            Some(text) => event < ble_gap_event_names().len() && text@ == ble_gap_event_names()[event as int],
            None => event >= ble_gap_event_names().len(),
        },
{
    if event == 0 {
        Some("ADV_DATA_SET_COMPLETE")
    } else if event == 1 {
        Some("SCAN_RSP_DATA_SET_COMPLETE")
    } else if event == 2 {
        Some("SCAN_PARAM_SET_COMPLETE")
    } else if event == 3 {
        Some("SCAN_RESULT")
    } else if event == 4 {
        Some("ADV_DATA_RAW_SET_COMPLETE")
    } else if event == 5 {
        Some("SCAN_RSP_DATA_RAW_SET_COMPLETE")
    } else if event == 6 {
        Some("ADV_START_COMPLETE")
    } else if event == 7 {
        Some("SCAN_START_COMPLETE")
    } else if event == 8 {
        Some("AUTH_CMPL")
    } else if event == 9 {
        Some("KEY")
    } else if event == 10 {
        Some("SEC_REQ")
    } else if event == 11 {
        Some("PASSKEY_NOTIF")
    } else if event == 12 {
        Some("PASSKEY_REQ")
    } else if event == 13 {
        Some("OOB_REQ")
    } else if event == 14 {
        Some("LOCAL_IR")
    } else if event == 15 {
        Some("LOCAL_ER")
    } else if event == 16 {
        Some("NC_REQ")
    } else if event == 17 {
        Some("ADV_STOP_COMPLETE")
    } else if event == 18 {
        Some("SCAN_STOP_COMPLETE")
    } else if event == 19 {
        Some("SET_STATIC_RAND_ADDR")
    } else if event == 20 {
        Some("UPDATE_CONN_PARAMS")
    } else if event == 21 {
        Some("SET_PKT_LENGTH_COMPLETE")
    } else if event == 22 {
        Some("SET_LOCAL_PRIVACY_COMPLETE")
    } else if event == 23 {
        Some("REMOVE_BOND_DEV_COMPLETE")
    } else if event == 24 {
        Some("CLEAR_BOND_DEV_COMPLETE")
    } else if event == 25 {
        Some("GET_BOND_DEV_COMPLETE")
    } else if event == 26 {
        Some("READ_RSSI_COMPLETE")
    } else if event == 27 {
        Some("UPDATE_WHITELIST_COMPLETE")
    } else {
        None
    }
}

fn bt_gap_name(event: u32) -> (name: Option<&'static str>)
    ensures
        match name {
            Some(text) => event < bt_gap_event_names().len() && text@ == bt_gap_event_names()[event as int],
            None => event >= bt_gap_event_names().len(),
        },
{
    if event == 0 {
        Some("DISC_RES")
    } else if event == 1 {
        Some("DISC_STATE_CHANGED")
    } else if event == 2 {
        Some("RMT_SRVCS")
    } else if event == 3 {
        Some("RMT_SRVC_REC")
    } else if event == 4 {
        Some("AUTH_CMPL")
    } else if event == 5 {
        Some("PIN_REQ")
    } else if event == 6 {
        Some("CFM_REQ")
    } else if event == 7 {
        Some("KEY_NOTIF")
    } else if event == 8 {
        Some("KEY_REQ")
    } else if event == 9 {
        Some("READ_RSSI_DELTA")
    } else if event == 10 {
        Some("CONFIG_EIR_DATA")
    } else if event == 11 {
        Some("SET_AFH_CHANNELS")
    } else if event == 12 {
        Some("READ_REMOTE_NAME")
    } else if event == 13 {
        Some("MODE_CHG")
    } else if event == 14 {
        Some("REMOVE_BOND_DEV_COMPLETE")
    } else if event == 15 {
        Some("QOS_CMPL")
    } else if event == 16 {
        Some("ACL_CONN_CMPL_STAT")
    } else if event == 17 {
        Some("ACL_DISCONN_CMPL_STAT")
    } else if event == 18 {
        Some("ACL_PKT_TYPE_CHANGED")
    } else {
        None
    }
}

/// Names a report of the low-energy access layer.
pub fn ble_gap_event_name(event: u32) -> (text: String)
    ensures
        text@ == event_text(ble_gap_event_names(), event),
{
    match ble_gap_name(event) {
        Some(name) => String::from_str(name),
        None => {
            let mut text = String::from_str("Unknown(");
            let number = decimal(event);
            text.append(number.as_str());
            text.append(")");
            text
        },
    }
}

/// Names a report of the classic access layer.
pub fn bt_gap_event_name(event: u32) -> (text: String)
    ensures
        text@ == event_text(bt_gap_event_names(), event),
{
    match bt_gap_name(event) {
        Some(name) => String::from_str(name),
        None => {
            let mut text = String::from_str("Unknown(");
            let number = decimal(event);
            text.append(number.as_str());
            text.append(")");
            text
        },
    }
}

} // verus!
