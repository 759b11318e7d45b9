//! Logic of a bridge that relays a Bluetooth Classic HID keyboard to a host
//! over Bluetooth Low Energy: the chord transcoder, the discovery engine and
//! the state machines that drive both radio roles.

pub mod chord;
pub mod transcoder;
pub mod transitions;
pub mod slicer;
pub mod address;
pub mod discovery;
pub mod gap;
pub mod hidd;
pub mod hidh;
pub mod keycode;
pub mod tasks;
pub mod text;
pub mod names;
pub mod web;
