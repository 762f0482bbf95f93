//! Protocol core of a BLE GATT peripheral that exchanges short payloads with
//! a controller application over up to two links, together with the colours
//! of its status LED and the text commands that set them.
//!
//! The crate performs no I/O. [`bluetooth::BluetoothManager`] takes the
//! events the Bluetooth stack delivers as plain values, updates the server
//! state and answers with the [`command::Command`]s the caller has to carry
//! out. Every function is verified against the state machine of [`model`];
//! [`laws`] holds what is proved of that machine across calls.

pub mod addr;
pub mod bluetooth;
pub mod command;
pub mod control;
pub mod event;
pub mod laws;
pub mod led;
pub mod model;
pub mod status;
pub mod table;
pub mod uuid;
