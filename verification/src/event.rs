//! The events the Bluetooth stack delivers, as far as the server reads them.

use crate::addr::BdAddr;
use crate::status::{BtStatus, GattStatus};
use crate::uuid::Uuid;
use vstd::prelude::*;

verus! {

/// An event of the advertising and connection layer.
#[derive(Debug, Clone, Copy, PartialEq, Eq)]
pub enum BleGapEvent {
    AdvertisingConfigured(BtStatus),
    AdvertisingStarted(BtStatus),
    AdvertisingStopped(BtStatus),
    /// Any event the server does not react to.
    Other,
}

/// An event of the attribute server.
#[derive(Debug, Clone, PartialEq, Eq)]
pub enum GattsEvent {
    ServiceRegistered { status: GattStatus, app_id: u16 },
    ServiceCreated { status: GattStatus, service_handle: u16 },
    CharacteristicAdded {
        status: GattStatus,
        attr_handle: u16,
        service_handle: u16,
        char_uuid: Uuid,
    },
    DescriptorAdded {
        status: GattStatus,
        attr_handle: u16,
        service_handle: u16,
        descr_uuid: Uuid,
    },
    Mtu { conn_id: u16, mtu: u16 },
    PeerConnected { conn_id: u16, addr: BdAddr },
    PeerDisconnected { addr: BdAddr },
    Read { conn_id: u16, trans_id: u32, addr: BdAddr, handle: u16, offset: u16 },
    Write {
        conn_id: u16,
        trans_id: u32,
        addr: BdAddr,
        handle: u16,
        offset: u16,
        need_rsp: bool,
        is_prep: bool,
        value: Vec<u8>,
    },
    Confirm { status: GattStatus },
    /// Any event the server does not react to.
    Other,
}

impl GattsEvent {
    /// Whether the handling of the event has failed when the stack refuses
    /// a command of the reply. After a disconnect a refused restart of
    /// advertising is only reported; after any other event the refusal ends
    /// the handling as failed.
    pub fn refusal_fails(&self) -> (fails: bool)
        ensures
            fails == !(*self is PeerDisconnected),
    {
        match self {
            GattsEvent::PeerDisconnected { .. } => false,
            _ => true,
        }
    }
}

} // verus!
