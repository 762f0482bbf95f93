//! The calls into the Bluetooth stack that the server asks its caller to
//! make.

use crate::addr::BdAddr;
use crate::status::{GattStatus, ServerError};
use crate::uuid::Uuid;
use vstd::prelude::*;

verus! {

/// The most bytes an attribute value in a response can hold.
pub const MAX_ATTR_LEN: usize = 600;

/// Access rights of an attribute.
#[derive(Debug, Clone, Copy, PartialEq, Eq, Structural)]
pub struct Permissions {
    pub read: bool,
    pub write: bool,
}

/// Operations a characteristic offers.
#[derive(Debug, Clone, Copy, PartialEq, Eq, Structural)]
pub struct Properties {
    pub read: bool,
    pub write: bool,
    pub indicate: bool,
}

/// Who answers the requests on a characteristic.
#[derive(Debug, Clone, Copy, PartialEq, Eq, Structural)]
pub enum AutoResponse {
    ByApp,
    ByGatt,
}

/// A characteristic as it is added to a service.
#[derive(Debug, Clone, Copy, PartialEq, Eq, Structural)]
pub struct Characteristic {
    pub uuid: Uuid,
    pub permissions: Permissions,
    pub properties: Properties,
    pub max_len: usize,
    pub auto_rsp: AutoResponse,
}

/// A descriptor as it is added to a service.
#[derive(Debug, Clone, Copy, PartialEq, Eq, Structural)]
pub struct Descriptor {
    pub uuid: Uuid,
    pub permissions: Permissions,
}

/// The identity of a service.
#[derive(Debug, Clone, Copy, PartialEq, Eq, Structural)]
pub struct ServiceId {
    pub uuid: Uuid,
    pub inst_id: u8,
    pub is_primary: bool,
}

/// The advertising payload, as far as the server sets it.
#[derive(Debug, Clone, Copy, PartialEq, Eq, Structural)]
pub struct AdvConfiguration {
    pub include_name: bool,
    pub include_txpower: bool,
    pub flag: u8,
    pub service_uuid: Option<Uuid>,
}

/// The body of a response to a read or write request.
#[derive(Debug, Clone, PartialEq, Eq)]
pub struct Response {
    pub attr_handle: u16,
    pub auth_req: u8,
    pub offset: u16,
    pub value: Vec<u8>,
}

/// A [`Response`] with its bytes as a sequence.
pub struct ResponseView {
    pub attr_handle: u16,
    pub auth_req: u8,
    pub offset: u16,
    pub value: Seq<u8>,
}

impl DeepView for Response {
    type V = ResponseView;

    open spec fn deep_view(&self) -> ResponseView {
        ResponseView {
            attr_handle: self.attr_handle,
            auth_req: self.auth_req,
            offset: self.offset,
            value: self.value@,
        }
    }
}

/// One call into the Bluetooth stack.
///
/// The caller reports each command the stack accepted back to the server,
/// which takes note of three of them: once the application was registered
/// the registration is not asked for again, a connection parameter update
/// that went through raises the connected flag, and an indication that went
/// out is the one whose confirmation is awaited.
#[derive(Debug, Clone, PartialEq, Eq)]
pub enum Command {
    /// Have the events of the advertising layer delivered to the server.
    SubscribeGap,
    /// Have the events of the attribute server delivered to the server.
    SubscribeGatts,
    RegisterApp { app_id: u16 },
    SetDeviceName { name: &'static str },
    SetAdvConf { conf: AdvConfiguration },
    StartAdvertising,
    CreateService { gatt_if: u8, service_id: ServiceId, num_handles: u16 },
    StartService { service_handle: u16 },
    AddCharacteristic { service_handle: u16, characteristic: Characteristic },
    AddDescriptor { service_handle: u16, descriptor: Descriptor },
    SetConnParams {
        addr: BdAddr,
        min_int_ms: u32,
        max_int_ms: u32,
        latency_ms: u32,
        timeout_ms: u32,
    },
    SendResponse {
        gatt_if: u8,
        conn_id: u16,
        trans_id: u32,
        status: GattStatus,
        response: Option<Response>,
    },
    /// Send `data` as an indication on the link `conn_id`, which belongs to
    /// `peer`.
    Indicate { gatt_if: u8, conn_id: u16, attr_handle: u16, peer: BdAddr, data: Vec<u8> },
    /// Wake every sender that waits for a confirmation.
    NotifyWaiters,
}

/// A [`Command`] with its text and bytes as sequences.
pub enum CommandView {
    SubscribeGap,
    SubscribeGatts,
    RegisterApp { app_id: u16 },
    SetDeviceName { name: Seq<char> },
    SetAdvConf { conf: AdvConfiguration },
    StartAdvertising,
    CreateService { gatt_if: u8, service_id: ServiceId, num_handles: u16 },
    StartService { service_handle: u16 },
    AddCharacteristic { service_handle: u16, characteristic: Characteristic },
    AddDescriptor { service_handle: u16, descriptor: Descriptor },
    SetConnParams {
        addr: BdAddr,
        min_int_ms: u32,
        max_int_ms: u32,
        latency_ms: u32,
        timeout_ms: u32,
    },
    SendResponse {
        gatt_if: u8,
        conn_id: u16,
        trans_id: u32,
        status: GattStatus,
        response: Option<ResponseView>,
    },
    Indicate { gatt_if: u8, conn_id: u16, attr_handle: u16, peer: BdAddr, data: Seq<u8> },
    NotifyWaiters,
}

impl DeepView for Command {
    type V = CommandView;

    open spec fn deep_view(&self) -> CommandView {
        match *self {
            Command::SubscribeGap => CommandView::SubscribeGap,
            Command::SubscribeGatts => CommandView::SubscribeGatts,
            Command::RegisterApp { app_id } => CommandView::RegisterApp { app_id },
            Command::SetDeviceName { name } => CommandView::SetDeviceName { name: name@ },
            Command::SetAdvConf { conf } => CommandView::SetAdvConf { conf },
            Command::StartAdvertising => CommandView::StartAdvertising,
            Command::CreateService {
                gatt_if,
                service_id,
                num_handles,
            } => CommandView::CreateService { gatt_if, service_id, num_handles },
            Command::StartService { service_handle } => CommandView::StartService {
                service_handle,
            },
            Command::AddCharacteristic {
                service_handle,
                characteristic,
            } => CommandView::AddCharacteristic { service_handle, characteristic },
            Command::AddDescriptor { service_handle, descriptor } => CommandView::AddDescriptor {
                service_handle,
                descriptor,
            },
            Command::SetConnParams {
                addr,
                min_int_ms,
                max_int_ms,
                latency_ms,
                timeout_ms,
            } => CommandView::SetConnParams {
                addr,
                min_int_ms,
                max_int_ms,
                latency_ms,
                timeout_ms,
            },
            Command::SendResponse {
                gatt_if,
                conn_id,
                trans_id,
                status,
                response,
            } => CommandView::SendResponse {
                gatt_if,
                conn_id,
                trans_id,
                status,
                response: response.deep_view(),
            },
            Command::Indicate {
                gatt_if,
                conn_id,
                attr_handle,
                peer,
                data,
            } => CommandView::Indicate { gatt_if, conn_id, attr_handle, peer, data: data@ },
            Command::NotifyWaiters => CommandView::NotifyWaiters,
        }
    }
}

/// `commands` are the commands `expected`, one by one and in this order.
/// This is `commands.deep_view() == expected` in the form that serves a
/// caller who takes the commands one at a time.
pub open spec fn carries(commands: Seq<Command>, expected: Seq<CommandView>) -> bool {
    &&& commands.len() == expected.len()
    &&& forall|i: int|
        0 <= i < commands.len() ==> (#[trigger] commands[i]).deep_view() == expected[i]
}

/// A reply that holds commands carries the commands `expected` holds.
pub open spec fn reply_carries(
    reply: Result<Vec<Command>, ServerError>,
    expected: Result<Seq<CommandView>, ServerError>,
) -> bool {
    match (reply, expected) {
        (Ok(commands), Ok(views)) => carries(commands@, views),
        _ => true,
    }
}

/// The reply of an event handler with its commands as a sequence of views.
pub open spec fn reply_view(reply: Result<Vec<Command>, ServerError>) -> Result<
    Seq<CommandView>,
    ServerError,
> {
    match reply {
        Ok(commands) => Ok(commands.deep_view()),
        Err(e) => Err(e),
    }
}

} // verus!
