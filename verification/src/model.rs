//! The server as a state machine over mathematical values: its state, what
//! each event does to it and which commands each event asks for.
//!
//! The executable server in [`crate::bluetooth`] is specified against the
//! functions of this module.

use crate::addr::BdAddr;
use crate::command::{
    AdvConfiguration, AutoResponse, Characteristic, CommandView, Descriptor, Permissions,
    Properties, ResponseView, ServiceId, MAX_ATTR_LEN,
};
use crate::event::{BleGapEvent, GattsEvent};
use crate::status::{bt_status_outcome, gatt_status_outcome, GattStatus, ServerError};
use crate::table::{
    registered, removed, with_negotiated_size, with_subscription, Connection, MAX_CONNECTIONS,
};
use crate::uuid::{Uuid, CCCD_UUID, IND_CHARACTERISTIC_UUID, RECV_CHARACTERISTIC_UUID, SERVICE_UUID};
use vstd::prelude::*;

verus! {

/// The application id the server registers under.
pub const APP_ID: u16 = 0;

/// The name the device advertises.
pub const DEVICE_NAME: &'static str = "ESP32-IR-Recorder";

/// The advertising flags: general discoverable mode.
pub const ADV_FLAG: u8 = 2;

/// The number of attribute handles reserved for the service.
pub const SERVICE_NUM_HANDLES: u16 = 8;

/// The most bytes a value of either characteristic holds.
pub const CHARACTERISTIC_MAX_LEN: usize = 200;

/// Connection parameters asked for on every new link.
pub const CONN_MIN_INTERVAL_MS: u32 = 10;

pub const CONN_MAX_INTERVAL_MS: u32 = 20;

pub const CONN_LATENCY_MS: u32 = 0;

pub const CONN_TIMEOUT_MS: u32 = 400;

/// How far the one-time registration of the service has come.
#[derive(Debug, Clone, Copy, PartialEq, Eq, Structural)]
pub enum RegistrationPhase {
    /// The application is not registered yet.
    Unregistered,
    /// The application is registered; the service was asked for.
    AppRegistered,
    /// The service exists and is started; both characteristics were asked
    /// for.
    ServiceStarted,
    /// The indicated characteristic exists; its descriptor was asked for.
    DescriptorRequested,
    /// Every handle is known.
    Ready,
}

impl RegistrationPhase {
    /// Position of the phase in the order the registration runs through.
    pub open spec fn rank(self) -> nat {
        match self {
            RegistrationPhase::Unregistered => 0,
            RegistrationPhase::AppRegistered => 1,
            RegistrationPhase::ServiceStarted => 2,
            RegistrationPhase::DescriptorRequested => 3,
            RegistrationPhase::Ready => 4,
        }
    }
}

/// Everything the server remembers.
pub struct ServerState {
    /// Whether the stack has accepted the registration of the application.
    pub registration_requested: bool,
    /// Interface of the registered application.
    pub gatt_if: Option<u8>,
    pub service_handle: Option<u16>,
    /// Handle of the characteristic peers write to.
    pub recv_handle: Option<u16>,
    /// Handle of the characteristic peers are sent indications on.
    pub ind_handle: Option<u16>,
    /// Handle of the descriptor peers subscribe with.
    pub ind_cccd_handle: Option<u16>,
    /// The active links, in slot order.
    pub connections: Seq<Connection>,
    /// The peer whose confirmation of an indication is awaited.
    pub ind_confirmed: Option<BdAddr>,
    /// The coarse flag that says whether a peer is connected.
    pub connected: bool,
    /// Bytes peers have written and the application has not fetched yet.
    pub received: Seq<u8>,
}

/// What handling an event leaves behind: the state moved to and the commands
/// to carry out, in this order.
pub struct Reaction {
    pub state: ServerState,
    pub commands: Seq<CommandView>,
}

/// What applying a write request leaves behind.
pub struct Received {
    pub state: ServerState,
    /// Whether the write was addressed to an attribute of the server that
    /// takes writes.
    pub handled: bool,
}

/// What handling an event of the stack leaves behind; the reply is an error
/// where the event cannot be acted on.
pub struct Outcome {
    pub state: ServerState,
    pub reply: Result<Seq<CommandView>, ServerError>,
}

/// Anything that changes the state of the server.
pub enum Input {
    /// The stack delivered an event of the attribute server.
    Gatts { gatt_if: u8, event: GattsEvent },
    /// The stack accepted a command.
    Acknowledged { command: CommandView },
    /// The application fetched the inbound bytes.
    Drained,
}

/// What a sender has to do next.
pub enum SendStepView {
    /// Carry out this indication, then go on with the next slot.
    Issue(CommandView),
    /// An indication is unconfirmed: wait until it is, then ask again.
    Wait,
    /// Nothing is sent for this slot; go on with the next one.
    Skipped,
    /// Every slot was served.
    Finished,
}

/// The identity of the one service of the server.
pub open spec fn service_id() -> ServiceId {
    ServiceId { uuid: Uuid::Uuid128(SERVICE_UUID), inst_id: 0, is_primary: true }
}

/// The advertising payload: name, transmit power and the service.
pub open spec fn adv_configuration() -> AdvConfiguration {
    AdvConfiguration {
        include_name: true,
        include_txpower: true,
        flag: ADV_FLAG,
        service_uuid: Some(Uuid::Uuid128(SERVICE_UUID)),
    }
}

/// The characteristic peers write to: readable and writable.
pub open spec fn recv_characteristic() -> Characteristic {
    Characteristic {
        uuid: Uuid::Uuid128(RECV_CHARACTERISTIC_UUID),
        permissions: Permissions { read: true, write: true },
        properties: Properties { read: true, write: true, indicate: false },
        max_len: CHARACTERISTIC_MAX_LEN,
        auto_rsp: AutoResponse::ByGatt,
    }
}

/// The characteristic peers are sent indications on: readable, indicated.
pub open spec fn ind_characteristic() -> Characteristic {
    Characteristic {
        uuid: Uuid::Uuid128(IND_CHARACTERISTIC_UUID),
        permissions: Permissions { read: true, write: true },
        properties: Properties { read: true, write: false, indicate: true },
        max_len: CHARACTERISTIC_MAX_LEN,
        auto_rsp: AutoResponse::ByGatt,
    }
}

/// The descriptor peers subscribe with.
pub open spec fn cccd_descriptor() -> Descriptor {
    Descriptor {
        uuid: Uuid::Uuid16(CCCD_UUID),
        permissions: Permissions { read: true, write: true },
    }
}

/// Whether the two bytes written to the descriptor, read as a little-endian
/// number, are the value that enables indications.
pub open spec fn enables_indications(value: Seq<u8>) -> bool {
    value[0] == 0x02 && value[1] == 0x00
}

/// The commands that start the registration: both kinds of events are
/// subscribed to, then the application is registered.
pub open spec fn registration_commands() -> Seq<CommandView> {
    seq![
        CommandView::SubscribeGap,
        CommandView::SubscribeGatts,
        CommandView::RegisterApp { app_id: APP_ID },
    ]
}

/// The commands that add both characteristics to the service.
pub open spec fn add_characteristics(service_handle: u16) -> Seq<CommandView> {
    seq![
        CommandView::AddCharacteristic { service_handle, characteristic: recv_characteristic() },
        CommandView::AddCharacteristic { service_handle, characteristic: ind_characteristic() },
    ]
}

/// The reply to an event of the advertising layer: advertising is started
/// once it is configured and again whenever it has stopped.
pub open spec fn gap_reply(event: BleGapEvent) -> Result<Seq<CommandView>, ServerError> {
    match event {
        BleGapEvent::AdvertisingConfigured(status) => match bt_status_outcome(status) {
            Ok(_) => Ok(seq![CommandView::StartAdvertising]),
            Err(e) => Err(e),
        },
        BleGapEvent::AdvertisingStarted(status) => match bt_status_outcome(status) {
            Ok(_) => Ok(Seq::empty()),
            Err(e) => Err(e),
        },
        BleGapEvent::AdvertisingStopped(_) => Ok(seq![CommandView::StartAdvertising]),
        BleGapEvent::Other => Ok(Seq::empty()),
    }
}

/// The acknowledgement of a handled write request: none where the peer asked
/// for none, an echo of handle, offset and value for a prepared write, a
/// bare success otherwise.
pub open spec fn write_response(
    gatt_if: u8,
    conn_id: u16,
    trans_id: u32,
    handle: u16,
    offset: u16,
    need_rsp: bool,
    is_prep: bool,
    value: Seq<u8>,
) -> Result<Seq<CommandView>, ServerError> {
    if !need_rsp {
        Ok(Seq::empty())
    } else if is_prep {
        if value.len() > MAX_ATTR_LEN {
            Err(ServerError::ResponseTooLong)
        } else {
            Ok(
                seq![
                    CommandView::SendResponse {
                        gatt_if,
                        conn_id,
                        trans_id,
                        status: GattStatus::Success,
                        response: Some(
                            ResponseView { attr_handle: handle, auth_req: 0, offset, value },
                        ),
                    },
                ],
            )
        }
    } else {
        Ok(
            seq![
                CommandView::SendResponse {
                    gatt_if,
                    conn_id,
                    trans_id,
                    status: GattStatus::Success,
                    response: None,
                },
            ],
        )
    }
}

impl ServerState {
    /// The state of a server that has seen no event.
    pub open spec fn initial() -> ServerState {
        ServerState {
            registration_requested: false,
            gatt_if: None,
            service_handle: None,
            recv_handle: None,
            ind_handle: None,
            ind_cccd_handle: None,
            connections: Seq::empty(),
            ind_confirmed: None,
            connected: false,
            received: Seq::empty(),
        }
    }

    /// What starting the server asks for: the commands of the registration,
    /// and nothing once the stack has accepted the registration.
    pub open spec fn initialize(self) -> Seq<CommandView> {
        if self.registration_requested {
            Seq::empty()
        } else {
            registration_commands()
        }
    }

    /// How far the registration has come, going by the handles known.
    pub open spec fn phase(self) -> RegistrationPhase {
        if self.gatt_if is None {
            RegistrationPhase::Unregistered
        } else if self.service_handle is None {
            RegistrationPhase::AppRegistered
        } else if self.ind_handle is None {
            RegistrationPhase::ServiceStarted
        } else if self.recv_handle is None || self.ind_cccd_handle is None {
            RegistrationPhase::DescriptorRequested
        } else {
            RegistrationPhase::Ready
        }
    }

    /// The application was registered: name and advertising payload are
    /// set and the service is asked for.
    pub open spec fn create_service(self, gatt_if: u8) -> Reaction {
        Reaction {
            state: ServerState { gatt_if: Some(gatt_if), ..self },
            commands: seq![
                CommandView::SetDeviceName { name: DEVICE_NAME@ },
                CommandView::SetAdvConf { conf: adv_configuration() },
                CommandView::CreateService {
                    gatt_if,
                    service_id: service_id(),
                    num_handles: SERVICE_NUM_HANDLES,
                },
            ],
        }
    }

    /// The service was created: it is started and both characteristics are
    /// asked for.
    pub open spec fn configure_and_start_service(self, service_handle: u16) -> Reaction {
        Reaction {
            state: ServerState { service_handle: Some(service_handle), ..self },
            commands: seq![CommandView::StartService { service_handle }] + add_characteristics(
                service_handle,
            ),
        }
    }

    /// A characteristic was added: its handle is kept if it is one of the
    /// two of this service, and the descriptor is asked for once the
    /// indicated characteristic is there.
    pub open spec fn register_characteristic(
        self,
        service_handle: u16,
        attr_handle: u16,
        char_uuid: Uuid,
    ) -> Reaction {
        if self.service_handle != Some(service_handle) {
            Reaction { state: self, commands: Seq::empty() }
        } else if char_uuid == Uuid::Uuid128(RECV_CHARACTERISTIC_UUID) {
            Reaction {
                state: ServerState { recv_handle: Some(attr_handle), ..self },
                commands: Seq::empty(),
            }
        } else if char_uuid == Uuid::Uuid128(IND_CHARACTERISTIC_UUID) {
            Reaction {
                state: ServerState { ind_handle: Some(attr_handle), ..self },
                commands: seq![
                    CommandView::AddDescriptor { service_handle, descriptor: cccd_descriptor() },
                ],
            }
        } else {
            Reaction { state: self, commands: Seq::empty() }
        }
    }

    /// A descriptor was added: its handle is kept if it is the subscription
    /// descriptor of this service.
    pub open spec fn register_cccd_descriptor(
        self,
        service_handle: u16,
        attr_handle: u16,
        descr_uuid: Uuid,
    ) -> ServerState {
        if descr_uuid == Uuid::Uuid16(CCCD_UUID) && self.service_handle == Some(service_handle) {
            ServerState { ind_cccd_handle: Some(attr_handle), ..self }
        } else {
            self
        }
    }

    /// A payload size was negotiated on a link.
    pub open spec fn register_conn_mtu(self, conn_id: u16, mtu: u16) -> ServerState {
        ServerState { connections: with_negotiated_size(self.connections, conn_id, mtu), ..self }
    }

    /// A peer connected: it is entered into the table and a connection
    /// parameter update is asked for, unless the table is full.
    pub open spec fn create_conn(self, conn_id: u16, addr: BdAddr) -> Reaction {
        Reaction {
            state: ServerState { connections: registered(self.connections, addr, conn_id), ..self },
            commands: if self.connections.len() < MAX_CONNECTIONS {
                seq![
                    CommandView::SetConnParams {
                        addr,
                        min_int_ms: CONN_MIN_INTERVAL_MS,
                        max_int_ms: CONN_MAX_INTERVAL_MS,
                        latency_ms: CONN_LATENCY_MS,
                        timeout_ms: CONN_TIMEOUT_MS,
                    },
                ]
            } else {
                Seq::empty()
            },
        }
    }

    /// A peer disconnected: it leaves the table, the connected flag follows
    /// the table, and advertising is started again once the table is empty.
    pub open spec fn delete_conn(self, addr: BdAddr) -> Reaction {
        let connections = removed(self.connections, addr);
        Reaction {
            state: ServerState { connections, connected: connections.len() > 0, ..self },
            commands: if connections.len() == 0 {
                seq![CommandView::StartAdvertising]
            } else {
                Seq::empty()
            },
        }
    }

    /// The peer `addr` wrote `value` to the attribute `handle`; which link
    /// the write came over plays no part. A write of two bytes at offset 0
    /// to the subscription descriptor sets the subscription of the peer's
    /// entry, if it has one; any other write to the descriptor changes
    /// nothing. A write to the receive characteristic appends its bytes to
    /// the inbound buffer, whatever its offset and length. A write to any
    /// other attribute is not handled.
    pub open spec fn recv(self, addr: BdAddr, handle: u16, offset: u16, value: Seq<u8>)
        -> Received {
        if Some(handle) == self.ind_cccd_handle {
            if offset == 0 && value.len() == 2 {
                Received {
                    state: ServerState {
                        connections: with_subscription(
                            self.connections,
                            addr,
                            enables_indications(value),
                        ),
                        ..self
                    },
                    handled: true,
                }
            } else {
                Received { state: self, handled: true }
            }
        } else if Some(handle) == self.recv_handle {
            Received {
                state: ServerState { received: self.received + value, ..self },
                handled: true,
            }
        } else {
            Received { state: self, handled: false }
        }
    }

    /// The answer to a read request: success without a value for the two
    /// characteristics, the two-byte value "not subscribed" for the
    /// descriptor, an error for any other handle.
    pub open spec fn read_response(
        self,
        gatt_if: u8,
        conn_id: u16,
        trans_id: u32,
        handle: u16,
        offset: u16,
    ) -> CommandView {
        if Some(handle) == self.recv_handle || Some(handle) == self.ind_handle {
            CommandView::SendResponse {
                gatt_if,
                conn_id,
                trans_id,
                status: GattStatus::Success,
                response: None,
            }
        } else if Some(handle) == self.ind_cccd_handle {
            CommandView::SendResponse {
                gatt_if,
                conn_id,
                trans_id,
                status: GattStatus::Success,
                response: Some(
                    ResponseView {
                        attr_handle: handle,
                        auth_req: 0,
                        offset,
                        value: seq![0x00u8, 0x00u8],
                    },
                ),
            }
        } else {
            CommandView::SendResponse {
                gatt_if,
                conn_id,
                trans_id,
                status: GattStatus::Error,
                response: None,
            }
        }
    }

    /// The awaited confirmation arrived: nothing is pending any more and the
    /// waiting senders are woken.
    pub open spec fn confirm_indication(self) -> Reaction {
        Reaction {
            state: ServerState { ind_confirmed: None, ..self },
            commands: seq![CommandView::NotifyWaiters],
        }
    }

    /// What an event of the attribute server does.
    pub open spec fn on_gatts_event(self, gatt_if: u8, event: GattsEvent) -> Outcome {
        match event {
            GattsEvent::ServiceRegistered { status, app_id } => {
                if gatt_status_outcome(status) is Err {
                    self.failed()
                } else if app_id == APP_ID {
                    self.create_service(gatt_if).outcome()
                } else {
                    self.unmoved()
                }
            },
            GattsEvent::ServiceCreated { status, service_handle } => {
                if gatt_status_outcome(status) is Err {
                    self.failed()
                } else {
                    self.configure_and_start_service(service_handle).outcome()
                }
            },
            GattsEvent::CharacteristicAdded { status, attr_handle, service_handle, char_uuid } => {
                if gatt_status_outcome(status) is Err {
                    self.failed()
                } else {
                    self.register_characteristic(service_handle, attr_handle, char_uuid).outcome()
                }
            },
            GattsEvent::DescriptorAdded { status, attr_handle, service_handle, descr_uuid } => {
                if gatt_status_outcome(status) is Err {
                    self.failed()
                } else {
                    self.register_cccd_descriptor(service_handle, attr_handle, descr_uuid).unmoved()
                }
            },
            GattsEvent::Mtu { conn_id, mtu } => self.register_conn_mtu(conn_id, mtu).unmoved(),
            GattsEvent::PeerConnected { conn_id, addr } => self.create_conn(
                conn_id,
                addr,
            ).outcome(),
            GattsEvent::PeerDisconnected { addr } => self.delete_conn(addr).outcome(),
            GattsEvent::Read { conn_id, trans_id, addr, handle, offset } => Outcome {
                state: self,
                reply: Ok(seq![self.read_response(gatt_if, conn_id, trans_id, handle, offset)]),
            },
            GattsEvent::Write {
                conn_id,
                trans_id,
                addr,
                handle,
                offset,
                need_rsp,
                is_prep,
                value,
            } => {
                let received = self.recv(addr, handle, offset, value@);
                if received.handled {
                    Outcome {
                        state: received.state,
                        reply: write_response(
                            gatt_if,
                            conn_id,
                            trans_id,
                            handle,
                            offset,
                            need_rsp,
                            is_prep,
                            value@,
                        ),
                    }
                } else {
                    received.state.unmoved()
                }
            },
            GattsEvent::Confirm { status } => {
                if gatt_status_outcome(status) is Err {
                    self.failed()
                } else {
                    self.confirm_indication().outcome()
                }
            },
            GattsEvent::Other => self.unmoved(),
        }
    }

    /// Whether the server can take the event: every event but a
    /// confirmation that goes through while no indication is pending.
    pub open spec fn admits(self, event: GattsEvent) -> bool {
        event matches GattsEvent::Confirm { status } ==> gatt_status_outcome(status) is Err
            || self.ind_confirmed is Some
    }

    /// The outcome of an event that leaves this state and asks for nothing.
    pub open spec fn unmoved(self) -> Outcome {
        Outcome { state: self, reply: Ok(Seq::empty()) }
    }

    /// The outcome of an event whose status was a failure.
    pub open spec fn failed(self) -> Outcome {
        Outcome { state: self, reply: Err(ServerError::OperationFailed) }
    }

    /// The state after the stack accepted `command`: the registration of
    /// the application is remembered, a connection parameter update raises
    /// the connected flag, an indication becomes the pending one, any other
    /// command leaves the state as it is.
    pub open spec fn acknowledge(self, command: CommandView) -> ServerState {
        match command {
            CommandView::RegisterApp { .. } => ServerState { registration_requested: true, ..self },
            CommandView::SetConnParams { .. } => ServerState { connected: true, ..self },
            CommandView::Indicate { peer, .. } => ServerState { ind_confirmed: Some(peer), ..self },
            _ => self,
        }
    }

    /// The state after the application fetched the inbound bytes.
    pub open spec fn drained(self) -> ServerState {
        ServerState { received: Seq::empty(), ..self }
    }

    /// The state one input leads to.
    pub open spec fn step(self, input: Input) -> ServerState {
        match input {
            Input::Gatts { gatt_if, event } => self.on_gatts_event(gatt_if, event).state,
            Input::Acknowledged { command } => self.acknowledge(command),
            Input::Drained => self.drained(),
        }
    }

    /// The state a series of inputs leads to.
    pub open spec fn run(self, inputs: Seq<Input>) -> ServerState
        decreases inputs.len(),
    {
        if inputs.len() == 0 {
            self
        } else {
            self.run(inputs.drop_last()).step(inputs.last())
        }
    }

    /// What a sender that has come to `slot` has to do with `data`.
    pub open spec fn indicate(self, slot: nat, data: Seq<u8>) -> SendStepView {
        if slot >= MAX_CONNECTIONS {
            SendStepView::Finished
        } else if self.connections.len() <= slot || self.gatt_if is None
            || self.ind_handle is None {
            SendStepView::Skipped
        } else if self.ind_confirmed is None {
            SendStepView::Issue(
                CommandView::Indicate {
                    gatt_if: self.gatt_if->0,
                    conn_id: self.connections[slot as int].conn_id,
                    attr_handle: self.ind_handle->0,
                    peer: self.connections[slot as int].peer,
                    data,
                },
            )
        } else {
            SendStepView::Wait
        }
    }
}

impl Reaction {
    /// The reaction as the outcome of an event that went through.
    pub open spec fn outcome(self) -> Outcome {
        Outcome { state: self.state, reply: Ok(self.commands) }
    }
}

} // verus!
