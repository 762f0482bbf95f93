//! The server: one owned state object whose methods take the events of the
//! Bluetooth stack and answer with the commands to carry out.
//!
//! The caller keeps the object behind its lock, feeds it every event, carries
//! out the commands of the reply in order and reports each command the stack
//! accepted with [`BluetoothManager::acknowledge`]; it stops at the first
//! command the stack refuses.

use crate::addr::BdAddr;
use crate::command::{
    carries, reply_carries, reply_view, AdvConfiguration, AutoResponse, Characteristic, Command,
    CommandView, Descriptor, Permissions, Properties, Response, ServiceId, MAX_ATTR_LEN,
};
use crate::event::{BleGapEvent, GattsEvent};
use crate::model;
use crate::model::{
    RegistrationPhase, SendStepView, ServerState, ADV_FLAG, APP_ID, CHARACTERISTIC_MAX_LEN,
    CONN_LATENCY_MS, CONN_MAX_INTERVAL_MS, CONN_MIN_INTERVAL_MS, CONN_TIMEOUT_MS, DEVICE_NAME,
    SERVICE_NUM_HANDLES,
};
use crate::status::{check_bt_status, check_gatt_status, GattStatus, ServerError};
use crate::table::{Connection, ConnectionTable, MAX_CONNECTIONS};
use crate::uuid::{Uuid, CCCD_UUID, IND_CHARACTERISTIC_UUID, RECV_CHARACTERISTIC_UUID, SERVICE_UUID};
use vstd::prelude::*;
use vstd::slice::slice_to_vec;

verus! {

/// The GATT server.
pub struct BluetoothManager {
    registration_requested: bool,
    gatt_if: Option<u8>,
    service_handle: Option<u16>,
    recv_handle: Option<u16>,
    ind_handle: Option<u16>,
    ind_cccd_handle: Option<u16>,
    connections: ConnectionTable,
    ind_confirmed: Option<BdAddr>,
    is_connected: bool,
    received_data: Vec<u8>,
}

impl View for BluetoothManager {
    type V = ServerState;

    closed spec fn view(&self) -> ServerState {
        ServerState {
            registration_requested: self.registration_requested,
            gatt_if: self.gatt_if,
            service_handle: self.service_handle,
            recv_handle: self.recv_handle,
            ind_handle: self.ind_handle,
            ind_cccd_handle: self.ind_cccd_handle,
            connections: self.connections@,
            ind_confirmed: self.ind_confirmed,
            connected: self.is_connected,
            received: self.received_data@,
        }
    }
}

/// One call of `send_data` on its way through the slots of the connection
/// table.
pub struct Transmission {
    slot: usize,
    data: Vec<u8>,
}

impl Transmission {
    /// The slot that is served next.
    pub closed spec fn slot(&self) -> nat {
        self.slot as nat
    }

    /// The bytes that are sent.
    pub closed spec fn data(&self) -> Seq<u8> {
        self.data@
    }
}

/// What a sender has to do next.
#[derive(Debug, Clone, PartialEq, Eq)]
pub enum SendStep {
    /// Carry out this indication, acknowledge it, release the state and go
    /// on with the next slot.
    Issue(Command),
    /// An indication is unconfirmed: wait until the senders are woken, then
    /// ask again.
    Wait,
    /// Nothing is sent for this slot: release the state and go on with the
    /// next slot.
    Skipped,
    /// Every slot was served.
    Finished,
}

impl DeepView for SendStep {
    type V = SendStepView;

    open spec fn deep_view(&self) -> SendStepView {
        match self {
            SendStep::Issue(command) => SendStepView::Issue(command.deep_view()),
            SendStep::Wait => SendStepView::Wait,
            SendStep::Skipped => SendStepView::Skipped,
            SendStep::Finished => SendStepView::Finished,
        }
    }
}

impl BluetoothManager {
    /// A server that has seen no event.
    pub fn new() -> (manager: Self)
        ensures
            manager@ == ServerState::initial(),
    {
        BluetoothManager {
            registration_requested: false,
            gatt_if: None,
            service_handle: None,
            recv_handle: None,
            ind_handle: None,
            ind_cccd_handle: None,
            connections: ConnectionTable::new(),
            ind_confirmed: None,
            is_connected: false,
            received_data: Vec::new(),
        }
    }

    /// Starts the registration: asks for both kinds of events and for the
    /// application to be registered. Once the stack has accepted the
    /// registration, the call asks for nothing, however often it is repeated.
    pub fn initialize(&self) -> (commands: Vec<Command>)
        ensures
            commands.deep_view() == self@.initialize(),
            carries(commands@, self@.initialize()),
    {
        let mut commands = Vec::new();
        if !self.registration_requested {
            commands.push(Command::SubscribeGap);
            commands.push(Command::SubscribeGatts);
            commands.push(Command::RegisterApp { app_id: APP_ID });
        }
        assert(commands.deep_view() =~= self@.initialize());
        commands
    }

    /// Handles an event of the advertising layer.
    pub fn on_gap_event(&self, event: BleGapEvent) -> (reply: Result<Vec<Command>, ServerError>)
        ensures
            reply_view(reply) == model::gap_reply(event),
            reply_carries(reply, model::gap_reply(event)),
    {
        let mut commands = Vec::new();
        match event {
            BleGapEvent::AdvertisingConfigured(status) => {
                check_bt_status(status)?;
                commands.push(Command::StartAdvertising);
                assert(commands.deep_view() =~= seq![CommandView::StartAdvertising]);
            },
            BleGapEvent::AdvertisingStarted(status) => {
                check_bt_status(status)?;
                assert(commands.deep_view() =~= Seq::<CommandView>::empty());
            },
            BleGapEvent::AdvertisingStopped(_) => {
                commands.push(Command::StartAdvertising);
                assert(commands.deep_view() =~= seq![CommandView::StartAdvertising]);
            },
            BleGapEvent::Other => {
                assert(commands.deep_view() =~= Seq::<CommandView>::empty());
            },
        }
        Ok(commands)
    }

    /// Handles an event of the attribute server.
    ///
    /// A confirmation that arrives while no indication is pending is an
    /// inconsistency the server does not recover from; the precondition
    /// leaves it out.
    pub fn on_gatts_event(&mut self, gatt_if: u8, event: &GattsEvent) -> (reply: Result<
        Vec<Command>,
        ServerError,
    >)
        requires
            old(self)@.admits(*event),
        ensures
            final(self)@ == old(self)@.on_gatts_event(gatt_if, *event).state,
            reply_view(reply) == old(self)@.on_gatts_event(gatt_if, *event).reply,
            reply_carries(reply, old(self)@.on_gatts_event(gatt_if, *event).reply),
    {
        match event {
            GattsEvent::ServiceRegistered { status, app_id } => {
                check_gatt_status(*status)?;
                if APP_ID == *app_id {
                    Ok(self.create_service(gatt_if))
                } else {
                    Ok(Self::no_commands())
                }
            },
            GattsEvent::ServiceCreated { status, service_handle } => {
                check_gatt_status(*status)?;
                Ok(self.configure_and_start_service(*service_handle))
            },
            GattsEvent::CharacteristicAdded { status, attr_handle, service_handle, char_uuid } => {
                check_gatt_status(*status)?;
                Ok(self.register_characteristic(*service_handle, *attr_handle, *char_uuid))
            },
            GattsEvent::DescriptorAdded { status, attr_handle, service_handle, descr_uuid } => {
                check_gatt_status(*status)?;
                self.register_cccd_descriptor(*service_handle, *attr_handle, *descr_uuid);
                Ok(Self::no_commands())
            },
            GattsEvent::Mtu { conn_id, mtu } => {
                self.register_conn_mtu(*conn_id, *mtu);
                Ok(Self::no_commands())
            },
            GattsEvent::PeerConnected { conn_id, addr } => Ok(self.create_conn(*conn_id, *addr)),
            GattsEvent::PeerDisconnected { addr } => Ok(self.delete_conn(*addr)),
            GattsEvent::Read { conn_id, trans_id, addr, handle, offset } => {
                let mut commands = Vec::new();
                commands.push(self.read_response(gatt_if, *conn_id, *trans_id, *handle, *offset));
                assert(commands.deep_view() =~= seq![
                    self@.read_response(gatt_if, *conn_id, *trans_id, *handle, *offset),
                ]);
                Ok(commands)
            },
            GattsEvent::Write {
                conn_id,
                trans_id,
                addr,
                handle,
                offset,
                need_rsp,
                is_prep,
                value,
            } => {
                if self.recv(*addr, *handle, *offset, value.as_slice()) {
                    Self::send_write_response(
                        gatt_if,
                        *conn_id,
                        *trans_id,
                        *handle,
                        *offset,
                        *need_rsp,
                        *is_prep,
                        value.as_slice(),
                    )
                } else {
                    Ok(Self::no_commands())
                }
            },
            GattsEvent::Confirm { status } => {
                check_gatt_status(*status)?;
                Ok(self.confirm_indication())
            },
            GattsEvent::Other => Ok(Self::no_commands()),
        }
    }

    fn no_commands() -> (commands: Vec<Command>)
        ensures
            commands.deep_view() == Seq::<CommandView>::empty(),
            carries(commands@, Seq::<CommandView>::empty()),
    {
        let commands = Vec::new();
        assert(commands.deep_view() =~= Seq::<CommandView>::empty());
        commands
    }

    /// Keeps the interface of the registered application and asks for the
    /// device name, the advertising payload and the service.
    pub fn create_service(&mut self, gatt_if: u8) -> (commands: Vec<Command>)
        ensures
            final(self)@ == old(self)@.create_service(gatt_if).state,
            commands.deep_view() == old(self)@.create_service(gatt_if).commands,
            carries(commands@, old(self)@.create_service(gatt_if).commands),
    {
        self.gatt_if = Some(gatt_if);
        let mut commands = Vec::new();
        commands.push(Command::SetDeviceName { name: DEVICE_NAME });
        commands.push(
            Command::SetAdvConf {
                conf: AdvConfiguration {
                    include_name: true,
                    include_txpower: true,
                    flag: ADV_FLAG,
                    service_uuid: Some(Uuid::Uuid128(SERVICE_UUID)),
                },
            },
        );
        commands.push(
            Command::CreateService {
                gatt_if,
                service_id: ServiceId {
                    uuid: Uuid::Uuid128(SERVICE_UUID),
                    inst_id: 0,
                    is_primary: true,
                },
                num_handles: SERVICE_NUM_HANDLES,
            },
        );
        assert(commands.deep_view() =~= old(self)@.create_service(gatt_if).commands);
        commands
    }

    /// Keeps the handle of the service, starts it and asks for both
    /// characteristics.
    pub fn configure_and_start_service(&mut self, service_handle: u16) -> (commands: Vec<Command>)
        ensures
            final(self)@ == old(self)@.configure_and_start_service(service_handle).state,
            commands.deep_view() == old(self)@.configure_and_start_service(service_handle).commands,
            carries(commands@, old(self)@.configure_and_start_service(service_handle).commands),
    {
        self.service_handle = Some(service_handle);
        let mut commands = Vec::new();
        commands.push(Command::StartService { service_handle });
        let mut characteristics = Self::add_characteristics(service_handle);
        commands.append(&mut characteristics);
        assert(commands.deep_view() =~= old(self)@.configure_and_start_service(
            service_handle,
        ).commands);
        commands
    }

    /// The commands that add the receive characteristic and the indicated
    /// characteristic to the service.
    pub fn add_characteristics(service_handle: u16) -> (commands: Vec<Command>)
        ensures
            commands.deep_view() == model::add_characteristics(service_handle),
            carries(commands@, model::add_characteristics(service_handle)),
    {
        let mut commands = Vec::new();
        commands.push(
            Command::AddCharacteristic {
                service_handle,
                characteristic: Characteristic {
                    uuid: Uuid::Uuid128(RECV_CHARACTERISTIC_UUID),
                    permissions: Permissions { read: true, write: true },
                    properties: Properties { read: true, write: true, indicate: false },
                    max_len: CHARACTERISTIC_MAX_LEN,
                    auto_rsp: AutoResponse::ByGatt,
                },
            },
        );
        commands.push(
            Command::AddCharacteristic {
                service_handle,
                characteristic: Characteristic {
                    uuid: Uuid::Uuid128(IND_CHARACTERISTIC_UUID),
                    permissions: Permissions { read: true, write: true },
                    properties: Properties { read: true, write: false, indicate: true },
                    max_len: CHARACTERISTIC_MAX_LEN,
                    auto_rsp: AutoResponse::ByGatt,
                },
            },
        );
        assert(commands.deep_view() =~= model::add_characteristics(service_handle));
        commands
    }

    /// Keeps the handle of a characteristic that was added to the service
    /// and asks for the subscription descriptor once the indicated
    /// characteristic is there.
    pub fn register_characteristic(
        &mut self,
        service_handle: u16,
        attr_handle: u16,
        char_uuid: Uuid,
    ) -> (commands: Vec<Command>)
        ensures
            final(self)@ == old(self)@.register_characteristic(
                service_handle,
                attr_handle,
                char_uuid,
            ).state,
            commands.deep_view() == old(self)@.register_characteristic(
                service_handle,
                attr_handle,
                char_uuid,
            ).commands,
            carries(commands@, old(self)@.register_characteristic(
                service_handle,
                attr_handle,
                char_uuid,
            ).commands),
    {
        let mut commands = Vec::new();
        if self.service_handle != Some(service_handle) {
        } else if char_uuid == Uuid::Uuid128(RECV_CHARACTERISTIC_UUID) {
            self.recv_handle = Some(attr_handle);
        } else if char_uuid == Uuid::Uuid128(IND_CHARACTERISTIC_UUID) {
            self.ind_handle = Some(attr_handle);
            commands.push(
                Command::AddDescriptor {
                    service_handle,
                    descriptor: Descriptor {
                        uuid: Uuid::Uuid16(CCCD_UUID),
                        permissions: Permissions { read: true, write: true },
                    },
                },
            );
        }
        assert(commands.deep_view() =~= old(self)@.register_characteristic(
            service_handle,
            attr_handle,
            char_uuid,
        ).commands);
        commands
    }

    /// Keeps the handle of the subscription descriptor of the service.
    pub fn register_cccd_descriptor(
        &mut self,
        service_handle: u16,
        attr_handle: u16,
        descr_uuid: Uuid,
    )
        ensures
            final(self)@ == old(self)@.register_cccd_descriptor(
                service_handle,
                attr_handle,
                descr_uuid,
            ),
    {
        if descr_uuid == Uuid::Uuid16(CCCD_UUID) && self.service_handle == Some(service_handle) {
            self.ind_cccd_handle = Some(attr_handle);
        }
    }

    /// Records the payload size negotiated on a link.
    pub fn register_conn_mtu(&mut self, conn_id: u16, mtu: u16)
        ensures
            final(self)@ == old(self)@.register_conn_mtu(conn_id, mtu),
    {
        self.connections.set_negotiated_size(conn_id, mtu);
    }

    /// Enters a peer that connected and asks for the connection parameters
    /// of its link. A full table turns the peer away without a command.
    pub fn create_conn(&mut self, conn_id: u16, addr: BdAddr) -> (commands: Vec<Command>)
        ensures
            final(self)@ == old(self)@.create_conn(conn_id, addr).state,
            old(self)@.connections.len() < MAX_CONNECTIONS ==> final(self)@.connections.last()
                == Connection::opened(addr, conn_id),
            commands.deep_view() == old(self)@.create_conn(conn_id, addr).commands,
            carries(commands@, old(self)@.create_conn(conn_id, addr).commands),
    {
        let mut commands = Vec::new();
        if self.connections.register(addr, conn_id) {
            commands.push(
                Command::SetConnParams {
                    addr,
                    min_int_ms: CONN_MIN_INTERVAL_MS,
                    max_int_ms: CONN_MAX_INTERVAL_MS,
                    latency_ms: CONN_LATENCY_MS,
                    timeout_ms: CONN_TIMEOUT_MS,
                },
            );
        }
        assert(commands.deep_view() =~= old(self)@.create_conn(conn_id, addr).commands);
        commands
    }

    /// Takes a peer that disconnected out of the table and asks for
    /// advertising once no peer is left.
    pub fn delete_conn(&mut self, addr: BdAddr) -> (commands: Vec<Command>)
        ensures
            final(self)@ == old(self)@.delete_conn(addr).state,
            commands.deep_view() == old(self)@.delete_conn(addr).commands,
            carries(commands@, old(self)@.delete_conn(addr).commands),
    {
        self.connections.remove(addr);
        let mut commands = Vec::new();
        if self.connections.is_empty() {
            self.is_connected = false;
            commands.push(Command::StartAdvertising);
        } else {
            self.is_connected = true;
        }
        assert(commands.deep_view() =~= old(self)@.delete_conn(addr).commands);
        commands
    }

    /// Applies the write of the peer `addr` to the attribute `handle` and
    /// says whether the attribute is one of the server that takes writes.
    pub fn recv(&mut self, addr: BdAddr, handle: u16, offset: u16, value: &[u8]) -> (handled: bool)
        ensures
            final(self)@ == old(self)@.recv(addr, handle, offset, value@).state,
            handled == old(self)@.recv(addr, handle, offset, value@).handled,
    {
        if Some(handle) == self.ind_cccd_handle {
            if offset == 0 && value.len() == 2 {
                let enable = value[0] == 0x02 && value[1] == 0x00;
                self.connections.set_subscription(addr, enable);
            }
            true
        } else if Some(handle) == self.recv_handle {
            self.received_data.extend_from_slice(value);
            assert(self.received_data@ =~= old(self).received_data@ + value@);
            true
        } else {
            false
        }
    }

    /// The answer to a read request.
    pub fn read_response(&self, gatt_if: u8, conn_id: u16, trans_id: u32, handle: u16, offset: u16)
        -> (command: Command)
        ensures
            command.deep_view() == self@.read_response(gatt_if, conn_id, trans_id, handle, offset),
    {
        if Some(handle) == self.recv_handle || Some(handle) == self.ind_handle {
            Command::SendResponse {
                gatt_if,
                conn_id,
                trans_id,
                status: GattStatus::Success,
                response: None,
            }
        } else if Some(handle) == self.ind_cccd_handle {
            let mut value = Vec::new();
            value.push(0x00u8);
            value.push(0x00u8);
            assert(value@ =~= seq![0x00u8, 0x00u8]);
            Command::SendResponse {
                gatt_if,
                conn_id,
                trans_id,
                status: GattStatus::Success,
                response: Some(Response { attr_handle: handle, auth_req: 0, offset, value }),
            }
        } else {
            Command::SendResponse {
                gatt_if,
                conn_id,
                trans_id,
                status: GattStatus::Error,
                response: None,
            }
        }
    }

    /// The acknowledgement of a write request that was handled.
    pub fn send_write_response(
        gatt_if: u8,
        conn_id: u16,
        trans_id: u32,
        handle: u16,
        offset: u16,
        need_rsp: bool,
        is_prep: bool,
        value: &[u8],
    ) -> (reply: Result<Vec<Command>, ServerError>)
        ensures
            reply_view(reply) == model::write_response(
                gatt_if,
                conn_id,
                trans_id,
                handle,
                offset,
                need_rsp,
                is_prep,
                value@,
            ),
            reply_carries(
                reply,
                model::write_response(
                    gatt_if,
                    conn_id,
                    trans_id,
                    handle,
                    offset,
                    need_rsp,
                    is_prep,
                    value@,
                ),
            ),
    {
        let mut commands = Vec::new();
        if !need_rsp {
        } else if is_prep {
            if value.len() > MAX_ATTR_LEN {
                return Err(ServerError::ResponseTooLong);
            }
            commands.push(
                Command::SendResponse {
                    gatt_if,
                    conn_id,
                    trans_id,
                    status: GattStatus::Success,
                    response: Some(
                        Response {
                            attr_handle: handle,
                            auth_req: 0,
                            offset,
                            value: slice_to_vec(value),
                        },
                    ),
                },
            );
        } else {
            commands.push(
                Command::SendResponse {
                    gatt_if,
                    conn_id,
                    trans_id,
                    status: GattStatus::Success,
                    response: None,
                },
            );
        }
        let ghost expected = model::write_response(
            gatt_if,
            conn_id,
            trans_id,
            handle,
            offset,
            need_rsp,
            is_prep,
            value@,
        );
        assert(expected is Ok && commands.deep_view() =~= expected->Ok_0);
        Ok(commands)
    }

    /// Takes note of the confirmation of the pending indication and asks for
    /// the waiting senders to be woken.
    pub fn confirm_indication(&mut self) -> (commands: Vec<Command>)
        requires
            old(self)@.ind_confirmed is Some,
        ensures
            final(self)@ == old(self)@.confirm_indication().state,
            commands.deep_view() == old(self)@.confirm_indication().commands,
            carries(commands@, old(self)@.confirm_indication().commands),
    {
        self.ind_confirmed = None;
        let mut commands = Vec::new();
        commands.push(Command::NotifyWaiters);
        assert(commands.deep_view() =~= old(self)@.confirm_indication().commands);
        commands
    }

    /// Takes note that the stack accepted `command`.
    pub fn acknowledge(&mut self, command: &Command)
        ensures
            final(self)@ == old(self)@.acknowledge(command.deep_view()),
    {
        match command {
            Command::RegisterApp { .. } => {
                self.registration_requested = true;
            },
            Command::SetConnParams { .. } => {
                self.is_connected = true;
            },
            Command::Indicate { peer, .. } => {
                self.ind_confirmed = Some(*peer);
            },
            _ => {},
        }
    }

    /// Whether a peer is connected.
    pub fn is_connected(&self) -> (connected: bool)
        ensures
            connected == self@.connected,
    {
        self.is_connected
    }

    /// The peer whose confirmation of an indication is awaited, if any.
    pub fn pending_indication(&self) -> (peer: Option<BdAddr>)
        ensures
            peer == self@.ind_confirmed,
    {
        self.ind_confirmed
    }

    /// How far the registration has come.
    pub fn phase(&self) -> (phase: RegistrationPhase)
        ensures
            phase == self@.phase(),
    {
        if self.gatt_if.is_none() {
            RegistrationPhase::Unregistered
        } else if self.service_handle.is_none() {
            RegistrationPhase::AppRegistered
        } else if self.ind_handle.is_none() {
            RegistrationPhase::ServiceStarted
        } else if self.recv_handle.is_none() || self.ind_cccd_handle.is_none() {
            RegistrationPhase::DescriptorRequested
        } else {
            RegistrationPhase::Ready
        }
    }

    /// The number of active links.
    pub fn connection_count(&self) -> (n: usize)
        ensures
            n == self@.connections.len(),
            n <= MAX_CONNECTIONS,
    {
        self.connections.len()
    }

    /// The link in slot `index`, if the slot is taken.
    pub fn connection(&self, index: usize) -> (entry: Option<Connection>)
        ensures
            entry == (if index < self@.connections.len() {
                Some(self@.connections[index as int])
            } else {
                None
            }),
    {
        self.connections.get(index)
    }

    /// Hands out the bytes peers have written since the last call, in the
    /// order they were written, and empties the buffer.
    pub fn get_received_data(&mut self) -> (data: Vec<u8>)
        ensures
            data@ == old(self)@.received,
            final(self)@ == old(self)@.drained(),
    {
        let mut data = Vec::new();
        core::mem::swap(&mut data, &mut self.received_data);
        data
    }

    /// Begins to send `data` to the connected peers. Fails at once while no
    /// peer is connected.
    pub fn send_data(&self, data: &[u8]) -> (begun: Result<Transmission, ServerError>)
        ensures
            begun is Ok <==> self@.connected,
            begun matches Ok(transmission) ==> transmission.slot() == 0 && transmission.data()
                == data@,
            begun matches Err(e) ==> e == ServerError::NotConnected,
    {
        if !self.is_connected {
            return Err(ServerError::NotConnected);
        }
        Ok(Transmission { slot: 0, data: slice_to_vec(data) })
    }

    /// Decides what a sender has to do for the slot its transmission has
    /// come to, and moves the transmission on where the slot is done with.
    pub fn indicate(&self, transmission: &mut Transmission) -> (step: SendStep)
        ensures
            step.deep_view() == self@.indicate(old(transmission).slot(), old(transmission).data()),
            final(transmission).data() == old(transmission).data(),
            final(transmission).slot() == (if step is Issue || step is Skipped {
                old(transmission).slot() + 1
            } else {
                old(transmission).slot()
            }),
    {
        if transmission.slot >= MAX_CONNECTIONS {
            return SendStep::Finished;
        }
        let entry = match self.connections.get(transmission.slot) {
            Some(entry) => entry,
            None => {
                transmission.slot = transmission.slot + 1;
                return SendStep::Skipped;
            },
        };
        let gatt_if: u8 = match self.gatt_if {
            Some(gatt_if) => gatt_if,
            None => {
                transmission.slot = transmission.slot + 1;
                return SendStep::Skipped;
            },
        };
        let ind_handle: u16 = match self.ind_handle {
            Some(ind_handle) => ind_handle,
            None => {
                transmission.slot = transmission.slot + 1;
                return SendStep::Skipped;
            },
        };
        if self.ind_confirmed.is_none() {
            let data = slice_to_vec(transmission.data.as_slice());
            transmission.slot = transmission.slot + 1;
            SendStep::Issue(
                Command::Indicate {
                    gatt_if,
                    conn_id: entry.conn_id,
                    attr_handle: ind_handle,
                    peer: entry.peer,
                    data,
                },
            )
        } else {
            SendStep::Wait
        }
    }
}

} // verus!
