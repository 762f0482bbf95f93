use ir_recorder::addr::BdAddr;
use ir_recorder::bluetooth::{BluetoothManager, SendStep};
use ir_recorder::command::Command;
use ir_recorder::event::GattsEvent;
use ir_recorder::status::{GattStatus, ServerError};
use ir_recorder::uuid::Uuid;

const GATT_IF: u8 = 3;
const IND_HANDLE: u16 = 44;
const CCCD_HANDLE: u16 = 45;

fn addr(last: u8) -> BdAddr {
    BdAddr::from_bytes([9, 8, 7, 6, 5, last])
}

fn ready() -> BluetoothManager {
    let mut manager = BluetoothManager::new();
    manager.create_service(GATT_IF);
    manager.configure_and_start_service(40);
    manager.register_characteristic(40, 42, Uuid::Uuid128(0xb6fccb5087be44f3ae22f85485ea42c4));
    manager.register_characteristic(40, IND_HANDLE, Uuid::Uuid128(0x503de214868246c4828fd59144da41be));
    manager.register_cccd_descriptor(40, CCCD_HANDLE, Uuid::Uuid16(0x2902));
    manager
}

fn connect(manager: &mut BluetoothManager, conn_id: u16, peer: BdAddr) {
    let commands = manager.on_gatts_event(GATT_IF, &GattsEvent::PeerConnected { conn_id, addr: peer }).unwrap();
    for command in &commands {
        manager.acknowledge(command);
    }
}

fn confirm(manager: &mut BluetoothManager) -> Vec<Command> {
    assert!(manager.pending_indication().is_some());
    manager.on_gatts_event(GATT_IF, &GattsEvent::Confirm { status: GattStatus::Success }).unwrap()
}

fn indication(conn_id: u16, peer: BdAddr, data: &[u8]) -> Command {
    Command::Indicate {
        gatt_if: GATT_IF,
        conn_id,
        attr_handle: IND_HANDLE,
        peer,
        data: data.to_vec(),
    }
}

#[test]
fn send_without_a_connection_fails_at_once() {
    let manager = ready();
    assert_eq!(manager.send_data(b"hi").err(), Some(ServerError::NotConnected));
    let fresh = BluetoothManager::new();
    assert_eq!(fresh.send_data(b"").err(), Some(ServerError::NotConnected));
}

#[test]
fn send_to_one_subscribed_peer_indicates_once_and_waits_for_the_confirmation() {
    let mut manager = ready();
    connect(&mut manager, 1, addr(1));
    assert!(manager.is_connected());
    assert_eq!(manager.connection_count(), 1);
    assert!(!manager.connection(0).unwrap().subscribed);
    let write = GattsEvent::Write {
        conn_id: 1,
        trans_id: 5,
        addr: addr(1),
        handle: CCCD_HANDLE,
        offset: 0,
        need_rsp: false,
        is_prep: false,
        value: vec![2, 0],
    };
    manager.on_gatts_event(GATT_IF, &write).unwrap();
    assert!(manager.connection(0).unwrap().subscribed);

    let mut first = manager.send_data(b"hi").unwrap();
    let step = manager.indicate(&mut first);
    assert_eq!(step, SendStep::Issue(indication(1, addr(1), b"hi")));
    if let SendStep::Issue(command) = &step {
        manager.acknowledge(command);
    }
    assert_eq!(manager.pending_indication(), Some(addr(1)));
    assert_eq!(manager.indicate(&mut first), SendStep::Skipped);
    assert_eq!(manager.indicate(&mut first), SendStep::Finished);
    assert_eq!(manager.indicate(&mut first), SendStep::Finished);

    let mut second = manager.send_data(b"again").unwrap();
    assert_eq!(manager.indicate(&mut second), SendStep::Wait);
    assert_eq!(manager.indicate(&mut second), SendStep::Wait);
    assert_eq!(confirm(&mut manager), vec![Command::NotifyWaiters]);
    assert_eq!(manager.pending_indication(), None);
    let step = manager.indicate(&mut second);
    assert_eq!(step, SendStep::Issue(indication(1, addr(1), b"again")));
}

#[test]
fn send_reaches_both_slots_although_neither_peer_subscribed() {
    let mut manager = ready();
    connect(&mut manager, 1, addr(1));
    connect(&mut manager, 2, addr(2));
    assert!(!manager.connection(0).unwrap().subscribed);
    assert!(!manager.connection(1).unwrap().subscribed);

    let mut transmission = manager.send_data(b"x").unwrap();
    let step = manager.indicate(&mut transmission);
    assert_eq!(step, SendStep::Issue(indication(1, addr(1), b"x")));
    if let SendStep::Issue(command) = &step {
        manager.acknowledge(command);
    }
    assert_eq!(manager.indicate(&mut transmission), SendStep::Wait);
    confirm(&mut manager);
    let step = manager.indicate(&mut transmission);
    assert_eq!(step, SendStep::Issue(indication(2, addr(2), b"x")));
    if let SendStep::Issue(command) = &step {
        manager.acknowledge(command);
    }
    assert_eq!(manager.indicate(&mut transmission), SendStep::Finished);
    assert_eq!(manager.pending_indication(), Some(addr(2)));
    confirm(&mut manager);
    assert_eq!(manager.pending_indication(), None);
}

#[test]
fn second_sender_waits_until_the_first_indication_is_confirmed() {
    let mut manager = ready();
    connect(&mut manager, 1, addr(1));
    connect(&mut manager, 2, addr(2));
    let mut first = manager.send_data(b"one").unwrap();
    let mut second = manager.send_data(b"two").unwrap();
    let step = manager.indicate(&mut first);
    if let SendStep::Issue(command) = &step {
        manager.acknowledge(command);
    } else {
        panic!("the first sender finds nothing pending");
    }
    assert_eq!(manager.indicate(&mut second), SendStep::Wait);
    assert_eq!(manager.indicate(&mut first), SendStep::Wait);
    manager.on_gatts_event(GATT_IF, &GattsEvent::Mtu { conn_id: 1, mtu: 100 }).unwrap();
    manager.on_gatts_event(GATT_IF, &GattsEvent::PeerDisconnected { addr: addr(2) }).unwrap();
    assert_eq!(manager.indicate(&mut second), SendStep::Wait);
    confirm(&mut manager);
    assert_eq!(manager.indicate(&mut second), SendStep::Issue(indication(1, addr(1), b"two")));
}

#[test]
fn failed_confirmation_keeps_the_indication_pending() {
    let mut manager = ready();
    connect(&mut manager, 1, addr(1));
    let mut transmission = manager.send_data(b"x").unwrap();
    if let SendStep::Issue(command) = manager.indicate(&mut transmission) {
        manager.acknowledge(&command);
    }
    for status in [GattStatus::Error, GattStatus::InternalError, GattStatus::Busy] {
        assert_eq!(
            manager.on_gatts_event(GATT_IF, &GattsEvent::Confirm { status }),
            Err(ServerError::OperationFailed)
        );
        assert!(manager.pending_indication().is_some());
    }
    assert_eq!(
        manager.on_gatts_event(GATT_IF, &GattsEvent::Confirm { status: GattStatus::Other }),
        Ok(vec![Command::NotifyWaiters])
    );
    assert_eq!(manager.pending_indication(), None);
}

#[test]
fn indication_that_was_not_accepted_leaves_nothing_pending() {
    let mut manager = ready();
    connect(&mut manager, 1, addr(1));
    let mut transmission = manager.send_data(b"x").unwrap();
    assert!(matches!(manager.indicate(&mut transmission), SendStep::Issue(_)));
    assert_eq!(manager.pending_indication(), None);
    let mut retry = manager.send_data(b"x").unwrap();
    assert_eq!(manager.indicate(&mut retry), SendStep::Issue(indication(1, addr(1), b"x")));
}

#[test]
fn send_before_the_indicated_characteristic_is_known_skips_every_slot() {
    let mut manager = BluetoothManager::new();
    manager.create_service(GATT_IF);
    connect(&mut manager, 1, addr(1));
    let mut transmission = manager.send_data(b"x").unwrap();
    assert_eq!(manager.indicate(&mut transmission), SendStep::Skipped);
    assert_eq!(manager.indicate(&mut transmission), SendStep::Skipped);
    assert_eq!(manager.indicate(&mut transmission), SendStep::Finished);
    assert_eq!(manager.pending_indication(), None);
}

#[test]
fn send_before_the_application_is_registered_skips_every_slot() {
    let mut manager = BluetoothManager::new();
    connect(&mut manager, 1, addr(1));
    connect(&mut manager, 2, addr(2));
    let mut transmission = manager.send_data(b"x").unwrap();
    assert_eq!(manager.indicate(&mut transmission), SendStep::Skipped);
    assert_eq!(manager.indicate(&mut transmission), SendStep::Skipped);
    assert_eq!(manager.indicate(&mut transmission), SendStep::Finished);
}

#[test]
fn empty_payload_is_indicated_too() {
    let mut manager = ready();
    connect(&mut manager, 6, addr(1));
    let mut transmission = manager.send_data(b"").unwrap();
    assert_eq!(manager.indicate(&mut transmission), SendStep::Issue(indication(6, addr(1), b"")));
}
