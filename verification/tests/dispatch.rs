use ir_recorder::addr::BdAddr;
use ir_recorder::bluetooth::BluetoothManager;
use ir_recorder::command::{Command, Response};
use ir_recorder::event::GattsEvent;
use ir_recorder::status::{GattStatus, ServerError};
use ir_recorder::uuid::Uuid;

const GATT_IF: u8 = 3;
const SERVICE_HANDLE: u16 = 40;
const RECV_HANDLE: u16 = 42;
const IND_HANDLE: u16 = 44;
const CCCD_HANDLE: u16 = 45;

fn addr(last: u8) -> BdAddr {
    BdAddr::from_bytes([1, 2, 3, 4, 5, last])
}

fn ready() -> BluetoothManager {
    let mut manager = BluetoothManager::new();
    manager.create_service(GATT_IF);
    manager.configure_and_start_service(SERVICE_HANDLE);
    manager.register_characteristic(SERVICE_HANDLE, RECV_HANDLE, Uuid::Uuid128(0xb6fccb5087be44f3ae22f85485ea42c4));
    manager.register_characteristic(SERVICE_HANDLE, IND_HANDLE, Uuid::Uuid128(0x503de214868246c4828fd59144da41be));
    manager.register_cccd_descriptor(SERVICE_HANDLE, CCCD_HANDLE, Uuid::Uuid16(0x2902));
    manager
}

fn ready_with_peer(conn_id: u16, peer: BdAddr) -> BluetoothManager {
    let mut manager = ready();
    let commands = manager.create_conn(conn_id, peer);
    manager.acknowledge(&commands[0]);
    manager
}

fn write(conn_id: u16, peer: BdAddr, handle: u16, offset: u16, value: &[u8]) -> GattsEvent {
    GattsEvent::Write {
        conn_id,
        trans_id: 77,
        addr: peer,
        handle,
        offset,
        need_rsp: true,
        is_prep: false,
        value: value.to_vec(),
    }
}

fn bare_success(conn_id: u16) -> Command {
    Command::SendResponse {
        gatt_if: GATT_IF,
        conn_id,
        trans_id: 77,
        status: GattStatus::Success,
        response: None,
    }
}

#[test]
fn read_of_either_characteristic_answers_success_without_value() {
    let mut manager = ready();
    for handle in [RECV_HANDLE, IND_HANDLE] {
        let reply = manager.on_gatts_event(
            GATT_IF,
            &GattsEvent::Read { conn_id: 1, trans_id: 9, addr: addr(1), handle, offset: 0 },
        );
        assert_eq!(
            reply,
            Ok(vec![Command::SendResponse {
                gatt_if: GATT_IF,
                conn_id: 1,
                trans_id: 9,
                status: GattStatus::Success,
                response: None,
            }])
        );
    }
}

#[test]
fn read_of_the_cccd_answers_not_subscribed() {
    let mut manager = ready_with_peer(1, addr(1));
    manager.on_gatts_event(GATT_IF, &write(1, addr(1), CCCD_HANDLE, 0, &[2, 0])).unwrap();
    assert!(manager.connection(0).unwrap().subscribed);
    let reply = manager.on_gatts_event(
        GATT_IF,
        &GattsEvent::Read { conn_id: 1, trans_id: 9, addr: addr(1), handle: CCCD_HANDLE, offset: 5 },
    );
    assert_eq!(
        reply,
        Ok(vec![Command::SendResponse {
            gatt_if: GATT_IF,
            conn_id: 1,
            trans_id: 9,
            status: GattStatus::Success,
            response: Some(Response {
                attr_handle: CCCD_HANDLE,
                auth_req: 0,
                offset: 5,
                value: vec![0x00, 0x00],
            }),
        }])
    );
}

#[test]
fn read_of_an_unknown_handle_answers_an_error() {
    let mut manager = ready();
    let reply = manager.on_gatts_event(
        GATT_IF,
        &GattsEvent::Read { conn_id: 1, trans_id: 9, addr: addr(1), handle: 99, offset: 0 },
    );
    assert_eq!(
        reply,
        Ok(vec![Command::SendResponse {
            gatt_if: GATT_IF,
            conn_id: 1,
            trans_id: 9,
            status: GattStatus::Error,
            response: None,
        }])
    );
}

#[test]
fn read_before_registration_answers_an_error() {
    let manager = BluetoothManager::new();
    assert_eq!(
        manager.read_response(GATT_IF, 1, 9, RECV_HANDLE, 0),
        Command::SendResponse {
            gatt_if: GATT_IF,
            conn_id: 1,
            trans_id: 9,
            status: GattStatus::Error,
            response: None,
        }
    );
}

#[test]
fn cccd_write_of_two_zero_subscribes_the_peer() {
    let mut manager = ready_with_peer(1, addr(1));
    assert!(!manager.connection(0).unwrap().subscribed);
    let reply = manager.on_gatts_event(GATT_IF, &write(1, addr(1), CCCD_HANDLE, 0, &[0x02, 0x00]));
    assert_eq!(reply, Ok(vec![bare_success(1)]));
    assert!(manager.connection(0).unwrap().subscribed);
    manager.on_gatts_event(GATT_IF, &write(1, addr(1), CCCD_HANDLE, 0, &[0x02, 0x00])).unwrap();
    assert!(manager.connection(0).unwrap().subscribed);
}

#[test]
fn cccd_write_of_zero_zero_unsubscribes_the_peer() {
    let mut manager = ready_with_peer(1, addr(1));
    manager.on_gatts_event(GATT_IF, &write(1, addr(1), CCCD_HANDLE, 0, &[0x02, 0x00])).unwrap();
    let reply = manager.on_gatts_event(GATT_IF, &write(1, addr(1), CCCD_HANDLE, 0, &[0x00, 0x00]));
    assert_eq!(reply, Ok(vec![bare_success(1)]));
    assert!(!manager.connection(0).unwrap().subscribed);
}

#[test]
fn cccd_write_of_another_two_byte_value_unsubscribes_the_peer() {
    for value in [[0x01u8, 0x00u8], [0x02, 0x01], [0x00, 0x02], [0x03, 0x00], [0xFF, 0xFF]] {
        let mut manager = ready_with_peer(1, addr(1));
        manager.on_gatts_event(GATT_IF, &write(1, addr(1), CCCD_HANDLE, 0, &[0x02, 0x00])).unwrap();
        manager.on_gatts_event(GATT_IF, &write(1, addr(1), CCCD_HANDLE, 0, &value)).unwrap();
        assert!(!manager.connection(0).unwrap().subscribed);
    }
}

#[test]
fn malformed_cccd_write_leaves_the_subscription() {
    let malformed: [(u16, &[u8]); 5] =
        [(0, &[]), (0, &[0x02]), (0, &[0x02, 0x00, 0x00]), (1, &[0x02, 0x00]), (2, &[0x00, 0x00])];
    for (offset, value) in malformed {
        let mut manager = ready_with_peer(1, addr(1));
        let reply = manager.on_gatts_event(GATT_IF, &write(1, addr(1), CCCD_HANDLE, offset, value));
        assert_eq!(reply, Ok(vec![bare_success(1)]));
        assert!(!manager.connection(0).unwrap().subscribed);
        manager.on_gatts_event(GATT_IF, &write(1, addr(1), CCCD_HANDLE, 0, &[0x02, 0x00])).unwrap();
        manager.on_gatts_event(GATT_IF, &write(1, addr(1), CCCD_HANDLE, offset, value)).unwrap();
        assert!(manager.connection(0).unwrap().subscribed);
    }
}

#[test]
fn cccd_write_touches_only_the_writing_peer() {
    let mut manager = ready_with_peer(1, addr(1));
    let commands = manager.create_conn(2, addr(2));
    manager.acknowledge(&commands[0]);
    manager.on_gatts_event(GATT_IF, &write(2, addr(2), CCCD_HANDLE, 0, &[0x02, 0x00])).unwrap();
    assert!(!manager.connection(0).unwrap().subscribed);
    assert!(manager.connection(1).unwrap().subscribed);
    assert_eq!(manager.get_received_data(), Vec::<u8>::new());
}

#[test]
fn writes_to_the_receive_characteristic_are_fetched_in_order() {
    let mut manager = ready_with_peer(1, addr(1));
    let reply = manager.on_gatts_event(GATT_IF, &write(1, addr(1), RECV_HANDLE, 0, b"re"));
    assert_eq!(reply, Ok(vec![bare_success(1)]));
    manager.on_gatts_event(GATT_IF, &write(1, addr(1), RECV_HANDLE, 0, b"d")).unwrap();
    manager.on_gatts_event(GATT_IF, &write(1, addr(1), RECV_HANDLE, 0, b"")).unwrap();
    manager.on_gatts_event(GATT_IF, &write(1, addr(1), RECV_HANDLE, 0, b" off")).unwrap();
    assert_eq!(manager.get_received_data(), b"red off".to_vec());
    assert_eq!(manager.get_received_data(), Vec::<u8>::new());
    manager.on_gatts_event(GATT_IF, &write(1, addr(1), RECV_HANDLE, 0, b"blue")).unwrap();
    assert_eq!(manager.get_received_data(), b"blue".to_vec());
}

#[test]
fn receive_write_is_appended_whatever_its_offset() {
    let mut manager = ready_with_peer(1, addr(1));
    manager.on_gatts_event(GATT_IF, &write(1, addr(1), RECV_HANDLE, 100, b"ab")).unwrap();
    manager.on_gatts_event(GATT_IF, &write(1, addr(1), RECV_HANDLE, 3, b"cd")).unwrap();
    assert_eq!(manager.get_received_data(), b"abcd".to_vec());
}

#[test]
fn fetch_on_a_fresh_server_yields_nothing() {
    let mut manager = BluetoothManager::new();
    assert_eq!(manager.get_received_data(), Vec::<u8>::new());
}

#[test]
fn write_to_an_unknown_handle_gets_no_reply() {
    let mut manager = ready_with_peer(1, addr(1));
    let reply = manager.on_gatts_event(GATT_IF, &write(1, addr(1), 99, 0, b"x"));
    assert_eq!(reply, Ok(vec![]));
    let reply = manager.on_gatts_event(GATT_IF, &write(1, addr(1), IND_HANDLE, 0, b"x"));
    assert_eq!(reply, Ok(vec![]));
    assert_eq!(manager.get_received_data(), Vec::<u8>::new());
}

#[test]
fn write_over_an_unknown_link_is_taken_like_any_other() {
    let mut manager = ready_with_peer(1, addr(1));
    let reply = manager.on_gatts_event(GATT_IF, &write(2, addr(1), RECV_HANDLE, 0, b"x"));
    assert_eq!(reply, Ok(vec![bare_success(2)]));
    assert_eq!(manager.get_received_data(), b"x".to_vec());
    let reply = manager.on_gatts_event(GATT_IF, &write(2, addr(1), CCCD_HANDLE, 0, &[2, 0]));
    assert_eq!(reply, Ok(vec![bare_success(2)]));
    assert!(manager.connection(0).unwrap().subscribed);
}

#[test]
fn write_of_a_peer_turned_away_at_capacity_reaches_the_buffer() {
    let mut manager = ready_with_peer(1, addr(1));
    let commands = manager.create_conn(2, addr(2));
    manager.acknowledge(&commands[0]);
    assert_eq!(manager.create_conn(3, addr(3)), vec![]);
    let reply = manager.on_gatts_event(GATT_IF, &write(3, addr(3), RECV_HANDLE, 0, b"late"));
    assert_eq!(reply, Ok(vec![bare_success(3)]));
    assert_eq!(manager.get_received_data(), b"late".to_vec());
}

#[test]
fn write_on_a_server_without_links_reaches_the_buffer() {
    let mut manager = ready();
    assert!(manager.recv(addr(1), RECV_HANDLE, 0, b"ab"));
    assert!(manager.recv(addr(2), RECV_HANDLE, 7, b"cd"));
    assert_eq!(manager.get_received_data(), b"abcd".to_vec());
}

#[test]
fn cccd_write_of_a_peer_without_entry_is_handled_and_changes_nothing() {
    let mut manager = ready_with_peer(1, addr(1));
    let reply = manager.on_gatts_event(GATT_IF, &write(1, addr(9), CCCD_HANDLE, 0, &[2, 0]));
    assert_eq!(reply, Ok(vec![bare_success(1)]));
    assert!(!manager.connection(0).unwrap().subscribed);
    assert!(manager.recv(addr(9), CCCD_HANDLE, 0, &[2, 0]));
    assert!(!manager.connection(0).unwrap().subscribed);
    assert_eq!(manager.connection_count(), 1);
}

#[test]
fn write_before_the_handles_are_known_is_not_handled() {
    let mut manager = BluetoothManager::new();
    assert!(!manager.recv(addr(1), RECV_HANDLE, 0, b"x"));
    assert!(!manager.recv(addr(1), CCCD_HANDLE, 0, &[2, 0]));
    assert_eq!(manager.get_received_data(), Vec::<u8>::new());
}

#[test]
fn write_without_need_of_response_gets_none() {
    let mut manager = ready_with_peer(1, addr(1));
    let event = GattsEvent::Write {
        conn_id: 1,
        trans_id: 77,
        addr: addr(1),
        handle: RECV_HANDLE,
        offset: 0,
        need_rsp: false,
        is_prep: true,
        value: b"abc".to_vec(),
    };
    assert_eq!(manager.on_gatts_event(GATT_IF, &event), Ok(vec![]));
    assert_eq!(manager.get_received_data(), b"abc".to_vec());
}

#[test]
fn prepared_write_is_echoed() {
    let mut manager = ready_with_peer(1, addr(1));
    let event = GattsEvent::Write {
        conn_id: 1,
        trans_id: 77,
        addr: addr(1),
        handle: RECV_HANDLE,
        offset: 18,
        need_rsp: true,
        is_prep: true,
        value: b"chunk".to_vec(),
    };
    assert_eq!(
        manager.on_gatts_event(GATT_IF, &event),
        Ok(vec![Command::SendResponse {
            gatt_if: GATT_IF,
            conn_id: 1,
            trans_id: 77,
            status: GattStatus::Success,
            response: Some(Response {
                attr_handle: RECV_HANDLE,
                auth_req: 0,
                offset: 18,
                value: b"chunk".to_vec(),
            }),
        }])
    );
    assert_eq!(manager.get_received_data(), b"chunk".to_vec());
}

#[test]
fn prepared_write_of_the_longest_value_is_echoed() {
    let value = vec![7u8; 600];
    let reply =
        BluetoothManager::send_write_response(GATT_IF, 1, 77, RECV_HANDLE, 0, true, true, &value);
    assert_eq!(
        reply,
        Ok(vec![Command::SendResponse {
            gatt_if: GATT_IF,
            conn_id: 1,
            trans_id: 77,
            status: GattStatus::Success,
            response: Some(Response { attr_handle: RECV_HANDLE, auth_req: 0, offset: 0, value }),
        }])
    );
}

#[test]
fn prepared_write_too_long_to_echo_fails_after_it_was_applied() {
    let mut manager = ready_with_peer(1, addr(1));
    let event = GattsEvent::Write {
        conn_id: 1,
        trans_id: 77,
        addr: addr(1),
        handle: RECV_HANDLE,
        offset: 0,
        need_rsp: true,
        is_prep: true,
        value: vec![1u8; 601],
    };
    assert_eq!(manager.on_gatts_event(GATT_IF, &event), Err(ServerError::ResponseTooLong));
    assert_eq!(manager.get_received_data(), vec![1u8; 601]);
}

#[test]
fn long_plain_write_is_acknowledged_bare() {
    let value = vec![1u8; 601];
    assert_eq!(
        BluetoothManager::send_write_response(GATT_IF, 1, 77, RECV_HANDLE, 0, true, false, &value),
        Ok(vec![bare_success(1)])
    );
    assert_eq!(
        BluetoothManager::send_write_response(GATT_IF, 1, 77, RECV_HANDLE, 0, false, false, &value),
        Ok(vec![])
    );
}
