//! Properties of the server that hold across calls, proved over the state
//! machine of [`crate::model`].

use crate::addr::BdAddr;
use crate::command::CommandView;
use crate::event::GattsEvent;
use crate::model::{
    enables_indications, registration_commands, Input, RegistrationPhase, SendStepView,
    ServerState, APP_ID,
};
use crate::status::{gatt_status_outcome, GattStatus};
use crate::table::{
    distinct_peers, has_peer, is_first_with_peer, registered, removed, with_negotiated_size,
    with_subscription, Connection, MAX_CONNECTIONS,
};
use crate::uuid::{Uuid, CCCD_UUID, IND_CHARACTERISTIC_UUID, RECV_CHARACTERISTIC_UUID};
use vstd::prelude::*;

verus! {

/// The input is a connect event that enters a peer a second time: the peer
/// has an entry already and the table has room for another.
pub open spec fn reconnects(s: ServerState, input: Input) -> bool {
    &&& input matches Input::Gatts { event: GattsEvent::PeerConnected { addr, .. }, .. }
    &&& has_peer(s.connections, addr)
    &&& s.connections.len() < MAX_CONNECTIONS
}

/// No connect event of the series enters a peer that still has an entry
/// from an earlier connect.
pub open spec fn orderly(s: ServerState, inputs: Seq<Input>) -> bool
    decreases inputs.len(),
{
    inputs.len() == 0 || (orderly(s, inputs.drop_last()) && !reconnects(
        s.run(inputs.drop_last()),
        inputs.last(),
    ))
}

/// The input is a confirmation with a status that is let through.
pub open spec fn confirms(input: Input) -> bool {
    input matches Input::Gatts { event: GattsEvent::Confirm { status }, .. } && gatt_status_outcome(
        status,
    ) is Ok
}

/// Entering a peer that has no entry keeps the peers of the table distinct.
pub proof fn lemma_registered_distinct(t: Seq<Connection>, peer: BdAddr, conn_id: u16)
    requires
        distinct_peers(t),
        !has_peer(t, peer),
    ensures
        distinct_peers(registered(t, peer, conn_id)),
{
    let r = registered(t, peer, conn_id);
    assert forall|i: int, j: int| 0 <= i < j < r.len() implies (#[trigger] r[i]).peer != (
    #[trigger] r[j]).peer by {
        if j < t.len() {
            assert(r[i] == t[i] && r[j] == t[j]);
        } else {
            assert(r[i] == t[i]);
            assert(r[j].peer == peer);
        }
    }
}

/// Entering a peer that has an entry leaves two entries of the same peer
/// behind, as long as the table has room.
pub proof fn lemma_reconnect_enters_a_peer_twice(t: Seq<Connection>, peer: BdAddr, conn_id: u16)
    requires
        has_peer(t, peer),
        t.len() < MAX_CONNECTIONS,
    ensures
        !distinct_peers(registered(t, peer, conn_id)),
{
    let r = registered(t, peer, conn_id);
    let i = choose|i: int| 0 <= i < t.len() && (#[trigger] t[i]).peer == peer;
    assert(r[i].peer == peer && r[t.len() as int].peer == peer);
}

/// Taking a peer out never adds an entry, takes exactly one away where the
/// peer had one, and keeps the peers of the table distinct. Out of a table
/// of distinct peers the peer is gone for good.
pub proof fn lemma_removed(t: Seq<Connection>, addr: BdAddr)
    ensures
        removed(t, addr).len() == (if has_peer(t, addr) {
            t.len() - 1
        } else {
            t.len() as int
        }),
        distinct_peers(t) ==> distinct_peers(removed(t, addr)),
        distinct_peers(t) ==> !has_peer(removed(t, addr), addr),
{
    let r = removed(t, addr);
    if has_peer(t, addr) && distinct_peers(t) {
        let last = t.len() - 1;
        assert forall|i: int, j: int| 0 <= i < j < r.len() implies (#[trigger] r[i]).peer != (
        #[trigger] r[j]).peer by {
            let a = if is_first_with_peer(t, addr, i) {
                last
            } else {
                i
            };
            let b = if is_first_with_peer(t, addr, j) {
                last
            } else {
                j
            };
            assert(r[i] == t[a] && r[j] == t[b]);
            if a == b {
                assert(t[i].peer == addr && t[j].peer == addr);
            } else if a < b {
                assert(t[a].peer != t[b].peer);
            } else {
                assert(t[b].peer != t[a].peer);
            }
        }
        assert forall|i: int| 0 <= i < r.len() implies (#[trigger] r[i]).peer != addr by {
            if is_first_with_peer(t, addr, i) {
                assert(r[i] == t[last]);
                assert(t[i].peer != t[last].peer);
            } else {
                assert(r[i] == t[i]);
                if t[i].peer == addr {
                    let k = choose|k: int| 0 <= k < i && (#[trigger] t[k]).peer == addr;
                    assert(t[k].peer != t[i].peer);
                }
            }
        }
    }
    if !has_peer(t, addr) && distinct_peers(t) {
        assert forall|i: int| 0 <= i < r.len() implies (#[trigger] r[i]).peer != addr by {
            if r[i].peer == addr {
                assert(has_peer(t, addr));
            }
        }
    }
}

/// One input leaves the number of entries at or below the capacity.
pub proof fn lemma_step_bounded(s: ServerState, input: Input)
    requires
        s.connections.len() <= MAX_CONNECTIONS,
    ensures
        s.step(input).connections.len() <= MAX_CONNECTIONS,
{
    match input {
        Input::Gatts { gatt_if, event } => {
            match event {
                GattsEvent::PeerDisconnected { addr } => {
                    lemma_removed(s.connections, addr);
                },
                _ => {},
            }
        },
        _ => {},
    }
}

/// One input that enters no peer a second time keeps the peers of the table
/// distinct.
pub proof fn lemma_step_distinct(s: ServerState, input: Input)
    requires
        distinct_peers(s.connections),
        !reconnects(s, input),
    ensures
        distinct_peers(s.step(input).connections),
{
    let t = s.connections;
    let r = s.step(input).connections;
    match input {
        Input::Gatts { gatt_if, event } => {
            match event {
                GattsEvent::Mtu { conn_id, mtu } => {
                    assert(r == with_negotiated_size(t, conn_id, mtu));
                    assert forall|i: int, j: int| 0 <= i < j < r.len() implies (
                    #[trigger] r[i]).peer != (#[trigger] r[j]).peer by {
                        assert(r[i].peer == t[i].peer && r[j].peer == t[j].peer);
                    }
                },
                GattsEvent::PeerConnected { conn_id, addr } => {
                    if t.len() < MAX_CONNECTIONS {
                        lemma_registered_distinct(t, addr, conn_id);
                    }
                },
                GattsEvent::PeerDisconnected { addr } => {
                    lemma_removed(t, addr);
                },
                GattsEvent::Write { conn_id, addr, value, .. } => {
                    assert(r == t || r == with_subscription(t, addr, enables_indications(value@)));
                    assert forall|i: int, j: int| 0 <= i < j < r.len() implies (
                    #[trigger] r[i]).peer != (#[trigger] r[j]).peer by {
                        assert(r[i].peer == t[i].peer && r[j].peer == t[j].peer);
                    }
                },
                _ => {},
            }
        },
        _ => {},
    }
}

/// Whatever the server is put through, its table never holds more than
/// `MAX_CONNECTIONS` entries.
pub proof fn lemma_table_never_exceeds_capacity(s: ServerState, inputs: Seq<Input>)
    requires
        s.connections.len() <= MAX_CONNECTIONS,
    ensures
        s.run(inputs).connections.len() <= MAX_CONNECTIONS,
    decreases inputs.len(),
{
    if inputs.len() > 0 {
        lemma_table_never_exceeds_capacity(s, inputs.drop_last());
        lemma_step_bounded(s.run(inputs.drop_last()), inputs.last());
    }
}

/// As long as no connect event enters a peer that still has an entry, no
/// two entries of the table belong to the same peer.
pub proof fn lemma_table_peers_stay_distinct(s: ServerState, inputs: Seq<Input>)
    requires
        distinct_peers(s.connections),
        orderly(s, inputs),
    ensures
        distinct_peers(s.run(inputs).connections),
    decreases inputs.len(),
{
    if inputs.len() > 0 {
        lemma_table_peers_stay_distinct(s, inputs.drop_last());
        lemma_step_distinct(s.run(inputs.drop_last()), inputs.last());
    }
}

/// A server that starts without links keeps its table within capacity, and
/// with distinct peers under orderly inputs.
pub proof fn lemma_table_invariant_from_start(inputs: Seq<Input>)
    ensures
        ServerState::initial().run(inputs).connections.len() <= MAX_CONNECTIONS,
        orderly(ServerState::initial(), inputs) ==> distinct_peers(
            ServerState::initial().run(inputs).connections,
        ),
{
    lemma_table_never_exceeds_capacity(ServerState::initial(), inputs);
    if orderly(ServerState::initial(), inputs) {
        lemma_table_peers_stay_distinct(ServerState::initial(), inputs);
    }
}

/// When the only peer left disconnects, the table is empty, the connected
/// flag is down and exactly one command is asked for: to start advertising.
pub proof fn lemma_last_disconnect_restarts_advertising(s: ServerState, gatt_if: u8, addr: BdAddr)
    requires
        s.connections.len() == 1,
        s.connections[0].peer == addr,
    ensures
        s.delete_conn(addr).state.connections.len() == 0,
        !s.delete_conn(addr).state.connected,
        s.delete_conn(addr).commands == seq![CommandView::StartAdvertising],
        s.on_gatts_event(gatt_if, GattsEvent::PeerDisconnected { addr }).reply is Ok,
        s.on_gatts_event(gatt_if, GattsEvent::PeerDisconnected { addr }).reply->Ok_0
            == seq![CommandView::StartAdvertising],
{
    assert(has_peer(s.connections, addr));
    lemma_removed(s.connections, addr);
}

/// While other peers stay behind, a disconnect asks for nothing.
pub proof fn lemma_disconnect_with_peers_left_is_silent(s: ServerState, addr: BdAddr)
    requires
        s.connections.len() >= 2 || (s.connections.len() == 1 && !has_peer(s.connections, addr)),
    ensures
        s.delete_conn(addr).commands == Seq::<CommandView>::empty(),
        s.delete_conn(addr).state.connected,
{
    lemma_removed(s.connections, addr);
}

/// A write of two bytes at offset 0 to the subscription descriptor sets the
/// subscription of the writing peer to whether the bytes are `02 00`, and
/// leaves every other entry and every other part of the state as it is. A
/// write of another length or at another offset leaves the whole state as
/// it is. Either way the write is handled.
pub proof fn lemma_cccd_write_sets_subscription(
    s: ServerState,
    addr: BdAddr,
    handle: u16,
    offset: u16,
    value: Seq<u8>,
    i: int,
)
    requires
        s.ind_cccd_handle == Some(handle),
        is_first_with_peer(s.connections, addr, i),
    ensures
        s.recv(addr, handle, offset, value).handled,
        offset == 0 && value =~= seq![0x02u8, 0x00u8] ==> s.recv(
            addr,
            handle,
            offset,
            value,
        ).state.connections[i].subscribed,
        offset == 0 && value =~= seq![0x00u8, 0x00u8] ==> !s.recv(
            addr,
            handle,
            offset,
            value,
        ).state.connections[i].subscribed,
        offset == 0 && value.len() == 2 ==> s.recv(addr, handle, offset, value).state == (
        ServerState {
            connections: s.connections.update(
                i,
                Connection { subscribed: enables_indications(value), ..s.connections[i] },
            ),
            ..s
        }),
        offset != 0 || value.len() != 2 ==> s.recv(addr, handle, offset, value).state == s,
{
    let t = s.connections;
    assert forall|k: int| is_first_with_peer(t, addr, k) implies k == i by {
        if k < i {
            assert(t[k].peer != addr);
        } else if i < k {
            assert(t[i].peer != addr);
        }
    }
    if offset == 0 && value.len() == 2 {
        assert(with_subscription(t, addr, enables_indications(value)) =~= t.update(
            i,
            Connection { subscribed: enables_indications(value), ..t[i] },
        ));
    }
}

/// A write to the subscription descriptor by a peer that has no entry is
/// handled and changes nothing.
pub proof fn lemma_cccd_write_of_a_stranger_changes_nothing(
    s: ServerState,
    addr: BdAddr,
    handle: u16,
    offset: u16,
    value: Seq<u8>,
)
    requires
        s.ind_cccd_handle == Some(handle),
        !has_peer(s.connections, addr),
    ensures
        s.recv(addr, handle, offset, value).handled,
        s.recv(addr, handle, offset, value).state == s,
{
    if offset == 0 && value.len() == 2 {
        assert(with_subscription(s.connections, addr, enables_indications(value))
            =~= s.connections);
    }
}

/// One write request: who made it, at which offset, with which bytes.
pub struct WriteRequest {
    pub addr: BdAddr,
    pub offset: u16,
    pub value: Seq<u8>,
}

/// The bytes of a series of write requests, one after the other.
pub open spec fn written_bytes(writes: Seq<WriteRequest>) -> Seq<u8>
    decreases writes.len(),
{
    if writes.len() == 0 {
        Seq::empty()
    } else {
        written_bytes(writes.drop_last()) + writes.last().value
    }
}

/// The state after a series of write requests to one attribute.
pub open spec fn after_writes(s: ServerState, handle: u16, writes: Seq<WriteRequest>) -> ServerState
    decreases writes.len(),
{
    if writes.len() == 0 {
        s
    } else {
        after_writes(s, handle, writes.drop_last()).recv(
            writes.last().addr,
            handle,
            writes.last().offset,
            writes.last().value,
        ).state
    }
}

/// Bytes written to the receive characteristic come out of the buffer in
/// the order they were written, after what was there before, whoever wrote
/// them, over whichever link and at whatever offset; each write is handled
/// and nothing else of the state changes. Fetching the bytes empties the
/// buffer, so a second fetch yields nothing.
pub proof fn lemma_writes_are_fetched_in_order(
    s: ServerState,
    handle: u16,
    writes: Seq<WriteRequest>,
)
    requires
        s.recv_handle == Some(handle),
        s.ind_cccd_handle != Some(handle),
    ensures
        after_writes(s, handle, writes) == (ServerState {
            received: s.received + written_bytes(writes),
            ..s
        }),
        forall|addr: BdAddr, offset: u16, value: Seq<u8>|
            (#[trigger] after_writes(s, handle, writes).recv(addr, handle, offset, value)).handled,
        after_writes(s, handle, writes).drained().received == Seq::<u8>::empty(),
        after_writes(s, handle, writes).drained().drained().received == Seq::<u8>::empty(),
    decreases writes.len(),
{
    if writes.len() == 0 {
        assert(s.received + written_bytes(writes) =~= s.received);
    } else {
        lemma_writes_are_fetched_in_order(s, handle, writes.drop_last());
        assert(s.received + written_bytes(writes.drop_last()) + writes.last().value =~= s.received
            + written_bytes(writes));
    }
}

/// While an indication is unconfirmed, no sender is told to issue another
/// one, whatever slot it has come to.
pub proof fn lemma_pending_blocks_senders(s: ServerState, slot: nat, data: Seq<u8>)
    requires
        s.ind_confirmed is Some,
    ensures
        !(s.indicate(slot, data) is Issue),
{
}

/// Only a confirmation takes the pending indication away.
pub proof fn lemma_pending_until_confirmed(s: ServerState, inputs: Seq<Input>)
    requires
        s.ind_confirmed is Some,
        forall|i: int| 0 <= i < inputs.len() ==> !confirms(#[trigger] inputs[i]),
    ensures
        s.run(inputs).ind_confirmed is Some,
    decreases inputs.len(),
{
    if inputs.len() > 0 {
        let before = inputs.drop_last();
        assert forall|i: int| 0 <= i < before.len() implies !confirms(#[trigger] before[i]) by {
            assert(before[i] == inputs[i]);
        }
        lemma_pending_until_confirmed(s, before);
        assert(!confirms(inputs[inputs.len() - 1]));
    }
}

/// At most one indication is unconfirmed at any time: once the stack has
/// accepted an indication, no sender is told to issue another one until a
/// confirmation has arrived, whatever else happens in between.
pub proof fn lemma_one_unconfirmed_indication(
    s: ServerState,
    slot: nat,
    data: Seq<u8>,
    inputs: Seq<Input>,
    next_slot: nat,
    next_data: Seq<u8>,
)
    requires
        s.indicate(slot, data) is Issue,
        forall|i: int| 0 <= i < inputs.len() ==> !confirms(#[trigger] inputs[i]),
    ensures
        s.ind_confirmed is None,
        !(s.acknowledge(s.indicate(slot, data)->Issue_0).run(inputs).indicate(next_slot, next_data)
            is Issue),
{
    lemma_pending_until_confirmed(s.acknowledge(s.indicate(slot, data)->Issue_0), inputs);
}

/// A confirmation lets the next indication through.
pub proof fn lemma_confirmation_unblocks_senders(s: ServerState, slot: nat, data: Seq<u8>)
    requires
        slot < s.connections.len(),
        slot < MAX_CONNECTIONS,
        s.gatt_if is Some,
        s.ind_handle is Some,
    ensures
        s.confirm_indication().state.indicate(slot, data) is Issue,
{
}

/// An indication goes to every slot that is taken, whether or not its peer
/// has subscribed.
pub proof fn lemma_indication_ignores_subscription(s: ServerState, slot: nat, data: Seq<u8>)
    requires
        slot < s.connections.len(),
        slot < MAX_CONNECTIONS,
        s.gatt_if is Some,
        s.ind_handle is Some,
        s.ind_confirmed is None,
    ensures
        s.indicate(slot, data) == SendStepView::Issue(
            CommandView::Indicate {
                gatt_if: s.gatt_if->0,
                conn_id: s.connections[slot as int].conn_id,
                attr_handle: s.ind_handle->0,
                peer: s.connections[slot as int].peer,
                data,
            },
        ),
{
}

/// A fresh server after the stack has accepted every command of its
/// registration.
pub open spec fn registration_accepted() -> ServerState {
    ServerState::initial().acknowledge(CommandView::SubscribeGap).acknowledge(
        CommandView::SubscribeGatts,
    ).acknowledge(CommandView::RegisterApp { app_id: APP_ID })
}

/// The input is the acceptance of the registration of the application.
pub open spec fn accepts_registration(input: Input) -> bool {
    input matches Input::Acknowledged { command: CommandView::RegisterApp { .. } }
}

/// A fresh server asks for the registration, and goes on asking for it as
/// long as the stack has not accepted the registration of the application.
pub proof fn lemma_initialize_asks_until_accepted(inputs: Seq<Input>)
    requires
        forall|i: int| 0 <= i < inputs.len() ==> !accepts_registration(#[trigger] inputs[i]),
    ensures
        ServerState::initial().run(inputs).initialize() == registration_commands(),
    decreases inputs.len(),
{
    if inputs.len() > 0 {
        let before = inputs.drop_last();
        assert forall|i: int| 0 <= i < before.len() implies !accepts_registration(
            #[trigger] before[i],
        ) by {
            assert(before[i] == inputs[i]);
        }
        lemma_initialize_asks_until_accepted(before);
        assert(!accepts_registration(inputs[inputs.len() - 1]));
    }
}

/// Starting the server is idempotent: once the stack has accepted the
/// registration of the application, starting it again asks for nothing,
/// whatever the server has been put through since.
pub proof fn lemma_initialize_is_idempotent(s: ServerState, app_id: u16, inputs: Seq<Input>)
    ensures
        s.acknowledge(CommandView::RegisterApp { app_id }).run(inputs).initialize() == Seq::<
            CommandView,
        >::empty(),
        registration_accepted().run(inputs).initialize() == Seq::<CommandView>::empty(),
{
    lemma_registration_is_remembered(s.acknowledge(CommandView::RegisterApp { app_id }), inputs);
    lemma_registration_is_remembered(registration_accepted(), inputs);
}

/// The server never forgets that its registration was accepted.
pub proof fn lemma_registration_is_remembered(s: ServerState, inputs: Seq<Input>)
    requires
        s.registration_requested,
    ensures
        s.run(inputs).registration_requested,
    decreases inputs.len(),
{
    if inputs.len() > 0 {
        lemma_registration_is_remembered(s, inputs.drop_last());
    }
}

/// The events of an undisturbed registration, in the order the stack
/// delivers them.
pub open spec fn registration_events(
    gatt_if: u8,
    service_handle: u16,
    recv_handle: u16,
    ind_handle: u16,
    cccd_handle: u16,
) -> Seq<Input> {
    seq![
        Input::Gatts {
            gatt_if,
            event: GattsEvent::ServiceRegistered { status: GattStatus::Success, app_id: APP_ID },
        },
        Input::Gatts {
            gatt_if,
            event: GattsEvent::ServiceCreated { status: GattStatus::Success, service_handle },
        },
        Input::Gatts {
            gatt_if,
            event: GattsEvent::CharacteristicAdded {
                status: GattStatus::Success,
                attr_handle: recv_handle,
                service_handle,
                char_uuid: Uuid::Uuid128(RECV_CHARACTERISTIC_UUID),
            },
        },
        Input::Gatts {
            gatt_if,
            event: GattsEvent::CharacteristicAdded {
                status: GattStatus::Success,
                attr_handle: ind_handle,
                service_handle,
                char_uuid: Uuid::Uuid128(IND_CHARACTERISTIC_UUID),
            },
        },
        Input::Gatts {
            gatt_if,
            event: GattsEvent::DescriptorAdded {
                status: GattStatus::Success,
                attr_handle: cccd_handle,
                service_handle,
                descr_uuid: Uuid::Uuid16(CCCD_UUID),
            },
        },
    ]
}

/// An undisturbed registration ends with every handle known, whatever
/// handles the stack hands out, and leaves the server without a link.
pub proof fn lemma_registration_reaches_ready(
    gatt_if: u8,
    service_handle: u16,
    recv_handle: u16,
    ind_handle: u16,
    cccd_handle: u16,
)
    ensures
        registration_accepted().run(
            registration_events(gatt_if, service_handle, recv_handle, ind_handle, cccd_handle),
        ) == (ServerState {
            registration_requested: true,
            gatt_if: Some(gatt_if),
            service_handle: Some(service_handle),
            recv_handle: Some(recv_handle),
            ind_handle: Some(ind_handle),
            ind_cccd_handle: Some(cccd_handle),
            ..ServerState::initial()
        }),
        registration_accepted().run(
            registration_events(gatt_if, service_handle, recv_handle, ind_handle, cccd_handle),
        ).phase() == RegistrationPhase::Ready,
{
    let events = registration_events(gatt_if, service_handle, recv_handle, ind_handle, cccd_handle);
    let s0 = registration_accepted();
    let e1 = events.subrange(0, 1);
    let e2 = events.subrange(0, 2);
    let e3 = events.subrange(0, 3);
    let e4 = events.subrange(0, 4);
    assert(e1.drop_last() =~= Seq::<Input>::empty());
    assert(e2.drop_last() =~= e1);
    assert(e3.drop_last() =~= e2);
    assert(e4.drop_last() =~= e3);
    assert(events.drop_last() =~= e4);
    assert(s0.run(e1.drop_last()) == s0);
    assert(s0.run(e1) == s0.step(events[0]));
    assert(s0.run(e2) == s0.run(e1).step(events[1]));
    assert(s0.run(e3) == s0.run(e2).step(events[2]));
    assert(s0.run(e4) == s0.run(e3).step(events[3]));
    assert(s0.run(events) == s0.run(e4).step(events[4]));
}

/// The handles of the characteristics and of the descriptor are kept only
/// once the handle of the service is known.
pub open spec fn handles_follow_service(s: ServerState) -> bool {
    s.recv_handle is Some || s.ind_handle is Some || s.ind_cccd_handle is Some
        ==> s.service_handle is Some
}

/// From its start on the server learns the handle of the service before
/// any handle that depends on it.
pub proof fn lemma_handles_follow_the_service(inputs: Seq<Input>)
    ensures
        handles_follow_service(ServerState::initial().run(inputs)),
    decreases inputs.len(),
{
    if inputs.len() > 0 {
        lemma_handles_follow_the_service(inputs.drop_last());
    }
}

/// The registration never falls back to an earlier phase.
pub proof fn lemma_registration_never_regresses(s: ServerState, input: Input)
    ensures
        s.step(input).phase().rank() >= s.phase().rank(),
{
}

} // verus!
