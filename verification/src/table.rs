//! The bounded table of active links.
//!
//! The entries are kept in a fixed-capacity `heapless::Vec`. Verus does not
//! look inside that type: what it holds is named by [`table_entries`], and
//! the few functions at the end of this file that call into `heapless` state
//! what each call does to that sequence. Those statements are taken from the
//! source of `heapless` and are not proved; everything above them is.

use crate::addr::BdAddr;
use vstd::prelude::*;

verus! {

/// The number of links the server keeps at the same time.
pub const MAX_CONNECTIONS: usize = 2;

/// One active link.
#[derive(Debug, Clone, Copy, PartialEq, Eq)]
pub struct Connection {
    /// Address of the peer.
    pub peer: BdAddr,
    /// Session id the stack gave the link.
    pub conn_id: u16,
    /// Whether the peer has enabled indications.
    pub subscribed: bool,
    /// The attribute payload size negotiated on the link, once known.
    pub mtu: Option<u16>,
}

impl Connection {
    /// The entry made for a link that has just been established.
    pub open spec fn opened(peer: BdAddr, conn_id: u16) -> Connection {
        Connection { peer, conn_id, subscribed: false, mtu: None }
    }
}

/// Some entry belongs to the peer `addr`.
pub open spec fn has_peer(t: Seq<Connection>, addr: BdAddr) -> bool {
    exists|i: int| 0 <= i < t.len() && (#[trigger] t[i]).peer == addr
}

/// Some entry has the session id `conn_id`.
pub open spec fn has_handle(t: Seq<Connection>, conn_id: u16) -> bool {
    exists|i: int| 0 <= i < t.len() && (#[trigger] t[i]).conn_id == conn_id
}

/// `i` is the lowest index whose entry belongs to the peer `addr`.
pub open spec fn is_first_with_peer(t: Seq<Connection>, addr: BdAddr, i: int) -> bool {
    &&& 0 <= i < t.len()
    &&& t[i].peer == addr
    &&& forall|j: int| 0 <= j < i ==> (#[trigger] t[j]).peer != addr
}

/// `i` is the lowest index whose entry has the session id `conn_id`.
pub open spec fn is_first_with_handle(t: Seq<Connection>, conn_id: u16, i: int) -> bool {
    &&& 0 <= i < t.len()
    &&& t[i].conn_id == conn_id
    &&& forall|j: int| 0 <= j < i ==> (#[trigger] t[j]).conn_id != conn_id
}

/// No two entries belong to the same peer.
pub open spec fn distinct_peers(t: Seq<Connection>) -> bool {
    forall|i: int, j: int| 0 <= i < j < t.len() ==> (#[trigger] t[i]).peer != (#[trigger] t[j]).peer
}

/// The table after a link to `peer` was established: the new entry goes to
/// the end, unless the table is full, which leaves it as it is.
pub open spec fn registered(t: Seq<Connection>, peer: BdAddr, conn_id: u16) -> Seq<Connection> {
    if t.len() < MAX_CONNECTIONS {
        t.push(Connection::opened(peer, conn_id))
    } else {
        t
    }
}

/// The table after the link to `addr` went down: the first entry of the
/// peer is taken out and the last entry moves into its slot; a table without
/// an entry of the peer stays as it is.
pub open spec fn removed(t: Seq<Connection>, addr: BdAddr) -> Seq<Connection> {
    if has_peer(t, addr) {
        Seq::new(
            (t.len() - 1) as nat,
            |i: int|
                if is_first_with_peer(t, addr, i) {
                    t.last()
                } else {
                    t[i]
                },
        )
    } else {
        t
    }
}

/// The table after a payload size was negotiated on the link `conn_id`: the
/// first entry with this session id holds the size, all else is as before.
pub open spec fn with_negotiated_size(t: Seq<Connection>, conn_id: u16, size: u16) -> Seq<
    Connection,
> {
    Seq::new(
        t.len(),
        |i: int|
            if is_first_with_handle(t, conn_id, i) {
                Connection { mtu: Some(size), ..t[i] }
            } else {
                t[i]
            },
    )
}

/// The table after the peer `addr` switched indications on or off: the
/// first entry of the peer holds the switch, all else is as before.
pub open spec fn with_subscription(t: Seq<Connection>, addr: BdAddr, subscribed: bool) -> Seq<
    Connection,
> {
    Seq::new(
        t.len(),
        |i: int|
            if is_first_with_peer(t, addr, i) {
                Connection { subscribed, ..t[i] }
            } else {
                t[i]
            },
    )
}

/// The vector with the item at `i` taken out and the last item moved into
/// the gap.
pub open spec fn swap_removed(t: Seq<Connection>, i: int) -> Seq<Connection> {
    t.update(i, t.last()).drop_last()
}

/// The bounded table of active links.
pub struct ConnectionTable {
    entries: heapless::Vec<Connection, MAX_CONNECTIONS>,
}

impl View for ConnectionTable {
    type V = Seq<Connection>;

    closed spec fn view(&self) -> Seq<Connection> {
        table_entries(self.entries)
    }
}

impl ConnectionTable {
    #[verifier::type_invariant]
    spec fn within_capacity(&self) -> bool {
        table_entries(self.entries).len() <= MAX_CONNECTIONS
    }

    /// An empty table.
    pub fn new() -> (table: Self)
        ensures
            table@ == Seq::<Connection>::empty(),
    {
        ConnectionTable { entries: empty_table() }
    }

    /// The number of entries, which never exceeds `MAX_CONNECTIONS`.
    pub fn len(&self) -> (n: usize)
        ensures
            n == self@.len(),
            n <= MAX_CONNECTIONS,
    {
        proof {
            use_type_invariant(self);
        }
        table_slice(&self.entries).len()
    }

    /// Whether the table has no entry.
    pub fn is_empty(&self) -> (empty: bool)
        ensures
            empty == (self@.len() == 0),
    {
        table_slice(&self.entries).len() == 0
    }

    /// The entry in slot `index`, if the slot is taken.
    pub fn get(&self, index: usize) -> (entry: Option<Connection>)
        ensures
            entry == (if index < self@.len() {
                Some(self@[index as int])
            } else {
                None
            }),
    {
        let entries = table_slice(&self.entries);
        if index < entries.len() {
            Some(entries[index])
        } else {
            None
        }
    }

    /// Slot of the first entry that belongs to the peer `address`.
    pub fn position_of_peer(&self, address: BdAddr) -> (found: Option<usize>)
        ensures
            found is Some <==> has_peer(self@, address),
            found matches Some(i) ==> is_first_with_peer(self@, address, i as int),
    {
        let entries = table_slice(&self.entries);
        let mut i: usize = 0;
        while i < entries.len()
            invariant
                i <= entries.len(),
                entries@ == self@,
                forall|j: int| 0 <= j < i ==> (#[trigger] entries@[j]).peer != address,
            decreases entries.len() - i,
        {
            if entries[i].peer == address {
                return Some(i);
            }
            i += 1;
        }
        None
    }

    /// Slot of the first entry with the session id `conn_id`.
    pub fn position_of_handle(&self, conn_id: u16) -> (found: Option<usize>)
        ensures
            found is Some <==> has_handle(self@, conn_id),
            found matches Some(i) ==> is_first_with_handle(self@, conn_id, i as int),
    {
        let entries = table_slice(&self.entries);
        let mut i: usize = 0;
        while i < entries.len()
            invariant
                i <= entries.len(),
                entries@ == self@,
                forall|j: int| 0 <= j < i ==> (#[trigger] entries@[j]).conn_id != conn_id,
            decreases entries.len() - i,
        {
            if entries[i].conn_id == conn_id {
                return Some(i);
            }
            i += 1;
        }
        None
    }

    /// Enters the link `handle` to the peer `address`, unless the table is
    /// full. Says whether the entry was made.
    pub fn register(&mut self, address: BdAddr, handle: u16) -> (added: bool)
        ensures
            added == (old(self)@.len() < MAX_CONNECTIONS),
            final(self)@ == registered(old(self)@, address, handle),
            added ==> final(self)@.last() == Connection::opened(address, handle),
    {
        if table_slice(&self.entries).len() < MAX_CONNECTIONS {
            let entry = Connection { peer: address, conn_id: handle, subscribed: false, mtu: None };
            match table_push(&mut self.entries, entry) {
                Ok(()) => true,
                Err(_) => false,
            }
        } else {
            false
        }
    }

    /// Takes out the first entry of the peer `address` and hands it back;
    /// the last entry moves into its slot.
    pub fn remove(&mut self, address: BdAddr) -> (entry: Option<Connection>)
        ensures
            final(self)@ == removed(old(self)@, address),
            entry is Some <==> has_peer(old(self)@, address),
            forall|i: int|
                is_first_with_peer(old(self)@, address, i) ==> entry == Some(old(self)@[i]),
    {
        proof {
            use_type_invariant(&*self);
        }
        match self.position_of_peer(address) {
            Some(index) => {
                let entry = table_swap_remove(&mut self.entries, index);
                proof {
                    let t = old(self)@;
                    assert(has_peer(t, address));
                    assert forall|i: int| 0 <= i < t.len() - 1 implies (is_first_with_peer(
                        t,
                        address,
                        i,
                    ) <==> i == index) by {
                        if is_first_with_peer(t, address, i) && i != index {
                            if i < index {
                                assert(t[i].peer != address);
                            } else {
                                assert(t[index as int].peer != address);
                            }
                        }
                    }
                    assert(removed(t, address) =~= swap_removed(t, index as int));
                    assert forall|i: int| is_first_with_peer(t, address, i) implies i == index by {
                        if i < index {
                            assert(t[i].peer != address);
                        } else if index < i {
                            assert(t[index as int].peer != address);
                        }
                    }
                }
                Some(entry)
            },
            None => None,
        }
    }

    /// Records the payload size negotiated on the link `handle`. An unknown
    /// link leaves the table as it is.
    pub fn set_negotiated_size(&mut self, handle: u16, size: u16)
        ensures
            final(self)@ == with_negotiated_size(old(self)@, handle, size),
    {
        proof {
            use_type_invariant(&*self);
        }
        match self.position_of_handle(handle) {
            Some(index) => {
                let entries = table_slice_mut(&mut self.entries);
                entries[index] = Connection { mtu: Some(size), ..entries[index] };
                proof {
                    let t = old(self)@;
                    assert forall|i: int| is_first_with_handle(t, handle, i) implies i == index by {
                        if i < index {
                            assert(t[i].conn_id != handle);
                        } else if index < i {
                            assert(t[index as int].conn_id != handle);
                        }
                    }
                    assert(final(self)@ =~= with_negotiated_size(t, handle, size));
                }
            },
            None => {
                assert(self@ =~= with_negotiated_size(self@, handle, size));
            },
        }
    }

    /// Records whether the peer `address` wants indications, and says whether
    /// that changed anything.
    pub fn set_subscription(&mut self, address: BdAddr, subscribed: bool) -> (changed: bool)
        ensures
            final(self)@ == with_subscription(old(self)@, address, subscribed),
            changed == (final(self)@ != old(self)@),
    {
        proof {
            use_type_invariant(&*self);
        }
        proof {
            let t = self@;
            assert forall|i: int, k: int|
                is_first_with_peer(t, address, i) && is_first_with_peer(t, address, k) implies i
                == k by {
                if i < k {
                    assert(t[i].peer != address);
                } else if k < i {
                    assert(t[k].peer != address);
                }
            }
        }
        match self.position_of_peer(address) {
            Some(index) => {
                let entry = table_slice(&self.entries)[index];
                if entry.subscribed != subscribed {
                    let entries = table_slice_mut(&mut self.entries);
                    entries[index] = Connection { subscribed, ..entry };
                    proof {
                        assert(final(self)@ =~= with_subscription(old(self)@, address, subscribed));
                        assert(final(self)@[index as int] != old(self)@[index as int]);
                    }
                    true
                } else {
                    proof {
                        assert(self@ =~= with_subscription(self@, address, subscribed));
                    }
                    false
                }
            },
            None => {
                assert(self@ =~= with_subscription(self@, address, subscribed));
                false
            },
        }
    }
}

/// `heapless::Vec<T, N>`, a vector of at most `N` items stored in place.
#[verifier::external_type_specification]
#[verifier::external_body]
#[verifier::reject_recursive_types(T)]
pub struct ExHeaplessVec<T, const N: usize>(heapless::Vec<T, N>);

/// The entries a table's vector holds, in slot order.
pub uninterp spec fn table_entries(v: heapless::Vec<Connection, MAX_CONNECTIONS>) -> Seq<
    Connection,
>;

/// `heapless::Vec::new`: a vector without items.
#[verifier::external_body]
fn empty_table() -> (v: heapless::Vec<Connection, MAX_CONNECTIONS>)
    ensures
        table_entries(v) == Seq::<Connection>::empty(),
{
    heapless::Vec::new()
}

/// `heapless::Vec::as_slice`: the items of the vector, in slot order.
#[verifier::external_body]
fn table_slice(v: &heapless::Vec<Connection, MAX_CONNECTIONS>) -> (s: &[Connection])
    ensures
        s@ == table_entries(*v),
{
    v.as_slice()
}

/// `heapless::Vec::push`: appends the item while the vector holds fewer
/// than its capacity; a full vector stays as it is and hands the item back.
/// The call never panics.
#[verifier::external_body]
fn table_push(v: &mut heapless::Vec<Connection, MAX_CONNECTIONS>, entry: Connection) -> (r: Result<
    (),
    Connection,
>)
    ensures
        r is Ok <==> table_entries(*old(v)).len() < MAX_CONNECTIONS,
        r is Ok ==> table_entries(*final(v)) == table_entries(*old(v)).push(entry),
        r is Err ==> r->Err_0 == entry && table_entries(*final(v)) == table_entries(*old(v)),
    no_unwind
{
    v.push(entry)
}

/// `heapless::Vec::swap_remove`: takes the item at `index` out, moves the
/// last item into its place and returns the item taken out. The call panics
/// on an index past the end and on nothing else; the precondition rules
/// that index out.
#[verifier::external_body]
fn table_swap_remove(v: &mut heapless::Vec<Connection, MAX_CONNECTIONS>, index: usize) -> (entry:
    Connection)
    requires
        index < table_entries(*old(v)).len(),
    ensures
        entry == table_entries(*old(v))[index as int],
        table_entries(*final(v)) == swap_removed(table_entries(*old(v)), index as int),
    no_unwind
{
    v.swap_remove(index)
}

/// `heapless::Vec::as_mut_slice`: the items of the vector, in slot order,
/// open to change; what the slice holds in the end is what the vector holds.
/// The call never panics.
#[verifier::external_body]
fn table_slice_mut(v: &mut heapless::Vec<Connection, MAX_CONNECTIONS>) -> (s: &mut [Connection])
    ensures
        s@ == table_entries(*old(v)),
        final(s)@ == table_entries(*final(v)),
        final(s)@.len() == s@.len(),
    no_unwind
{
    v.as_mut_slice()
}

} // verus!
