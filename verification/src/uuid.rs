//! Identifiers of services, characteristics and descriptors.

use vstd::prelude::*;

verus! {

/// A Bluetooth identifier in its short, medium or full form. Two
/// identifiers are the same only if they have the same form and value.
#[derive(Debug, Clone, Copy, PartialEq, Eq, Structural)]
pub enum Uuid {
    Uuid16(u16),
    Uuid32(u32),
    Uuid128(u128),
}

/// 256 to the power of `n`.
pub open spec fn pow256(n: nat) -> nat
    decreases n,
{
    if n == 0 {
        1
    } else {
        256 * pow256((n - 1) as nat)
    }
}

/// The number the bytes stand for when the first byte is the lowest.
pub open spec fn le_value(bytes: Seq<u8>) -> nat
    decreases bytes.len(),
{
    if bytes.len() == 0 {
        0
    } else {
        bytes[0] as nat + 256 * le_value(bytes.drop_first())
    }
}

/// The identifier that 2, 4 or 16 bytes stand for, lowest byte first. Bytes
/// of another number stand for none.
pub open spec fn uuid_of(bytes: Seq<u8>) -> Option<Uuid> {
    if bytes.len() == 2 {
        Some(Uuid::Uuid16(le_value(bytes) as u16))
    } else if bytes.len() == 4 {
        Some(Uuid::Uuid32(le_value(bytes) as u32))
    } else if bytes.len() == 16 {
        Some(Uuid::Uuid128(le_value(bytes) as u128))
    } else {
        None
    }
}

/// The powers of 256 grow.
pub proof fn lemma_pow256_grows(m: nat, n: nat)
    requires
        m <= n,
    ensures
        0 < pow256(m) <= pow256(n),
    decreases n,
{
    if n > 0 {
        if m < n {
            lemma_pow256_grows(m, (n - 1) as nat);
        } else {
            lemma_pow256_grows((m - 1) as nat, (n - 1) as nat);
        }
    }
}

/// The powers of 256 that bound the three forms of an identifier.
pub proof fn lemma_pow256_of_forms()
    ensures
        pow256(2) == 0x1_0000,
        pow256(4) == 0x1_0000_0000,
        pow256(16) == 0x1_0000_0000_0000_0000_0000_0000_0000_0000,
{
    reveal_with_fuel(pow256, 17);
}

/// The number that `n` bytes stand for is below the `n`th power of 256.
pub proof fn lemma_le_value_bound(bytes: Seq<u8>)
    ensures
        le_value(bytes) < pow256(bytes.len()),
    decreases bytes.len(),
{
    if bytes.len() > 0 {
        lemma_le_value_bound(bytes.drop_first());
    }
}

/// The number the bytes stand for when the first byte is the lowest.
pub fn le_number(bytes: &[u8]) -> (value: u128)
    requires
        bytes@.len() <= 16,
    ensures
        value == le_value(bytes@),
{
    let n: usize = bytes.len();
    let mut value: u128 = 0;
    let mut i: usize = n;
    assert(bytes@.subrange(n as int, n as int) =~= Seq::<u8>::empty());
    while i > 0
        invariant
            i <= n <= 16,
            n == bytes@.len(),
            value == le_value(bytes@.subrange(i as int, n as int)),
        decreases i,
    {
        i -= 1;
        proof {
            let rest = bytes@.subrange(i + 1, n as int);
            let tail = bytes@.subrange(i as int, n as int);
            assert(tail.drop_first() =~= rest);
            lemma_le_value_bound(rest);
            lemma_pow256_grows(rest.len(), 15);
            reveal_with_fuel(pow256, 16);
            assert(pow256(15) == 0x100_0000_0000_0000_0000_0000_0000_0000);
        }
        value = value * 256 + bytes[i] as u128;
    }
    assert(bytes@.subrange(0, n as int) =~= bytes@);
    value
}

impl Uuid {
    /// The identifier the stack hands over as 2, 4 or 16 bytes, lowest byte
    /// first.
    pub fn from_le_bytes(bytes: &[u8]) -> (id: Option<Uuid>)
        ensures
            id == uuid_of(bytes@),
    {
        let n: usize = bytes.len();
        if n != 2 && n != 4 && n != 16 {
            return None;
        }
        let value: u128 = le_number(bytes);
        proof {
            lemma_le_value_bound(bytes@);
            lemma_pow256_of_forms();
        }
        if n == 2 {
            Some(Uuid::Uuid16(value as u16))
        } else if n == 4 {
            Some(Uuid::Uuid32(value as u32))
        } else {
            Some(Uuid::Uuid128(value))
        }
    }
}

/// The service this server offers.
pub const SERVICE_UUID: u128 = 0xad91b201734740479e173bed82d75f9d;

/// The characteristic peers write their data to.
pub const RECV_CHARACTERISTIC_UUID: u128 = 0xb6fccb5087be44f3ae22f85485ea42c4;

/// The characteristic peers are sent indications on.
pub const IND_CHARACTERISTIC_UUID: u128 = 0x503de214868246c4828fd59144da41be;

/// The Client Characteristic Configuration Descriptor.
pub const CCCD_UUID: u16 = 0x2902;

} // verus!
