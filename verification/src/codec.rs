//! Fixed-layout serialization of the persisted state objects.
//!
//! Every object is stored with a constant byte width: booleans as one byte,
//! addresses as 32 bytes, integers little-endian. The width and order of the
//! fields is pinned here and must not change; a layout change requires a new
//! versioned codec.

use vstd::prelude::*;
use vstd::bytes::{
    spec_u16_to_le_bytes, spec_u16_from_le_bytes, spec_u64_to_le_bytes, spec_u64_from_le_bytes,
    u16_from_le_bytes, u16_to_le_bytes, u64_from_le_bytes, u64_to_le_bytes,
    lemma_auto_spec_u16_to_from_le_bytes, lemma_auto_spec_u64_to_from_le_bytes,
};
use vstd::slice::slice_subrange;
use crate::addr::Address;
use crate::error::RaffleError;
use crate::state::{Config, Raffle, RaffleStatus, TicketPurchase};

verus! {

broadcast use vstd::array::group_array_axioms;

/// Persisted width of a `Config` object.
pub const CONFIG_LEN: usize = 1 + 32 + 32 + 8 + 2 + 8;

/// Persisted width of a `Raffle` object.
pub const RAFFLE_LEN: usize = 1 + 32 + 32 + 8 + 8 + 1 + 32 + 8 + 2 + 32 + 32 + 1 + 8 + 8;

/// Persisted width of a `TicketPurchase` object.
pub const TICKET_PURCHASE_LEN: usize = 1 + 32 + 32 + 8 + 8;

/// The byte a boolean is persisted as.
pub open spec fn spec_bool_byte(b: bool) -> u8 {
    if b {
        1
    } else {
        0
    }
}

/// Little-endian bytes of a signed 64-bit integer (two's complement).
pub open spec fn spec_i64_to_le_bytes(x: i64) -> Seq<u8> {
    spec_u64_to_le_bytes(x as u64)
}

/// The signed 64-bit integer eight little-endian bytes denote.
pub open spec fn spec_i64_from_le_bytes(s: Seq<u8>) -> i64 {
    spec_u64_from_le_bytes(s) as i64
}

/// Round trip of the signed 64-bit codec.
pub proof fn lemma_i64_le_bytes_round_trip(x: i64)
    ensures
        spec_i64_to_le_bytes(x).len() == 8,
        spec_i64_from_le_bytes(spec_i64_to_le_bytes(x)) == x,
{
    lemma_auto_spec_u64_to_from_le_bytes();
    assert(x as u64 as i64 == x) by (bit_vector);
}

/// The persisted bytes of a `Config` object.
pub open spec fn spec_config_bytes(c: Config) -> Seq<u8> {
    seq![spec_bool_byte(c.is_initialized)] + c.admin@ + c.treasury@ + spec_u64_to_le_bytes(
        c.ticket_price,
    ) + spec_u16_to_le_bytes(c.fee_basis_points) + spec_u64_to_le_bytes(c.next_raffle_index)
}

/// The persisted bytes of a `Raffle` object.
pub open spec fn spec_raffle_bytes(r: Raffle) -> Seq<u8> {
    seq![spec_bool_byte(r.is_initialized)] + r.authority@ + r.title@ + spec_i64_to_le_bytes(
        r.end_time,
    ) + spec_u64_to_le_bytes(r.ticket_price) + seq![r.status.spec_byte()] + r.winner@
        + spec_u64_to_le_bytes(r.tickets_sold) + spec_u16_to_le_bytes(r.fee_basis_points)
        + r.treasury@ + r.vrf_account@ + seq![spec_bool_byte(r.vrf_request_in_progress)]
        + spec_u64_to_le_bytes(r.nonce) + spec_u64_to_le_bytes(r.raffle_index)
}

/// The persisted bytes of a `TicketPurchase` object.
pub open spec fn spec_ticket_purchase_bytes(t: TicketPurchase) -> Seq<u8> {
    seq![spec_bool_byte(t.is_initialized)] + t.raffle@ + t.purchaser@ + spec_u64_to_le_bytes(
        t.ticket_count,
    ) + spec_i64_to_le_bytes(t.purchase_time)
}

/// Appends a boolean's persisted byte.
pub(crate) fn push_bool(dst: &mut Vec<u8>, b: bool)
    ensures
        final(dst)@ == old(dst)@ + seq![spec_bool_byte(b)],
{
    dst.push(if b { 1 } else { 0 });
}

/// Appends an address's 32 raw bytes.
pub(crate) fn push_address(dst: &mut Vec<u8>, a: &Address)
    ensures
        final(dst)@ == old(dst)@ + a@,
{
    let mut i: usize = 0;
    while i < 32
        invariant
            i <= 32,
            dst@ == old(dst)@ + a@.subrange(0, i as int),
        decreases 32 - i,
    {
        dst.push(a.bytes[i]);
        proof {
            assert(a@.subrange(0, i + 1 as int) =~= a@.subrange(0, i as int).push(a@[i as int]));
        }
        i += 1;
    }
    proof {
        assert(a@.subrange(0, 32) =~= a@);
    }
}

/// Appends a 32-byte fixed buffer.
pub(crate) fn push_bytes32(dst: &mut Vec<u8>, b: &[u8; 32])
    ensures
        final(dst)@ == old(dst)@ + b@,
{
    let mut i: usize = 0;
    while i < 32
        invariant
            i <= 32,
            dst@ == old(dst)@ + b@.subrange(0, i as int),
        decreases 32 - i,
    {
        dst.push(b[i]);
        proof {
            assert(b@.subrange(0, i + 1 as int) =~= b@.subrange(0, i as int).push(b@[i as int]));
        }
        i += 1;
    }
    proof {
        assert(b@.subrange(0, 32) =~= b@);
    }
}

/// Appends an unsigned 64-bit integer, little-endian.
pub(crate) fn push_u64_le(dst: &mut Vec<u8>, v: u64)
    ensures
        final(dst)@ == old(dst)@ + spec_u64_to_le_bytes(v),
{
    let mut bytes = u64_to_le_bytes(v);
    dst.append(&mut bytes);
}

/// Appends an unsigned 16-bit integer, little-endian.
pub(crate) fn push_u16_le(dst: &mut Vec<u8>, v: u16)
    ensures
        final(dst)@ == old(dst)@ + spec_u16_to_le_bytes(v),
{
    let mut bytes = u16_to_le_bytes(v);
    dst.append(&mut bytes);
}

/// Appends a signed 64-bit integer, little-endian two's complement.
pub(crate) fn push_i64_le(dst: &mut Vec<u8>, v: i64)
    ensures
        final(dst)@ == old(dst)@ + spec_i64_to_le_bytes(v),
{
    let mut bytes = u64_to_le_bytes(v as u64);
    dst.append(&mut bytes);
}

/// Reads a boolean at the given offset; any non-zero byte counts as true.
pub(crate) fn read_bool(src: &[u8], offset: usize) -> (b: bool)
    requires
        offset < src@.len(),
    ensures
        b == (src@[offset as int] != 0),
{
    src[offset] != 0
}

/// Reads 32 bytes at the given offset as an address.
pub(crate) fn read_address(src: &[u8], offset: usize) -> (a: Address)
    requires
        offset + 32 <= src@.len(),
    ensures
        a@ == src@.subrange(offset as int, offset + 32),
{
    let bytes = read_bytes32(src, offset);
    Address { bytes }
}

/// Reads a 32-byte fixed buffer at the given offset.
pub(crate) fn read_bytes32(src: &[u8], offset: usize) -> (b: [u8; 32])
    requires
        offset + 32 <= src@.len(),
    ensures
        b@ == src@.subrange(offset as int, offset + 32),
{
    let n = src.len();
    let mut bytes: [u8; 32] = [0u8; 32];
    let mut i: usize = 0;
    while i < 32
        invariant
            i <= 32,
            offset + 32 <= n == src@.len(),
            forall|j: int| 0 <= j < i ==> bytes@[j] == src@[offset + j],
        decreases 32 - i,
    {
        bytes[i] = src[offset + i];
        i += 1;
    }
    proof {
        assert(bytes@ =~= src@.subrange(offset as int, offset + 32));
    }
    bytes
}

/// Reads an unsigned 64-bit little-endian integer at the given offset.
pub(crate) fn read_u64_le(src: &[u8], offset: usize) -> (v: u64)
    requires
        offset + 8 <= src@.len(),
    ensures
        v == spec_u64_from_le_bytes(src@.subrange(offset as int, offset + 8)),
{
    // The slice's length, in range of usize, bounds `offset + 8`.
    let _n = src.len();
    let sub = slice_subrange(src, offset, offset + 8);
    u64_from_le_bytes(sub)
}

/// Reads an unsigned 16-bit little-endian integer at the given offset.
pub(crate) fn read_u16_le(src: &[u8], offset: usize) -> (v: u16)
    requires
        offset + 2 <= src@.len(),
    ensures
        v == spec_u16_from_le_bytes(src@.subrange(offset as int, offset + 2)),
{
    // The slice's length, in range of usize, bounds `offset + 2`.
    let _n = src.len();
    let sub = slice_subrange(src, offset, offset + 2);
    u16_from_le_bytes(sub)
}

/// Reads a signed 64-bit little-endian integer at the given offset.
pub(crate) fn read_i64_le(src: &[u8], offset: usize) -> (v: i64)
    requires
        offset + 8 <= src@.len(),
    ensures
        v == spec_i64_from_le_bytes(src@.subrange(offset as int, offset + 8)),
{
    let u = read_u64_le(src, offset);
    u as i64
}

/// Law: packing a configuration loses nothing. Its persisted bytes are
/// exactly one layout wide and every field reads back from its offset, so
/// unpacking them restores the configuration.
pub proof fn lemma_config_bytes_parse_back(c: Config)
    ensures
        ({
            let s = spec_config_bytes(c);
            &&& s.len() == CONFIG_LEN
            &&& (s[0] != 0) == c.is_initialized
            &&& s.subrange(1, 33) == c.admin@
            &&& s.subrange(33, 65) == c.treasury@
            &&& spec_u64_from_le_bytes(s.subrange(65, 73)) == c.ticket_price
            &&& spec_u16_from_le_bytes(s.subrange(73, 75)) == c.fee_basis_points
            &&& spec_u64_from_le_bytes(s.subrange(75, 83)) == c.next_raffle_index
        }),
{
    lemma_auto_spec_u16_to_from_le_bytes();
    lemma_auto_spec_u64_to_from_le_bytes();
    let s = spec_config_bytes(c);
    assert(s.subrange(1, 33) =~= c.admin@);
    assert(s.subrange(33, 65) =~= c.treasury@);
    assert(s.subrange(65, 73) =~= spec_u64_to_le_bytes(c.ticket_price));
    assert(s.subrange(73, 75) =~= spec_u16_to_le_bytes(c.fee_basis_points));
    assert(s.subrange(75, 83) =~= spec_u64_to_le_bytes(c.next_raffle_index));
}

/// Law: packing a raffle loses nothing. Its persisted bytes are exactly one
/// layout wide and every field, the status byte included, reads back from
/// its offset, so unpacking them restores the raffle.
pub proof fn lemma_raffle_bytes_parse_back(r: Raffle)
    ensures
        ({
            let s = spec_raffle_bytes(r);
            &&& s.len() == RAFFLE_LEN
            &&& (s[0] != 0) == r.is_initialized
            &&& s.subrange(1, 33) == r.authority@
            &&& s.subrange(33, 65) == r.title@
            &&& spec_i64_from_le_bytes(s.subrange(65, 73)) == r.end_time
            &&& spec_u64_from_le_bytes(s.subrange(73, 81)) == r.ticket_price
            &&& RaffleStatus::spec_of_byte(s[81]) == Some(r.status)
            &&& s.subrange(82, 114) == r.winner@
            &&& spec_u64_from_le_bytes(s.subrange(114, 122)) == r.tickets_sold
            &&& spec_u16_from_le_bytes(s.subrange(122, 124)) == r.fee_basis_points
            &&& s.subrange(124, 156) == r.treasury@
            &&& s.subrange(156, 188) == r.vrf_account@
            &&& (s[188] != 0) == r.vrf_request_in_progress
            &&& spec_u64_from_le_bytes(s.subrange(189, 197)) == r.nonce
            &&& spec_u64_from_le_bytes(s.subrange(197, 205)) == r.raffle_index
        }),
{
    lemma_auto_spec_u16_to_from_le_bytes();
    lemma_auto_spec_u64_to_from_le_bytes();
    lemma_i64_le_bytes_round_trip(r.end_time);
    let s = spec_raffle_bytes(r);
    assert(s.subrange(1, 33) =~= r.authority@);
    assert(s.subrange(33, 65) =~= r.title@);
    assert(s.subrange(65, 73) =~= spec_i64_to_le_bytes(r.end_time));
    assert(s.subrange(73, 81) =~= spec_u64_to_le_bytes(r.ticket_price));
    assert(s[81] == r.status.spec_byte());
    assert(s.subrange(82, 114) =~= r.winner@);
    assert(s.subrange(114, 122) =~= spec_u64_to_le_bytes(r.tickets_sold));
    assert(s.subrange(122, 124) =~= spec_u16_to_le_bytes(r.fee_basis_points));
    assert(s.subrange(124, 156) =~= r.treasury@);
    assert(s.subrange(156, 188) =~= r.vrf_account@);
    assert(s.subrange(189, 197) =~= spec_u64_to_le_bytes(r.nonce));
    assert(s.subrange(197, 205) =~= spec_u64_to_le_bytes(r.raffle_index));
}

/// Law: packing an allocation loses nothing. Its persisted bytes are
/// exactly one layout wide and every field reads back from its offset, so
/// unpacking them restores the allocation.
pub proof fn lemma_ticket_purchase_bytes_parse_back(t: TicketPurchase)
    ensures
        ({
            let s = spec_ticket_purchase_bytes(t);
            &&& s.len() == TICKET_PURCHASE_LEN
            &&& (s[0] != 0) == t.is_initialized
            &&& s.subrange(1, 33) == t.raffle@
            &&& s.subrange(33, 65) == t.purchaser@
            &&& spec_u64_from_le_bytes(s.subrange(65, 73)) == t.ticket_count
            &&& spec_i64_from_le_bytes(s.subrange(73, 81)) == t.purchase_time
        }),
{
    lemma_auto_spec_u64_to_from_le_bytes();
    lemma_i64_le_bytes_round_trip(t.purchase_time);
    let s = spec_ticket_purchase_bytes(t);
    assert(s.subrange(1, 33) =~= t.raffle@);
    assert(s.subrange(33, 65) =~= t.purchaser@);
    assert(s.subrange(65, 73) =~= spec_u64_to_le_bytes(t.ticket_count));
    assert(s.subrange(73, 81) =~= spec_i64_to_le_bytes(t.purchase_time));
}

impl Config {
    /// Serializes the configuration into its fixed 83-byte layout,
    /// replacing the buffer's previous contents.
    pub fn pack_into_slice(&self, dst: &mut Vec<u8>)
        ensures
            final(dst)@ == spec_config_bytes(*self),
            final(dst)@.len() == CONFIG_LEN,
    {
        dst.clear();
        push_bool(dst, self.is_initialized);
        push_address(dst, &self.admin);
        push_address(dst, &self.treasury);
        push_u64_le(dst, self.ticket_price);
        push_u16_le(dst, self.fee_basis_points);
        push_u64_le(dst, self.next_raffle_index);
        proof {
            lemma_auto_spec_u16_to_from_le_bytes();
            lemma_auto_spec_u64_to_from_le_bytes();
            assert(dst@ =~= spec_config_bytes(*self));
        }
    }

    /// Deserializes a configuration from its fixed layout. Fails on a buffer
    /// shorter than the layout; trailing bytes are ignored.
    pub fn unpack_from_slice(src: &[u8]) -> (r: Result<Config, RaffleError>)
        ensures
            r is Ok <==> src@.len() >= CONFIG_LEN,
            r is Err ==> r->Err_0 == RaffleError::ValidationError,
            r is Ok ==> {
                let c = r->Ok_0;
                &&& c.is_initialized == (src@[0] != 0)
                &&& c.admin@ == src@.subrange(1, 33)
                &&& c.treasury@ == src@.subrange(33, 65)
                &&& c.ticket_price == spec_u64_from_le_bytes(src@.subrange(65, 73))
                &&& c.fee_basis_points == spec_u16_from_le_bytes(src@.subrange(73, 75))
                &&& c.next_raffle_index == spec_u64_from_le_bytes(src@.subrange(75, 83))
            },
    {
        if src.len() < CONFIG_LEN {
            return Err(RaffleError::ValidationError);
        }
        Ok(
            Config {
                is_initialized: read_bool(src, 0),
                admin: read_address(src, 1),
                treasury: read_address(src, 33),
                ticket_price: read_u64_le(src, 65),
                fee_basis_points: read_u16_le(src, 73),
                next_raffle_index: read_u64_le(src, 75),
            },
        )
    }
}

impl Raffle {
    /// Serializes the raffle into its fixed 205-byte layout, replacing the
    /// buffer's previous contents.
    pub fn pack_into_slice(&self, dst: &mut Vec<u8>)
        ensures
            final(dst)@ == spec_raffle_bytes(*self),
            final(dst)@.len() == RAFFLE_LEN,
    {
        dst.clear();
        push_bool(dst, self.is_initialized);
        push_address(dst, &self.authority);
        push_bytes32(dst, &self.title);
        push_i64_le(dst, self.end_time);
        push_u64_le(dst, self.ticket_price);
        dst.push(self.status.to_byte());
        push_address(dst, &self.winner);
        push_u64_le(dst, self.tickets_sold);
        push_u16_le(dst, self.fee_basis_points);
        push_address(dst, &self.treasury);
        push_address(dst, &self.vrf_account);
        push_bool(dst, self.vrf_request_in_progress);
        push_u64_le(dst, self.nonce);
        push_u64_le(dst, self.raffle_index);
        proof {
            lemma_auto_spec_u16_to_from_le_bytes();
            lemma_auto_spec_u64_to_from_le_bytes();
            assert(dst@ =~= spec_raffle_bytes(*self));
        }
    }

    /// Deserializes a raffle from its fixed layout. Fails on a buffer shorter
    /// than the layout or on an unknown status byte; trailing bytes are
    /// ignored.
    pub fn unpack_from_slice(src: &[u8]) -> (r: Result<Raffle, RaffleError>)
        ensures
            r is Ok <==> src@.len() >= RAFFLE_LEN && RaffleStatus::spec_of_byte(src@[81]) is Some,
            r is Err ==> r->Err_0 == RaffleError::ValidationError,
            r is Ok ==> {
                let rf = r->Ok_0;
                &&& rf.is_initialized == (src@[0] != 0)
                &&& rf.authority@ == src@.subrange(1, 33)
                &&& rf.title@ == src@.subrange(33, 65)
                &&& rf.end_time == spec_i64_from_le_bytes(src@.subrange(65, 73))
                &&& rf.ticket_price == spec_u64_from_le_bytes(src@.subrange(73, 81))
                &&& Some(rf.status) == RaffleStatus::spec_of_byte(src@[81])
                &&& rf.winner@ == src@.subrange(82, 114)
                &&& rf.tickets_sold == spec_u64_from_le_bytes(src@.subrange(114, 122))
                &&& rf.fee_basis_points == spec_u16_from_le_bytes(src@.subrange(122, 124))
                &&& rf.treasury@ == src@.subrange(124, 156)
                &&& rf.vrf_account@ == src@.subrange(156, 188)
                &&& rf.vrf_request_in_progress == (src@[188] != 0)
                &&& rf.nonce == spec_u64_from_le_bytes(src@.subrange(189, 197))
                &&& rf.raffle_index == spec_u64_from_le_bytes(src@.subrange(197, 205))
            },
    {
        if src.len() < RAFFLE_LEN {
            return Err(RaffleError::ValidationError);
        }
        let status = match RaffleStatus::from_byte(src[81]) {
            Ok(s) => s,
            Err(e) => {
                return Err(e);
            },
        };
        Ok(
            Raffle {
                is_initialized: read_bool(src, 0),
                authority: read_address(src, 1),
                title: read_bytes32(src, 33),
                end_time: read_i64_le(src, 65),
                ticket_price: read_u64_le(src, 73),
                status,
                winner: read_address(src, 82),
                tickets_sold: read_u64_le(src, 114),
                fee_basis_points: read_u16_le(src, 122),
                treasury: read_address(src, 124),
                vrf_account: read_address(src, 156),
                vrf_request_in_progress: read_bool(src, 188),
                nonce: read_u64_le(src, 189),
                raffle_index: read_u64_le(src, 197),
            },
        )
    }
}

impl TicketPurchase {
    /// Serializes the allocation into its fixed 81-byte layout, replacing the
    /// buffer's previous contents.
    pub fn pack_into_slice(&self, dst: &mut Vec<u8>)
        ensures
            final(dst)@ == spec_ticket_purchase_bytes(*self),
            final(dst)@.len() == TICKET_PURCHASE_LEN,
    {
        dst.clear();
        push_bool(dst, self.is_initialized);
        push_address(dst, &self.raffle);
        push_address(dst, &self.purchaser);
        push_u64_le(dst, self.ticket_count);
        push_i64_le(dst, self.purchase_time);
        proof {
            lemma_auto_spec_u64_to_from_le_bytes();
            assert(dst@ =~= spec_ticket_purchase_bytes(*self));
        }
    }

    /// Deserializes an allocation from its fixed layout. Fails on a buffer
    /// shorter than the layout; trailing bytes are ignored.
    pub fn unpack_from_slice(src: &[u8]) -> (r: Result<TicketPurchase, RaffleError>)
        ensures
            r is Ok <==> src@.len() >= TICKET_PURCHASE_LEN,
            r is Err ==> r->Err_0 == RaffleError::ValidationError,
            r is Ok ==> {
                let t = r->Ok_0;
                &&& t.is_initialized == (src@[0] != 0)
                &&& t.raffle@ == src@.subrange(1, 33)
                &&& t.purchaser@ == src@.subrange(33, 65)
                &&& t.ticket_count == spec_u64_from_le_bytes(src@.subrange(65, 73))
                &&& t.purchase_time == spec_i64_from_le_bytes(src@.subrange(73, 81))
            },
    {
        if src.len() < TICKET_PURCHASE_LEN {
            return Err(RaffleError::ValidationError);
        }
        Ok(
            TicketPurchase {
                is_initialized: read_bool(src, 0),
                raffle: read_address(src, 1),
                purchaser: read_address(src, 33),
                ticket_count: read_u64_le(src, 65),
                purchase_time: read_i64_le(src, 73),
            },
        )
    }
}

} // verus!
