//! Byte-level layout shared by every view of a DHCPv4 message: field offsets,
//! big-endian integer decoding and encoding.
use vstd::prelude::*;

verus! {

/// Size of the fixed header that precedes the options region.
pub const HEADER_SIZE: usize = 236;

/// Smallest datagram the protocol allows.
pub const MIN_PACKET_SIZE: usize = 300;

/// Smallest options region the protocol allows, padding included.
pub const OPTIONS_MIN_SIZE: usize = 64;

/// Size of the magic cookie that opens the options region.
pub const MAGIC_COOKIE_SIZE: usize = 4;

pub const OP_OFFSET: usize = 0;
pub const HTYPE_OFFSET: usize = 1;
pub const HLEN_OFFSET: usize = 2;
pub const HOPS_OFFSET: usize = 3;
pub const XID_OFFSET: usize = 4;
pub const SECS_OFFSET: usize = 8;
pub const FLAGS_OFFSET: usize = 10;
pub const CIADDR_OFFSET: usize = 12;
pub const YIADDR_OFFSET: usize = 16;
pub const SIADDR_OFFSET: usize = 20;
pub const GIADDR_OFFSET: usize = 24;
pub const CHADDR_OFFSET: usize = 28;
pub const CHADDR_SIZE: usize = 16;
pub const SNAME_OFFSET: usize = 44;
pub const SNAME_SIZE: usize = 64;
pub const FILE_OFFSET: usize = 108;
pub const FILE_SIZE: usize = 128;

/// The big-endian 16-bit integer stored at `off`.
pub open spec fn be16_at(s: Seq<u8>, off: int) -> u16 {
    (s[off] as int * 256 + s[off + 1] as int) as u16
}

/// The big-endian 32-bit integer stored at `off`.
pub open spec fn be32_at(s: Seq<u8>, off: int) -> u32 {
    (s[off] as int * 16777216 + s[off + 1] as int * 65536 + s[off + 2] as int * 256 + s[off
        + 3] as int) as u32
}

/// The two bytes of `v` in network order.
pub open spec fn be16_bytes(v: u16) -> Seq<u8> {
    seq![(v / 256) as u8, (v % 256) as u8]
}

/// The four bytes of `v` in network order.
pub open spec fn be32_bytes(v: u32) -> Seq<u8> {
    seq![
        (v / 16777216) as u8,
        ((v / 65536) % 256) as u8,
        ((v / 256) % 256) as u8,
        (v % 256) as u8,
    ]
}

/// The four bytes stored at `off`.
pub open spec fn octets_at(s: Seq<u8>, off: int) -> Seq<u8> {
    s.subrange(off, off + 4)
}

/// `s` with the bytes at `off..off + v.len()` replaced by `v`.
pub open spec fn splice(s: Seq<u8>, off: int, v: Seq<u8>) -> Seq<u8> {
    s.subrange(0, off) + v + s.subrange(off + v.len(), s.len() as int)
}

/// The `op` field of header bytes `s`.
pub open spec fn op_of(s: Seq<u8>) -> u8 {
    s[OP_OFFSET as int]
}

pub open spec fn htype_of(s: Seq<u8>) -> u8 {
    s[HTYPE_OFFSET as int]
}

pub open spec fn hlen_of(s: Seq<u8>) -> u8 {
    s[HLEN_OFFSET as int]
}

pub open spec fn hops_of(s: Seq<u8>) -> u8 {
    s[HOPS_OFFSET as int]
}

/// The transaction id.
pub open spec fn xid_of(s: Seq<u8>) -> u32 {
    be32_at(s, XID_OFFSET as int)
}

pub open spec fn secs_of(s: Seq<u8>) -> u16 {
    be16_at(s, SECS_OFFSET as int)
}

pub open spec fn flags_of(s: Seq<u8>) -> u16 {
    be16_at(s, FLAGS_OFFSET as int)
}

/// The client address.
pub open spec fn ciaddr_of(s: Seq<u8>) -> Seq<u8> {
    octets_at(s, CIADDR_OFFSET as int)
}

/// The address assigned to the client.
pub open spec fn yiaddr_of(s: Seq<u8>) -> Seq<u8> {
    octets_at(s, YIADDR_OFFSET as int)
}

/// The next server's address.
pub open spec fn siaddr_of(s: Seq<u8>) -> Seq<u8> {
    octets_at(s, SIADDR_OFFSET as int)
}

/// The relay agent's address.
pub open spec fn giaddr_of(s: Seq<u8>) -> Seq<u8> {
    octets_at(s, GIADDR_OFFSET as int)
}

/// The client hardware address field, all sixteen bytes.
pub open spec fn chaddr_of(s: Seq<u8>) -> Seq<u8> {
    s.subrange(CHADDR_OFFSET as int, CHADDR_OFFSET + CHADDR_SIZE)
}

pub open spec fn sname_of(s: Seq<u8>) -> Seq<u8> {
    s.subrange(SNAME_OFFSET as int, SNAME_OFFSET + SNAME_SIZE)
}

pub open spec fn file_of(s: Seq<u8>) -> Seq<u8> {
    s.subrange(FILE_OFFSET as int, FILE_OFFSET + FILE_SIZE)
}

/// Header bytes in their default state: all zero but for a BOOTREQUEST
/// operation and an Ethernet hardware type and length.
pub open spec fn default_header() -> Seq<u8> {
    seq![1u8, 1u8, 6u8] + Seq::new((HEADER_SIZE - 3) as nat, |i: int| 0u8)
}

pub proof fn lemma_be16_round_trip(v: u16)
    ensures
        be16_at(be16_bytes(v), 0) == v,
{
    let b = be16_bytes(v);
    assert(b[0] as int * 256 + b[1] as int == v) by (nonlinear_arith)
        requires
            b[0] == (v / 256) as u8,
            b[1] == (v % 256) as u8,
            0 <= v < 65536,
    {
        assert(v / 256 < 256);
    }
}

pub proof fn lemma_be32_round_trip(v: u32)
    ensures
        be32_at(be32_bytes(v), 0) == v,
{
    let b = be32_bytes(v);
    let q3 = v / 16777216;
    let q2 = v / 65536;
    let q1 = v / 256;
    assert(q3 == q2 / 256 && q2 == q1 / 256) by {
        vstd::arithmetic::div_mod::lemma_div_denominator(v as int, 256, 256);
        vstd::arithmetic::div_mod::lemma_div_denominator(v as int, 65536, 256);
    }
    assert(q3 < 256) by {
        vstd::arithmetic::div_mod::lemma_div_is_ordered(v as int, 4294967295, 16777216);
    }
    vstd::arithmetic::div_mod::lemma_fundamental_div_mod(v as int, 256);
    vstd::arithmetic::div_mod::lemma_fundamental_div_mod(q1 as int, 256);
    vstd::arithmetic::div_mod::lemma_fundamental_div_mod(q2 as int, 256);
    assert(b[0] as int * 16777216 + b[1] as int * 65536 + b[2] as int * 256 + b[3] as int == v)
        by (nonlinear_arith)
        requires
            b[0] == q3,
            b[1] == q2 % 256,
            b[2] == q1 % 256,
            b[3] == v % 256,
            v == 256 * q1 + v % 256,
            q1 == 256 * q2 + q1 % 256,
            q2 == 256 * q3 + q2 % 256,
    {
    }
}

/// Writing any header field and reading it back, over the same bytes, gives
/// the value written.
pub proof fn lemma_header_round_trip(
    s: Seq<u8>,
    byte: u8,
    xid: u32,
    secs: u16,
    flags: u16,
    addr: Seq<u8>,
    chaddr: Seq<u8>,
    sname: Seq<u8>,
    file: Seq<u8>,
)
    requires
        s.len() == HEADER_SIZE,
        addr.len() == 4,
        chaddr.len() == CHADDR_SIZE,
        sname.len() == SNAME_SIZE,
        file.len() == FILE_SIZE,
    ensures
        op_of(s.update(OP_OFFSET as int, byte)) == byte,
        htype_of(s.update(HTYPE_OFFSET as int, byte)) == byte,
        hlen_of(s.update(HLEN_OFFSET as int, byte)) == byte,
        hops_of(s.update(HOPS_OFFSET as int, byte)) == byte,
        xid_of(splice(s, XID_OFFSET as int, be32_bytes(xid))) == xid,
        secs_of(splice(s, SECS_OFFSET as int, be16_bytes(secs))) == secs,
        flags_of(splice(s, FLAGS_OFFSET as int, be16_bytes(flags))) == flags,
        ciaddr_of(splice(s, CIADDR_OFFSET as int, addr)) == addr,
        yiaddr_of(splice(s, YIADDR_OFFSET as int, addr)) == addr,
        siaddr_of(splice(s, SIADDR_OFFSET as int, addr)) == addr,
        giaddr_of(splice(s, GIADDR_OFFSET as int, addr)) == addr,
        chaddr_of(splice(s, CHADDR_OFFSET as int, chaddr)) == chaddr,
        sname_of(splice(s, SNAME_OFFSET as int, sname)) == sname,
        file_of(splice(s, FILE_OFFSET as int, file)) == file,
{
    lemma_be32_round_trip(xid);
    lemma_be16_round_trip(secs);
    lemma_be16_round_trip(flags);
    let x = splice(s, XID_OFFSET as int, be32_bytes(xid));
    assert(x.subrange(4, 8) =~= be32_bytes(xid));
    let sc = splice(s, SECS_OFFSET as int, be16_bytes(secs));
    assert(sc.subrange(8, 10) =~= be16_bytes(secs));
    let fl = splice(s, FLAGS_OFFSET as int, be16_bytes(flags));
    assert(fl.subrange(10, 12) =~= be16_bytes(flags));
    assert(ciaddr_of(splice(s, CIADDR_OFFSET as int, addr)) =~= addr);
    assert(yiaddr_of(splice(s, YIADDR_OFFSET as int, addr)) =~= addr);
    assert(siaddr_of(splice(s, SIADDR_OFFSET as int, addr)) =~= addr);
    assert(giaddr_of(splice(s, GIADDR_OFFSET as int, addr)) =~= addr);
    assert(chaddr_of(splice(s, CHADDR_OFFSET as int, chaddr)) =~= chaddr);
    assert(sname_of(splice(s, SNAME_OFFSET as int, sname)) =~= sname);
    assert(file_of(splice(s, FILE_OFFSET as int, file)) =~= file);
}

/// Reads the big-endian 16-bit integer at `off`.
pub fn read_be16(s: &[u8], off: usize) -> (r: u16)
    requires
        off + 2 <= s@.len(),
    ensures
        r == be16_at(s@, off as int),
{
    s[off] as u16 * 256 + s[off + 1] as u16
}

/// Reads the big-endian 32-bit integer at `off`.
pub fn read_be32(s: &[u8], off: usize) -> (r: u32)
    requires
        off + 4 <= s@.len(),
    ensures
        r == be32_at(s@, off as int),
{
    s[off] as u32 * 16777216 + s[off + 1] as u32 * 65536 + s[off + 2] as u32 * 256 + s[off
        + 3] as u32
}

/// Reads the four bytes at `off`.
pub fn read_octets(s: &[u8], off: usize) -> (r: [u8; 4])
    requires
        off + 4 <= s@.len(),
    ensures
        r@ == octets_at(s@, off as int),
{
    let r = [s[off], s[off + 1], s[off + 2], s[off + 3]];
    assert(r@ =~= octets_at(s@, off as int));
    r
}

/// Writes `v` over the bytes at `off`.
pub fn write_bytes(s: &mut [u8], off: usize, v: &[u8])
    requires
        off + v@.len() <= old(s)@.len(),
    ensures
        final(s)@ == splice(old(s)@, off as int, v@),
{
    let n = s.len();
    let mut i: usize = 0;
    while i < v.len()
        invariant
            n == old(s)@.len(),
            off + v@.len() <= old(s)@.len(),
            s@.len() == old(s)@.len(),
            i <= v@.len(),
            s@ =~= splice(old(s)@, off as int, v@.subrange(0, i as int)),
        decreases v@.len() - i,
    {
        s[off + i] = v[i];
        i = i + 1;
        assert(s@ =~= splice(old(s)@, off as int, v@.subrange(0, i as int)));
    }
    assert(v@.subrange(0, i as int) =~= v@);
}

/// The network-order bytes of `v`.
pub fn be16_to_bytes(v: u16) -> (r: [u8; 2])
    ensures
        r@ == be16_bytes(v),
{
    let r = [(v / 256) as u8, (v % 256) as u8];
    assert(r@ =~= be16_bytes(v));
    r
}

/// The network-order bytes of `v`.
pub fn be32_to_bytes(v: u32) -> (r: [u8; 4])
    ensures
        r@ == be32_bytes(v),
{
    let r = [(v / 16777216) as u8, ((v / 65536) % 256) as u8, ((v / 256) % 256) as u8, (v % 256) as u8];
    assert(r@ =~= be32_bytes(v));
    r
}

} // verus!
