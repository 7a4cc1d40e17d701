//! Views over a whole message and its fixed header, and the builder that
//! writes replies.
use vstd::prelude::*;

use crate::layout::{
    be16_bytes, be16_to_bytes, be32_bytes, be32_to_bytes, default_header, splice, write_bytes,
    chaddr_of, ciaddr_of, file_of, flags_of, giaddr_of, hlen_of, hops_of, htype_of, op_of,
    read_be16, read_be32, read_octets, secs_of, siaddr_of, sname_of, xid_of, yiaddr_of,
    CHADDR_OFFSET, CHADDR_SIZE, CIADDR_OFFSET, FILE_OFFSET, FILE_SIZE, FLAGS_OFFSET,
    GIADDR_OFFSET, HEADER_SIZE, HLEN_OFFSET, HOPS_OFFSET, HTYPE_OFFSET, MIN_PACKET_SIZE,
    OP_OFFSET, SECS_OFFSET, SIADDR_OFFSET, SNAME_OFFSET, SNAME_SIZE, XID_OFFSET, YIADDR_OFFSET,
};
use crate::op_code::OpCode;
use crate::options;

verus! {

/// A received datagram of at least the protocol's minimum size.
pub struct Message<B>(B);

impl<T> Message<T> {
    pub const MIN_SIZE: usize = MIN_PACKET_SIZE;
}

impl<'a> Message<&'a [u8]> {
    /// The datagram's bytes.
    pub closed spec fn bytes(&self) -> Seq<u8> {
        self.0@
    }

    /// Absent when `buf` is shorter than the protocol minimum.
    pub fn new(buf: &'a [u8]) -> (r: Option<Self>)
        ensures
            r is Some <==> buf@.len() >= MIN_PACKET_SIZE,
            r matches Some(m) ==> m.bytes() == buf@,
    {
        if buf.len() >= MIN_PACKET_SIZE {
            return Some(Message(buf));
        }
        None
    }

    pub fn as_slice(&self) -> (r: &'a [u8])
        ensures
            r@ == self.bytes(),
    {
        self.0
    }

    /// The fixed header: the first bytes of the datagram.
    pub fn header(&self) -> (r: Header<&'a [u8]>)
        requires
            self.bytes().len() >= MIN_PACKET_SIZE,
        ensures
            r.bytes() == self.bytes().subrange(0, HEADER_SIZE as int),
    {
        let (h, _) = self.0.split_at(HEADER_SIZE);
        Header(h)
    }

    /// The options region: everything after the header.
    pub fn options(&self) -> (r: options::Options<&'a [u8]>)
        requires
            self.bytes().len() >= MIN_PACKET_SIZE,
        ensures
            r.bytes() == self.bytes().subrange(HEADER_SIZE as int, self.bytes().len() as int),
    {
        let (_, o) = self.0.split_at(HEADER_SIZE);
        options::Options::new(o).unwrap()
    }
}

/// The fixed-layout header, over a borrowed slice (read) or a mutably
/// borrowed slice (write).
pub struct Header<B>(B);

impl<T> Header<T> {
    pub const SIZE: usize = HEADER_SIZE;
}

impl<'a> Header<&'a [u8]> {
    /// The header's bytes.
    pub closed spec fn bytes(&self) -> Seq<u8> {
        self.0@
    }

    /// Absent unless `buf` is exactly a header long.
    pub fn new(buf: &'a [u8]) -> (r: Option<Self>)
        ensures
            r is Some <==> buf@.len() == HEADER_SIZE,
            r matches Some(h) ==> h.bytes() == buf@,
    {
        if buf.len() == HEADER_SIZE {
            return Some(Header(buf));
        }
        None
    }

    pub fn as_slice(&self) -> (r: &'a [u8])
        ensures
            r@ == self.bytes(),
    {
        self.0
    }

    pub fn op_code(&self) -> (r: OpCode)
        requires
            self.bytes().len() == HEADER_SIZE,
        ensures
            r.0 == op_of(self.bytes()),
    {
        OpCode(self.0[OP_OFFSET])
    }

    pub fn htype(&self) -> (r: u8)
        requires
            self.bytes().len() == HEADER_SIZE,
        ensures
            r == htype_of(self.bytes()),
    {
        self.0[HTYPE_OFFSET]
    }

    pub fn hlen(&self) -> (r: u8)
        requires
            self.bytes().len() == HEADER_SIZE,
        ensures
            r == hlen_of(self.bytes()),
    {
        self.0[HLEN_OFFSET]
    }

    pub fn hops(&self) -> (r: u8)
        requires
            self.bytes().len() == HEADER_SIZE,
        ensures
            r == hops_of(self.bytes()),
    {
        self.0[HOPS_OFFSET]
    }

    pub fn xid(&self) -> (r: u32)
        requires
            self.bytes().len() == HEADER_SIZE,
        ensures
            r == xid_of(self.bytes()),
    {
        read_be32(self.0, XID_OFFSET)
    }

    pub fn secs(&self) -> (r: u16)
        requires
            self.bytes().len() == HEADER_SIZE,
        ensures
            r == secs_of(self.bytes()),
    {
        read_be16(self.0, SECS_OFFSET)
    }

    pub fn flags(&self) -> (r: u16)
        requires
            self.bytes().len() == HEADER_SIZE,
        ensures
            r == flags_of(self.bytes()),
    {
        read_be16(self.0, FLAGS_OFFSET)
    }

    pub fn ciaddr(&self) -> (r: [u8; 4])
        requires
            self.bytes().len() == HEADER_SIZE,
        ensures
            r@ == ciaddr_of(self.bytes()),
    {
        read_octets(self.0, CIADDR_OFFSET)
    }

    pub fn yiaddr(&self) -> (r: [u8; 4])
        requires
            self.bytes().len() == HEADER_SIZE,
        ensures
            r@ == yiaddr_of(self.bytes()),
    {
        read_octets(self.0, YIADDR_OFFSET)
    }

    pub fn siaddr(&self) -> (r: [u8; 4])
        requires
            self.bytes().len() == HEADER_SIZE,
        ensures
            r@ == siaddr_of(self.bytes()),
    {
        read_octets(self.0, SIADDR_OFFSET)
    }

    pub fn giaddr(&self) -> (r: [u8; 4])
        requires
            self.bytes().len() == HEADER_SIZE,
        ensures
            r@ == giaddr_of(self.bytes()),
    {
        read_octets(self.0, GIADDR_OFFSET)
    }

    pub fn chaddr(&self) -> (r: &'a [u8])
        requires
            self.bytes().len() == HEADER_SIZE,
        ensures
            r@ == chaddr_of(self.bytes()),
    {
        let (_, rest) = self.0.split_at(CHADDR_OFFSET);
        let (f, _) = rest.split_at(CHADDR_SIZE);
        f
    }

    pub fn sname(&self) -> (r: &'a [u8])
        requires
            self.bytes().len() == HEADER_SIZE,
        ensures
            r@ == sname_of(self.bytes()),
    {
        let (_, rest) = self.0.split_at(SNAME_OFFSET);
        let (f, _) = rest.split_at(SNAME_SIZE);
        f
    }

    pub fn file(&self) -> (r: &'a [u8])
        requires
            self.bytes().len() == HEADER_SIZE,
        ensures
            r@ == file_of(self.bytes()),
    {
        let (_, rest) = self.0.split_at(FILE_OFFSET);
        let (f, _) = rest.split_at(FILE_SIZE);
        f
    }
}

impl<'a> Header<&'a mut [u8]> {
    /// The slice this header writes to.
    pub closed spec fn target(&self) -> &'a mut [u8] {
        self.0
    }

    /// The header's current bytes.
    pub open spec fn bytes(&self) -> Seq<u8> {
        self.target()@
    }

    /// Once nothing writes through `h` any more, what it holds is what its
    /// target ends up holding.
    pub proof fn lemma_resolved(h: Self)
        requires
            has_resolved(h),
        ensures
            final(h.target())@ == h.bytes(),
    {
    }

    /// Absent unless `buf` is exactly a header long.
    pub fn new(buf: &'a mut [u8]) -> (r: Option<Self>)
        ensures
            r is Some <==> old(buf)@.len() == HEADER_SIZE,
            r matches Some(h) ==> h.bytes() == old(buf)@ && final(h.target())@ == final(buf)@,
    {
        if buf.len() == HEADER_SIZE {
            return Some(Header(buf));
        }
        None
    }

    pub fn as_mut_slice(&mut self) -> (r: &mut [u8])
        ensures
            r@ == old(self).bytes(),
            final(self).bytes() == final(r)@,
            final(final(self).target())@ == final(old(self).target())@,
    {
        &mut *self.0
    }

    /// Writes `v` over the header bytes at `off`.
    fn write_at(&mut self, off: usize, v: &[u8])
        requires
            off + v@.len() <= old(self).bytes().len(),
        ensures
            final(self).bytes() == splice(old(self).bytes(), off as int, v@),
            final(final(self).target())@ == final(old(self).target())@,
    {
        write_bytes(self.0, off, v);
    }

    pub fn set_op_code(&mut self, op_code: OpCode)
        requires
            old(self).bytes().len() == HEADER_SIZE,
        ensures
            final(self).bytes() == old(self).bytes().update(OP_OFFSET as int, op_code.0),
            final(final(self).target())@ == final(old(self).target())@,
    {
        self.0[OP_OFFSET] = op_code.0;
    }

    pub fn set_htype(&mut self, htype: u8)
        requires
            old(self).bytes().len() == HEADER_SIZE,
        ensures
            final(self).bytes() == old(self).bytes().update(HTYPE_OFFSET as int, htype),
            final(final(self).target())@ == final(old(self).target())@,
    {
        self.0[HTYPE_OFFSET] = htype;
    }

    pub fn set_hlen(&mut self, hlen: u8)
        requires
            old(self).bytes().len() == HEADER_SIZE,
        ensures
            final(self).bytes() == old(self).bytes().update(HLEN_OFFSET as int, hlen),
            final(final(self).target())@ == final(old(self).target())@,
    {
        self.0[HLEN_OFFSET] = hlen;
    }

    pub fn set_hops(&mut self, hops: u8)
        requires
            old(self).bytes().len() == HEADER_SIZE,
        ensures
            final(self).bytes() == old(self).bytes().update(HOPS_OFFSET as int, hops),
            final(final(self).target())@ == final(old(self).target())@,
    {
        self.0[HOPS_OFFSET] = hops;
    }

    pub fn set_xid(&mut self, xid: u32)
        requires
            old(self).bytes().len() == HEADER_SIZE,
        ensures
            final(self).bytes() == splice(old(self).bytes(), XID_OFFSET as int, be32_bytes(xid)),
            final(final(self).target())@ == final(old(self).target())@,
    {
        let b = be32_to_bytes(xid);
        self.write_at(XID_OFFSET, &b);
    }

    pub fn set_secs(&mut self, secs: u16)
        requires
            old(self).bytes().len() == HEADER_SIZE,
        ensures
            final(self).bytes() == splice(old(self).bytes(), SECS_OFFSET as int, be16_bytes(secs)),
            final(final(self).target())@ == final(old(self).target())@,
    {
        let b = be16_to_bytes(secs);
        self.write_at(SECS_OFFSET, &b);
    }

    pub fn set_flags(&mut self, flags: u16)
        requires
            old(self).bytes().len() == HEADER_SIZE,
        ensures
            final(self).bytes() == splice(old(self).bytes(), FLAGS_OFFSET as int, be16_bytes(flags)),
            final(final(self).target())@ == final(old(self).target())@,
    {
        let b = be16_to_bytes(flags);
        self.write_at(FLAGS_OFFSET, &b);
    }

    pub fn set_ciaddr(&mut self, ciaddr: [u8; 4])
        requires
            old(self).bytes().len() == HEADER_SIZE,
        ensures
            final(self).bytes() == splice(old(self).bytes(), CIADDR_OFFSET as int, ciaddr@),
            final(final(self).target())@ == final(old(self).target())@,
    {
        self.write_at(CIADDR_OFFSET, &ciaddr);
    }

    pub fn set_yiaddr(&mut self, yiaddr: [u8; 4])
        requires
            old(self).bytes().len() == HEADER_SIZE,
        ensures
            final(self).bytes() == splice(old(self).bytes(), YIADDR_OFFSET as int, yiaddr@),
            final(final(self).target())@ == final(old(self).target())@,
    {
        self.write_at(YIADDR_OFFSET, &yiaddr);
    }

    pub fn set_siaddr(&mut self, siaddr: [u8; 4])
        requires
            old(self).bytes().len() == HEADER_SIZE,
        ensures
            final(self).bytes() == splice(old(self).bytes(), SIADDR_OFFSET as int, siaddr@),
            final(final(self).target())@ == final(old(self).target())@,
    {
        self.write_at(SIADDR_OFFSET, &siaddr);
    }

    pub fn set_giaddr(&mut self, giaddr: [u8; 4])
        requires
            old(self).bytes().len() == HEADER_SIZE,
        ensures
            final(self).bytes() == splice(old(self).bytes(), GIADDR_OFFSET as int, giaddr@),
            final(final(self).target())@ == final(old(self).target())@,
    {
        self.write_at(GIADDR_OFFSET, &giaddr);
    }

    /// The client hardware address field, to write through.
    pub fn chaddr(&mut self) -> (r: &mut [u8])
        requires
            old(self).bytes().len() == HEADER_SIZE,
        ensures
            r@ == chaddr_of(old(self).bytes()),
            final(self).bytes() == old(self).bytes().subrange(0, CHADDR_OFFSET as int) + final(r)@
                + old(self).bytes().subrange(CHADDR_OFFSET + CHADDR_SIZE, HEADER_SIZE as int),
            final(final(self).target())@ == final(old(self).target())@,
    {
        let (_, rest) = self.0.split_at_mut(CHADDR_OFFSET);
        let (f, _) = rest.split_at_mut(CHADDR_SIZE);
        f
    }

    /// The server name field, to write through.
    pub fn sname(&mut self) -> (r: &mut [u8])
        requires
            old(self).bytes().len() == HEADER_SIZE,
        ensures
            r@ == sname_of(old(self).bytes()),
            final(self).bytes() == old(self).bytes().subrange(0, SNAME_OFFSET as int) + final(r)@
                + old(self).bytes().subrange(SNAME_OFFSET + SNAME_SIZE, HEADER_SIZE as int),
            final(final(self).target())@ == final(old(self).target())@,
    {
        let (_, rest) = self.0.split_at_mut(SNAME_OFFSET);
        let (f, _) = rest.split_at_mut(SNAME_SIZE);
        f
    }

    /// The boot file name field, to write through.
    pub fn file(&mut self) -> (r: &mut [u8])
        requires
            old(self).bytes().len() == HEADER_SIZE,
        ensures
            r@ == file_of(old(self).bytes()),
            final(self).bytes() == old(self).bytes().subrange(0, FILE_OFFSET as int) + final(r)@,
            final(final(self).target())@ == final(old(self).target())@,
    {
        let (_, rest) = self.0.split_at_mut(FILE_OFFSET);
        rest
    }

    /// Zeroes every field, then sets a BOOTREQUEST operation and an Ethernet
    /// hardware type and address length.
    pub fn reset_to_default(&mut self)
        requires
            old(self).bytes().len() == HEADER_SIZE,
        ensures
            final(self).bytes() == default_header(),
            final(final(self).target())@ == final(old(self).target())@,
    {
        let n = self.0.len();
        let mut i: usize = 0;
        while i < n
            invariant
                n == HEADER_SIZE,
                self.bytes().len() == HEADER_SIZE,
                i <= n,
                forall|j: int| 0 <= j < i ==> self.bytes()[j] == 0,
                final(self.target())@ == final(old(self).target())@,
            decreases n - i,
        {
            self.0[i] = 0;
            i = i + 1;
        }
        self.set_op_code(OpCode(OpCode::BOOTREQUEST));
        self.set_htype(1);
        self.set_hlen(6);
        assert(self.bytes() =~= default_header());
    }
}

/// An owned buffer that starts as a default header and grows by appending
/// options.
pub struct Builder {
    buf: Vec<u8>,
}

impl Builder {
    /// The bytes written so far.
    pub closed spec fn bytes(&self) -> Seq<u8> {
        self.buf@
    }

    pub fn new() -> (r: Self)
        ensures
            r.bytes() == default_header(),
    {
        let buf = vec![0u8; HEADER_SIZE];
        let mut bldr = Builder { buf };
        bldr.reset();
        bldr
    }

    /// The header, to write through.
    pub fn header_mut(&mut self) -> (r: Header<&mut [u8]>)
        requires
            old(self).bytes().len() >= HEADER_SIZE,
        ensures
            r.bytes() == old(self).bytes().subrange(0, HEADER_SIZE as int),
            final(self).bytes() == final(r.target())@ + old(self).bytes().subrange(
                HEADER_SIZE as int,
                old(self).bytes().len() as int,
            ),
    {
        let (h, _) = self.buf.as_mut_slice().split_at_mut(HEADER_SIZE);
        Header(h)
    }

    /// A cursor that appends options after what was written so far.
    pub fn options_builder(&mut self) -> (r: options::Builder<'_>)
        ensures
            r.bytes() == old(self).bytes(),
            final(self).bytes() == final(r.target())@,
    {
        options::Builder(AppendOnly(&mut self.buf))
    }

    fn fill_to_min_size(&mut self)
        ensures
            final(self).bytes() == padded(old(self).bytes()),
    {
        if self.buf.len() < MIN_PACKET_SIZE {
            self.buf.resize(MIN_PACKET_SIZE, 0);
            assert(self.buf@ =~= padded(old(self).bytes()));
        }
    }

    /// The message, padded with zeros to the protocol minimum.
    pub fn finish_owned(self) -> (r: Vec<u8>)
        ensures
            r@ == padded(self.bytes()),
    {
        let mut b = self;
        b.fill_to_min_size();
        b.buf
    }

    /// Pads the message with zeros to the protocol minimum and lends it out.
    pub fn finish(&mut self) -> (r: &[u8])
        ensures
            r@ == padded(old(self).bytes()),
            final(self).bytes() == padded(old(self).bytes()),
    {
        self.fill_to_min_size();
        self.buf.as_slice()
    }

    /// Drops every appended option and puts the header back in its default
    /// state.
    pub fn reset(&mut self)
        ensures
            final(self).bytes() == default_header(),
    {
        self.buf.truncate(HEADER_SIZE);
        self.buf.resize(HEADER_SIZE, 0);
        let mut h = self.header_mut();
        h.reset_to_default();
    }
}

/// `s` padded with zeros to the protocol minimum.
pub open spec fn padded(s: Seq<u8>) -> Seq<u8> {
    if s.len() < MIN_PACKET_SIZE {
        s + Seq::new((MIN_PACKET_SIZE - s.len()) as nat, |i: int| 0u8)
    } else {
        s
    }
}

/// A growable buffer that can only be appended to.
pub struct AppendOnly<'a>(&'a mut Vec<u8>);

impl<'a> AppendOnly<'a> {
    /// The buffer appended to.
    pub closed spec fn target(&self) -> &'a mut Vec<u8> {
        self.0
    }

    pub open spec fn bytes(&self) -> Seq<u8> {
        self.target()@
    }

    /// Once nothing appends through `a` any more, what it holds is what its
    /// target ends up holding.
    pub proof fn lemma_resolved(a: Self)
        requires
            has_resolved(a),
        ensures
            final(a.target())@ == a.bytes(),
    {
    }

    pub fn append(&mut self, buf: &[u8])
        ensures
            final(self).bytes() == old(self).bytes() + buf@,
            final(final(self).target())@ == final(old(self).target())@,
    {
        self.0.extend_from_slice(buf);
        assert(self.bytes() =~= old(self).bytes() + buf@);
    }
}

} // verus!
