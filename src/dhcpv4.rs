//! A whole message as one flat buffer: a borrowed view with field getters and
//! an owned buffer with field setters, over the same layout as [`Header`].
//!
//! [`Header`]: crate::message::Header
use vstd::prelude::*;

use crate::layout::{
    be16_bytes, be16_to_bytes, be32_bytes, be32_to_bytes, chaddr_of, ciaddr_of, file_of,
    flags_of, giaddr_of, hlen_of, hops_of, htype_of, op_of, read_be16, read_be32, read_octets,
    secs_of, siaddr_of, sname_of, splice, write_bytes, xid_of, yiaddr_of, CHADDR_OFFSET,
    CHADDR_SIZE, CIADDR_OFFSET, FILE_OFFSET, FILE_SIZE, FLAGS_OFFSET, GIADDR_OFFSET, HEADER_SIZE,
    HLEN_OFFSET, HOPS_OFFSET, HTYPE_OFFSET, MIN_PACKET_SIZE, OP_OFFSET, SECS_OFFSET,
    SIADDR_OFFSET, SNAME_OFFSET, SNAME_SIZE, XID_OFFSET, YIADDR_OFFSET,
};
use crate::op_code::OpCode;
use crate::options::Options;

verus! {

/// A borrowed message of at least the protocol's minimum size.
pub struct DHCPv4<'a>(&'a [u8]);

impl<'a> DHCPv4<'a> {
    /// The message's bytes.
    pub closed spec fn bytes(&self) -> Seq<u8> {
        self.0@
    }

    /// Absent when `s` is shorter than the protocol minimum.
    pub fn new(s: &'a [u8]) -> (r: Option<Self>)
        ensures
            r is Some <==> s@.len() >= MIN_PACKET_SIZE,
            r matches Some(m) ==> m.bytes() == s@,
    {
        if s.len() >= MIN_PACKET_SIZE {
            Some(DHCPv4(s))
        } else {
            None
        }
    }

    pub fn as_slice(&self) -> (r: &'a [u8])
        ensures
            r@ == self.bytes(),
    {
        self.0
    }

    pub fn op_code(&self) -> (r: OpCode)
        requires
            self.bytes().len() >= HEADER_SIZE,
        ensures
            r.0 == op_of(self.bytes()),
    {
        OpCode(self.0[OP_OFFSET])
    }

    pub fn htype(&self) -> (r: u8)
        requires
            self.bytes().len() >= HEADER_SIZE,
        ensures
            r == htype_of(self.bytes()),
    {
        self.0[HTYPE_OFFSET]
    }

    pub fn hlen(&self) -> (r: u8)
        requires
            self.bytes().len() >= HEADER_SIZE,
        ensures
            r == hlen_of(self.bytes()),
    {
        self.0[HLEN_OFFSET]
    }

    pub fn hops(&self) -> (r: u8)
        requires
            self.bytes().len() >= HEADER_SIZE,
        ensures
            r == hops_of(self.bytes()),
    {
        self.0[HOPS_OFFSET]
    }

    pub fn xid(&self) -> (r: u32)
        requires
            self.bytes().len() >= HEADER_SIZE,
        ensures
            r == xid_of(self.bytes()),
    {
        read_be32(self.0, XID_OFFSET)
    }

    pub fn secs(&self) -> (r: u16)
        requires
            self.bytes().len() >= HEADER_SIZE,
        ensures
            r == secs_of(self.bytes()),
    {
        read_be16(self.0, SECS_OFFSET)
    }

    pub fn flags(&self) -> (r: u16)
        requires
            self.bytes().len() >= HEADER_SIZE,
        ensures
            r == flags_of(self.bytes()),
    {
        read_be16(self.0, FLAGS_OFFSET)
    }

    pub fn ciaddr(&self) -> (r: [u8; 4])
        requires
            self.bytes().len() >= HEADER_SIZE,
        ensures
            r@ == ciaddr_of(self.bytes()),
    {
        read_octets(self.0, CIADDR_OFFSET)
    }

    pub fn yiaddr(&self) -> (r: [u8; 4])
        requires
            self.bytes().len() >= HEADER_SIZE,
        ensures
            r@ == yiaddr_of(self.bytes()),
    {
        read_octets(self.0, YIADDR_OFFSET)
    }

    pub fn siaddr(&self) -> (r: [u8; 4])
        requires
            self.bytes().len() >= HEADER_SIZE,
        ensures
            r@ == siaddr_of(self.bytes()),
    {
        read_octets(self.0, SIADDR_OFFSET)
    }

    pub fn giaddr(&self) -> (r: [u8; 4])
        requires
            self.bytes().len() >= HEADER_SIZE,
        ensures
            r@ == giaddr_of(self.bytes()),
    {
        read_octets(self.0, GIADDR_OFFSET)
    }

    pub fn chaddr(&self) -> (r: &'a [u8])
        requires
            self.bytes().len() >= HEADER_SIZE,
        ensures
            r@ == chaddr_of(self.bytes()),
    {
        let (_, rest) = self.0.split_at(CHADDR_OFFSET);
        let (f, _) = rest.split_at(CHADDR_SIZE);
        f
    }

    pub fn sname(&self) -> (r: &'a [u8])
        requires
            self.bytes().len() >= HEADER_SIZE,
        ensures
            r@ == sname_of(self.bytes()),
    {
        let (_, rest) = self.0.split_at(SNAME_OFFSET);
        let (f, _) = rest.split_at(SNAME_SIZE);
        f
    }

    pub fn file(&self) -> (r: &'a [u8])
        requires
            self.bytes().len() >= HEADER_SIZE,
        ensures
            r@ == file_of(self.bytes()),
    {
        let (_, rest) = self.0.split_at(FILE_OFFSET);
        let (f, _) = rest.split_at(FILE_SIZE);
        f
    }

    /// The options region: everything after the header.
    pub fn options(&self) -> (r: Options<&'a [u8]>)
        requires
            self.bytes().len() >= MIN_PACKET_SIZE,
        ensures
            r.bytes() == self.bytes().subrange(HEADER_SIZE as int, self.bytes().len() as int),
    {
        let (_, o) = self.0.split_at(HEADER_SIZE);
        Options::new(o).unwrap()
    }

    /// An owned copy of the message.
    pub fn to_owned(&self) -> (r: DHCPv4Buf)
        ensures
            r.bytes() == self.bytes(),
    {
        DHCPv4Buf::new_unchecked(vstd::slice::slice_to_vec(self.0))
    }
}

/// An owned message buffer with a setter for every header field.
pub struct DHCPv4Buf(Vec<u8>);

impl DHCPv4Buf {
    /// The message's bytes.
    pub closed spec fn bytes(&self) -> Seq<u8> {
        self.0@
    }

    /// Wraps `buf` without checking its size; the setters and getters ask
    /// for at least a header's worth of bytes.
    pub fn new_unchecked(buf: Vec<u8>) -> (r: Self)
        ensures
            r.bytes() == buf@,
    {
        DHCPv4Buf(buf)
    }

    /// Absent when `buf` is shorter than the protocol minimum.
    pub fn new(buf: Vec<u8>) -> (r: Option<Self>)
        ensures
            r is Some <==> buf@.len() >= MIN_PACKET_SIZE,
            r matches Some(m) ==> m.bytes() == buf@,
    {
        if buf.len() >= MIN_PACKET_SIZE {
            Some(Self::new_unchecked(buf))
        } else {
            None
        }
    }

    /// A borrowed view of the message.
    pub fn borrow(&self) -> (r: DHCPv4<'_>)
        ensures
            r.bytes() == self.bytes(),
    {
        DHCPv4(self.0.as_slice())
    }

    fn write_at(&mut self, off: usize, v: &[u8])
        requires
            off + v@.len() <= old(self).bytes().len(),
        ensures
            final(self).bytes() == splice(old(self).bytes(), off as int, v@),
    {
        write_bytes(self.0.as_mut_slice(), off, v);
    }

    pub fn set_op_code(&mut self, op_code: OpCode)
        requires
            old(self).bytes().len() >= HEADER_SIZE,
        ensures
            final(self).bytes() == old(self).bytes().update(OP_OFFSET as int, op_code.0),
    {
        self.0[OP_OFFSET] = op_code.0;
    }

    pub fn set_htype(&mut self, htype: u8)
        requires
            old(self).bytes().len() >= HEADER_SIZE,
        ensures
            final(self).bytes() == old(self).bytes().update(HTYPE_OFFSET as int, htype),
    {
        self.0[HTYPE_OFFSET] = htype;
    }

    pub fn set_hlen(&mut self, hlen: u8)
        requires
            old(self).bytes().len() >= HEADER_SIZE,
        ensures
            final(self).bytes() == old(self).bytes().update(HLEN_OFFSET as int, hlen),
    {
        self.0[HLEN_OFFSET] = hlen;
    }

    pub fn set_hops(&mut self, hops: u8)
        requires
            old(self).bytes().len() >= HEADER_SIZE,
        ensures
            final(self).bytes() == old(self).bytes().update(HOPS_OFFSET as int, hops),
    {
        self.0[HOPS_OFFSET] = hops;
    }

    pub fn set_xid(&mut self, xid: u32)
        requires
            old(self).bytes().len() >= HEADER_SIZE,
        ensures
            final(self).bytes() == splice(old(self).bytes(), XID_OFFSET as int, be32_bytes(xid)),
    {
        let b = be32_to_bytes(xid);
        self.write_at(XID_OFFSET, &b);
    }

    pub fn set_secs(&mut self, secs: u16)
        requires
            old(self).bytes().len() >= HEADER_SIZE,
        ensures
            final(self).bytes() == splice(old(self).bytes(), SECS_OFFSET as int, be16_bytes(secs)),
    {
        let b = be16_to_bytes(secs);
        self.write_at(SECS_OFFSET, &b);
    }

    pub fn set_flags(&mut self, flags: u16)
        requires
            old(self).bytes().len() >= HEADER_SIZE,
        ensures
            final(self).bytes() == splice(old(self).bytes(), FLAGS_OFFSET as int, be16_bytes(flags)),
    {
        let b = be16_to_bytes(flags);
        self.write_at(FLAGS_OFFSET, &b);
    }

    pub fn set_ciaddr(&mut self, ciaddr: [u8; 4])
        requires
            old(self).bytes().len() >= HEADER_SIZE,
        ensures
            final(self).bytes() == splice(old(self).bytes(), CIADDR_OFFSET as int, ciaddr@),
    {
        self.write_at(CIADDR_OFFSET, &ciaddr);
    }

    pub fn set_yiaddr(&mut self, yiaddr: [u8; 4])
        requires
            old(self).bytes().len() >= HEADER_SIZE,
        ensures
            final(self).bytes() == splice(old(self).bytes(), YIADDR_OFFSET as int, yiaddr@),
    {
        self.write_at(YIADDR_OFFSET, &yiaddr);
    }

    pub fn set_siaddr(&mut self, siaddr: [u8; 4])
        requires
            old(self).bytes().len() >= HEADER_SIZE,
        ensures
            final(self).bytes() == splice(old(self).bytes(), SIADDR_OFFSET as int, siaddr@),
    {
        self.write_at(SIADDR_OFFSET, &siaddr);
    }

    pub fn set_giaddr(&mut self, giaddr: [u8; 4])
        requires
            old(self).bytes().len() >= HEADER_SIZE,
        ensures
            final(self).bytes() == splice(old(self).bytes(), GIADDR_OFFSET as int, giaddr@),
    {
        self.write_at(GIADDR_OFFSET, &giaddr);
    }

    pub fn set_chaddr(&mut self, chaddr: &[u8])
        requires
            old(self).bytes().len() >= HEADER_SIZE,
            chaddr@.len() == CHADDR_SIZE,
        ensures
            final(self).bytes() == splice(old(self).bytes(), CHADDR_OFFSET as int, chaddr@),
    {
        self.write_at(CHADDR_OFFSET, chaddr);
    }

    pub fn set_sname(&mut self, sname: &[u8])
        requires
            old(self).bytes().len() >= HEADER_SIZE,
            sname@.len() == SNAME_SIZE,
        ensures
            final(self).bytes() == splice(old(self).bytes(), SNAME_OFFSET as int, sname@),
    {
        self.write_at(SNAME_OFFSET, sname);
    }

    pub fn set_file(&mut self, file: &[u8])
        requires
            old(self).bytes().len() >= HEADER_SIZE,
            file@.len() == FILE_SIZE,
        ensures
            final(self).bytes() == splice(old(self).bytes(), FILE_OFFSET as int, file@),
    {
        self.write_at(FILE_OFFSET, file);
    }

    /// Replaces everything after the header with `options`.
    pub fn set_options(&mut self, options: &Options<&[u8]>)
        requires
            old(self).bytes().len() >= HEADER_SIZE,
        ensures
            final(self).bytes() == old(self).bytes().subrange(0, HEADER_SIZE as int)
                + options.bytes(),
    {
        self.0.truncate(HEADER_SIZE);
        self.0.extend_from_slice(options.as_slice());
        assert(self.bytes() =~= old(self).bytes().subrange(0, HEADER_SIZE as int)
            + options.bytes());
    }
}

} // verus!
