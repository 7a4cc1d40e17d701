//! The stateless responder: classifies one received datagram and builds the
//! reply, if any, through the same codec.
use vstd::prelude::*;

use crate::layout::{
    ciaddr_of, op_of, be16_bytes, be32_bytes, chaddr_of, default_header, flags_of, giaddr_of, splice, write_bytes,
    xid_of, CHADDR_OFFSET, CIADDR_OFFSET, FLAGS_OFFSET, GIADDR_OFFSET, HEADER_SIZE,
    MIN_PACKET_SIZE, OP_OFFSET, XID_OFFSET, YIADDR_OFFSET,
};
use crate::message::{padded, Builder, Header, Message};
use crate::op_code::OpCode;
use crate::option::{encode_unit, Code};
use crate::options::ips::flatten_ips;
use crate::options::message_type::{message_type_value, GetMessageTypeExt, MessageType};
use crate::options::{self, first_value, has_magic_cookie, magic_cookie_bytes, units, OptionTable};

verus! {

/// The UDP port replies are sent to, on the limited broadcast address.
pub const CLIENT_PORT: u16 = 68;

/// The lease time offered, in seconds.
pub const LEASE_TIME_SECS: u32 = 30;

/// The one address this responder offers.
pub const OFFERED_ADDRESS: [u8; 4] = [192, 168, 44, 2];

/// The subnet mask announced.
pub const SUBNET_MASK: [u8; 4] = [255, 255, 255, 0];

/// The routers announced.
pub const ROUTERS: [[u8; 4]; 1] = [[192, 168, 44, 1]];

/// The name servers announced.
pub const NAME_SERVERS: [[u8; 4]; 2] = [[8, 8, 8, 8], [8, 8, 4, 4]];

pub open spec fn offered_address() -> Seq<u8> {
    seq![192u8, 168u8, 44u8, 2u8]
}

pub open spec fn subnet_mask() -> Seq<u8> {
    seq![255u8, 255u8, 255u8, 0u8]
}

/// The router option's value.
pub open spec fn router() -> Seq<u8> {
    seq![192u8, 168u8, 44u8, 1u8]
}

/// The name server option's value: both addresses, one after the other.
pub open spec fn name_servers() -> Seq<u8> {
    seq![8u8, 8u8, 8u8, 8u8, 8u8, 8u8, 4u8, 4u8]
}

/// The message type carried by datagram `d`; absent when `d` is too short,
/// its options lack the magic cookie, or no one-byte message type option is
/// among them.
pub open spec fn request_type(d: Seq<u8>) -> Option<u8> {
    if d.len() < MIN_PACKET_SIZE || !has_magic_cookie(d.subrange(HEADER_SIZE as int, d.len() as int)) {
        None
    } else {
        message_type_value(
            first_value(units(d.subrange(HEADER_SIZE + 4, d.len() as int)), Code::DHCP_MESSAGE_TYPE),
        )
    }
}

/// The header of the reply of type `kind` to datagram `d`: a BOOTREPLY with
/// the request's transaction id, flags, relay address and hardware address,
/// the offered address, and, in an ACK, the request's client address.
pub open spec fn reply_header(d: Seq<u8>, kind: u8) -> Seq<u8> {
    Seq::new(
        HEADER_SIZE as nat,
        |i: int|
            if i == OP_OFFSET {
                OpCode::BOOTREPLY
            } else if i == 1 {
                1u8
            } else if i == 2 {
                6u8
            } else if XID_OFFSET <= i < XID_OFFSET + 4 {
                d[i]
            } else if FLAGS_OFFSET <= i < FLAGS_OFFSET + 2 {
                d[i]
            } else if kind == MessageType::DHCPACK && CIADDR_OFFSET <= i < CIADDR_OFFSET + 4 {
                d[i]
            } else if YIADDR_OFFSET <= i < YIADDR_OFFSET + 4 {
                offered_address()[i - YIADDR_OFFSET]
            } else if GIADDR_OFFSET <= i < CHADDR_OFFSET + 16 {
                d[i]
            } else {
                0u8
            },
    )
}

/// The options of a reply of type `kind`: the magic cookie, the message type,
/// subnet mask, router, lease time and name servers.
pub open spec fn reply_options(kind: u8) -> Seq<u8> {
    magic_cookie_bytes() + encode_unit(Code::DHCP_MESSAGE_TYPE, seq![kind]) + encode_unit(
        Code::SUBNET_MASK,
        subnet_mask(),
    ) + encode_unit(Code::ROUTER, router()) + encode_unit(
        Code::IP_ADDRESS_LEASE_TIME,
        be32_bytes(LEASE_TIME_SECS),
    ) + encode_unit(Code::DOMAIN_NAME_SERVER, name_servers())
}

/// The reply of type `kind` to datagram `d`, padded to the protocol minimum.
pub open spec fn reply(d: Seq<u8>, kind: u8) -> Seq<u8> {
    padded(reply_header(d, kind) + reply_options(kind))
}

/// What the responder sends back for datagram `d`: an OFFER to a DISCOVER, an
/// ACK to a REQUEST, and nothing otherwise.
pub open spec fn reply_for(d: Seq<u8>) -> Option<Seq<u8>> {
    match request_type(d) {
        Some(t) => if t == MessageType::DHCPDISCOVER {
            Some(reply(d, MessageType::DHCPOFFER))
        } else if t == MessageType::DHCPREQUEST {
            Some(reply(d, MessageType::DHCPACK))
        } else {
            None
        },
        None => None,
    }
}

/// The units a reply of type `kind` carries after its magic cookie.
pub open spec fn reply_units(kind: u8) -> Seq<(u8, Seq<u8>)> {
    seq![
        (Code::DHCP_MESSAGE_TYPE, seq![kind]),
        (Code::SUBNET_MASK, subnet_mask()),
        (Code::ROUTER, router()),
        (Code::IP_ADDRESS_LEASE_TIME, be32_bytes(LEASE_TIME_SECS)),
        (Code::DOMAIN_NAME_SERVER, name_servers()),
    ]
}

/// A reply is exactly the protocol minimum long, its options open with the
/// magic cookie, and iteration over them yields the units of `reply_units`.
pub proof fn lemma_reply_layout(d: Seq<u8>, kind: u8)
    ensures
        reply(d, kind).len() == MIN_PACKET_SIZE,
        reply(d, kind).subrange(0, HEADER_SIZE as int) == reply_header(d, kind),
        has_magic_cookie(reply(d, kind).subrange(HEADER_SIZE as int, MIN_PACKET_SIZE as int)),
        units(reply(d, kind).subrange(HEADER_SIZE + 4, MIN_PACKET_SIZE as int)) == reply_units(kind),
{
    let r = reply(d, kind);
    let u1 = encode_unit(Code::DHCP_MESSAGE_TYPE, seq![kind]);
    let u2 = encode_unit(Code::SUBNET_MASK, subnet_mask());
    let u3 = encode_unit(Code::ROUTER, router());
    let u4 = encode_unit(Code::IP_ADDRESS_LEASE_TIME, be32_bytes(LEASE_TIME_SECS));
    let u5 = encode_unit(Code::DOMAIN_NAME_SERVER, name_servers());
    let pad = Seq::new(29, |i: int| 0u8);
    let h = reply_header(d, kind);
    assert(reply_options(kind).len() == 35);
    assert(r =~= h + (magic_cookie_bytes() + (u1 + (u2 + (u3 + (u4 + (u5 + pad)))))));
    assert(r.subrange(0, HEADER_SIZE as int) =~= h);
    assert(r.subrange(HEADER_SIZE as int, HEADER_SIZE + 4) =~= magic_cookie_bytes());
    assert(r.subrange(HEADER_SIZE as int, MIN_PACKET_SIZE as int).subrange(0, 4)
        =~= magic_cookie_bytes());
    assert(r.subrange(HEADER_SIZE + 4, MIN_PACKET_SIZE as int) =~= u1 + (u2 + (u3 + (u4 + (u5
        + pad)))));
    options::lemma_units_of_padding(29);
    options::lemma_units_of_unit(Code::DOMAIN_NAME_SERVER, name_servers(), pad);
    options::lemma_units_of_unit(Code::IP_ADDRESS_LEASE_TIME, be32_bytes(LEASE_TIME_SECS), u5 + pad);
    options::lemma_units_of_unit(Code::ROUTER, router(), u4 + (u5 + pad));
    options::lemma_units_of_unit(Code::SUBNET_MASK, subnet_mask(), u3 + (u4 + (u5 + pad)));
    options::lemma_units_of_unit(
        Code::DHCP_MESSAGE_TYPE,
        seq![kind],
        u2 + (u3 + (u4 + (u5 + pad))),
    );
    assert(units(r.subrange(HEADER_SIZE + 4, MIN_PACKET_SIZE as int)) =~= reply_units(kind));
}

/// The first value for each code that a reply carries.
proof fn lemma_reply_values(kind: u8)
    ensures
        first_value(reply_units(kind), Code::DHCP_MESSAGE_TYPE) == Some(seq![kind]),
        first_value(reply_units(kind), Code::SUBNET_MASK) == Some(subnet_mask()),
        first_value(reply_units(kind), Code::ROUTER) == Some(router()),
        first_value(reply_units(kind), Code::IP_ADDRESS_LEASE_TIME) == Some(
            be32_bytes(LEASE_TIME_SECS),
        ),
{
    let us = reply_units(kind);
    let t1 = us.subrange(1, 5);
    let t2 = t1.subrange(1, 4);
    let t3 = t2.subrange(1, 3);
    assert(t1[0].0 == Code::SUBNET_MASK);
    assert(t2[0].0 == Code::ROUTER);
    assert(t3[0].0 == Code::IP_ADDRESS_LEASE_TIME);
    assert(first_value(t3, Code::IP_ADDRESS_LEASE_TIME) == Some(be32_bytes(LEASE_TIME_SECS)));
    assert(first_value(t2, Code::IP_ADDRESS_LEASE_TIME) == Some(be32_bytes(LEASE_TIME_SECS)));
    assert(first_value(t1, Code::IP_ADDRESS_LEASE_TIME) == Some(be32_bytes(LEASE_TIME_SECS)));
    assert(first_value(t2, Code::ROUTER) == Some(router()));
    assert(first_value(t1, Code::ROUTER) == Some(router()));
    assert(first_value(t1, Code::SUBNET_MASK) == Some(subnet_mask()));
}

/// A DISCOVER is answered by an OFFER: a BOOTREPLY with the request's
/// transaction id, message type OFFER, and non-empty subnet mask, router and
/// lease time options.
pub proof fn lemma_discover_gets_offer(d: Seq<u8>)
    requires
        request_type(d) == Some(MessageType::DHCPDISCOVER),
    ensures
        reply_for(d) is Some,
        ({
            let r = reply_for(d)->Some_0;
            &&& r.len() == MIN_PACKET_SIZE
            &&& op_of(r) == OpCode::BOOTREPLY
            &&& xid_of(r) == xid_of(d)
            &&& request_type(r) == Some(MessageType::DHCPOFFER)
            &&& first_value(units(r.subrange(HEADER_SIZE + 4, r.len() as int)), Code::SUBNET_MASK)
                matches Some(v) && v.len() > 0
            &&& first_value(units(r.subrange(HEADER_SIZE + 4, r.len() as int)), Code::ROUTER)
                matches Some(v) && v.len() > 0
            &&& first_value(
                units(r.subrange(HEADER_SIZE + 4, r.len() as int)),
                Code::IP_ADDRESS_LEASE_TIME,
            ) matches Some(v) && v.len() > 0
        }),
{
    let kind = MessageType::DHCPOFFER;
    lemma_reply_layout(d, kind);
    lemma_reply_values(kind);
    let r = reply(d, kind);
    assert(r[0] == reply_header(d, kind)[0]);
    assert(xid_of(r) == xid_of(d)) by {
        assert(forall|i: int| 4 <= i < 8 ==> r[i] == reply_header(d, kind)[i]);
    }
}

/// A REQUEST is answered by an ACK that echoes the request's client address.
pub proof fn lemma_request_gets_ack(d: Seq<u8>)
    requires
        request_type(d) == Some(MessageType::DHCPREQUEST),
    ensures
        reply_for(d) is Some,
        ({
            let r = reply_for(d)->Some_0;
            &&& r.len() == MIN_PACKET_SIZE
            &&& op_of(r) == OpCode::BOOTREPLY
            &&& xid_of(r) == xid_of(d)
            &&& ciaddr_of(r) == ciaddr_of(d)
            &&& request_type(r) == Some(MessageType::DHCPACK)
        }),
{
    let kind = MessageType::DHCPACK;
    lemma_reply_layout(d, kind);
    lemma_reply_values(kind);
    let r = reply(d, kind);
    assert(r[0] == reply_header(d, kind)[0]);
    assert(xid_of(r) == xid_of(d)) by {
        assert(forall|i: int| 4 <= i < 8 ==> r[i] == reply_header(d, kind)[i]);
    }
    assert(ciaddr_of(r) =~= ciaddr_of(d)) by {
        assert(forall|i: int| 12 <= i < 16 ==> r[i] == reply_header(d, kind)[i]);
    }
}

/// A datagram that is too short, lacks the magic cookie, or carries no
/// message type gets no reply.
pub proof fn lemma_malformed_gets_no_reply(d: Seq<u8>)
    requires
        d.len() < MIN_PACKET_SIZE || !has_magic_cookie(d.subrange(HEADER_SIZE as int, d.len() as int))
            || first_value(units(d.subrange(HEADER_SIZE + 4, d.len() as int)), Code::DHCP_MESSAGE_TYPE)
            is None,
    ensures
        reply_for(d) is None,
{
}

proof fn lemma_be32_bytes_of_read(s: Seq<u8>, off: int)
    requires
        0 <= off,
        off + 4 <= s.len(),
    ensures
        be32_bytes(crate::layout::be32_at(s, off)) == s.subrange(off, off + 4),
{
    let b0 = s[off] as int;
    let b1 = s[off + 1] as int;
    let b2 = s[off + 2] as int;
    let b3 = s[off + 3] as int;
    let v = b0 * 16777216 + b1 * 65536 + b2 * 256 + b3;
    assert(0 <= v < 4294967296);
    vstd::arithmetic::div_mod::lemma_fundamental_div_mod_converse(v, 16777216, b0, b1 * 65536 + b2 * 256 + b3);
    vstd::arithmetic::div_mod::lemma_fundamental_div_mod_converse(v, 65536, b0 * 256 + b1, b2 * 256 + b3);
    vstd::arithmetic::div_mod::lemma_fundamental_div_mod_converse(b0 * 256 + b1, 256, b0, b1);
    vstd::arithmetic::div_mod::lemma_fundamental_div_mod_converse(v, 256, b0 * 65536 + b1 * 256 + b2, b3);
    vstd::arithmetic::div_mod::lemma_fundamental_div_mod_converse(b0 * 65536 + b1 * 256 + b2, 256, b0 * 256 + b1, b2);
    assert(be32_bytes(crate::layout::be32_at(s, off)) =~= s.subrange(off, off + 4));
}

proof fn lemma_be16_bytes_of_read(s: Seq<u8>, off: int)
    requires
        0 <= off,
        off + 2 <= s.len(),
    ensures
        be16_bytes(crate::layout::be16_at(s, off)) == s.subrange(off, off + 2),
{
    let b0 = s[off] as int;
    let b1 = s[off + 1] as int;
    let v = b0 * 256 + b1;
    vstd::arithmetic::div_mod::lemma_fundamental_div_mod_converse(v, 256, b0, b1);
    assert(be16_bytes(crate::layout::be16_at(s, off)) =~= s.subrange(off, off + 2));
}

/// Builds the reply of type `reply_type` to the request whose header is
/// `request`.
fn build_reply(request: &Header<&[u8]>, reply_type: MessageType) -> (r: Vec<u8>)
    requires
        request.bytes().len() == HEADER_SIZE,
    ensures
        r@ == padded(reply_header(request.bytes(), reply_type.0) + reply_options(reply_type.0)),
{
    let ghost d = request.bytes();
    let mut bldr = Builder::new();
    {
        let mut h = bldr.header_mut();
        h.set_op_code(OpCode(OpCode::BOOTREPLY));
        h.set_xid(request.xid());
        h.set_flags(request.flags());
        if reply_type.0 == MessageType::DHCPACK {
            h.set_ciaddr(request.ciaddr());
        }
        assert(OFFERED_ADDRESS@ =~= offered_address());
        h.set_yiaddr(OFFERED_ADDRESS);
        h.set_giaddr(request.giaddr());
        write_bytes(h.chaddr(), 0, request.chaddr());
        proof {
            lemma_be32_bytes_of_read(d, XID_OFFSET as int);
            lemma_be16_bytes_of_read(d, FLAGS_OFFSET as int);
        }
        assert(h.bytes() =~= reply_header(d, reply_type.0));
        proof {
            Header::lemma_resolved(h);
        }
    }
    assert(bldr.bytes() =~= reply_header(d, reply_type.0));
    let ghost head = bldr.bytes();
    let routers = ROUTERS;
    let servers = NAME_SERVERS;
    assert(flatten_ips(routers@) =~= router()) by {
        assert(routers@.drop_last() =~= Seq::<[u8; 4]>::empty());
        assert(flatten_ips(Seq::<[u8; 4]>::empty()) =~= Seq::<u8>::empty());
        assert(routers@.last()@ =~= router());
    }
    assert(flatten_ips(servers@) =~= name_servers()) by {
        assert(servers@.len() == 2);
        let one = servers@.drop_last();
        assert(one.len() == 1);
        assert(one.drop_last() =~= Seq::<[u8; 4]>::empty());
        assert(flatten_ips(Seq::<[u8; 4]>::empty()) =~= Seq::<u8>::empty());
        assert(one.last()@ =~= seq![8u8, 8u8, 8u8, 8u8]);
        assert(flatten_ips(one) =~= seq![8u8, 8u8, 8u8, 8u8]);
        assert(servers@.last()@ =~= seq![8u8, 8u8, 4u8, 4u8]);
    }
    {
        let mut opts = bldr.options_builder();
        opts.add_magic_cookie();
        opts.add_message_type(reply_type);
        assert(SUBNET_MASK@ =~= subnet_mask());
        opts.add_subnet_mask(SUBNET_MASK);
        opts.add_routers(&routers);
        opts.add_lease_time(LEASE_TIME_SECS);
        opts.add_domain_name_servers(&servers);
        proof {
            options::Builder::lemma_resolved(opts);
        }
    }
    assert(bldr.bytes() =~= head + reply_options(reply_type.0));
    bldr.finish_owned()
}

/// The reply to datagram `datagram`, or none when it is malformed or of a
/// type this responder does not answer.
pub fn respond(datagram: &[u8]) -> (r: Option<Vec<u8>>)
    ensures
        match reply_for(datagram@) {
            Some(s) => r is Some && r->Some_0@ == s,
            None => r is None,
        },
{
    let m = Message::new(datagram)?;
    let request = m.header();
    let options = m.options();
    let iter = options.try_iter()?;
    assert(iter.remaining() =~= datagram@.subrange(HEADER_SIZE + 4, datagram@.len() as int));
    let map = OptionTable::from_iter(iter);
    let typ = map.get_message_type()?;
    if typ.0 == MessageType::DHCPDISCOVER {
        Some(build_reply(&request, MessageType(MessageType::DHCPOFFER)))
    } else if typ.0 == MessageType::DHCPREQUEST {
        Some(build_reply(&request, MessageType(MessageType::DHCPACK)))
    } else {
        None
    }
}

} // verus!
