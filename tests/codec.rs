use dhcpv4::message::{Builder, Header};
use dhcpv4::option::{self, Code, Value};
use dhcpv4::options::domain_name::GetDomainNameExt;
use dhcpv4::options::domain_name_servers::GetDomainNameExt as GetDomainNameServersExt;
use dhcpv4::options::host_name::GetHostNameExt;
use dhcpv4::options::ip::GetIpExt;
use dhcpv4::options::ips::GetIpsExt;
use dhcpv4::options::lease_time::GetLeaseTimeExt;
use dhcpv4::options::message_type::{GetMessageTypeExt, MessageType};
use dhcpv4::options::requested_ip_address::GetRequestedIpAddressExt;
use dhcpv4::options::routers::GetRoutersExt;
use dhcpv4::options::server_identifier::GetServerIdentifierExt;
use dhcpv4::options::subnet_mask::GetSubnetMaskExt;
use dhcpv4::options::bytes::GetBytesExt;
use dhcpv4::options::{Iter, OptionMap, OptionTable, Options};
use dhcpv4::{DHCPv4, DHCPv4Buf, Message, OpCode};

const COOKIE: [u8; 4] = [99, 130, 83, 99];

/// An options region: the cookie, then `units`, then zeros up to 64 bytes.
fn region(units: &[u8]) -> Vec<u8> {
    let mut v = COOKIE.to_vec();
    v.extend_from_slice(units);
    while v.len() < 64 {
        v.push(0);
    }
    v
}

fn table(buf: &[u8]) -> OptionTable<'_> {
    let opts = Options::new(buf).unwrap();
    OptionTable::from_iter(opts.try_iter().unwrap())
}

#[test]
fn test_as_slice() {
    let buf = vec![0; 300];
    let p = DHCPv4::new(&buf).unwrap();
    assert!(p.as_slice() == &buf[..]);
}

#[test]
fn message_needs_minimum_size() {
    for n in [0usize, 1, 235, 236, 299] {
        let buf = vec![0u8; n];
        assert!(Message::new(&buf).is_none());
        assert!(DHCPv4::new(&buf).is_none());
        assert!(DHCPv4Buf::new(buf.clone()).is_none());
    }
    let buf = vec![0u8; 300];
    assert!(Message::new(&buf).is_some());
    assert!(DHCPv4Buf::new(buf).is_some());
}

#[test]
fn header_fields_read_fixed_offsets() {
    let mut buf: Vec<u8> = (0..300).map(|i| i as u8).collect();
    buf[0] = 2;
    let m = Message::new(&buf).unwrap();
    let h = m.header();
    assert_eq!(h.as_slice().len(), 236);
    assert_eq!(h.op_code(), OpCode(2));
    assert_eq!(h.htype(), 1);
    assert_eq!(h.hlen(), 2);
    assert_eq!(h.hops(), 3);
    assert_eq!(h.xid(), 0x04050607);
    assert_eq!(h.secs(), 0x0809);
    assert_eq!(h.flags(), 0x0a0b);
    assert_eq!(h.ciaddr(), [12, 13, 14, 15]);
    assert_eq!(h.yiaddr(), [16, 17, 18, 19]);
    assert_eq!(h.siaddr(), [20, 21, 22, 23]);
    assert_eq!(h.giaddr(), [24, 25, 26, 27]);
    assert_eq!(h.chaddr(), &buf[28..44]);
    assert_eq!(h.sname(), &buf[44..108]);
    assert_eq!(h.file(), &buf[108..236]);
    assert_eq!(m.options().as_slice(), &buf[236..]);
}

#[test]
fn header_set_then_get() {
    let mut b = Builder::new();
    {
        let mut h = b.header_mut();
        h.set_op_code(OpCode(OpCode::BOOTREPLY));
        h.set_htype(7);
        h.set_hlen(8);
        h.set_hops(9);
        h.set_xid(0xdeadbeef);
        h.set_secs(0x1234);
        h.set_flags(0x8000);
        h.set_ciaddr([10, 0, 0, 1]);
        h.set_yiaddr([10, 0, 0, 2]);
        h.set_siaddr([10, 0, 0, 3]);
        h.set_giaddr([10, 0, 0, 4]);
        h.chaddr().copy_from_slice(&[0xaa; 16]);
        h.sname().copy_from_slice(&[b's'; 64]);
        h.file().copy_from_slice(&[b'f'; 128]);
    }
    let bytes = b.finish_owned();
    let m = Message::new(&bytes).unwrap();
    let h = m.header();
    assert_eq!(h.op_code(), OpCode(2));
    assert_eq!(h.htype(), 7);
    assert_eq!(h.hlen(), 8);
    assert_eq!(h.hops(), 9);
    assert_eq!(h.xid(), 0xdeadbeef);
    assert_eq!(h.secs(), 0x1234);
    assert_eq!(h.flags(), 0x8000);
    assert_eq!(h.ciaddr(), [10, 0, 0, 1]);
    assert_eq!(h.yiaddr(), [10, 0, 0, 2]);
    assert_eq!(h.siaddr(), [10, 0, 0, 3]);
    assert_eq!(h.giaddr(), [10, 0, 0, 4]);
    assert_eq!(h.chaddr(), &[0xaa; 16][..]);
    assert_eq!(h.sname(), &[b's'; 64][..]);
    assert_eq!(h.file(), &[b'f'; 128][..]);
    assert_eq!(&bytes[4..8], &[0xde, 0xad, 0xbe, 0xef]);
}

#[test]
fn header_view_needs_exact_size() {
    let short = [0u8; 235];
    let long = [0u8; 237];
    assert!(Header::<&[u8]>::new(&short).is_none());
    assert!(Header::<&[u8]>::new(&long).is_none());
    let mut exact = [0u8; 236];
    assert!(Header::<&[u8]>::new(&exact).is_some());
    let mut h = Header::<&mut [u8]>::new(&mut exact).unwrap();
    h.set_hops(4);
    h.reset_to_default();
    h.as_mut_slice()[5] = 1;
    assert_eq!(exact[..3], [1, 1, 6]);
    assert_eq!(exact[3], 0);
    assert_eq!(exact[5], 1);
}

#[test]
fn reset_to_default_zeroes_every_field() {
    let mut buf = [0xffu8; 236];
    let mut h = Header::<&mut [u8]>::new(&mut buf).unwrap();
    h.reset_to_default();
    assert_eq!(buf[0], OpCode::BOOTREQUEST);
    assert_eq!(buf[1], 1);
    assert_eq!(buf[2], 6);
    assert!(buf[3..].iter().all(|&b| b == 0));
}

#[test]
fn missing_cookie_gives_no_iterator() {
    let mut buf = region(&[53, 1, 1, 255]);
    buf[3] = 98;
    let opts = Options::new(&buf).unwrap();
    assert!(!opts.is_magic_cookie_valid());
    assert_eq!(opts.magic_cookie(), Some([99, 130, 83, 98]));
    assert!(opts.try_iter().is_none());
    let zeros = [0u8; 64];
    assert!(Options::new(&zeros).unwrap().try_iter().is_none());
    assert!(Options::new(&zeros[..63]).is_none());
}

#[test]
fn end_stops_iteration() {
    let buf = region(&[53, 1, 2, 255, 1, 4, 9, 9, 9, 9, 3]);
    let opts = Options::new(&buf).unwrap();
    assert!(opts.is_magic_cookie_valid());
    let mut it = opts.try_iter().unwrap();
    let unit = it.next().unwrap();
    assert_eq!(unit.code(), Code(53));
    assert_eq!(unit.as_slice(), &[53, 1, 2]);
    assert_eq!(unit.value().unwrap().value(), Some(&[2u8][..]));
    assert!(it.next().is_none());
}

#[test]
fn pad_bytes_are_skipped() {
    let buf = [0u8, 0, 12, 2, b'h', b'i', 0, 15, 0];
    let mut it = Iter::new(&buf);
    let a = it.next().unwrap();
    assert_eq!(a.as_slice(), &[12, 2, b'h', b'i']);
    let b = it.next().unwrap();
    assert_eq!(b.as_slice(), &[15, 0]);
    assert_eq!(b.value().unwrap().value(), Some(&[][..]));
    assert!(it.next().is_none());
}

#[test]
fn truncated_unit_stops_iteration() {
    assert!(option::Option::read(&[1, 4, 0xff]).is_none());
    assert!(option::Option::read(&[1]).is_none());
    assert!(option::Option::read(&[]).is_none());
    let mut it = Iter::new(&[1, 4, 0xff]);
    assert!(it.next().is_none());
    let mut units = vec![0u8; 57];
    units.extend_from_slice(&[1, 4, 0xff]);
    let buf = region(&units);
    assert_eq!(buf.len(), 64);
    let mut it = Options::new(&buf).unwrap().try_iter().unwrap();
    assert!(it.next().is_none());
}

#[test]
fn read_splits_one_unit() {
    let buf = [51u8, 4, 0, 0, 1, 0, 99, 98];
    let (unit, rest) = option::Option::read(&buf).unwrap();
    assert_eq!(unit.as_slice(), &buf[..6]);
    assert_eq!(rest, &buf[6..]);
    let v = unit.value().unwrap();
    assert_eq!(v.len(), 4);
    assert_eq!(v.as_slice(), &buf[1..6]);
    let (end, rest) = option::Option::read(&[255, 7]).unwrap();
    assert_eq!(end.as_slice(), &[255]);
    assert!(end.value().is_none());
    assert_eq!(rest, &[7]);
}

#[test]
fn value_checks_declared_length() {
    assert!(Value::new(&[]).is_none());
    let short = Value::new(&[3, 1, 2]).unwrap();
    assert!(short.value().is_none());
    let whole = Value::new(&[2, 1, 2, 3]).unwrap();
    assert_eq!(whole.value(), Some(&[1u8, 2][..]));
}

#[test]
fn ip_list_accessor() {
    let buf = region(&[3, 8, 192, 168, 1, 1, 192, 168, 1, 2, 6, 5, 1, 2, 3, 4, 5]);
    let t = table(&buf);
    let mut ips = t.get_routers().unwrap();
    assert_eq!(ips.len(), 2);
    assert_eq!(ips.next(), Some([192, 168, 1, 1]));
    assert_eq!(ips.next(), Some([192, 168, 1, 2]));
    assert_eq!(ips.next(), None);
    assert!(t.get_domain_name_servers().is_none());
    assert!(t.get_ips(Code(Code::DOMAIN_NAME_SERVER)).is_none());
    assert!(t.get_ips(Code(Code::TIME_SERVER)).is_none());
}

#[test]
fn typed_accessors() {
    let buf = region(&[
        53, 1, 3, 1, 4, 255, 255, 255, 0, 51, 4, 0, 1, 81, 128, 50, 4, 10, 0, 0, 9, 54, 3, 1, 2,
        3, 12, 2, b'p', b'c', 15, 3, b'l', b'a', b'n',
    ]);
    let t = table(&buf);
    assert_eq!(t.get_message_type(), Some(MessageType(MessageType::DHCPREQUEST)));
    assert_eq!(t.get_subnet_mask(), Some([255, 255, 255, 0]));
    assert_eq!(t.get_lease_time(), Some(86400));
    assert_eq!(t.get_requested_ip_address(), Some([10, 0, 0, 9]));
    assert_eq!(t.get_server_identifier(), None);
    assert_eq!(t.get_bytes(Code(Code::SERVER_IDENTIFIER)), Some(&[1u8, 2, 3][..]));
    assert_eq!(t.get_ip(Code(Code::SUBNET_MASK)), Some([255, 255, 255, 0]));
    assert_eq!(t.get_host_name(), Some(&b"pc"[..]));
    assert_eq!(t.get_domain_name(), Some(&b"lan"[..]));
    assert!(t.get_option(Code(Code::ROUTER)).is_none());
    assert_eq!(t.get_option(Code(Code::HOST_NAME)).unwrap().as_slice(), &[2, b'p', b'c']);
}

#[test]
fn malformed_typed_values_are_absent() {
    let buf = region(&[53, 2, 1, 1, 51, 3, 0, 0, 1, 1, 5, 1, 2, 3, 4, 5]);
    let t = table(&buf);
    assert_eq!(t.get_message_type(), None);
    assert_eq!(t.get_lease_time(), None);
    assert_eq!(t.get_subnet_mask(), None);
}

#[test]
fn first_occurrence_wins() {
    let buf = region(&[53, 1, 1, 53, 1, 3]);
    let t = table(&buf);
    assert_eq!(t.get_message_type(), Some(MessageType(MessageType::DHCPDISCOVER)));
}

#[test]
fn builder_finish_pads_to_minimum() {
    let mut b = Builder::new();
    let out = b.finish();
    assert_eq!(out.len(), 300);
    assert_eq!(out[..3], [1, 1, 6]);
    assert!(out[3..].iter().all(|&x| x == 0));
    let owned = Builder::new().finish_owned();
    assert_eq!(owned.len(), 300);
}

#[test]
fn builder_appends_options_in_order() {
    let mut b = Builder::new();
    {
        let mut o = b.options_builder();
        o.add_magic_cookie();
        o.add_message_type(MessageType(MessageType::DHCPOFFER));
        o.add_subnet_mask([255, 255, 0, 0]);
        o.add_routers(&[[10, 0, 0, 1]]);
        o.add_lease_time(3600);
        o.add_domain_name_servers(&[[1, 1, 1, 1], [9, 9, 9, 9]]);
        o.add_bytes(Code(Code::MESSAGE), b"ok");
        o.add_ip(Code(Code::SERVER_IDENTIFIER), [10, 0, 0, 254]);
        o.add_ips(Code(Code::NTP_SERVERS), &[]);
        o.add_host_name(b"h");
        o.add_domain_name(b"d");
        o.add_requested_ip_address([10, 0, 0, 7]);
        o.add_server_identifier([10, 0, 0, 8]);
        o.add_end();
        o.append(&[0xee]);
    }
    let out = b.finish().to_vec();
    let expected: Vec<u8> = vec![
        99, 130, 83, 99, 53, 1, 2, 1, 4, 255, 255, 0, 0, 3, 4, 10, 0, 0, 1, 51, 4, 0, 0, 14, 16,
        6, 8, 1, 1, 1, 1, 9, 9, 9, 9, 56, 2, b'o', b'k', 54, 4, 10, 0, 0, 254, 42, 0, 12, 1, b'h',
        15, 1, b'd', 50, 4, 10, 0, 0, 7, 54, 4, 10, 0, 0, 8, 255, 0xee,
    ];
    assert_eq!(out.len(), 236 + expected.len());
    assert_eq!(&out[236..], &expected[..]);
    b.reset();
    let fresh = b.finish();
    assert_eq!(fresh.len(), 300);
    assert!(fresh[3..].iter().all(|&x| x == 0));
}

#[test]
fn long_builds_are_not_padded() {
    let mut b = Builder::new();
    {
        let mut o = b.options_builder();
        o.add_bytes(Code(Code::VENDOR_SPECIFIC_INFORMATION), &[7u8; 100]);
    }
    assert_eq!(b.finish().len(), 338);
}

#[test]
fn owned_buffer_setters() {
    let mut m = DHCPv4Buf::new(vec![0u8; 300]).unwrap();
    m.set_op_code(OpCode(OpCode::BOOTREPLY));
    m.set_htype(1);
    m.set_hlen(6);
    m.set_hops(2);
    m.set_xid(0x01020304);
    m.set_secs(5);
    m.set_flags(0x8000);
    m.set_ciaddr([1, 2, 3, 4]);
    m.set_yiaddr([5, 6, 7, 8]);
    m.set_siaddr([9, 10, 11, 12]);
    m.set_giaddr([13, 14, 15, 16]);
    m.set_chaddr(&[0x11; 16]);
    m.set_sname(&[0x22; 64]);
    m.set_file(&[0x33; 128]);
    let v = m.borrow();
    assert_eq!(v.op_code(), OpCode(2));
    assert_eq!(v.htype(), 1);
    assert_eq!(v.hlen(), 6);
    assert_eq!(v.hops(), 2);
    assert_eq!(v.xid(), 0x01020304);
    assert_eq!(v.secs(), 5);
    assert_eq!(v.flags(), 0x8000);
    assert_eq!(v.ciaddr(), [1, 2, 3, 4]);
    assert_eq!(v.yiaddr(), [5, 6, 7, 8]);
    assert_eq!(v.siaddr(), [9, 10, 11, 12]);
    assert_eq!(v.giaddr(), [13, 14, 15, 16]);
    assert_eq!(v.chaddr(), &[0x11; 16][..]);
    assert_eq!(v.sname(), &[0x22; 64][..]);
    assert_eq!(v.file(), &[0x33; 128][..]);
    let copy = v.to_owned();
    assert_eq!(copy.borrow().as_slice(), v.as_slice());
    let region_bytes = region(&[53, 1, 5]);
    let opts = Options::new(&region_bytes).unwrap();
    m.set_options(&opts);
    let v = m.borrow();
    assert_eq!(v.as_slice().len(), 300);
    assert_eq!(v.options().as_slice(), &region_bytes[..]);
    assert_eq!(v.xid(), 0x01020304);
}

#[test]
fn extend_writes_code_then_value_bytes() {
    let mut b = Builder::new();
    let raw = [2u8, 7, 8];
    let entries = [(Code(Code::TIME_OFFSET), Value::new(&raw).unwrap())];
    {
        let mut o = b.options_builder();
        o.extend(&entries);
    }
    let out = b.finish_owned();
    assert_eq!(&out[236..240], &[2, 2, 7, 8]);
}
