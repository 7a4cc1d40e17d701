use dhcpv4::options::ips::GetIpsExt;
use dhcpv4::options::lease_time::GetLeaseTimeExt;
use dhcpv4::options::message_type::{GetMessageTypeExt, MessageType};
use dhcpv4::options::routers::GetRoutersExt;
use dhcpv4::options::subnet_mask::GetSubnetMaskExt;
use dhcpv4::options::{OptionTable, Options};
use dhcpv4::option::Code;
use dhcpv4::responder::{respond, CLIENT_PORT, LEASE_TIME_SECS};
use dhcpv4::Message;

/// A client datagram of type `typ`, with a recognisable header.
fn datagram(typ: u8) -> Vec<u8> {
    let mut d = vec![0u8; 300];
    d[0] = 1;
    d[1] = 1;
    d[2] = 6;
    d[4..8].copy_from_slice(&[0x01, 0x02, 0x03, 0x04]);
    d[10..12].copy_from_slice(&[0x80, 0x00]);
    d[12..16].copy_from_slice(&[10, 0, 0, 5]);
    d[24..28].copy_from_slice(&[10, 0, 0, 254]);
    d[28..34].copy_from_slice(&[0xaa, 0xbb, 0xcc, 0xdd, 0xee, 0xff]);
    d[236..240].copy_from_slice(&[99, 130, 83, 99]);
    d[240..243].copy_from_slice(&[53, 1, typ]);
    d[243] = 255;
    d
}

fn reply_table(reply: &[u8]) -> OptionTable<'_> {
    let m = Message::new(reply).unwrap();
    let opts = Options::new(&m.as_slice()[236..]).unwrap();
    OptionTable::from_iter(opts.try_iter().unwrap())
}

#[test]
fn discover_gets_offer() {
    let d = datagram(MessageType::DHCPDISCOVER);
    let reply = respond(&d).unwrap();
    assert_eq!(reply.len(), 300);
    let m = Message::new(&reply).unwrap();
    let h = m.header();
    assert_eq!(h.op_code().0, 2);
    assert_eq!(h.xid(), 0x01020304);
    assert_eq!(h.flags(), 0x8000);
    assert_eq!(h.ciaddr(), [0, 0, 0, 0]);
    assert_eq!(h.yiaddr(), [192, 168, 44, 2]);
    assert_eq!(h.giaddr(), [10, 0, 0, 254]);
    assert_eq!(&h.chaddr()[..6], &[0xaa, 0xbb, 0xcc, 0xdd, 0xee, 0xff]);
    let t = reply_table(&reply);
    assert_eq!(t.get_message_type(), Some(MessageType(2)));
    assert_eq!(t.get_subnet_mask(), Some([255, 255, 255, 0]));
    let mut routers = t.get_routers().unwrap();
    assert_eq!(routers.next(), Some([192, 168, 44, 1]));
    assert_eq!(t.get_lease_time(), Some(LEASE_TIME_SECS));
    let mut dns = t.get_ips(Code(Code::DOMAIN_NAME_SERVER)).unwrap();
    assert_eq!(dns.next(), Some([8, 8, 8, 8]));
    assert_eq!(dns.next(), Some([8, 8, 4, 4]));
    assert_eq!(dns.next(), None);
}

#[test]
fn request_gets_ack() {
    let d = datagram(MessageType::DHCPREQUEST);
    let reply = respond(&d).unwrap();
    let m = Message::new(&reply).unwrap();
    let h = m.header();
    assert_eq!(h.op_code().0, 2);
    assert_eq!(h.ciaddr(), [10, 0, 0, 5]);
    assert_eq!(h.xid(), 0x01020304);
    assert_eq!(reply[240..243], [53, 1, 5]);
    assert_eq!(reply_table(&reply).get_message_type(), Some(MessageType(5)));
}

#[test]
fn malformed_datagrams_get_no_reply() {
    let d = datagram(MessageType::DHCPDISCOVER);
    assert!(respond(&d[..299]).is_none());
    assert!(respond(&[]).is_none());
    let mut bad_cookie = d.clone();
    bad_cookie[236] = 0;
    assert!(respond(&bad_cookie).is_none());
    let mut no_type = d.clone();
    no_type[240] = 255;
    assert!(respond(&no_type).is_none());
    let mut long_type = d.clone();
    long_type[240..244].copy_from_slice(&[53, 2, 1, 1]);
    assert!(respond(&long_type).is_none());
}

#[test]
fn other_types_get_no_reply() {
    for typ in [0u8, 2, 4, 5, 6, 7, 8, 9, 200] {
        assert!(respond(&datagram(typ)).is_none());
    }
    assert_eq!(CLIENT_PORT, 68);
}
