//! The one-byte option tag space.
use vstd::prelude::*;

verus! {

/// The tag of an option unit.
#[derive(Clone, Copy, Debug, PartialEq, Eq, Structural, PartialOrd, Ord, Hash)]
pub struct Code(pub u8);

/// The tag values, by name.
impl Code {
    pub const PAD: u8 = 0;
    pub const SUBNET_MASK: u8 = 1;
    pub const TIME_OFFSET: u8 = 2;
    pub const ROUTER: u8 = 3;
    pub const TIME_SERVER: u8 = 4;
    pub const NAME_SERVER: u8 = 5;
    pub const DOMAIN_NAME_SERVER: u8 = 6;
    pub const LOG_SERVER: u8 = 7;
    pub const QUOTE_SERVER: u8 = 8;
    pub const LPR_SERVER: u8 = 9;
    pub const IMPRESS_SERVER: u8 = 10;
    pub const RESOURCE_LOCATION_SERVER: u8 = 11;
    pub const HOST_NAME: u8 = 12;
    pub const BOOT_FILE_SIZE: u8 = 13;
    pub const MERIT_DUMP_FILE: u8 = 14;
    pub const DOMAIN_NAME: u8 = 15;
    pub const SWAP_SERVER: u8 = 16;
    pub const ROOT_PATH: u8 = 17;
    pub const EXTENSIONS_PATH: u8 = 18;
    pub const IP_FORWARDING: u8 = 19;
    pub const NON_LOCAL_SOURCE_ROUTING: u8 = 20;
    pub const POLICY_FILTER: u8 = 21;
    pub const MAXIMUM_DATAGRAM_ASSEMBLY_SIZE: u8 = 22;
    pub const DEFAULT_IPTTL: u8 = 23;
    pub const PATH_MTU_AGING_TIMEOUT: u8 = 24;
    pub const PATH_MTU_PLATEAU_TABLE: u8 = 25;
    pub const INTERFACE_MTU: u8 = 26;
    pub const ALL_SUBNETS_ARE_LOCAL: u8 = 27;
    pub const BROADCAST_ADDRESS: u8 = 28;
    pub const PERFORM_MASK_DISCOVERY: u8 = 29;
    pub const MASK_SUPPLIER: u8 = 30;
    pub const PERFORM_ROUTER_DISCOVERY: u8 = 31;
    pub const ROUTER_SOLICITATION_ADDRESS: u8 = 32;
    pub const STATIC_ROUTING_TABLE: u8 = 33;
    pub const TRAILER_ENCAPSULATION: u8 = 34;
    pub const ARP_CACHE_TIMEOUT: u8 = 35;
    pub const ETHERNET_ENCAPSULATION: u8 = 36;
    pub const DEFAUL_TCPTTL: u8 = 37;
    pub const TCP_KEEPALIVE_INTERVAL: u8 = 38;
    pub const TCP_KEEPALIVE_GARBAGE: u8 = 39;
    pub const NETWORK_INFORMATION_SERVICE_DOMAIN: u8 = 40;
    pub const NETWORK_INFORMATION_SERVERS: u8 = 41;
    pub const NTP_SERVERS: u8 = 42;
    pub const VENDOR_SPECIFIC_INFORMATION: u8 = 43;
    pub const NET_BIOS_OVER_TCPIP_NAME_SERVER: u8 = 44;
    pub const NET_BIOS_OVER_TCPIP_DATAGRAM_DISTRIBUTION_SERVER: u8 = 45;
    pub const NET_BIOS_OVER_TCPIP_NODE_TYPE: u8 = 46;
    pub const NET_BIOS_OVER_TCPIP_SCOPE: u8 = 47;
    pub const X_WINDOW_SYSTEM_FONT_SERVER: u8 = 48;
    pub const X_WINDOW_SYSTEM_DISPLAY_MANGER: u8 = 49;
    pub const REQUESTED_IP_ADDRESS: u8 = 50;
    pub const IP_ADDRESS_LEASE_TIME: u8 = 51;
    pub const OVERLOAD: u8 = 52;
    pub const DHCP_MESSAGE_TYPE: u8 = 53;
    pub const SERVER_IDENTIFIER: u8 = 54;
    pub const PARAMETER_REQUEST_LIST: u8 = 55;
    pub const MESSAGE: u8 = 56;
    pub const MAXIMUM_DHCP_MESSAGE_SIZE: u8 = 57;
    pub const RENEW_TIME_VALUE: u8 = 58;
    pub const REBINDING_TIME_VALUE: u8 = 59;
    pub const CLASS_IDENTIFIER: u8 = 60;
    pub const CLIENT_IDENTIFIER: u8 = 61;
    pub const NET_WARE_IP_DOMAIN_NAME: u8 = 62;
    pub const NET_WARE_IP_INFORMATION: u8 = 63;
    pub const NETWORK_INFORMATION_SERVICE_PLUS_DOMAIN: u8 = 64;
    pub const NETWORK_INFORMATION_SERVICE_PLUS_SERVERS: u8 = 65;
    pub const TFTP_SERVER_NAME: u8 = 66;
    pub const BOOTFILE_NAME: u8 = 67;
    pub const MOBILE_IP_HOME_AGENT: u8 = 68;
    pub const SIMPLE_MAIL_TRANSPORT_PROTOCOL_SERVER: u8 = 69;
    pub const POST_OFFICE_PROTOCOL_SERVER: u8 = 70;
    pub const NETWORK_NEWS_TRANSPORT_PROTOCOL_SERVER: u8 = 71;
    pub const DEFAULT_WORLD_WIDE_WEB_SERVER: u8 = 72;
    pub const DEFAULT_FINGER_SERVER: u8 = 73;
    pub const DEFAULT_INTERNET_RELAY_CHAT_SERVER: u8 = 74;
    pub const STREET_TALK_SERVER: u8 = 75;
    pub const STREET_TALK_DIRECTORY_ASSISTANCE_SERVER: u8 = 76;
    pub const END: u8 = 255;
}

} // verus!
