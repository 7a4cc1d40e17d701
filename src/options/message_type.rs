//! The DHCP message type option.
use vstd::prelude::*;

use super::{Builder, OptionMap};
use crate::option::{encode_unit, Code};

verus! {

/// The kind of a DHCP message.
#[derive(Clone, Copy, Debug, PartialEq, Eq, Structural, PartialOrd, Ord, Hash)]
pub struct MessageType(pub u8);

/// The message kinds, by name.
impl MessageType {
    pub const DHCPDISCOVER: u8 = 1;
    pub const DHCPOFFER: u8 = 2;
    pub const DHCPREQUEST: u8 = 3;
    pub const DHCPDECLINE: u8 = 4;
    pub const DHCPACK: u8 = 5;
    pub const DHCPNAK: u8 = 6;
    pub const DHCPRELEASE: u8 = 7;
    pub const DHCPINFORM: u8 = 8;
}

/// The message type in `v`, if `v` is exactly one byte.
pub open spec fn message_type_value(v: Option<Seq<u8>>) -> Option<u8> {
    match v {
        Some(b) => if b.len() == 1 {
            Some(b[0])
        } else {
            None
        },
        None => None,
    }
}

pub trait GetMessageTypeExt: OptionMap {
    /// The message type; absent unless its value is one byte.
    fn get_message_type(&self) -> (r: Option<MessageType>)
        ensures
            r is Some <==> message_type_value(self.option_value(Code::DHCP_MESSAGE_TYPE)) is Some,
            r matches Some(t) ==> t.0 == message_type_value(
                self.option_value(Code::DHCP_MESSAGE_TYPE),
            )->Some_0,
    {
        let value = self.get_option(Code(Code::DHCP_MESSAGE_TYPE))?;
        let bytes = value.value()?;
        if bytes.len() == 1 {
            return Some(MessageType(bytes[0]));
        }
        None
    }
}

impl<T: OptionMap> GetMessageTypeExt for T {}

impl<'a> Builder<'a> {
    /// Appends the message type option.
    pub fn add_message_type(&mut self, typ: MessageType)
        ensures
            final(self).bytes() == old(self).bytes() + encode_unit(
                Code::DHCP_MESSAGE_TYPE,
                seq![typ.0],
            ),
            final(final(self).target())@ == final(old(self).target())@,
    {
        let unit: [u8; 3] = [Code::DHCP_MESSAGE_TYPE, 1, typ.0];
        self.append(&unit);
        assert(unit@ =~= encode_unit(Code::DHCP_MESSAGE_TYPE, seq![typ.0]));
    }
}

} // verus!
