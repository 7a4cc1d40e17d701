//! The server identifier option.
use vstd::prelude::*;

use super::ip::{ip_value, GetIpExt};
use super::Builder;
use crate::option::{encode_unit, Code};

verus! {

pub trait GetServerIdentifierExt: GetIpExt {
    fn get_server_identifier(&self) -> (r: Option<[u8; 4]>)
        ensures
            r is Some <==> ip_value(self.option_value(Code::SERVER_IDENTIFIER)) is Some,
            r matches Some(ip) ==> ip@ == ip_value(self.option_value(Code::SERVER_IDENTIFIER))->Some_0,
    {
        self.get_ip(Code(Code::SERVER_IDENTIFIER))
    }
}

impl<T: GetIpExt> GetServerIdentifierExt for T {}

impl<'a> Builder<'a> {
    pub fn add_server_identifier(&mut self, addr: [u8; 4])
        ensures
            final(self).bytes() == old(self).bytes() + encode_unit(Code::SERVER_IDENTIFIER, addr@),
            final(final(self).target())@ == final(old(self).target())@,
    {
        self.add_ip(Code(Code::SERVER_IDENTIFIER), addr);
    }
}

} // verus!
