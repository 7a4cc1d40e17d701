//! The requested address option.
use vstd::prelude::*;

use super::ip::{ip_value, GetIpExt};
use super::Builder;
use crate::option::{encode_unit, Code};

verus! {

pub trait GetRequestedIpAddressExt: GetIpExt {
    fn get_requested_ip_address(&self) -> (r: Option<[u8; 4]>)
        ensures
            r is Some <==> ip_value(self.option_value(Code::REQUESTED_IP_ADDRESS)) is Some,
            r matches Some(ip) ==> ip@ == ip_value(self.option_value(Code::REQUESTED_IP_ADDRESS))->Some_0,
    {
        self.get_ip(Code(Code::REQUESTED_IP_ADDRESS))
    }
}

impl<T: GetIpExt> GetRequestedIpAddressExt for T {}

impl<'a> Builder<'a> {
    pub fn add_requested_ip_address(&mut self, addr: [u8; 4])
        ensures
            final(self).bytes() == old(self).bytes() + encode_unit(Code::REQUESTED_IP_ADDRESS, addr@),
            final(final(self).target())@ == final(old(self).target())@,
    {
        self.add_ip(Code(Code::REQUESTED_IP_ADDRESS), addr);
    }
}

} // verus!
