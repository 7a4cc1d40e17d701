//! The subnet mask option.
use vstd::prelude::*;

use super::ip::{ip_value, GetIpExt};
use super::Builder;
use crate::option::{encode_unit, Code};

verus! {

pub trait GetSubnetMaskExt: GetIpExt {
    fn get_subnet_mask(&self) -> (r: Option<[u8; 4]>)
        ensures
            r is Some <==> ip_value(self.option_value(Code::SUBNET_MASK)) is Some,
            r matches Some(ip) ==> ip@ == ip_value(self.option_value(Code::SUBNET_MASK))->Some_0,
    {
        self.get_ip(Code(Code::SUBNET_MASK))
    }
}

impl<T: GetIpExt> GetSubnetMaskExt for T {}

impl<'a> Builder<'a> {
    pub fn add_subnet_mask(&mut self, subnet_mask: [u8; 4])
        ensures
            final(self).bytes() == old(self).bytes() + encode_unit(Code::SUBNET_MASK, subnet_mask@),
            final(final(self).target())@ == final(old(self).target())@,
    {
        self.add_ip(Code(Code::SUBNET_MASK), subnet_mask);
    }
}

} // verus!
