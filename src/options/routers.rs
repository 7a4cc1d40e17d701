//! The router list option.
use vstd::prelude::*;

use super::ips::{flatten_ips, ips_value, GetIpsExt, IpsIter};
use super::Builder;
use crate::option::{encode_unit, Code};

verus! {

pub trait GetRoutersExt: GetIpsExt {
    fn get_routers(&self) -> (r: Option<IpsIter<'_>>)
        ensures
            r is Some <==> ips_value(self.option_value(Code::ROUTER)) is Some,
            r matches Some(it) ==> it.remaining() == ips_value(self.option_value(Code::ROUTER))->Some_0,
    {
        self.get_ips(Code(Code::ROUTER))
    }
}

impl<T: GetIpsExt> GetRoutersExt for T {}

impl<'a> Builder<'a> {
    pub fn add_routers(&mut self, routers: &[[u8; 4]])
        requires
            routers@.len() * 4 <= 255,
        ensures
            final(self).bytes() == old(self).bytes() + encode_unit(Code::ROUTER, flatten_ips(routers@)),
            final(final(self).target())@ == final(old(self).target())@,
    {
        self.add_ips(Code(Code::ROUTER), routers);
    }
}

} // verus!
