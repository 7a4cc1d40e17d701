//! The domain name server list option.
use vstd::prelude::*;

use super::ips::{flatten_ips, ips_value, GetIpsExt, IpsIter};
use super::Builder;
use crate::option::{encode_unit, Code};

verus! {

pub trait GetDomainNameExt: GetIpsExt {
    fn get_domain_name_servers(&self) -> (r: Option<IpsIter<'_>>)
        ensures
            r is Some <==> ips_value(self.option_value(Code::DOMAIN_NAME_SERVER)) is Some,
            r matches Some(it) ==> it.remaining() == ips_value(self.option_value(Code::DOMAIN_NAME_SERVER))->Some_0,
    {
        self.get_ips(Code(Code::DOMAIN_NAME_SERVER))
    }
}

impl<T: GetIpsExt> GetDomainNameExt for T {}

impl<'a> Builder<'a> {
    pub fn add_domain_name_servers(&mut self, servers: &[[u8; 4]])
        requires
            servers@.len() * 4 <= 255,
        ensures
            final(self).bytes() == old(self).bytes() + encode_unit(Code::DOMAIN_NAME_SERVER, flatten_ips(servers@)),
            final(final(self).target())@ == final(old(self).target())@,
    {
        self.add_ips(Code(Code::DOMAIN_NAME_SERVER), servers);
    }
}

} // verus!
