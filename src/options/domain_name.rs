//! The domain name option.
use vstd::prelude::*;

use super::bytes::GetBytesExt;
use super::Builder;
use crate::option::{encode_unit, Code};

verus! {

pub trait GetDomainNameExt: GetBytesExt {
    fn get_domain_name(&self) -> (r: Option<&[u8]>)
        ensures
            r is Some <==> self.option_value(Code::DOMAIN_NAME) is Some,
            r matches Some(b) ==> b@ == self.option_value(Code::DOMAIN_NAME)->Some_0,
    {
        self.get_bytes(Code(Code::DOMAIN_NAME))
    }
}

impl<T: GetBytesExt> GetDomainNameExt for T {}

impl<'a> Builder<'a> {
    pub fn add_domain_name(&mut self, domain_name: &[u8])
        requires
            domain_name@.len() <= 255,
        ensures
            final(self).bytes() == old(self).bytes() + encode_unit(Code::DOMAIN_NAME, domain_name@),
            final(final(self).target())@ == final(old(self).target())@,
    {
        self.add_bytes(Code(Code::DOMAIN_NAME), domain_name);
    }
}

} // verus!
