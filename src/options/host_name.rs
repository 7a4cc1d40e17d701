//! The host name option.
use vstd::prelude::*;

use super::bytes::GetBytesExt;
use super::Builder;
use crate::option::{encode_unit, Code};

verus! {

pub trait GetHostNameExt: GetBytesExt {
    fn get_host_name(&self) -> (r: Option<&[u8]>)
        ensures
            r is Some <==> self.option_value(Code::HOST_NAME) is Some,
            r matches Some(b) ==> b@ == self.option_value(Code::HOST_NAME)->Some_0,
    {
        self.get_bytes(Code(Code::HOST_NAME))
    }
}

impl<T: GetBytesExt> GetHostNameExt for T {}

impl<'a> Builder<'a> {
    pub fn add_host_name(&mut self, host_name: &[u8])
        requires
            host_name@.len() <= 255,
        ensures
            final(self).bytes() == old(self).bytes() + encode_unit(Code::HOST_NAME, host_name@),
            final(final(self).target())@ == final(old(self).target())@,
    {
        self.add_bytes(Code(Code::HOST_NAME), host_name);
    }
}

} // verus!
