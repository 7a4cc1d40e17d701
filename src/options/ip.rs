//! Options whose value is one IPv4 address.
use vstd::prelude::*;

use super::{Builder, OptionMap};
use crate::option::{encode_unit, Code};

verus! {

/// The address in `v`, if `v` is exactly four bytes.
pub open spec fn ip_value(v: Option<Seq<u8>>) -> Option<Seq<u8>> {
    match v {
        Some(b) => if b.len() == 4 {
            Some(b)
        } else {
            None
        },
        None => None,
    }
}

pub trait GetIpExt: OptionMap {
    /// The address stored for `code`; absent unless the value is four bytes.
    fn get_ip(&self, code: Code) -> (r: Option<[u8; 4]>)
        ensures
            r is Some <==> ip_value(self.option_value(code.0)) is Some,
            r matches Some(ip) ==> ip@ == ip_value(self.option_value(code.0))->Some_0,
    {
        let value = self.get_option(code)?;
        let bytes = value.value()?;
        if bytes.len() != 4 {
            return None;
        }
        let ip = [bytes[0], bytes[1], bytes[2], bytes[3]];
        assert(ip@ =~= bytes@);
        Some(ip)
    }
}

impl<T: OptionMap> GetIpExt for T {}

impl<'a> Builder<'a> {
    /// Appends an option with code `code` holding one address.
    pub fn add_ip(&mut self, code: Code, ip: [u8; 4])
        ensures
            final(self).bytes() == old(self).bytes() + encode_unit(code.0, ip@),
            final(final(self).target())@ == final(old(self).target())@,
    {
        let unit: [u8; 6] = [code.0, 4, ip[0], ip[1], ip[2], ip[3]];
        self.append(&unit);
        assert(unit@ =~= encode_unit(code.0, ip@));
    }
}

} // verus!
