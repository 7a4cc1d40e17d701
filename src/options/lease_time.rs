//! The address lease time option.
use vstd::prelude::*;

use super::{Builder, OptionMap};
use crate::layout::{be32_at, be32_bytes, be32_to_bytes, read_be32};
use crate::option::{encode_unit, Code};

verus! {

/// The lease time in `v`, if `v` is exactly four bytes.
pub open spec fn lease_time_value(v: Option<Seq<u8>>) -> Option<u32> {
    match v {
        Some(b) => if b.len() == 4 {
            Some(be32_at(b, 0))
        } else {
            None
        },
        None => None,
    }
}

pub trait GetLeaseTimeExt: OptionMap {
    /// The lease time in seconds; absent unless the value is four bytes.
    fn get_lease_time(&self) -> (r: Option<u32>)
        ensures
            r == lease_time_value(self.option_value(Code::IP_ADDRESS_LEASE_TIME)),
    {
        let value = self.get_option(Code(Code::IP_ADDRESS_LEASE_TIME))?;
        let bytes = value.value()?;
        if bytes.len() != 4 {
            return None;
        }
        Some(read_be32(bytes, 0))
    }
}

impl<T: OptionMap> GetLeaseTimeExt for T {}

impl<'a> Builder<'a> {
    /// Appends the lease time option, in seconds.
    pub fn add_lease_time(&mut self, time_in_secs: u32)
        ensures
            final(self).bytes() == old(self).bytes() + encode_unit(
                Code::IP_ADDRESS_LEASE_TIME,
                be32_bytes(time_in_secs),
            ),
            final(final(self).target())@ == final(old(self).target())@,
    {
        let v = be32_to_bytes(time_in_secs);
        let unit: [u8; 6] = [Code::IP_ADDRESS_LEASE_TIME, 4, v[0], v[1], v[2], v[3]];
        self.append(&unit);
        assert(unit@ =~= encode_unit(Code::IP_ADDRESS_LEASE_TIME, be32_bytes(time_in_secs)));
    }
}

} // verus!
