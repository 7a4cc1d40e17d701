//! Options whose value is an uninterpreted run of bytes.
use vstd::prelude::*;

use super::{Builder, OptionMap};
use crate::option::{encode_unit, Code};

verus! {

pub trait GetBytesExt: OptionMap {
    /// The value stored for `code`.
    fn get_bytes(&self, code: Code) -> (r: Option<&[u8]>)
        ensures
            r is Some <==> self.option_value(code.0) is Some,
            r matches Some(b) ==> b@ == self.option_value(code.0)->Some_0,
    {
        let value = self.get_option(code)?;
        value.value()
    }
}

impl<T: OptionMap> GetBytesExt for T {}

impl<'a> Builder<'a> {
    /// Appends an option with code `code` and value `bytes`.
    pub fn add_bytes(&mut self, code: Code, bytes: &[u8])
        requires
            bytes@.len() <= 255,
        ensures
            final(self).bytes() == old(self).bytes() + encode_unit(code.0, bytes@),
            final(final(self).target())@ == final(old(self).target())@,
    {
        let head: [u8; 2] = [code.0, bytes.len() as u8];
        self.append(&head);
        self.append(bytes);
        assert(final(self).bytes() =~= old(self).bytes() + encode_unit(code.0, bytes@)) by {
            assert(head@ =~= seq![code.0, bytes@.len() as u8]);
        }
    }
}

} // verus!
