//! The END sentinel.
use vstd::prelude::*;

use super::Builder;
use crate::option::Code;

verus! {

impl<'a> Builder<'a> {
    /// Appends the END sentinel, a single byte.
    pub fn add_end(&mut self)
        ensures
            final(self).bytes() == old(self).bytes() + seq![Code::END],
            final(final(self).target())@ == final(old(self).target())@,
    {
        let unit: [u8; 1] = [Code::END];
        self.append(&unit);
        assert(unit@ =~= seq![Code::END]);
    }
}

} // verus!
