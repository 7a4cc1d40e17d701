//! Options whose value is a list of IPv4 addresses.
use vstd::prelude::*;

use super::{Builder, OptionMap};
use crate::option::{encode_unit, Code};

verus! {

/// The bytes of `ips`, one address after another.
pub open spec fn flatten_ips(ips: Seq<[u8; 4]>) -> Seq<u8>
    decreases ips.len(),
{
    if ips.len() == 0 {
        seq![]
    } else {
        flatten_ips(ips.drop_last()) + ips.last()@
    }
}

/// The addresses in `v`, if its length is a multiple of four.
pub open spec fn ips_value(v: Option<Seq<u8>>) -> Option<Seq<u8>> {
    match v {
        Some(b) => if b.len() % 4 == 0 {
            Some(b)
        } else {
            None
        },
        None => None,
    }
}

pub trait GetIpsExt: OptionMap {
    /// The addresses stored for `code`; absent unless the value's length is a
    /// multiple of four.
    fn get_ips(&self, code: Code) -> (r: Option<IpsIter<'_>>)
        ensures
            r is Some <==> ips_value(self.option_value(code.0)) is Some,
            r matches Some(it) ==> it.remaining() == ips_value(self.option_value(code.0))->Some_0,
    {
        let value = self.get_option(code)?;
        let bytes = value.value()?;
        if bytes.len() % 4 == 0 {
            return Some(IpsIter(bytes));
        }
        None
    }
}

impl<T: OptionMap> GetIpsExt for T {}

/// The addresses of an address-list value, one per four bytes, in order.
pub struct IpsIter<'a>(&'a [u8]);

impl<'a> IpsIter<'a> {
    /// The bytes not yet read.
    pub closed spec fn remaining(&self) -> Seq<u8> {
        self.0@
    }

    /// The next address; absent once fewer than four bytes are left.
    pub fn next(&mut self) -> (r: Option<[u8; 4]>)
        ensures
            r is Some <==> old(self).remaining().len() >= 4,
            r matches Some(ip) ==> {
                &&& ip@ == old(self).remaining().subrange(0, 4)
                &&& final(self).remaining() == old(self).remaining().subrange(
                    4,
                    old(self).remaining().len() as int,
                )
            },
    {
        if self.0.len() < 4 {
            return None;
        }
        let ip = [self.0[0], self.0[1], self.0[2], self.0[3]];
        assert(ip@ =~= self.0@.subrange(0, 4));
        let (_, rest) = self.0.split_at(4);
        self.0 = rest;
        Some(ip)
    }

    /// How many whole addresses are left.
    pub fn len(&self) -> (r: usize)
        ensures
            r == self.remaining().len() / 4,
    {
        self.0.len() / 4
    }
}

impl<'a> Builder<'a> {
    /// Appends an option with code `code` holding the addresses `ips`.
    pub fn add_ips(&mut self, code: Code, ips: &[[u8; 4]])
        requires
            ips@.len() * 4 <= 255,
        ensures
            final(self).bytes() == old(self).bytes() + encode_unit(code.0, flatten_ips(ips@)),
            final(final(self).target())@ == final(old(self).target())@,
    {
        let head: [u8; 2] = [code.0, (ips.len() * 4) as u8];
        self.append(&head);
        let ghost start = self.bytes();
        let mut i: usize = 0;
        while i < ips.len()
            invariant
                i <= ips@.len(),
                self.bytes() == start + flatten_ips(ips@.subrange(0, i as int)),
                final(self.target())@ == final(old(self).target())@,
            decreases ips@.len() - i,
        {
            let ip = ips[i];
            self.append(&ip);
            assert(ips@.subrange(0, i + 1).drop_last() =~= ips@.subrange(0, i as int));
            i = i + 1;
        }
        assert(ips@.subrange(0, i as int) =~= ips@);
        proof {
            lemma_flatten_ips_len(ips@);
        }
        assert(head@ =~= seq![code.0, flatten_ips(ips@).len() as u8]);
        assert(self.bytes() =~= old(self).bytes() + encode_unit(code.0, flatten_ips(ips@)));
    }
}

proof fn lemma_flatten_ips_len(ips: Seq<[u8; 4]>)
    ensures
        flatten_ips(ips).len() == ips.len() * 4,
    decreases ips.len(),
{
    if ips.len() > 0 {
        lemma_flatten_ips_len(ips.drop_last());
    }
}

} // verus!
