//! The options region: the magic cookie, the units after it, a lookup table
//! built from them, and the cursor that appends options to a message.
use vstd::prelude::*;

use crate::layout::{MAGIC_COOKIE_SIZE, OPTIONS_MIN_SIZE};
use crate::message::AppendOnly;
use crate::option::{self, declared_value, encode_unit, unit_len, Code, Value};

pub mod bytes;
pub mod domain_name;
pub mod domain_name_servers;
pub mod end;
pub mod host_name;
pub mod ip;
pub mod ips;
pub mod lease_time;
pub mod message_type;
pub mod requested_ip_address;
pub mod routers;
pub mod server_identifier;
pub mod subnet_mask;

verus! {

/// The four bytes that open a standard options region.
pub open spec fn magic_cookie_bytes() -> Seq<u8> {
    seq![99u8, 130u8, 83u8, 99u8]
}

/// Whether `s` opens with the magic cookie.
pub open spec fn has_magic_cookie(s: Seq<u8>) -> bool {
    s.len() >= 4 && s.subrange(0, 4) == magic_cookie_bytes()
}

/// The code and value of each unit that iteration over `s` yields, in order:
/// PAD bytes are skipped, and iteration ends at END, at a truncated unit, or
/// where the bytes run out.
pub open spec fn units(s: Seq<u8>) -> Seq<(u8, Seq<u8>)>
    decreases s.len(),
{
    if s.len() == 0 {
        seq![]
    } else if s[0] == Code::PAD {
        units(s.subrange(1, s.len() as int))
    } else if s[0] == Code::END {
        seq![]
    } else if s.len() >= 2 && s.len() >= 2 + s[1] {
        seq![(s[0], s.subrange(2, 2 + s[1]))] + units(s.subrange(2 + s[1], s.len() as int))
    } else {
        seq![]
    }
}

/// The value of the first unit in `us` with code `c`.
pub open spec fn first_value(us: Seq<(u8, Seq<u8>)>, c: u8) -> Option<Seq<u8>>
    decreases us.len(),
{
    if us.len() == 0 {
        None
    } else if us[0].0 == c {
        Some(us[0].1)
    } else {
        first_value(us.subrange(1, us.len() as int), c)
    }
}

/// Iteration over a whole unit yields that unit, then goes on after it.
pub proof fn lemma_units_of_unit(c: u8, v: Seq<u8>, rest: Seq<u8>)
    requires
        c != Code::PAD,
        c != Code::END,
        v.len() <= 255,
    ensures
        units(encode_unit(c, v) + rest) == seq![(c, v)] + units(rest),
{
    let s = encode_unit(c, v) + rest;
    assert(s[0] == c);
    assert(s[1] == v.len());
    assert(s.subrange(2, 2 + v.len() as int) =~= v);
    assert(s.subrange(2 + v.len() as int, s.len() as int) =~= rest);
}

/// A run of PAD bytes yields no unit.
pub proof fn lemma_units_of_padding(n: nat)
    ensures
        units(Seq::new(n, |i: int| 0u8)) == Seq::<(u8, Seq<u8>)>::empty(),
    decreases n,
{
    if n > 0 {
        let s = Seq::new(n, |i: int| 0u8);
        assert(s.subrange(1, n as int) =~= Seq::new((n - 1) as nat, |i: int| 0u8));
        lemma_units_of_padding((n - 1) as nat);
    }
    assert(units(Seq::new(n, |i: int| 0u8)) =~= Seq::<(u8, Seq<u8>)>::empty());
}

/// Iteration stops at the END after a unit: it yields that unit alone, and
/// whatever follows the END is never read.
pub proof fn lemma_units_stop_at_end(c: u8, v: Seq<u8>, after: Seq<u8>)
    requires
        c != Code::PAD,
        c != Code::END,
        v.len() <= 255,
    ensures
        units(encode_unit(c, v) + seq![Code::END] + after) == seq![(c, v)],
{
    let tail = seq![Code::END] + after;
    assert(encode_unit(c, v) + seq![Code::END] + after =~= encode_unit(c, v) + tail);
    lemma_units_of_unit(c, v, tail);
    assert(tail[0] == Code::END);
    assert(units(tail) =~= Seq::<(u8, Seq<u8>)>::empty());
    assert(seq![(c, v)] + units(tail) =~= seq![(c, v)]);
}

/// A unit that declares more value bytes than follow it yields nothing and
/// ends iteration.
pub proof fn lemma_units_truncated(s: Seq<u8>)
    requires
        s.len() >= 1,
        s[0] != Code::PAD,
        s[0] != Code::END,
        s.len() < 2 || s.len() < 2 + s[1],
    ensures
        units(s) == Seq::<(u8, Seq<u8>)>::empty(),
        unit_len(s) is None,
{
}

/// The options region of a message.
pub struct Options<B>(B);

impl<T> Options<T> {
    pub const MIN_SIZE: usize = OPTIONS_MIN_SIZE;
    pub const MAGIC_COOKIE_SIZE: usize = MAGIC_COOKIE_SIZE;
    pub const MAGIC_COOKIE: [u8; 4] = [99, 130, 83, 99];
}

impl<'a> Options<&'a [u8]> {
    pub closed spec fn bytes(&self) -> Seq<u8> {
        self.0@
    }

    /// Absent when `buf` is shorter than the smallest options region.
    pub fn new(buf: &'a [u8]) -> (r: Option<Self>)
        ensures
            r is Some <==> buf@.len() >= OPTIONS_MIN_SIZE,
            r matches Some(o) ==> o.bytes() == buf@,
    {
        if buf.len() >= OPTIONS_MIN_SIZE {
            return Some(Options(buf));
        }
        None
    }

    pub fn as_slice(&self) -> (r: &'a [u8])
        ensures
            r@ == self.bytes(),
    {
        self.0
    }

    /// The region's first four bytes, if it has four.
    pub fn magic_cookie(&self) -> (r: Option<[u8; 4]>)
        ensures
            r is Some <==> self.bytes().len() >= 4,
            r matches Some(c) ==> c@ == self.bytes().subrange(0, 4),
    {
        if self.0.len() < MAGIC_COOKIE_SIZE {
            return None;
        }
        let c = [self.0[0], self.0[1], self.0[2], self.0[3]];
        assert(c@ =~= self.bytes().subrange(0, 4));
        Some(c)
    }

    pub fn is_magic_cookie_valid(&self) -> (r: bool)
        ensures
            r == has_magic_cookie(self.bytes()),
    {
        match self.magic_cookie() {
            Some(c) => {
                let m = Options::<()>::MAGIC_COOKIE;
                assert(m@ =~= magic_cookie_bytes());
                let r = c[0] == m[0] && c[1] == m[1] && c[2] == m[2] && c[3] == m[3];
                assert(r == (c@ =~= magic_cookie_bytes()));
                r
            },
            None => false,
        }
    }

    /// The units after the magic cookie; absent when the cookie is missing.
    pub fn try_iter(&self) -> (r: Option<Iter<'a>>)
        ensures
            r is Some <==> has_magic_cookie(self.bytes()),
            r matches Some(it) ==> it.remaining() == self.bytes().subrange(
                4,
                self.bytes().len() as int,
            ),
    {
        if !self.is_magic_cookie_valid() {
            return None;
        }
        let (_, rest) = self.0.split_at(MAGIC_COOKIE_SIZE);
        Some(Iter(rest))
    }
}

/// Single-pass iteration over the units of an options region.
pub struct Iter<'a>(&'a [u8]);

impl<'a> Iter<'a> {
    /// The bytes not yet read.
    pub closed spec fn remaining(&self) -> Seq<u8> {
        self.0@
    }

    /// An iterator over the units in `buf`, with no magic cookie in front.
    pub fn new(buf: &'a [u8]) -> (r: Self)
        ensures
            r.remaining() == buf@,
    {
        Iter(buf)
    }

    /// The next unit; absent once iteration has ended.
    pub fn next(&mut self) -> (r: Option<option::Option<&'a [u8]>>)
        ensures
            r is None <==> units(old(self).remaining()).len() == 0,
            r is None ==> units(final(self).remaining()).len() == 0,
            r matches Some(u) ==> {
                let first = units(old(self).remaining())[0];
                &&& first.1.len() <= 255
                &&& u.bytes() == encode_unit(first.0, first.1)
                &&& units(final(self).remaining()) == units(old(self).remaining()).subrange(
                    1,
                    units(old(self).remaining()).len() as int,
                )
            },
    {
        loop
            invariant
                units(self.remaining()) == units(old(self).remaining()),
            decreases self.remaining().len(),
        {
            match option::Option::read(self.0) {
                None => {
                    return None;
                },
                Some((unit, rest)) => {
                    let ghost s = self.remaining();
                    let code = unit.code();
                    if code.0 == Code::END {
                        return None;
                    }
                    self.0 = rest;
                    if code.0 != Code::PAD {
                        let ghost n = 2 + s[1];
                        assert(unit.bytes() =~= encode_unit(s[0], s.subrange(2, n)));
                        assert(units(s).subrange(1, units(s).len() as int) =~= units(rest@));
                        return Some(unit);
                    }
                }
            }
        }
    }
}

/// A mapping from option codes to option values.
pub trait OptionMap {
    /// The value stored for `code`.
    spec fn option_value(&self, code: u8) -> Option<Seq<u8>>;

    /// The length byte and value stored for `code`.
    fn get_option(&self, code: Code) -> (r: Option<&Value<&[u8]>>)
        ensures
            r is Some <==> self.option_value(code.0) is Some,
            r matches Some(v) ==> declared_value(v.bytes()) == self.option_value(code.0),
    ;
}

/// The units of one options region, looked up by code; where a code occurs
/// more than once, its first unit wins.
pub struct OptionTable<'a> {
    entries: Vec<(Code, Value<&'a [u8]>)>,
}

impl<'a> OptionTable<'a> {
    /// The code and value of each stored unit, in the order they were read.
    pub closed spec fn units(&self) -> Seq<(u8, Seq<u8>)> {
        self.entries@.map_values(
            |e: (Code, Value<&'a [u8]>)| (e.0.0, declared_value(e.1.bytes())->Some_0),
        )
    }

    #[verifier::type_invariant]
    closed spec fn wf(&self) -> bool {
        forall|i: int|
            0 <= i < self.entries@.len() ==> declared_value(#[trigger] self.entries@[i].1.bytes())
                is Some
    }

    /// Reads every unit that `iter` has left and stores it.
    pub fn from_iter(iter: Iter<'a>) -> (r: Self)
        ensures
            r.units() == units(iter.remaining()),
            forall|c: u8| #[trigger] r.option_value(c) == first_value(units(iter.remaining()), c),
    {
        let mut it = iter;
        let mut entries: Vec<(Code, Value<&'a [u8]>)> = Vec::new();
        let ghost all = units(iter.remaining());
        loop
            invariant
                (OptionTable { entries }).wf(),
                (OptionTable { entries }).units() + units(it.remaining()) == all,
            ensures
                (OptionTable { entries }).wf(),
                (OptionTable { entries }).units() == all,
            decreases units(it.remaining()).len(),
        {
            let ghost before = (OptionTable { entries }).units();
            let ghost rest = units(it.remaining());
            match it.next() {
                None => {
                    assert((OptionTable { entries }).units() =~= all);
                    break;
                },
                Some(unit) => {
                    let code = unit.code();
                    let value = unit.value().unwrap();
                    proof {
                        assert(value.bytes() =~= seq![rest[0].1.len() as u8] + rest[0].1);
                        assert(declared_value(value.bytes()) == Some(rest[0].1)) by {
                            assert(value.bytes().subrange(1, 1 + value.bytes()[0] as int)
                                =~= rest[0].1);
                        }
                    }
                    entries.push((code, value));
                    proof {
                        assert((OptionTable { entries }).units() =~= before + seq![rest[0]]);
                        assert(rest =~= seq![rest[0]] + rest.subrange(1, rest.len() as int));
                    }
                },
            }
        }
        OptionTable { entries }
    }
}

/// Where no unit before index `i` has code `c`, the first value for `c` is the
/// one at `i`, or none when `i` is past the end.
proof fn lemma_first_value_at(us: Seq<(u8, Seq<u8>)>, i: int, c: u8)
    requires
        0 <= i <= us.len(),
        forall|j: int| 0 <= j < i ==> (#[trigger] us[j]).0 != c,
    ensures
        i < us.len() && us[i].0 == c ==> first_value(us, c) == Some(us[i].1),
        i == us.len() ==> first_value(us, c) is None,
    decreases i,
{
    if i > 0 {
        let tail = us.subrange(1, us.len() as int);
        assert forall|j: int| 0 <= j < i - 1 implies (#[trigger] tail[j]).0 != c by {
            assert(tail[j] == us[j + 1]);
        }
        lemma_first_value_at(tail, i - 1, c);
    }
}

impl<'a> OptionMap for OptionTable<'a> {
    closed spec fn option_value(&self, code: u8) -> Option<Seq<u8>> {
        first_value(self.units(), code)
    }

    fn get_option(&self, code: Code) -> (r: Option<&Value<&[u8]>>) {
        proof {
            use_type_invariant(self);
        }
        let mut i: usize = 0;
        while i < self.entries.len()
            invariant
                i <= self.entries@.len(),
                self.wf(),
                self.units().len() == self.entries@.len(),
                forall|j: int| 0 <= j < i ==> (#[trigger] self.units()[j]).0 != code.0,
            decreases self.entries@.len() - i,
        {
            if self.entries[i].0.0 == code.0 {
                proof {
                    lemma_first_value_at(self.units(), i as int, code.0);
                    assert(declared_value(self.entries@[i as int].1.bytes()) is Some);
                    assert(self.units()[i as int].1 == declared_value(
                        self.entries@[i as int].1.bytes(),
                    )->Some_0);
                }
                return Some(&self.entries[i].1);
            }
            i = i + 1;
        }
        proof {
            lemma_first_value_at(self.units(), i as int, code.0);
        }
        None
    }
}

/// The bytes of `entries` written as units, one after another.
pub open spec fn entries_bytes(entries: Seq<(Code, Value<&[u8]>)>) -> Seq<u8>
    decreases entries.len(),
{
    if entries.len() == 0 {
        seq![]
    } else {
        entries_bytes(entries.drop_last()) + seq![entries.last().0.0] + entries.last().1.bytes()
    }
}

/// Appends options after the header of a message being built.
pub struct Builder<'a>(pub AppendOnly<'a>);

impl<'a> Builder<'a> {
    /// The buffer appended to.
    pub open spec fn target(&self) -> &'a mut Vec<u8> {
        self.0.target()
    }

    /// The bytes written so far.
    pub open spec fn bytes(&self) -> Seq<u8> {
        self.0.bytes()
    }

    /// Once nothing appends through `b` any more, what it holds is what its
    /// target ends up holding.
    pub proof fn lemma_resolved(b: Self)
        requires
            has_resolved(b),
        ensures
            final(b.target())@ == b.bytes(),
    {
        AppendOnly::lemma_resolved(b.0);
    }

    /// Appends raw bytes.
    pub fn append(&mut self, buf: &[u8])
        ensures
            final(self).bytes() == old(self).bytes() + buf@,
            final(final(self).target())@ == final(old(self).target())@,
    {
        self.0.append(buf);
    }

    /// Appends each entry as a unit: its code, then the value's length byte
    /// and bytes.
    pub fn extend(&mut self, entries: &[(Code, Value<&[u8]>)])
        ensures
            final(self).bytes() == old(self).bytes() + entries_bytes(entries@),
            final(final(self).target())@ == final(old(self).target())@,
    {
        let mut i: usize = 0;
        while i < entries.len()
            invariant
                i <= entries@.len(),
                self.bytes() == old(self).bytes() + entries_bytes(entries@.subrange(0, i as int)),
                final(self.target())@ == final(old(self).target())@,
            decreases entries@.len() - i,
        {
            let code: [u8; 1] = [entries[i].0.0];
            self.append(&code);
            self.append(entries[i].1.as_slice());
            assert(entries@.subrange(0, i + 1).drop_last() =~= entries@.subrange(0, i as int));
            assert(code@ =~= seq![entries@[i as int].0.0]);
            assert(self.bytes() =~= old(self).bytes() + entries_bytes(entries@.subrange(0, i + 1)));
            i = i + 1;
        }
        assert(entries@.subrange(0, i as int) =~= entries@);
    }

    /// Appends the magic cookie; it must come before any option.
    pub fn add_magic_cookie(&mut self)
        ensures
            final(self).bytes() == old(self).bytes() + magic_cookie_bytes(),
            final(final(self).target())@ == final(old(self).target())@,
    {
        let c = Options::<()>::MAGIC_COOKIE;
        assert(c@ =~= magic_cookie_bytes());
        self.append(&c);
    }
}

} // verus!
