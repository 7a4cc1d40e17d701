//! A single option unit: a PAD or END sentinel, or a code, length and value.
use vstd::prelude::*;
use std::option::Option as StdOption;

pub mod code;
pub use code::Code;

verus! {

/// How many bytes the unit at the head of `s` spans, if a whole unit is there.
pub open spec fn unit_len(s: Seq<u8>) -> StdOption<nat> {
    if s.len() == 0 {
        None
    } else if s[0] == Code::PAD || s[0] == Code::END {
        Some(1)
    } else if s.len() >= 2 && s.len() >= 2 + s[1] {
        Some((2 + s[1]) as nat)
    } else {
        None
    }
}

/// The declared value of a unit whose bytes are `s`, if it has a length byte
/// and at least that many bytes after it.
pub open spec fn declared_value(s: Seq<u8>) -> StdOption<Seq<u8>> {
    if s.len() >= 1 && s.len() >= 1 + s[0] {
        Some(s.subrange(1, 1 + s[0]))
    } else {
        None
    }
}

/// The bytes of a unit with code `c` and value `v`.
pub open spec fn encode_unit(c: u8, v: Seq<u8>) -> Seq<u8> {
    seq![c, v.len() as u8] + v
}

/// One option unit, over the bytes it spans.
pub struct Option<B>(B);

impl<'a> Option<&'a [u8]> {
    /// The bytes this unit spans.
    pub closed spec fn bytes(&self) -> Seq<u8> {
        self.0@
    }

    /// Parses the unit at the head of `buf`, handing back the unit and the bytes
    /// after it; absent when `buf` is empty or its head is a truncated unit.
    pub fn read(buf: &'a [u8]) -> (r: StdOption<(Option<&'a [u8]>, &'a [u8])>)
        ensures
            unit_len(buf@) is None <==> r is None,
            r matches Some((u, rest)) ==> {
                let n = unit_len(buf@)->Some_0 as int;
                &&& u.bytes() == buf@.subrange(0, n)
                &&& rest@ == buf@.subrange(n, buf@.len() as int)
            },
    {
        if buf.len() == 0 {
            return None;
        }
        let code = buf[0];
        if code == Code::PAD || code == Code::END {
            let (bytes, rest) = buf.split_at(1);
            return Some((Option(bytes), rest));
        }
        if buf.len() < 2 {
            return None;
        }
        let len = buf[1] as usize;
        if buf.len() - 2 < len {
            return None;
        }
        let (bytes, rest) = buf.split_at(len + 2);
        Some((Option(bytes), rest))
    }

    pub fn as_slice(&self) -> (r: &'a [u8])
        ensures
            r@ == self.bytes(),
    {
        self.0
    }

    /// The unit's code, its first byte.
    pub fn code(&self) -> (r: Code)
        requires
            self.bytes().len() >= 1,
        ensures
            r.0 == self.bytes()[0],
    {
        Code(self.0[0])
    }

    /// The unit's length byte and what follows; absent for a one-byte unit.
    pub fn value(&self) -> (r: StdOption<Value<&'a [u8]>>)
        requires
            self.bytes().len() >= 1,
        ensures
            r is Some <==> self.bytes().len() >= 2,
            r matches Some(v) ==> v.bytes() == self.bytes().subrange(1, self.bytes().len() as int),
    {
        let (_, rest) = self.0.split_at(1);
        Value::new(rest)
    }
}

/// The length byte of a unit followed by its value bytes.
pub struct Value<B>(B);

impl<'a> Value<&'a [u8]> {
    /// The length byte and the bytes after it.
    pub closed spec fn bytes(&self) -> Seq<u8> {
        self.0@
    }

    /// Absent when `buf` has no length byte.
    pub fn new(buf: &'a [u8]) -> (r: StdOption<Value<&'a [u8]>>)
        ensures
            r is Some <==> buf@.len() >= 1,
            r matches Some(v) ==> v.bytes() == buf@,
    {
        if buf.len() >= 1 {
            return Some(Value(buf));
        }
        None
    }

    pub fn as_slice(&self) -> (r: &'a [u8])
        ensures
            r@ == self.bytes(),
    {
        self.0
    }

    /// The declared length.
    pub fn len(&self) -> (r: u8)
        requires
            self.bytes().len() >= 1,
        ensures
            r == self.bytes()[0],
    {
        self.0[0]
    }

    /// The declared number of bytes after the length byte; absent when fewer
    /// are there.
    pub fn value(&self) -> (r: StdOption<&'a [u8]>)
        ensures
            r is Some <==> declared_value(self.bytes()) is Some,
            r matches Some(v) ==> v@ == declared_value(self.bytes())->Some_0,
    {
        if self.0.len() == 0 {
            return None;
        }
        let len = self.0[0] as usize;
        if self.0.len() - 1 < len {
            return None;
        }
        let (_, rest) = self.0.split_at(1);
        let (v, _) = rest.split_at(len);
        Some(v)
    }
}

} // verus!
