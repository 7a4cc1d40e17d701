//! The header's operation code.
use vstd::prelude::*;

verus! {

/// The `op` byte of a message: whether it travels from client to server or back.
#[derive(Clone, Copy, Debug, PartialEq, Eq, Structural, PartialOrd, Ord, Hash)]
pub struct OpCode(pub u8);

/// The operation values, by name.
impl OpCode {
    pub const BOOTREQUEST: u8 = 1;
    pub const BOOTREPLY: u8 = 2;
}

} // verus!
