//! DHCPv4 wire-format codec: zero-copy views over received datagrams, an
//! append-only builder for replies, and a stateless responder.
pub mod dhcpv4;
pub use dhcpv4::{DHCPv4, DHCPv4Buf};
pub mod layout;
pub mod op_code;
pub use op_code::OpCode;
pub mod message;
pub use message::Message;
pub mod option;
pub use option::Option;
pub mod options;
pub mod responder;
