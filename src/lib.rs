//! Wire encoding, format detection and oracle commitment building for
//! Discreet Log Contract messages.

pub mod kind;
pub mod frame;
pub mod dlc;
pub mod codec;
pub mod cascade;
pub mod digits;
pub mod crypto;
pub mod convert;
pub mod oracle;
pub mod json;
pub mod hexstr;
