//! Protocol core for a 4-channel analog I/O module driven over a serial
//! link: the fixed-layout request/response frame codec and the decision
//! logic of a single write-then-read transaction.

pub mod codec;
pub mod transaction;
