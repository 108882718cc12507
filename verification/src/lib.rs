//! Notes on the basics of Rust, kept as verified code. Each function walks
//! through one feature of the language and hands back the values it arrives
//! at; its contract states what those values are.

pub mod control_flow;
pub mod enums;
pub mod functions;
pub mod ownership;
pub mod structs;
pub mod variables;
