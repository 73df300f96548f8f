//! Control flow of a Bluetooth Low Energy scan, as a verified state machine,
//! and a small protobuf record used as a codec example.

pub mod items;
pub mod laws;
pub mod scan;
pub mod uuid_text;
pub mod wire;

pub use items::create_large_shirt;
