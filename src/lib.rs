//! Crafting of raw Ethernet/IPv4/TCP frames and the decisions of a paced,
//! count-bounded injection pipeline that writes them to a device.

pub mod error;
pub mod packet_builder;
pub mod sender;
pub mod settings;
