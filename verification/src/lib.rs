//! The core of a loadable Bluetooth LE runtime.

pub mod address;
pub mod adv;
pub mod bond;
pub mod bytes;
pub mod central;
pub mod client;
pub mod config;
pub mod controller;
pub mod emit;
pub mod events;
pub mod gatt;
pub mod host;
pub mod l2cap;
pub mod laws;
pub mod link;
pub mod runtime;
pub mod scan;
pub mod serve;
pub mod server;
