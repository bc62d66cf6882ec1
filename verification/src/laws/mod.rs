//! What the library is for, as relations between the inputs and the results of
//! its functions.
//!
//! Each law speaks of calls: `call_ensures(f, arguments, result)` says that `f`
//! was called with these arguments and gave this result. Numbers that the
//! application, the peer or the controller sees are written out.

pub mod adv;
pub mod bond;
pub mod bytes;
pub mod client;
pub mod config;
pub mod events;
pub mod gatt;
pub mod link;
pub mod scan;
pub mod server;
pub mod session;
pub mod views;
