use vstd::prelude::*;

pub mod bytes;
pub mod error;
pub mod pairing;
pub mod tombstones;
pub mod offer_registry;
pub mod pairing_laws;
pub mod route;
pub mod accept_registry;
pub mod pairing_flow;
pub mod pair_framing;
pub mod wire;
pub mod remote_tunnel;
pub mod remote_session;
pub mod remote_attachment;
pub mod service;
pub mod crypto;
pub mod system_time;
pub mod control_packet;
pub mod attachment_epoch;
pub mod attachment_laws;
pub mod pairing_manager;

verus! {
} // verus!
