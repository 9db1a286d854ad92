//! Chain-scoped wire-protocol names and per-channel peer-admission policy.
//!
//! A node derives one wire name per logical channel from its chain's genesis
//! hash and optional fork id, keeps a reverse lookup from names back to
//! channels, and computes the connection-admission policy the transport layer
//! applies to each channel.

use vstd::prelude::*;

pub mod encoding;
pub mod peer_set;
pub mod protocol_names;

pub use crate::peer_set::{
    peer_sets_info, AdmissionPolicy, IsAuthority, PeerSet, PerPeerSet, UnknownPeerPolicy,
};
pub use crate::protocol_names::{NameCollision, PeerSetProtocolNames};

verus! {

/// Version of a wire protocol; a small counter that is bumped independently
/// per channel.
pub type ProtocolVersion = u32;

/// Size of the well-connected gossip core that the validation channel must
/// keep reachable.
pub const MIN_GOSSIP_PEERS: usize = 25;

/// The main protocol version, currently the same for validation & collation.
pub const MAIN_PROTOCOL_VERSION: ProtocolVersion = 1;

/// The protocol version used by the legacy on-the-wire names; always 1.
pub const LEGACY_PROTOCOL_VERSION: ProtocolVersion = 1;

/// Max notification size, currently the same for every channel and role.
pub const MAX_NOTIFICATION_SIZE: u64 = 100 * 1024;

} // verus!
