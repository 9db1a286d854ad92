//! The peer sets (logical channels) of the network, their metric labels, and
//! the per-channel storage container.

use vstd::prelude::*;

use crate::protocol_names::{legacy_name_spec, main_name_spec, PeerSetProtocolNames};
use crate::{ProtocolVersion, MAIN_PROTOCOL_VERSION, MAX_NOTIFICATION_SIZE, MIN_GOSSIP_PEERS};

verus! {

/// The peer-sets and thus the protocols which are used for the network.
#[derive(Debug, Clone, Copy, PartialEq, Eq, Hash, Structural)]
pub enum PeerSet {
    /// The validation peer-set is responsible for all messages related to
    /// candidate validation and communication among validators.
    Validation,
    /// The collation peer-set is used for validator<>collator communication.
    Collation,
}

/// Whether a node is an authority or not.
///
/// Peer set configuration gets adjusted accordingly.
#[derive(Copy, Clone, Debug, Eq, PartialEq, Structural)]
pub enum IsAuthority {
    /// Node is authority.
    Yes,
    /// Node is not an authority.
    No,
}

/// The path segment that names a channel inside a wire name; also its label
/// for metrics reporting.
pub open spec fn label_of(peer_set: PeerSet) -> Seq<char> {
    match peer_set {
        PeerSet::Validation => "validation"@,
        PeerSet::Collation => "collation"@,
    }
}

/// What a channel does with a connection attempt from a peer that is neither
/// reserved nor already admitted.
#[derive(Copy, Clone, Debug, PartialEq, Eq, Structural)]
pub enum UnknownPeerPolicy {
    /// Admit the peer if a slot is free.
    Accept,
    /// Refuse the peer.
    Deny,
}

/// The connection-admission policy of one channel, handed to the transport
/// layer to register the channel as a distinct logical sub-protocol.
#[derive(Clone, Debug)]
pub struct AdmissionPolicy {
    /// The main wire name the channel is announced under.
    pub wire_name: String,
    /// Older names still answered for, most preferred first.
    pub fallback_names: Vec<String>,
    /// Upper bound, in bytes, on one notification.
    pub max_notification_size: u64,
    /// Slots for connections initiated by remote peers.
    pub inbound_slots: u32,
    /// Slots for connections this node initiates.
    pub outbound_slots: u32,
    /// Peers admitted regardless of slots; populated elsewhere, empty here.
    pub reserved_peers: Vec<String>,
    /// What to do with peers that are not reserved.
    pub unknown_peer_policy: UnknownPeerPolicy,
}

/// The policy that `get_info` owes for a channel and role, given the registry
/// the names are read from.
pub open spec fn admission_policy_is(
    policy: AdmissionPolicy,
    peer_set: PeerSet,
    is_authority: IsAuthority,
    names: PeerSetProtocolNames,
) -> bool {
    &&& policy.wire_name@ == main_name_spec(
        names.genesis_hash@,
        names.spec_fork(),
        peer_set,
        MAIN_PROTOCOL_VERSION as nat,
    )
    &&& policy.fallback_names@.len() == 1
    &&& policy.fallback_names@[0]@ == legacy_name_spec(peer_set)
    &&& policy.max_notification_size == MAX_NOTIFICATION_SIZE
    &&& policy.reserved_peers@.len() == 0
    &&& match peer_set {
        PeerSet::Validation => {
            &&& policy.inbound_slots == MIN_GOSSIP_PEERS / 2 - 1
            &&& policy.outbound_slots == MIN_GOSSIP_PEERS / 2 - 1
            &&& policy.unknown_peer_policy == UnknownPeerPolicy::Accept
        },
        PeerSet::Collation => {
            &&& policy.inbound_slots == (if is_authority == IsAuthority::Yes {
                100int
            } else {
                0int
            })
            &&& policy.outbound_slots == 0
            &&& policy.unknown_peer_policy == (if is_authority == IsAuthority::Yes {
                UnknownPeerPolicy::Accept
            } else {
                UnknownPeerPolicy::Deny
            })
        },
    }
}

impl PeerSet {
    /// Get the admission policy for this peer set on the main version.
    ///
    /// The policies should be used in the network configuration to register
    /// the protocols with the network service.
    pub fn get_info(
        self,
        is_authority: IsAuthority,
        peerset_protocol_names: &PeerSetProtocolNames,
    ) -> (config: AdmissionPolicy)
        ensures
            admission_policy_is(config, self, is_authority, *peerset_protocol_names),
    {
        // Networking layer relies on `get_main_name()` being the main name of
        // the protocol for peersets and connection management.
        let protocol = peerset_protocol_names.get_main_name(self);
        let fallback_names = PeerSetProtocolNames::get_fallback_names(self);
        let max_notification_size = self.get_max_notification_size(is_authority);

        match self {
            PeerSet::Validation => AdmissionPolicy {
                wire_name: protocol,
                fallback_names,
                max_notification_size,
                // Full nodes may connect to validators for gossip; keeping the
                // non-reserved slots under half of `MIN_GOSSIP_PEERS` leaves
                // room so that the gossip core always includes reserved peers.
                inbound_slots: (MIN_GOSSIP_PEERS as u32) / 2 - 1,
                outbound_slots: (MIN_GOSSIP_PEERS as u32) / 2 - 1,
                reserved_peers: Vec::new(),
                unknown_peer_policy: UnknownPeerPolicy::Accept,
            },
            PeerSet::Collation => AdmissionPolicy {
                wire_name: protocol,
                fallback_names,
                max_notification_size,
                // Non-authority nodes don't need to accept incoming
                // connections on this peer set:
                inbound_slots: if is_authority == IsAuthority::Yes {
                    100
                } else {
                    0
                },
                outbound_slots: 0,
                reserved_peers: Vec::new(),
                unknown_peer_policy: if is_authority == IsAuthority::Yes {
                    UnknownPeerPolicy::Accept
                } else {
                    UnknownPeerPolicy::Deny
                },
            },
        }
    }

    /// Get the main protocol version for this peer set.
    ///
    /// Networking layer relies on `get_main_version()` being the version
    /// of the main protocol name reported by `get_main_name()`.
    pub fn get_main_version(self) -> (v: ProtocolVersion)
        ensures
            v == MAIN_PROTOCOL_VERSION,
    {
        MAIN_PROTOCOL_VERSION
    }

    /// Get the max notification size for this peer set.
    ///
    /// The role parameter is deliberately unused: the size is currently the
    /// same whether or not the node is an authority.
    pub fn get_max_notification_size(self, _is_authority: IsAuthority) -> (size: u64)
        ensures
            size == MAX_NOTIFICATION_SIZE,
    {
        MAX_NOTIFICATION_SIZE
    }

    /// Get the peer set label for metrics reporting.
    pub fn get_label(self) -> (label: &'static str)
        ensures
            label@ == label_of(self),
    {
        match self {
            PeerSet::Validation => "validation",
            PeerSet::Collation => "collation",
        }
    }

    /// Get the protocol label for metrics reporting.
    ///
    /// Labels must be static strings, so every supported protocol version is
    /// covered by hand here; unknown combinations get no label.
    pub fn get_protocol_label(self, version: ProtocolVersion) -> (label: Option<&'static str>)
        ensures
            self == PeerSet::Validation && version == 1 ==> (label matches Some(l)
                && l@ == "validation/1"@),
            self == PeerSet::Collation && version == 1 ==> (label matches Some(l)
                && l@ == "collation/1"@),
            version != 1 ==> label is None,
    {
        match (self, version) {
            (PeerSet::Validation, 1) => Some("validation/1"),
            (PeerSet::Collation, 1) => Some("collation/1"),
            _ => None,
        }
    }
}

/// Get the admission policies for all available peer sets, at their main
/// versions, in channel order.
///
/// Should be used during network configuration, or shortly after startup, to
/// register the protocols with the network service.
pub fn peer_sets_info(
    is_authority: IsAuthority,
    peerset_protocol_names: &PeerSetProtocolNames,
) -> (configs: Vec<AdmissionPolicy>)
    ensures
        configs@.len() == 2,
        admission_policy_is(configs@[0], PeerSet::Validation, is_authority,
            *peerset_protocol_names),
        admission_policy_is(configs@[1], PeerSet::Collation, is_authority,
            *peerset_protocol_names),
{
    let mut configs: Vec<AdmissionPolicy> = Vec::new();
    configs.push(PeerSet::Validation.get_info(is_authority, peerset_protocol_names));
    configs.push(PeerSet::Collation.get_info(is_authority, peerset_protocol_names));
    configs
}

/// A small and nifty collection that allows to store data pertaining to each
/// peer set.
#[derive(Debug, Default)]
pub struct PerPeerSet<T> {
    pub validation: T,
    pub collation: T,
}

impl<T> PerPeerSet<T> {
    /// The value stored for one channel.
    pub open spec fn spec_get(self, index: PeerSet) -> T {
        match index {
            PeerSet::Validation => self.validation,
            PeerSet::Collation => self.collation,
        }
    }

    pub fn new(validation: T, collation: T) -> (r: Self)
        ensures
            r.validation == validation,
            r.collation == collation,
    {
        PerPeerSet { validation, collation }
    }

    /// Read the slot of one channel.
    pub fn index(&self, index: PeerSet) -> (r: &T)
        ensures
            *r == self.spec_get(index),
    {
        match index {
            PeerSet::Validation => &self.validation,
            PeerSet::Collation => &self.collation,
        }
    }

    /// Overwrite the slot of one channel, leaving the other untouched.
    pub fn set(&mut self, index: PeerSet, value: T)
        ensures
            final(self).spec_get(index) == value,
            forall|other: PeerSet| other != index ==> final(self).spec_get(other)
                == old(self).spec_get(other),
    {
        match index {
            PeerSet::Validation => self.validation = value,
            PeerSet::Collation => self.collation = value,
        }
    }
}

} // verus!
