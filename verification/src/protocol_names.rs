//! The wire-name registry: derivation of chain-scoped protocol names and the
//! reverse lookup from a name back to its channel and version.

use vstd::prelude::*;
use vstd::string::StringExecFns;

use crate::encoding::{
    dec_of, dec_string, hex_encode, hex_of, lemma_append_cancel_left,
    lemma_append_cancel_right, lemma_dec_of_injective, lemma_hex_of_injective,
    lemma_hex_of_len,
};
use crate::peer_set::{label_of, PeerSet};
use crate::{ProtocolVersion, LEGACY_PROTOCOL_VERSION, MAIN_PROTOCOL_VERSION};

verus! {

/// View of an optional fork id handed in by reference.
pub open spec fn fork_view(fork_id: Option<&str>) -> Option<Seq<char>> {
    match fork_id {
        Some(f) => Some(f@),
        None => None,
    }
}

/// The main wire name of a channel at a version, scoped to a chain:
/// `/<lowercase-hex genesis hash>[/<fork id>]/<channel label>/<version>`.
pub open spec fn main_name_spec(
    genesis: Seq<u8>,
    fork: Option<Seq<char>>,
    protocol: PeerSet,
    version: nat,
) -> Seq<char> {
    seq!['/'] + hex_of(genesis) + (match fork {
        Some(f) => seq!['/'] + f,
        None => Seq::empty(),
    }) + seq!['/'] + label_of(protocol) + seq!['/'] + dec_of(version)
}

/// The historical fixed wire name of a channel, independent of the chain;
/// pinned to version 1.
pub open spec fn legacy_name_spec(protocol: PeerSet) -> Seq<char> {
    match protocol {
        PeerSet::Validation => "/polkadot/validation/1"@,
        PeerSet::Collation => "/polkadot/collation/1"@,
    }
}

proof fn lemma_main_name_len(
    genesis: Seq<u8>,
    fork: Option<Seq<char>>,
    protocol: PeerSet,
    version: nat,
)
    ensures
        main_name_spec(genesis, fork, protocol, version).len() == 3 + 2 * genesis.len() + (
        match fork {
            Some(f) => 1 + f.len(),
            None => 0nat,
        }) + label_of(protocol).len() + dec_of(version).len(),
{
    lemma_hex_of_len(genesis);
}

proof fn lemma_label_len(protocol: PeerSet)
    ensures
        label_of(protocol).len() == (match protocol {
            PeerSet::Validation => 10nat,
            PeerSet::Collation => 9nat,
        }),
{
    reveal_strlit("validation");
    reveal_strlit("collation");
}

proof fn lemma_legacy_len(protocol: PeerSet)
    ensures
        legacy_name_spec(protocol).len() == (match protocol {
            PeerSet::Validation => 22nat,
            PeerSet::Collation => 21nat,
        }),
{
    reveal_strlit("/polkadot/validation/1");
    reveal_strlit("/polkadot/collation/1");
}

/// Law: a main name pins every one of its inputs. If two main names built
/// from genesis hashes of equal length coincide, then wherever three of the
/// four inputs agree, so does the fourth — varying any single input changes
/// the name.
pub proof fn lemma_main_name_sensitive(
    genesis1: Seq<u8>,
    fork1: Option<Seq<char>>,
    protocol1: PeerSet,
    version1: nat,
    genesis2: Seq<u8>,
    fork2: Option<Seq<char>>,
    protocol2: PeerSet,
    version2: nat,
)
    requires
        genesis1.len() == genesis2.len(),
        main_name_spec(genesis1, fork1, protocol1, version1) == main_name_spec(
            genesis2,
            fork2,
            protocol2,
            version2,
        ),
    ensures
        fork1 == fork2 && protocol1 == protocol2 && version1 == version2 ==> genesis1
            == genesis2,
        genesis1 == genesis2 && protocol1 == protocol2 && version1 == version2 ==> fork1
            == fork2,
        genesis1 == genesis2 && fork1 == fork2 && version1 == version2 ==> protocol1
            == protocol2,
        genesis1 == genesis2 && fork1 == fork2 && protocol1 == protocol2 ==> version1
            == version2,
{
    let name1 = main_name_spec(genesis1, fork1, protocol1, version1);
    let name2 = main_name_spec(genesis2, fork2, protocol2, version2);
    lemma_main_name_len(genesis1, fork1, protocol1, version1);
    lemma_main_name_len(genesis2, fork2, protocol2, version2);
    lemma_hex_of_len(genesis1);
    lemma_hex_of_len(genesis2);

    if fork1 == fork2 && protocol1 == protocol2 && version1 == version2 {
        let rest = (match fork1 {
            Some(f) => seq!['/'] + f,
            None => Seq::<char>::empty(),
        }) + seq!['/'] + label_of(protocol1) + seq!['/'] + dec_of(version1);
        assert(name1 =~= (seq!['/'] + hex_of(genesis1)) + rest);
        assert(name2 =~= (seq!['/'] + hex_of(genesis2)) + rest);
        lemma_append_cancel_right(
            seq!['/'] + hex_of(genesis1),
            seq!['/'] + hex_of(genesis2),
            rest,
        );
        lemma_append_cancel_left(seq!['/'], hex_of(genesis1), hex_of(genesis2));
        lemma_hex_of_injective(genesis1, genesis2);
    }

    if genesis1 == genesis2 && protocol1 == protocol2 && version1 == version2 {
        match (fork1, fork2) {
            (Some(f1), Some(f2)) => {
                let prefix = seq!['/'] + hex_of(genesis1) + seq!['/'];
                let tail = seq!['/'] + label_of(protocol1) + seq!['/'] + dec_of(version1);
                assert(name1 =~= prefix + (f1 + tail));
                assert(name2 =~= prefix + (f2 + tail));
                lemma_append_cancel_left(prefix, f1 + tail, f2 + tail);
                lemma_append_cancel_right(f1, f2, tail);
            },
            (Some(f1), None) => {
                assert(name1.len() > name2.len());
            },
            (None, Some(f2)) => {
                assert(name2.len() > name1.len());
            },
            (None, None) => {},
        }
    }

    if genesis1 == genesis2 && fork1 == fork2 && version1 == version2 {
        if protocol1 != protocol2 {
            lemma_label_len(protocol1);
            lemma_label_len(protocol2);
            assert(name1.len() != name2.len());
        }
    }

    if genesis1 == genesis2 && fork1 == fork2 && protocol1 == protocol2 {
        let prefix = seq!['/'] + hex_of(genesis1) + (match fork1 {
            Some(f) => seq!['/'] + f,
            None => Seq::<char>::empty(),
        }) + seq!['/'] + label_of(protocol1) + seq!['/'];
        assert(name1 =~= prefix + dec_of(version1));
        assert(name2 =~= prefix + dec_of(version2));
        lemma_append_cancel_left(prefix, dec_of(version1), dec_of(version2));
        lemma_dec_of_injective(version1, version2);
    }
}

/// Law: the four wire names registered for one chain — the main and the
/// legacy name of each channel — are pairwise distinct, whatever the genesis
/// hash and fork id.
pub proof fn lemma_registry_names_distinct(genesis: Seq<u8>, fork: Option<Seq<char>>)
    requires
        genesis.len() == 32,
    ensures
        main_name_spec(genesis, fork, PeerSet::Validation, MAIN_PROTOCOL_VERSION as nat)
            != main_name_spec(genesis, fork, PeerSet::Collation, MAIN_PROTOCOL_VERSION as nat),
        main_name_spec(genesis, fork, PeerSet::Validation, MAIN_PROTOCOL_VERSION as nat)
            != legacy_name_spec(PeerSet::Validation),
        main_name_spec(genesis, fork, PeerSet::Validation, MAIN_PROTOCOL_VERSION as nat)
            != legacy_name_spec(PeerSet::Collation),
        main_name_spec(genesis, fork, PeerSet::Collation, MAIN_PROTOCOL_VERSION as nat)
            != legacy_name_spec(PeerSet::Validation),
        main_name_spec(genesis, fork, PeerSet::Collation, MAIN_PROTOCOL_VERSION as nat)
            != legacy_name_spec(PeerSet::Collation),
        legacy_name_spec(PeerSet::Validation) != legacy_name_spec(PeerSet::Collation),
{
    lemma_main_name_len(genesis, fork, PeerSet::Validation, MAIN_PROTOCOL_VERSION as nat);
    lemma_main_name_len(genesis, fork, PeerSet::Collation, MAIN_PROTOCOL_VERSION as nat);
    lemma_label_len(PeerSet::Validation);
    lemma_label_len(PeerSet::Collation);
    lemma_legacy_len(PeerSet::Validation);
    lemma_legacy_len(PeerSet::Collation);
    assert(dec_of(MAIN_PROTOCOL_VERSION as nat).len() == 1);
}

/// One registered wire name together with the channel and version it stands
/// for.
#[derive(Clone, Debug)]
pub struct ProtocolNameEntry {
    pub name: String,
    pub peer_set: PeerSet,
    pub version: ProtocolVersion,
}

/// Two distinct (channel, version) pairs produced the same wire name while
/// the registry was built; a node must not start with such ambiguous routing.
#[derive(Clone, Debug)]
pub struct NameCollision {
    /// The wire name that was generated twice.
    pub name: String,
    /// The channel already registered under the name.
    pub existing_peer_set: PeerSet,
    /// The version already registered under the name.
    pub existing_version: ProtocolVersion,
    /// The channel whose insertion collided.
    pub peer_set: PeerSet,
    /// The version whose insertion collided.
    pub version: ProtocolVersion,
}

/// First-match lookup of a wire name among registered entries.
pub open spec fn lookup_in(
    entries: Seq<ProtocolNameEntry>,
    name: Seq<char>,
) -> Option<(PeerSet, ProtocolVersion)>
    decreases entries.len(),
{
    if entries.len() == 0 {
        None
    } else if entries.first().name@ == name {
        Some((entries.first().peer_set, entries.first().version))
    } else {
        lookup_in(entries.drop_first(), name)
    }
}

/// On the wire protocol name to [`PeerSet`] mapping.
#[derive(Clone)]
pub struct PeerSetProtocolNames {
    pub genesis_hash: [u8; 32],
    pub fork_id: Option<String>,
    pub entries: Vec<ProtocolNameEntry>,
}

impl PeerSetProtocolNames {
    /// View of the stored fork id.
    pub open spec fn spec_fork(self) -> Option<Seq<char>> {
        match self.fork_id {
            Some(f) => Some(f@),
            None => None,
        }
    }

    /// No two registered entries share a wire name.
    pub open spec fn wf(self) -> bool {
        forall|i: int, j: int|
            0 <= i < j < self.entries@.len() ==> self.entries@[i].name@
                != self.entries@[j].name@
    }

    /// What a lookup of `name` returns on this registry.
    pub open spec fn spec_lookup(self, name: Seq<char>) -> Option<(PeerSet, ProtocolVersion)> {
        lookup_in(self.entries@, name)
    }

    /// Entry `i` holds exactly this name, channel and version.
    pub open spec fn entry_is(
        self,
        i: int,
        name: Seq<char>,
        peer_set: PeerSet,
        version: ProtocolVersion,
    ) -> bool {
        &&& self.entries@[i].name@ == name
        &&& self.entries@[i].peer_set == peer_set
        &&& self.entries@[i].version == version
    }

    /// The registry that construction from `genesis` and `fork` yields: the
    /// main and the legacy name of every channel, in registration order, all
    /// names pairwise distinct.
    pub open spec fn is_registry_for(self, genesis: Seq<u8>, fork: Option<Seq<char>>) -> bool {
        &&& self.genesis_hash@ == genesis
        &&& self.spec_fork() == fork
        &&& self.wf()
        &&& self.entries@.len() == 4
        &&& self.entry_is(
            0,
            main_name_spec(genesis, fork, PeerSet::Validation, MAIN_PROTOCOL_VERSION as nat),
            PeerSet::Validation,
            MAIN_PROTOCOL_VERSION,
        )
        &&& self.entry_is(
            1,
            legacy_name_spec(PeerSet::Validation),
            PeerSet::Validation,
            LEGACY_PROTOCOL_VERSION,
        )
        &&& self.entry_is(
            2,
            main_name_spec(genesis, fork, PeerSet::Collation, MAIN_PROTOCOL_VERSION as nat),
            PeerSet::Collation,
            MAIN_PROTOCOL_VERSION,
        )
        &&& self.entry_is(
            3,
            legacy_name_spec(PeerSet::Collation),
            PeerSet::Collation,
            LEGACY_PROTOCOL_VERSION,
        )
    }

    /// Construct the registry from `genesis_hash` and `fork_id`.
    ///
    /// Every channel gets its main name at the main version and its legacy
    /// name at version 1. A wire-name collision would be reported as an error
    /// so that the host can refuse to start; with the present channels and
    /// constants no collision can occur, so construction always succeeds.
    pub fn new(genesis_hash: [u8; 32], fork_id: Option<&str>) -> (r: Result<
        PeerSetProtocolNames,
        NameCollision,
    >)
        ensures
            r is Ok,
            r matches Ok(names) ==> names.is_registry_for(genesis_hash@, fork_view(fork_id)),
    {
        let mut entries: Vec<ProtocolNameEntry> = Vec::new();

        let name = Self::generate_name(&genesis_hash, fork_id, PeerSet::Validation,
            MAIN_PROTOCOL_VERSION);
        match Self::insert_protocol(&mut entries, name, PeerSet::Validation,
            MAIN_PROTOCOL_VERSION) {
            Ok(()) => {},
            Err(e) => {
                proof {
                    assert(false);
                }
                return Err(e);
            },
        }

        let name = Self::get_legacy_name(PeerSet::Validation);
        match Self::insert_protocol(&mut entries, name, PeerSet::Validation,
            LEGACY_PROTOCOL_VERSION) {
            Ok(()) => {},
            Err(e) => {
                proof {
                    lemma_registry_names_distinct(genesis_hash@, fork_view(fork_id));
                    assert(false);
                }
                return Err(e);
            },
        }

        let name = Self::generate_name(&genesis_hash, fork_id, PeerSet::Collation,
            MAIN_PROTOCOL_VERSION);
        match Self::insert_protocol(&mut entries, name, PeerSet::Collation,
            MAIN_PROTOCOL_VERSION) {
            Ok(()) => {},
            Err(e) => {
                proof {
                    lemma_registry_names_distinct(genesis_hash@, fork_view(fork_id));
                    assert(false);
                }
                return Err(e);
            },
        }

        let name = Self::get_legacy_name(PeerSet::Collation);
        match Self::insert_protocol(&mut entries, name, PeerSet::Collation,
            LEGACY_PROTOCOL_VERSION) {
            Ok(()) => {},
            Err(e) => {
                proof {
                    lemma_registry_names_distinct(genesis_hash@, fork_view(fork_id));
                    assert(false);
                }
                return Err(e);
            },
        }

        let fork_id_owned: Option<String> = match fork_id {
            Some(f) => Some(f.to_owned()),
            None => None,
        };
        let names = PeerSetProtocolNames { genesis_hash, fork_id: fork_id_owned, entries };
        proof {
            lemma_registry_names_distinct(genesis_hash@, fork_view(fork_id));
            assert(names.wf());
            assert(names.is_registry_for(genesis_hash@, fork_view(fork_id)));
        }
        Ok(names)
    }

    /// Helper function to make sure no protocols have the same name: the new
    /// entry is appended only if its name is still free, otherwise the
    /// collision is reported and nothing changes.
    fn insert_protocol(
        entries: &mut Vec<ProtocolNameEntry>,
        name: String,
        peer_set: PeerSet,
        version: ProtocolVersion,
    ) -> (r: Result<(), NameCollision>)
        ensures
            r matches Ok(()) ==> {
                &&& final(entries)@ == old(entries)@.push(
                    (ProtocolNameEntry { name, peer_set, version }),
                )
                &&& forall|k: int|
                    0 <= k < old(entries)@.len() ==> old(entries)@[k].name@ != name@
            },
            r matches Err(e) ==> {
                &&& final(entries)@ == old(entries)@
                &&& exists|k: int|
                    0 <= k < old(entries)@.len() && old(entries)@[k].name@ == name@
                        && old(entries)@[k].peer_set == e.existing_peer_set
                        && old(entries)@[k].version == e.existing_version
                &&& e.name@ == name@
                &&& e.peer_set == peer_set
                &&& e.version == version
            },
    {
        let mut i: usize = 0;
        while i < entries.len()
            invariant
                i <= entries@.len(),
                entries@ == old(entries)@,
                forall|k: int| 0 <= k < i ==> entries@[k].name@ != name@,
            decreases entries@.len() - i,
        {
            if entries[i].name == name {
                return Err(NameCollision {
                    name,
                    existing_peer_set: entries[i].peer_set,
                    existing_version: entries[i].version,
                    peer_set,
                    version,
                });
            }
            i += 1;
        }
        entries.push(ProtocolNameEntry { name, peer_set, version });
        Ok(())
    }

    /// Lookup the protocol using its on the wire name.
    pub fn try_get_protocol(&self, name: &String) -> (r: Option<(PeerSet, ProtocolVersion)>)
        ensures
            r == self.spec_lookup(name@),
    {
        let mut i: usize = 0;
        proof {
            assert(self.entries@.skip(0) =~= self.entries@);
        }
        while i < self.entries.len()
            invariant
                i <= self.entries@.len(),
                lookup_in(self.entries@.skip(i as int), name@) == lookup_in(
                    self.entries@,
                    name@,
                ),
            decreases self.entries@.len() - i,
        {
            if self.entries[i].name == *name {
                proof {
                    assert(self.entries@.skip(i as int).first() == self.entries@[i as int]);
                }
                return Some((self.entries[i].peer_set, self.entries[i].version));
            }
            proof {
                assert(self.entries@.skip(i as int).drop_first() =~= self.entries@.skip(
                    i as int + 1,
                ));
            }
            i += 1;
        }
        proof {
            assert(self.entries@.skip(i as int) =~= Seq::empty());
        }
        None
    }

    /// Get the main protocol name. It's used by the networking for keeping
    /// track of peersets and connections.
    pub fn get_main_name(&self, protocol: PeerSet) -> (name: String)
        ensures
            name@ == main_name_spec(
                self.genesis_hash@,
                self.spec_fork(),
                protocol,
                MAIN_PROTOCOL_VERSION as nat,
            ),
    {
        self.get_name(protocol, MAIN_PROTOCOL_VERSION)
    }

    /// Get the protocol name for a specific version.
    pub fn get_name(&self, protocol: PeerSet, version: ProtocolVersion) -> (name: String)
        ensures
            name@ == main_name_spec(self.genesis_hash@, self.spec_fork(), protocol,
                version as nat),
    {
        let fork: Option<&str> = match &self.fork_id {
            Some(f) => Some(f.as_str()),
            None => None,
        };
        Self::generate_name(&self.genesis_hash, fork, protocol, version)
    }

    /// The wire name of this protocol based on `genesis_hash` and `fork_id`.
    pub fn generate_name(
        genesis_hash: &[u8; 32],
        fork_id: Option<&str>,
        protocol: PeerSet,
        version: ProtocolVersion,
    ) -> (name: String)
        ensures
            name@ == main_name_spec(genesis_hash@, fork_view(fork_id), protocol,
                version as nat),
    {
        let mut name = "/".to_owned();
        let hex_text = hex_encode(genesis_hash);
        name.append(hex_text.as_str());
        if let Some(fork) = fork_id {
            name.append("/");
            name.append(fork);
        }
        name.append("/");
        name.append(protocol.get_label());
        name.append("/");
        let version_text = dec_string(version);
        name.append(version_text.as_str());
        proof {
            reveal_strlit("/");
            assert(name@ =~= main_name_spec(
                genesis_hash@,
                fork_view(fork_id),
                protocol,
                version as nat,
            ));
        }
        name
    }

    /// Get the legacy protocol name; only version 1 is supported there.
    pub fn get_legacy_name(protocol: PeerSet) -> (name: String)
        ensures
            name@ == legacy_name_spec(protocol),
    {
        match protocol {
            PeerSet::Validation => "/polkadot/validation/1",
            PeerSet::Collation => "/polkadot/collation/1",
        }.to_owned()
    }

    /// Get the protocol fallback names. Currently only holds the legacy name
    /// for version 1.
    pub fn get_fallback_names(protocol: PeerSet) -> (names: Vec<String>)
        ensures
            names@.len() == 1,
            names@[0]@ == legacy_name_spec(protocol),
    {
        let mut names: Vec<String> = Vec::new();
        names.push(Self::get_legacy_name(protocol));
        names
    }
}

/// Law: on a freshly built registry, looking up a channel's own main name
/// yields that channel at the main version, and looking up its legacy name
/// yields that channel at version 1.
pub proof fn lemma_lookup_round_trip(
    names: PeerSetProtocolNames,
    genesis: Seq<u8>,
    fork: Option<Seq<char>>,
    protocol: PeerSet,
)
    requires
        names.is_registry_for(genesis, fork),
    ensures
        names.spec_lookup(main_name_spec(genesis, fork, protocol, MAIN_PROTOCOL_VERSION as nat))
            == Some((protocol, MAIN_PROTOCOL_VERSION)),
        names.spec_lookup(legacy_name_spec(protocol)) == Some((
            protocol,
            LEGACY_PROTOCOL_VERSION,
        )),
{
    let e = names.entries@;
    let s1 = e.drop_first();
    let s2 = s1.drop_first();
    let s3 = s2.drop_first();
    assert(s1.first() == e[1]);
    assert(s2.first() == e[2]);
    assert(s3.first() == e[3]);

    let main = main_name_spec(genesis, fork, protocol, MAIN_PROTOCOL_VERSION as nat);
    let legacy = legacy_name_spec(protocol);
    match protocol {
        PeerSet::Validation => {
            assert(lookup_in(e, main) == Some((e[0].peer_set, e[0].version)));
            assert(e[0].name@ != legacy);
            assert(lookup_in(e, legacy) == lookup_in(s1, legacy));
            assert(lookup_in(s1, legacy) == Some((e[1].peer_set, e[1].version)));
        },
        PeerSet::Collation => {
            assert(e[0].name@ != main && e[1].name@ != main);
            assert(lookup_in(e, main) == lookup_in(s1, main));
            assert(lookup_in(s1, main) == lookup_in(s2, main));
            assert(lookup_in(s2, main) == Some((e[2].peer_set, e[2].version)));
            assert(e[0].name@ != legacy && e[1].name@ != legacy && e[2].name@ != legacy);
            assert(lookup_in(e, legacy) == lookup_in(s1, legacy));
            assert(lookup_in(s1, legacy) == lookup_in(s2, legacy));
            assert(lookup_in(s2, legacy) == lookup_in(s3, legacy));
            assert(lookup_in(s3, legacy) == Some((e[3].peer_set, e[3].version)));
        },
    }
}

} // verus!
