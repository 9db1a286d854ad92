use peer_set::peer_sets_info;
use peer_set::PeerSet;
use peer_set::PeerSetProtocolNames;
use peer_set::PerPeerSet;
use peer_set::IsAuthority;
use peer_set::UnknownPeerPolicy;
use peer_set::{MAIN_PROTOCOL_VERSION, MAX_NOTIFICATION_SIZE, MIN_GOSSIP_PEERS};

const GENESIS_HASH: [u8; 32] = [
    122, 200, 116, 29, 232, 183, 20, 109, 138, 86, 23, 253, 70, 41, 20, 85, 127, 230, 60,
    38, 90, 127, 28, 16, 231, 218, 227, 40, 88, 238, 187, 128,
];

#[test]
fn protocol_names_are_correctly_generated() {
    let genesis_hash = GENESIS_HASH;
    let name = PeerSetProtocolNames::generate_name(&genesis_hash, None, PeerSet::Validation, 3);
    let expected =
        "/7ac8741de8b7146d8a5617fd462914557fe63c265a7f1c10e7dae32858eebb80/validation/3";
    assert_eq!(name, expected);

    let name = PeerSetProtocolNames::generate_name(&genesis_hash, None, PeerSet::Collation, 5);
    let expected =
        "/7ac8741de8b7146d8a5617fd462914557fe63c265a7f1c10e7dae32858eebb80/collation/5";
    assert_eq!(name, expected);

    let fork_id = Some("test-fork");
    let name =
        PeerSetProtocolNames::generate_name(&genesis_hash, fork_id, PeerSet::Validation, 7);
    let expected =
        "/7ac8741de8b7146d8a5617fd462914557fe63c265a7f1c10e7dae32858eebb80/test-fork/validation/7";
    assert_eq!(name, expected);

    let name =
        PeerSetProtocolNames::generate_name(&genesis_hash, fork_id, PeerSet::Collation, 11);
    let expected =
        "/7ac8741de8b7146d8a5617fd462914557fe63c265a7f1c10e7dae32858eebb80/test-fork/collation/11";
    assert_eq!(name, expected);
}

#[test]
fn all_protocol_names_are_known() {
    let genesis_hash = GENESIS_HASH;
    let protocol_names = PeerSetProtocolNames::new(genesis_hash, None).unwrap();

    let validation_main =
        "/7ac8741de8b7146d8a5617fd462914557fe63c265a7f1c10e7dae32858eebb80/validation/1";
    assert_eq!(
        protocol_names.try_get_protocol(&validation_main.to_string()),
        Some((PeerSet::Validation, 1)),
    );

    let validation_legacy = "/polkadot/validation/1";
    assert_eq!(
        protocol_names.try_get_protocol(&validation_legacy.to_string()),
        Some((PeerSet::Validation, 1)),
    );

    let collation_main =
        "/7ac8741de8b7146d8a5617fd462914557fe63c265a7f1c10e7dae32858eebb80/collation/1";
    assert_eq!(
        protocol_names.try_get_protocol(&collation_main.to_string()),
        Some((PeerSet::Collation, 1)),
    );

    let collation_legacy = "/polkadot/collation/1";
    assert_eq!(
        protocol_names.try_get_protocol(&collation_legacy.to_string()),
        Some((PeerSet::Collation, 1)),
    );
}

#[test]
fn name_derivation_is_deterministic() {
    let once =
        PeerSetProtocolNames::generate_name(&GENESIS_HASH, Some("fork"), PeerSet::Validation, 2);
    let again =
        PeerSetProtocolNames::generate_name(&GENESIS_HASH, Some("fork"), PeerSet::Validation, 2);
    assert_eq!(once, again);

    let first = PeerSetProtocolNames::new(GENESIS_HASH, Some("fork")).unwrap();
    let second = PeerSetProtocolNames::new(GENESIS_HASH, Some("fork")).unwrap();
    assert_eq!(
        first.get_main_name(PeerSet::Collation),
        second.get_main_name(PeerSet::Collation),
    );
}

#[test]
fn varying_one_input_changes_the_name() {
    let base =
        PeerSetProtocolNames::generate_name(&GENESIS_HASH, Some("fork"), PeerSet::Validation, 1);

    let mut other_genesis = GENESIS_HASH;
    other_genesis[0] = 123;
    let changed = PeerSetProtocolNames::generate_name(
        &other_genesis,
        Some("fork"),
        PeerSet::Validation,
        1,
    );
    assert_ne!(base, changed);

    let changed =
        PeerSetProtocolNames::generate_name(&GENESIS_HASH, None, PeerSet::Validation, 1);
    assert_ne!(base, changed);
    let changed =
        PeerSetProtocolNames::generate_name(&GENESIS_HASH, Some("kraf"), PeerSet::Validation, 1);
    assert_ne!(base, changed);

    let changed =
        PeerSetProtocolNames::generate_name(&GENESIS_HASH, Some("fork"), PeerSet::Collation, 1);
    assert_ne!(base, changed);

    let changed =
        PeerSetProtocolNames::generate_name(&GENESIS_HASH, Some("fork"), PeerSet::Validation, 2);
    assert_ne!(base, changed);

    // The legacy names take neither the genesis hash nor the fork id, so they
    // cannot vary with them.
    assert_eq!(
        PeerSetProtocolNames::get_fallback_names(PeerSet::Validation),
        vec!["/polkadot/validation/1".to_string()],
    );
    assert_eq!(
        PeerSetProtocolNames::get_fallback_names(PeerSet::Collation),
        vec!["/polkadot/collation/1".to_string()],
    );
}

#[test]
fn registry_has_four_distinct_entries() {
    let names = PeerSetProtocolNames::new(GENESIS_HASH, None).unwrap();
    assert_eq!(names.entries.len(), 4);
    for i in 0..names.entries.len() {
        for j in 0..names.entries.len() {
            if i != j {
                assert_ne!(names.entries[i].name, names.entries[j].name);
            }
        }
    }
}

#[test]
fn lookup_round_trip_with_fork_id() {
    let names = PeerSetProtocolNames::new(GENESIS_HASH, Some("test-fork")).unwrap();
    for peer_set in [PeerSet::Validation, PeerSet::Collation] {
        let main = names.get_main_name(peer_set);
        assert_eq!(
            names.try_get_protocol(&main),
            Some((peer_set, MAIN_PROTOCOL_VERSION)),
        );
        let legacy = PeerSetProtocolNames::get_legacy_name(peer_set);
        assert_eq!(names.try_get_protocol(&legacy), Some((peer_set, 1)));
    }
}

#[test]
fn unknown_names_are_not_recognized() {
    let names = PeerSetProtocolNames::new(GENESIS_HASH, None).unwrap();
    assert_eq!(names.try_get_protocol(&"/some/other/protocol".to_string()), None);
    assert_eq!(names.try_get_protocol(&String::new()), None);

    // The main name of a different chain is a foreign capability here.
    let mut other_genesis = GENESIS_HASH;
    other_genesis[31] = 0;
    let foreign =
        PeerSetProtocolNames::generate_name(&other_genesis, None, PeerSet::Validation, 1);
    assert_eq!(names.try_get_protocol(&foreign), None);

    // A known channel at an unregistered version is unknown as well.
    let future = PeerSetProtocolNames::generate_name(&GENESIS_HASH, None, PeerSet::Validation, 9);
    assert_eq!(names.try_get_protocol(&future), None);
}

#[test]
fn collation_policy_depends_on_role() {
    let names = PeerSetProtocolNames::new(GENESIS_HASH, None).unwrap();

    let config = PeerSet::Collation.get_info(IsAuthority::No, &names);
    assert_eq!(config.inbound_slots, 0);
    assert_eq!(config.outbound_slots, 0);
    assert_eq!(config.unknown_peer_policy, UnknownPeerPolicy::Deny);

    let config = PeerSet::Collation.get_info(IsAuthority::Yes, &names);
    assert_eq!(config.inbound_slots, 100);
    assert_eq!(config.outbound_slots, 0);
    assert_eq!(config.unknown_peer_policy, UnknownPeerPolicy::Accept);
}

#[test]
fn validation_policy_ignores_role() {
    let names = PeerSetProtocolNames::new(GENESIS_HASH, None).unwrap();
    let expected_slots = MIN_GOSSIP_PEERS as u32 / 2 - 1;
    assert_eq!(expected_slots, 11);
    for role in [IsAuthority::Yes, IsAuthority::No] {
        let config = PeerSet::Validation.get_info(role, &names);
        assert_eq!(config.inbound_slots, expected_slots);
        assert_eq!(config.outbound_slots, expected_slots);
        assert_eq!(config.unknown_peer_policy, UnknownPeerPolicy::Accept);
    }
}

#[test]
fn policy_carries_names_and_size() {
    let names = PeerSetProtocolNames::new(GENESIS_HASH, Some("test-fork")).unwrap();
    for peer_set in [PeerSet::Validation, PeerSet::Collation] {
        let config = peer_set.get_info(IsAuthority::Yes, &names);
        assert_eq!(config.wire_name, names.get_main_name(peer_set));
        assert_eq!(
            config.fallback_names,
            PeerSetProtocolNames::get_fallback_names(peer_set),
        );
        assert_eq!(config.max_notification_size, MAX_NOTIFICATION_SIZE);
        assert_eq!(config.max_notification_size, 100 * 1024);
        assert_eq!(
            config.max_notification_size,
            peer_set.get_max_notification_size(IsAuthority::Yes),
        );
        assert!(config.reserved_peers.is_empty());
        // The registry recognizes the very name the policy announces.
        assert_eq!(
            names.try_get_protocol(&config.wire_name),
            Some((peer_set, MAIN_PROTOCOL_VERSION)),
        );
    }
}

#[test]
fn peer_sets_info_covers_all_channels() {
    let names = PeerSetProtocolNames::new(GENESIS_HASH, None).unwrap();
    let configs = peer_sets_info(IsAuthority::No, &names);
    assert_eq!(configs.len(), 2);
    assert_eq!(configs[0].wire_name, names.get_main_name(PeerSet::Validation));
    assert_eq!(configs[1].wire_name, names.get_main_name(PeerSet::Collation));
}

#[test]
fn labels_cover_known_versions_only() {
    assert_eq!(PeerSet::Validation.get_label(), "validation");
    assert_eq!(PeerSet::Collation.get_label(), "collation");
    assert_eq!(PeerSet::Validation.get_protocol_label(1), Some("validation/1"));
    assert_eq!(PeerSet::Collation.get_protocol_label(1), Some("collation/1"));
    assert_eq!(PeerSet::Validation.get_protocol_label(0), None);
    assert_eq!(PeerSet::Validation.get_protocol_label(2), None);
    assert_eq!(PeerSet::Collation.get_protocol_label(7), None);
}

#[test]
fn versions_render_in_decimal() {
    let name = PeerSetProtocolNames::generate_name(&GENESIS_HASH, None, PeerSet::Validation, 0);
    assert_eq!(
        name,
        "/7ac8741de8b7146d8a5617fd462914557fe63c265a7f1c10e7dae32858eebb80/validation/0",
    );
    let name =
        PeerSetProtocolNames::generate_name(&GENESIS_HASH, None, PeerSet::Collation, u32::MAX);
    assert_eq!(
        name,
        "/7ac8741de8b7146d8a5617fd462914557fe63c265a7f1c10e7dae32858eebb80/collation/4294967295",
    );
}

#[test]
fn main_version_matches_constant() {
    assert_eq!(PeerSet::Validation.get_main_version(), MAIN_PROTOCOL_VERSION);
    assert_eq!(PeerSet::Collation.get_main_version(), 1);
}

#[test]
fn per_peer_set_reads_and_writes_by_channel() {
    let mut storage: PerPeerSet<u32> = PerPeerSet::new(3, 4);
    assert_eq!(*storage.index(PeerSet::Validation), 3);
    assert_eq!(*storage.index(PeerSet::Collation), 4);

    storage.set(PeerSet::Validation, 7);
    assert_eq!(*storage.index(PeerSet::Validation), 7);
    assert_eq!(*storage.index(PeerSet::Collation), 4);

    let empty: PerPeerSet<Vec<u8>> = PerPeerSet::default();
    assert!(empty.validation.is_empty());
    assert!(empty.collation.is_empty());
}
