//! Behavioural tests for key derivation, the Key Refresh phase machine, and
//! the collision-aware repositories.

use mesh_security::keys::{
    AppKey, AppKeyIndex, DevKey, IVIndex, IVUpdateFlag, KeyRefreshPhases, NetKey, NetKeyIndex,
    AID, NID,
};
use mesh_security::maps::{AppKeyMap, NetKeyMap, SecurityMaterials};
use mesh_security::materials::{
    ApplicationSecurityMaterials, KeyPair, KeyPhase, NetworkKeys, NetworkSecurityMaterials,
};

/// Key bytes whose xor-mash is 0x05, so the derived NID is 0x05.
fn net_key_a() -> NetKey {
    NetKey::new([0x05, 0, 0, 0, 0, 0, 0, 0, 0, 0, 0, 0, 0, 0, 0, 0])
}

/// A different key with the same xor-mash 0x05: same derived NID as A.
fn net_key_b() -> NetKey {
    NetKey::new([0x04, 0x01, 0, 0, 0, 0, 0, 0, 0, 0, 0, 0, 0, 0, 0, 0])
}

/// A third distinct key whose derived NID is also 0x05.
fn net_key_c() -> NetKey {
    NetKey::new([0x01, 0x04, 0, 0, 0, 0, 0, 0, 0, 0, 0, 0, 0, 0, 0, 0])
}

/// A key whose derived NID is 0x07, not 0x05.
fn net_key_d() -> NetKey {
    NetKey::new([0x07, 0, 0, 0, 0, 0, 0, 0, 0, 0, 0, 0, 0, 0, 0, 0])
}

#[test]
fn derivation_deterministic() {
    let first = NetworkSecurityMaterials::derive(&net_key_a());
    let second = NetworkSecurityMaterials::derive(&net_key_a());
    assert_eq!(first, second);
    assert_eq!(first.network_keys, second.network_keys);
    assert_eq!(first.network_id, second.network_id);
    assert_eq!(first.identity_key, second.identity_key);
    assert_eq!(first.beacon_key, second.beacon_key);
}

#[test]
fn derivation_exact_values() {
    let m = NetworkSecurityMaterials::derive(&net_key_a());
    assert_eq!(m.net_key(), &net_key_a());
    assert_eq!(m.network_keys().nid(), NID::new(0x05));
    // Sub-keys are the key bytes xored with the component's label byte.
    assert_eq!(m.network_keys().encryption_key().key()[0], 0x05 ^ 0xE5);
    assert_eq!(m.network_keys().encryption_key().key()[1], 0xE5);
    assert_eq!(m.network_keys().privacy_key().key()[0], 0x05 ^ 0x9A);
    assert_eq!(m.identity_key().key()[0], 0x05 ^ 0x1D);
    assert_eq!(m.beacon_key().key()[0], 0x05 ^ 0xB3);
    // The network identifier is the first eight key bytes, big-endian.
    assert_eq!(m.network_id().0, 0x0500_0000_0000_0000);
}

#[test]
fn derivation_identifier_bounds() {
    let m = NetworkSecurityMaterials::derive(&NetKey::new([0xFF; 16]));
    // Sixteen 0xFF bytes mash to 0x00.
    assert_eq!(m.network_keys().nid(), NID::new(0x00));
    let loud = NetworkSecurityMaterials::derive(
        &NetKey::new([0xFF, 0, 0, 0, 0, 0, 0, 0, 0, 0, 0, 0, 0, 0, 0, 0]),
    );
    // A mash of 0xFF folds into the 7-bit space.
    assert_eq!(loud.network_keys().nid(), NID::new(0x7F));
    let app = ApplicationSecurityMaterials::new(
        AppKey::new([0xFF, 0, 0, 0, 0, 0, 0, 0, 0, 0, 0, 0, 0, 0, 0, 0]),
        NetKeyIndex::new(0),
    );
    // The same mash folds into the 6-bit space for an AID.
    assert_eq!(app.aid, AID::new(0x3F));
}

#[test]
fn network_keys_accessors() {
    let derived = NetworkKeys::derive(&net_key_a());
    let rebuilt = NetworkKeys::new(
        derived.nid(),
        *derived.encryption_key(),
        *derived.privacy_key(),
    );
    assert_eq!(derived, rebuilt);
}

#[test]
fn phase_transitions() {
    let old_key = NetworkSecurityMaterials::derive(&net_key_a());
    let new_key = NetworkSecurityMaterials::derive(&net_key_c());
    let pair = KeyPair { new_key, old_key };

    let normal = KeyPhase::Normal(old_key);
    assert_eq!(normal.phase(), KeyRefreshPhases::Normal);
    assert_eq!(normal.tx_key(), &old_key);
    assert_eq!(normal.rx_keys(), (&old_key, None));
    assert!(normal.key_pair().is_none());

    let phase1 = KeyPhase::Phase1(pair);
    assert_eq!(phase1.phase(), KeyRefreshPhases::First);
    assert_eq!(phase1.tx_key(), &old_key);
    assert_eq!(phase1.rx_keys(), (&old_key, Some(&new_key)));
    assert_eq!(phase1.key_pair(), Some(&pair));

    let phase2 = KeyPhase::Phase2(pair);
    assert_eq!(phase2.phase(), KeyRefreshPhases::Second);
    assert_eq!(phase2.tx_key(), &new_key);
    assert_eq!(phase2.rx_keys(), (&new_key, Some(&old_key)));
    assert_eq!(phase2.key_pair(), Some(&pair));
}

#[test]
fn insert_and_overwrite() {
    let mut map = NetKeyMap::new();
    // Inserting at a free index displaces nothing.
    assert_eq!(map.insert(NetKeyIndex::new(3), &net_key_a()), None);
    // Inserting at an occupied index returns the previous value.
    let displaced = map.insert(NetKeyIndex::new(3), &net_key_b());
    let expected = KeyPhase::Normal(NetworkSecurityMaterials::derive(&net_key_a()));
    assert_eq!(displaced, Some(expected));
    // The slot now holds the replacement.
    let stored = map.get_keys(NetKeyIndex::new(3)).copied();
    assert_eq!(
        stored,
        Some(KeyPhase::Normal(NetworkSecurityMaterials::derive(&net_key_b()))),
    );
}

#[test]
fn remove_free_index_leaves_map_unchanged() {
    let mut map = NetKeyMap::new();
    map.insert(NetKeyIndex::new(1), &net_key_a());
    assert_eq!(map.remove_keys(NetKeyIndex::new(2)), None);
    assert!(map.get_keys(NetKeyIndex::new(1)).is_some());
    let removed = map.remove_keys(NetKeyIndex::new(1));
    assert_eq!(
        removed,
        Some(KeyPhase::Normal(NetworkSecurityMaterials::derive(&net_key_a()))),
    );
    assert!(map.get_keys(NetKeyIndex::new(1)).is_none());
}

/// Overwrites an occupied slot's phase state through `get_keys_mut`, as the
/// Key Refresh Procedure does.
fn set_phase(map: &mut NetKeyMap, index: NetKeyIndex, phase: KeyPhase<NetworkSecurityMaterials>) {
    let slot = map.get_keys_mut(index).expect("slot must be occupied");
    *slot = phase;
}

#[test]
fn get_keys_mut_advances_phase_in_place() {
    let mut map = NetKeyMap::new();
    // A free slot yields no mutable borrow.
    assert!(map.get_keys_mut(NetKeyIndex::new(1)).is_none());
    // An occupied slot's phase state can be advanced in place.
    let pair = KeyPair {
        new_key: NetworkSecurityMaterials::derive(&net_key_c()),
        old_key: NetworkSecurityMaterials::derive(&net_key_a()),
    };
    map.insert(NetKeyIndex::new(1), &net_key_a());
    let slot = map.get_keys_mut(NetKeyIndex::new(1)).expect("slot must be occupied");
    assert_eq!(*slot, KeyPhase::Normal(NetworkSecurityMaterials::derive(&net_key_a())));
    *slot = KeyPhase::Phase1(pair);
    assert_eq!(map.get_keys(NetKeyIndex::new(1)), Some(&KeyPhase::Phase1(pair)));
}

#[test]
fn matching_nid_empty_map() {
    let map = NetKeyMap::new();
    assert!(map.matching_nid(NID::new(0x05)).is_empty());
}

#[test]
fn matching_nid_skips_other_nids() {
    let mut map = NetKeyMap::new();
    map.insert(NetKeyIndex::new(1), &net_key_a());
    map.insert(NetKeyIndex::new(2), &net_key_d());
    let candidates = map.matching_nid(NID::new(0x05));
    assert_eq!(candidates.len(), 1);
    assert_eq!(candidates[0].0, NetKeyIndex::new(1));
    let other = map.matching_nid(NID::new(0x07));
    assert_eq!(other.len(), 1);
    assert_eq!(other[0].0, NetKeyIndex::new(2));
}

#[test]
fn matching_nid_collision_ascending() {
    let mut map = NetKeyMap::new();
    // Insert out of ascending order on purpose: enumeration must sort.
    map.insert(NetKeyIndex::new(7), &net_key_b());
    map.insert(NetKeyIndex::new(2), &net_key_a());
    map.insert(NetKeyIndex::new(4), &net_key_d());
    let candidates = map.matching_nid(NID::new(0x05));
    assert_eq!(candidates.len(), 2);
    assert_eq!(candidates[0].0, NetKeyIndex::new(2));
    assert_eq!(candidates[0].1, NetworkSecurityMaterials::derive(&net_key_a()));
    assert_eq!(candidates[1].0, NetKeyIndex::new(7));
    assert_eq!(candidates[1].1, NetworkSecurityMaterials::derive(&net_key_b()));
}

#[test]
fn matching_nid_dual_phase_slot_yields_both_adjacent() {
    let mut map = NetKeyMap::new();
    let old_key = NetworkSecurityMaterials::derive(&net_key_a());
    let new_key = NetworkSecurityMaterials::derive(&net_key_c());
    map.insert(NetKeyIndex::new(5), &net_key_a());
    set_phase(&mut map, NetKeyIndex::new(5), KeyPhase::Phase1(KeyPair { new_key, old_key }));
    map.insert(NetKeyIndex::new(9), &net_key_b());
    let candidates = map.matching_nid(NID::new(0x05));
    // The dual-phase slot is yielded twice, adjacent, primary (old) first;
    // the plain slot follows in index order.
    assert_eq!(candidates.len(), 3);
    assert_eq!(candidates[0], (NetKeyIndex::new(5), old_key));
    assert_eq!(candidates[1], (NetKeyIndex::new(5), new_key));
    assert_eq!(
        candidates[2],
        (NetKeyIndex::new(9), NetworkSecurityMaterials::derive(&net_key_b())),
    );
    // In Phase 2 the same slot yields new before old.
    set_phase(&mut map, NetKeyIndex::new(5), KeyPhase::Phase2(KeyPair { new_key, old_key }));
    let swapped = map.matching_nid(NID::new(0x05));
    assert_eq!(swapped[0], (NetKeyIndex::new(5), new_key));
    assert_eq!(swapped[1], (NetKeyIndex::new(5), old_key));
}

#[test]
fn matching_nid_dual_phase_partial_match() {
    let mut map = NetKeyMap::new();
    let old_key = NetworkSecurityMaterials::derive(&net_key_a());
    let new_key = NetworkSecurityMaterials::derive(&net_key_d());
    map.insert(NetKeyIndex::new(1), &net_key_a());
    set_phase(&mut map, NetKeyIndex::new(1), KeyPhase::Phase1(KeyPair { new_key, old_key }));
    // Only the old (primary) candidate derives 0x05.
    let for_old = map.matching_nid(NID::new(0x05));
    assert_eq!(for_old.len(), 1);
    assert_eq!(for_old[0], (NetKeyIndex::new(1), old_key));
    // Only the new (secondary) candidate derives 0x07.
    let for_new = map.matching_nid(NID::new(0x07));
    assert_eq!(for_new.len(), 1);
    assert_eq!(for_new[0], (NetKeyIndex::new(1), new_key));
}

#[test]
fn end_to_end_scenario() {
    let mut map = NetKeyMap::new();
    map.insert(NetKeyIndex::new(1), &net_key_a());
    map.insert(NetKeyIndex::new(2), &net_key_b());
    let materials_a = NetworkSecurityMaterials::derive(&net_key_a());
    let materials_b = NetworkSecurityMaterials::derive(&net_key_b());
    assert_eq!(materials_a.network_keys().nid(), NID::new(0x05));
    assert_eq!(materials_b.network_keys().nid(), NID::new(0x05));
    let candidates = map.matching_nid(NID::new(0x05));
    assert_eq!(
        candidates,
        vec![(NetKeyIndex::new(1), materials_a), (NetKeyIndex::new(2), materials_b)],
    );
}

/// Application key whose xor-mash is 0x07, so the derived AID is 0x07.
fn app_key_x() -> AppKey {
    AppKey::new([0x07, 0, 0, 0, 0, 0, 0, 0, 0, 0, 0, 0, 0, 0, 0, 0])
}

/// A different key with the same derived AID 0x07.
fn app_key_y() -> AppKey {
    AppKey::new([0x03, 0x04, 0, 0, 0, 0, 0, 0, 0, 0, 0, 0, 0, 0, 0, 0])
}

/// A key whose derived AID is 0x08.
fn app_key_z() -> AppKey {
    AppKey::new([0x08, 0, 0, 0, 0, 0, 0, 0, 0, 0, 0, 0, 0, 0, 0, 0])
}

#[test]
fn app_insert_and_overwrite() {
    let mut map = AppKeyMap::new();
    assert_eq!(map.insert(NetKeyIndex::new(0), AppKeyIndex::new(4), app_key_x()), None);
    let displaced = map.insert(NetKeyIndex::new(1), AppKeyIndex::new(4), app_key_y());
    assert_eq!(
        displaced,
        Some(ApplicationSecurityMaterials::new(app_key_x(), NetKeyIndex::new(0))),
    );
    let stored = map.get_key(AppKeyIndex::new(4));
    assert_eq!(
        stored,
        Some(&ApplicationSecurityMaterials::new(app_key_y(), NetKeyIndex::new(1))),
    );
    assert_eq!(map.remove_key(AppKeyIndex::new(9)), None);
    assert!(map.get_key(AppKeyIndex::new(4)).is_some());
}

#[test]
fn app_materials_bind_parent_slot() {
    let materials = ApplicationSecurityMaterials::new(app_key_x(), NetKeyIndex::new(6));
    assert_eq!(materials.app_key, app_key_x());
    assert_eq!(materials.net_key_index, NetKeyIndex::new(6));
    assert_eq!(materials.aid, AID::new(0x07));
}

#[test]
fn matching_aid_collision_each_once_ascending() {
    let mut map = AppKeyMap::new();
    map.insert(NetKeyIndex::new(0), AppKeyIndex::new(3), app_key_y());
    map.insert(NetKeyIndex::new(0), AppKeyIndex::new(1), app_key_x());
    map.insert(NetKeyIndex::new(0), AppKeyIndex::new(2), app_key_z());
    let candidates = map.matching_aid(AID::new(0x07));
    assert_eq!(candidates.len(), 2);
    assert_eq!(
        candidates[0],
        (AppKeyIndex::new(1), ApplicationSecurityMaterials::new(app_key_x(), NetKeyIndex::new(0))),
    );
    assert_eq!(
        candidates[1],
        (AppKeyIndex::new(3), ApplicationSecurityMaterials::new(app_key_y(), NetKeyIndex::new(0))),
    );
    let other = map.matching_aid(AID::new(0x08));
    assert_eq!(other.len(), 1);
    assert_eq!(other[0].0, AppKeyIndex::new(2));
    assert!(map.matching_aid(AID::new(0x09)).is_empty());
}

#[test]
fn app_get_key_mut_replaces_in_place() {
    let mut map = AppKeyMap::new();
    let fresh = ApplicationSecurityMaterials::new(app_key_z(), NetKeyIndex::new(2));
    // A free slot yields no mutable borrow.
    assert!(map.get_key_mut(AppKeyIndex::new(1)).is_none());
    assert!(map.get_key(AppKeyIndex::new(1)).is_none());
    // An occupied slot's materials can be replaced in place.
    map.insert(NetKeyIndex::new(0), AppKeyIndex::new(1), app_key_x());
    let slot = map.get_key_mut(AppKeyIndex::new(1)).expect("slot must be occupied");
    assert_eq!(*slot, ApplicationSecurityMaterials::new(app_key_x(), NetKeyIndex::new(0)));
    *slot = fresh;
    assert_eq!(map.get_key(AppKeyIndex::new(1)), Some(&fresh));
}

#[test]
fn security_materials_aggregate() {
    let dev_key = DevKey::new([0xAB; 16]);
    let mut device = SecurityMaterials::new(IVUpdateFlag(false), IVIndex(42), dev_key);
    assert_eq!(device.iv_update_flag, IVUpdateFlag(false));
    assert_eq!(device.iv_index, IVIndex(42));
    assert_eq!(device.dev_key, dev_key);
    assert!(device.net_key_map.matching_nid(NID::new(0x05)).is_empty());
    assert!(device.app_key_map.matching_aid(AID::new(0x07)).is_empty());
    device.net_key_map.insert(NetKeyIndex::new(1), &net_key_a());
    device.app_key_map.insert(NetKeyIndex::new(1), AppKeyIndex::new(1), app_key_x());
    assert_eq!(device.net_key_map.matching_nid(NID::new(0x05)).len(), 1);
    assert_eq!(device.app_key_map.matching_aid(AID::new(0x07)).len(), 1);
}
