//! Derived security materials for one key, and the Key Refresh phase
//! state machine that wraps them.
//!
//! Derivation here is a fixed, deterministic mixing of the raw key bytes.
//! Every identifier and sub-key is a pure function of the key it comes from,
//! which is the only property the surrounding logic relies on: equal key
//! bytes always yield equal derived material.

use vstd::prelude::*;

use crate::keys::{
    AppKey, BeaconKey, EncryptionKey, IdentityKey, KeyRefreshPhases, NetKey, NetKeyIndex,
    NetworkID, PrivacyKey, AID, NID,
};

verus! {

/// Label byte mixed into the encryption sub-key.
pub const ENCRYPTION_LABEL: u8 = 0xE5;

/// Label byte mixed into the privacy sub-key.
pub const PRIVACY_LABEL: u8 = 0x9A;

/// Label byte mixed into the identity sub-key.
pub const IDENTITY_LABEL: u8 = 0x1D;

/// Label byte mixed into the beacon sub-key.
pub const BEACON_LABEL: u8 = 0xB3;

/// The xor of all sixteen key bytes: the seed every short identifier is
/// drawn from.
pub open spec fn spec_key_mash(key: Seq<u8>) -> u8
    recommends
        key.len() == 16,
{
    (((key[0] ^ key[1]) ^ (key[2] ^ key[3])) ^ ((key[4] ^ key[5]) ^ (key[6] ^ key[7]))) ^ (((key[8]
        ^ key[9]) ^ (key[10] ^ key[11])) ^ ((key[12] ^ key[13]) ^ (key[14] ^ key[15])))
}

/// The 7-bit NID derived from a network key.
pub open spec fn spec_nid_of(key: Seq<u8>) -> u8 {
    spec_key_mash(key) % 128
}

/// The 6-bit AID derived from an application key.
pub open spec fn spec_aid_of(key: Seq<u8>) -> u8 {
    spec_key_mash(key) % 64
}

/// A sub-key: each byte of the parent key xored with a fixed label byte.
pub open spec fn spec_sub_key(key: Seq<u8>, label: u8) -> Seq<u8> {
    Seq::new(key.len(), |i: int| key[i] ^ label)
}

/// The 64-bit network identifier: the first eight key bytes, big-endian.
pub open spec fn spec_network_id_of(key: Seq<u8>) -> u64
    recommends
        key.len() == 16,
{
    (key[0] * 0x100_0000_0000_0000 + key[1] * 0x1_0000_0000_0000 + key[2] * 0x100_0000_0000
        + key[3] * 0x1_0000_0000 + key[4] * 0x100_0000 + key[5] * 0x1_0000 + key[6] * 0x100
        + key[7]) as u64
}

fn key_mash(key: &[u8; 16]) -> (r: u8)
    ensures
        r == spec_key_mash(key@),
{
    (((key[0] ^ key[1]) ^ (key[2] ^ key[3])) ^ ((key[4] ^ key[5]) ^ (key[6] ^ key[7]))) ^ (((key[8]
        ^ key[9]) ^ (key[10] ^ key[11])) ^ ((key[12] ^ key[13]) ^ (key[14] ^ key[15])))
}

fn sub_key(key: &[u8; 16], label: u8) -> (r: [u8; 16])
    ensures
        r@ == spec_sub_key(key@, label),
{
    let r: [u8; 16] = [
        key[0] ^ label,
        key[1] ^ label,
        key[2] ^ label,
        key[3] ^ label,
        key[4] ^ label,
        key[5] ^ label,
        key[6] ^ label,
        key[7] ^ label,
        key[8] ^ label,
        key[9] ^ label,
        key[10] ^ label,
        key[11] ^ label,
        key[12] ^ label,
        key[13] ^ label,
        key[14] ^ label,
        key[15] ^ label,
    ];
    proof {
        assert(r@ =~= spec_sub_key(key@, label));
    }
    r
}

fn network_id_of(key: &[u8; 16]) -> (r: u64)
    ensures
        r == spec_network_id_of(key@),
{
    (key[0] as u64) * 0x100_0000_0000_0000 + (key[1] as u64) * 0x1_0000_0000_0000 + (key[2]
        as u64) * 0x100_0000_0000 + (key[3] as u64) * 0x1_0000_0000 + (key[4] as u64) * 0x100_0000
        + (key[5] as u64) * 0x1_0000 + (key[6] as u64) * 0x100 + (key[7] as u64)
}

/// The NID plus the two sub-keys derived from one network key, exactly once,
/// at insertion.
#[derive(Clone, Copy, PartialEq, Eq, Debug)]
pub struct NetworkKeys {
    pub nid: NID,
    pub encryption: EncryptionKey,
    pub privacy: PrivacyKey,
}

impl NetworkKeys {
    /// True when `self` is what derivation yields for key bytes `key`.
    pub open spec fn is_derived_from(self, key: Seq<u8>) -> bool {
        &&& self.nid.0 == spec_nid_of(key)
        &&& self.encryption@ == spec_sub_key(key, ENCRYPTION_LABEL)
        &&& self.privacy@ == spec_sub_key(key, PRIVACY_LABEL)
    }

    pub fn new(nid: NID, encryption: EncryptionKey, privacy: PrivacyKey) -> (r: NetworkKeys)
        ensures
            r == (NetworkKeys { nid, encryption, privacy }),
    {
        NetworkKeys { nid, encryption, privacy }
    }

    /// Derives the NID and both sub-keys from a root network key.
    pub fn derive(net_key: &NetKey) -> (r: NetworkKeys)
        ensures
            r.is_derived_from(net_key@),
    {
        let nid = NID::new(key_mash(net_key.key()) % 128);
        let encryption = EncryptionKey::new(sub_key(net_key.key(), ENCRYPTION_LABEL));
        let privacy = PrivacyKey::new(sub_key(net_key.key(), PRIVACY_LABEL));
        NetworkKeys { nid, encryption, privacy }
    }

    pub fn nid(&self) -> (r: NID)
        ensures
            r == self.nid,
    {
        self.nid
    }

    pub fn encryption_key(&self) -> (r: &EncryptionKey)
        ensures
            *r == self.encryption,
    {
        &self.encryption
    }

    pub fn privacy_key(&self) -> (r: &PrivacyKey)
        ensures
            *r == self.privacy,
    {
        &self.privacy
    }
}

/// The full derived bundle for one network key: the root key itself and
/// everything a node needs that follows from it.
#[derive(Clone, Copy, PartialEq, Eq, Debug)]
pub struct NetworkSecurityMaterials {
    pub net_key: NetKey,
    pub network_keys: NetworkKeys,
    pub network_id: NetworkID,
    pub identity_key: IdentityKey,
    pub beacon_key: BeaconKey,
}

impl NetworkSecurityMaterials {
    /// True when every field of `self` is what derivation yields for the
    /// root key `key`.
    pub open spec fn is_derived_from(self, key: NetKey) -> bool {
        &&& self.net_key == key
        &&& self.network_keys.is_derived_from(key@)
        &&& self.network_id.0 == spec_network_id_of(key@)
        &&& self.identity_key@ == spec_sub_key(key@, IDENTITY_LABEL)
        &&& self.beacon_key@ == spec_sub_key(key@, BEACON_LABEL)
    }

    /// Derives the full bundle from a root network key.
    pub fn derive(net_key: &NetKey) -> (r: NetworkSecurityMaterials)
        ensures
            r.is_derived_from(*net_key),
    {
        NetworkSecurityMaterials {
            net_key: *net_key,
            network_keys: NetworkKeys::derive(net_key),
            network_id: NetworkID(network_id_of(net_key.key())),
            identity_key: IdentityKey::new(sub_key(net_key.key(), IDENTITY_LABEL)),
            beacon_key: BeaconKey::new(sub_key(net_key.key(), BEACON_LABEL)),
        }
    }

    pub fn net_key(&self) -> (r: &NetKey)
        ensures
            *r == self.net_key,
    {
        &self.net_key
    }

    pub fn network_keys(&self) -> (r: &NetworkKeys)
        ensures
            *r == self.network_keys,
    {
        &self.network_keys
    }

    pub fn network_id(&self) -> (r: NetworkID)
        ensures
            r == self.network_id,
    {
        self.network_id
    }

    pub fn identity_key(&self) -> (r: &IdentityKey)
        ensures
            *r == self.identity_key,
    {
        &self.identity_key
    }

    pub fn beacon_key(&self) -> (r: &BeaconKey)
        ensures
            *r == self.beacon_key,
    {
        &self.beacon_key
    }
}

/// Derivation is a pure function of the key bytes: bundles derived from
/// equal network-key bytes are equal in every field.
pub proof fn lemma_derivation_deterministic(
    a: NetworkSecurityMaterials,
    b: NetworkSecurityMaterials,
    ka: NetKey,
    kb: NetKey,
)
    requires
        ka@ == kb@,
        a.is_derived_from(ka),
        b.is_derived_from(kb),
    ensures
        a == b,
{
    assert(ka.0@ == kb.0@);
    assert(ka.0 =~= kb.0);
    assert(a.network_keys.encryption.0 =~= b.network_keys.encryption.0);
    assert(a.network_keys.privacy.0 =~= b.network_keys.privacy.0);
    assert(a.identity_key.0 =~= b.identity_key.0);
    assert(a.beacon_key.0 =~= b.beacon_key.0);
}

/// The application key bound to its parent network-key slot, with its
/// derived AID.
#[derive(Clone, Copy, PartialEq, Eq, Debug)]
pub struct ApplicationSecurityMaterials {
    pub app_key: AppKey,
    pub aid: AID,
    pub net_key_index: NetKeyIndex,
}

impl ApplicationSecurityMaterials {
    /// True when the AID is what derivation yields for the stored key.
    pub open spec fn is_derived(self) -> bool {
        self.aid.0 == spec_aid_of(self.app_key@)
    }

    /// Derives the AID and binds the key to its parent network-key slot.
    pub fn new(app_key: AppKey, net_key_index: NetKeyIndex) -> (r: ApplicationSecurityMaterials)
        ensures
            r.app_key == app_key,
            r.net_key_index == net_key_index,
            r.is_derived(),
    {
        let aid = AID::new(key_mash(app_key.key()) % 64);
        ApplicationSecurityMaterials { app_key, aid, net_key_index }
    }
}

/// The two keys alive during a Key Refresh: the one being retired and the
/// one replacing it.
#[derive(Clone, Copy, PartialEq, Eq, Debug)]
pub struct KeyPair<K: Copy + PartialEq + Eq> {
    pub new_key: K,
    pub old_key: K,
}

/// Key Refresh state for one slot: either a single key in normal operation,
/// or an old/new pair while the refresh procedure is under way. The
/// procedure itself lives elsewhere; it advances a slot by storing the next
/// `KeyPhase` value.
#[derive(Clone, Copy, PartialEq, Eq, Debug)]
pub enum KeyPhase<K: Copy + PartialEq + Eq> {
    Normal(K),
    Phase1(KeyPair<K>),
    Phase2(KeyPair<K>),
}

impl<K: Copy + PartialEq + Eq> KeyPhase<K> {
    /// The phase tag of this slot.
    pub open spec fn spec_phase(self) -> KeyRefreshPhases {
        match self {
            KeyPhase::Normal(_) => KeyRefreshPhases::Normal,
            KeyPhase::Phase1(_) => KeyRefreshPhases::First,
            KeyPhase::Phase2(_) => KeyRefreshPhases::Second,
        }
    }

    /// The key this slot transmits with: the old key until propagation of
    /// the new one is confirmed, the new key from then on.
    pub open spec fn spec_tx_key(self) -> K {
        match self {
            KeyPhase::Normal(k) => k,
            KeyPhase::Phase1(p) => p.old_key,
            KeyPhase::Phase2(p) => p.new_key,
        }
    }

    /// The first decryption candidate this slot offers.
    pub open spec fn rx_primary(self) -> K {
        match self {
            KeyPhase::Normal(k) => k,
            KeyPhase::Phase1(p) => p.old_key,
            KeyPhase::Phase2(p) => p.new_key,
        }
    }

    /// The second decryption candidate this slot offers, present only while
    /// a refresh is under way.
    pub open spec fn rx_secondary(self) -> Option<K> {
        match self {
            KeyPhase::Normal(_) => None,
            KeyPhase::Phase1(p) => Some(p.new_key),
            KeyPhase::Phase2(p) => Some(p.old_key),
        }
    }

    /// The old/new pair, present only while a refresh is under way.
    pub open spec fn spec_key_pair(self) -> Option<KeyPair<K>> {
        match self {
            KeyPhase::Normal(_) => None,
            KeyPhase::Phase1(p) => Some(p),
            KeyPhase::Phase2(p) => Some(p),
        }
    }

    pub fn phase(&self) -> (r: KeyRefreshPhases)
        ensures
            r == self.spec_phase(),
    {
        match self {
            KeyPhase::Normal(_) => KeyRefreshPhases::Normal,
            KeyPhase::Phase1(_) => KeyRefreshPhases::First,
            KeyPhase::Phase2(_) => KeyRefreshPhases::Second,
        }
    }

    pub fn tx_key(&self) -> (r: &K)
        ensures
            *r == self.spec_tx_key(),
    {
        match self {
            KeyPhase::Normal(k) => k,
            KeyPhase::Phase1(p) => &p.old_key,
            KeyPhase::Phase2(p) => &p.new_key,
        }
    }

    /// The decryption candidates this slot offers, primary first.
    pub fn rx_keys(&self) -> (r: (&K, Option<&K>))
        ensures
            *r.0 == self.rx_primary(),
            (match r.1 {
                Some(k) => self.rx_secondary() == Some(*k),
                None => self.rx_secondary() is None,
            }),
    {
        match self {
            KeyPhase::Normal(k) => (k, None),
            KeyPhase::Phase1(p) => (&p.old_key, Some(&p.new_key)),
            KeyPhase::Phase2(p) => (&p.new_key, Some(&p.old_key)),
        }
    }

    /// The old/new pair, needed to finalize or revert the rotation.
    pub fn key_pair(&self) -> (r: Option<&KeyPair<K>>)
        ensures
            (match r {
                Some(p) => self.spec_key_pair() == Some(*p),
                None => self.spec_key_pair() is None,
            }),
    {
        match self {
            KeyPhase::Normal(_) => None,
            KeyPhase::Phase1(p) => Some(p),
            KeyPhase::Phase2(p) => Some(p),
        }
    }
}

/// During Phase 1 a slot receives with the old key first and the new key
/// second while still transmitting with the old key; moving the same pair to
/// Phase 2 swaps the receive order and switches transmission to the new key.
pub proof fn lemma_phase_transitions<K: Copy + PartialEq + Eq>(pair: KeyPair<K>)
    ensures
        KeyPhase::Phase1(pair).rx_primary() == pair.old_key,
        KeyPhase::Phase1(pair).rx_secondary() == Some(pair.new_key),
        KeyPhase::Phase1(pair).spec_tx_key() == pair.old_key,
        KeyPhase::Phase2(pair).rx_primary() == pair.new_key,
        KeyPhase::Phase2(pair).rx_secondary() == Some(pair.old_key),
        KeyPhase::Phase2(pair).spec_tx_key() == pair.new_key,
        KeyPhase::Phase1(pair).spec_phase() == KeyRefreshPhases::First,
        KeyPhase::Phase2(pair).spec_phase() == KeyRefreshPhases::Second,
{
}

} // verus!
