//! Plain value types: short identifiers, slot indices, IV state, and the
//! 16-byte root keys at network, application, and device scope.

use vstd::prelude::*;

verus! {

/// 7-bit network identifier carried in the cleartext header of a Network PDU.
/// Many distinct network keys can derive the same NID, so a NID alone never
/// confirms a key; it only selects decryption candidates.
#[derive(Clone, Copy, PartialEq, Eq, Structural, Debug)]
pub struct NID(pub u8);

impl NID {
    /// Wraps a 7-bit value.
    pub fn new(value: u8) -> (r: NID)
        requires
            value < 128,
        ensures
            r.0 == value,
    {
        NID(value)
    }

    pub fn value(&self) -> (r: u8)
        ensures
            r == self.0,
    {
        self.0
    }
}

/// 6-bit application identifier carried in an Access-layer payload. Shares
/// the collision property of [`NID`], over an even smaller value space.
#[derive(Clone, Copy, PartialEq, Eq, Structural, Debug)]
pub struct AID(pub u8);

impl AID {
    /// Wraps a 6-bit value.
    pub fn new(value: u8) -> (r: AID)
        requires
            value < 64,
        ensures
            r.0 == value,
    {
        AID(value)
    }

    pub fn value(&self) -> (r: u8)
        ensures
            r == self.0,
    {
        self.0
    }
}

/// 12-bit provisioner-assigned slot index for a network key.
#[derive(Clone, Copy, PartialEq, Eq, Structural, Debug)]
pub struct NetKeyIndex(pub u16);

impl NetKeyIndex {
    /// Wraps a 12-bit slot index.
    pub fn new(value: u16) -> (r: NetKeyIndex)
        requires
            value < 0x1000,
        ensures
            r.0 == value,
    {
        NetKeyIndex(value)
    }
}

/// 12-bit provisioner-assigned slot index for an application key.
#[derive(Clone, Copy, PartialEq, Eq, Structural, Debug)]
pub struct AppKeyIndex(pub u16);

impl AppKeyIndex {
    /// Wraps a 12-bit slot index.
    pub fn new(value: u16) -> (r: AppKeyIndex)
        requires
            value < 0x1000,
        ensures
            r.0 == value,
    {
        AppKeyIndex(value)
    }
}

/// Network-wide replay-prevention counter used downstream in nonce
/// construction. Stored here; mutation is driven elsewhere.
#[derive(Clone, Copy, PartialEq, Eq, Structural, Debug)]
pub struct IVIndex(pub u32);

/// Flag accompanying [`IVIndex`] during an IV update procedure.
#[derive(Clone, Copy, PartialEq, Eq, Structural, Debug)]
pub struct IVUpdateFlag(pub bool);

/// 64-bit public network identifier derived from a network key.
#[derive(Clone, Copy, PartialEq, Eq, Structural, Debug)]
pub struct NetworkID(pub u64);

/// The phase tag of the Key Refresh Procedure for one network-key slot.
#[derive(Clone, Copy, PartialEq, Eq, Structural, Debug)]
pub enum KeyRefreshPhases {
    /// Only one key is valid; no refresh is in progress.
    Normal,
    /// Old and new key both receive; the old key still transmits.
    First,
    /// Old and new key both receive; the new key now transmits.
    Second,
}

/// Root symmetric key at network scope: 16 raw bytes distributed by the
/// provisioner.
#[derive(Clone, Copy, PartialEq, Eq, Debug)]
pub struct NetKey(pub [u8; 16]);

impl View for NetKey {
    type V = Seq<u8>;

    open spec fn view(&self) -> Seq<u8> {
        self.0@
    }
}

impl NetKey {
    pub fn new(bytes: [u8; 16]) -> (r: NetKey)
        ensures
            r@ == bytes@,
    {
        NetKey(bytes)
    }

    /// The raw key bytes.
    pub fn key(&self) -> (r: &[u8; 16])
        ensures
            r@ == self@,
    {
        &self.0
    }
}

/// Root symmetric key at application scope.
#[derive(Clone, Copy, PartialEq, Eq, Debug)]
pub struct AppKey(pub [u8; 16]);

impl View for AppKey {
    type V = Seq<u8>;

    open spec fn view(&self) -> Seq<u8> {
        self.0@
    }
}

impl AppKey {
    pub fn new(bytes: [u8; 16]) -> (r: AppKey)
        ensures
            r@ == bytes@,
    {
        AppKey(bytes)
    }

    /// The raw key bytes.
    pub fn key(&self) -> (r: &[u8; 16])
        ensures
            r@ == self@,
    {
        &self.0
    }
}

/// The device's unique root key, known only to the device and the
/// provisioner.
#[derive(Clone, Copy, PartialEq, Eq, Debug)]
pub struct DevKey(pub [u8; 16]);

impl View for DevKey {
    type V = Seq<u8>;

    open spec fn view(&self) -> Seq<u8> {
        self.0@
    }
}

impl DevKey {
    pub fn new(bytes: [u8; 16]) -> (r: DevKey)
        ensures
            r@ == bytes@,
    {
        DevKey(bytes)
    }

    /// The raw key bytes.
    pub fn key(&self) -> (r: &[u8; 16])
        ensures
            r@ == self@,
    {
        &self.0
    }
}

/// Sub-key derived from a network key; encrypts Network PDU payloads.
#[derive(Clone, Copy, PartialEq, Eq, Debug)]
pub struct EncryptionKey(pub [u8; 16]);

impl View for EncryptionKey {
    type V = Seq<u8>;

    open spec fn view(&self) -> Seq<u8> {
        self.0@
    }
}

impl EncryptionKey {
    pub fn new(bytes: [u8; 16]) -> (r: EncryptionKey)
        ensures
            r@ == bytes@,
    {
        EncryptionKey(bytes)
    }

    /// The raw key bytes.
    pub fn key(&self) -> (r: &[u8; 16])
        ensures
            r@ == self@,
    {
        &self.0
    }
}

/// Sub-key derived from a network key; obfuscates Network PDU headers.
#[derive(Clone, Copy, PartialEq, Eq, Debug)]
pub struct PrivacyKey(pub [u8; 16]);

impl View for PrivacyKey {
    type V = Seq<u8>;

    open spec fn view(&self) -> Seq<u8> {
        self.0@
    }
}

impl PrivacyKey {
    pub fn new(bytes: [u8; 16]) -> (r: PrivacyKey)
        ensures
            r@ == bytes@,
    {
        PrivacyKey(bytes)
    }

    /// The raw key bytes.
    pub fn key(&self) -> (r: &[u8; 16])
        ensures
            r@ == self@,
    {
        &self.0
    }
}

/// Sub-key derived from a network key; authenticates node identity
/// advertisements.
#[derive(Clone, Copy, PartialEq, Eq, Debug)]
pub struct IdentityKey(pub [u8; 16]);

impl View for IdentityKey {
    type V = Seq<u8>;

    open spec fn view(&self) -> Seq<u8> {
        self.0@
    }
}

impl IdentityKey {
    pub fn new(bytes: [u8; 16]) -> (r: IdentityKey)
        ensures
            r@ == bytes@,
    {
        IdentityKey(bytes)
    }

    /// The raw key bytes.
    pub fn key(&self) -> (r: &[u8; 16])
        ensures
            r@ == self@,
    {
        &self.0
    }
}

/// Sub-key derived from a network key; authenticates secure network beacons.
#[derive(Clone, Copy, PartialEq, Eq, Debug)]
pub struct BeaconKey(pub [u8; 16]);

impl View for BeaconKey {
    type V = Seq<u8>;

    open spec fn view(&self) -> Seq<u8> {
        self.0@
    }
}

impl BeaconKey {
    pub fn new(bytes: [u8; 16]) -> (r: BeaconKey)
        ensures
            r@ == bytes@,
    {
        BeaconKey(bytes)
    }

    /// The raw key bytes.
    pub fn key(&self) -> (r: &[u8; 16])
        ensures
            r@ == self@,
    {
        &self.0
    }
}

} // verus!
