//! Ordered repositories of security materials, keyed by 12-bit slot index.
//!
//! Each repository is a vector of entries sorted strictly ascending by
//! index: keys are unique and enumeration order is reproducible, which the
//! candidate queries in [`crate::matching`] rely on.

use vstd::prelude::*;

use crate::keys::{AppKeyIndex, DevKey, IVIndex, IVUpdateFlag, NetKey, NetKeyIndex, AID, NID};
use crate::matching::{
    aid_candidates, app_slot_candidates, lemma_aid_candidates_push, lemma_nid_candidates_push,
    net_slot_candidates, nid_candidates,
};
use crate::materials::{ApplicationSecurityMaterials, KeyPhase, NetworkSecurityMaterials};

verus! {

/// Entries are sorted strictly ascending by index, so indices are unique.
pub open spec fn kv_sorted<V>(s: Seq<(u16, V)>) -> bool {
    forall|i: int, j: int| 0 <= i < j < s.len() ==> s[i].0 < s[j].0
}

/// The value stored at `key`: the first entry that carries it, if any.
pub open spec fn kv_get<V>(s: Seq<(u16, V)>, key: u16) -> Option<V>
    decreases s.len(),
{
    if s.len() == 0 {
        None
    } else if s[0].0 == key {
        Some(s[0].1)
    } else {
        kv_get(s.drop_first(), key)
    }
}

/// An entry whose key no earlier entry shares is the one `kv_get` finds.
pub proof fn lemma_kv_get_found<V>(s: Seq<(u16, V)>, i: int)
    requires
        0 <= i < s.len(),
        forall|j: int| 0 <= j < i ==> s[j].0 != s[i].0,
    ensures
        kv_get(s, s[i].0) == Some(s[i].1),
    decreases i,
{
    if i > 0 {
        assert(s[0].0 != s[i].0);
        let t = s.drop_first();
        assert(t[i - 1] == s[i]);
        assert forall|j: int| 0 <= j < i - 1 implies (#[trigger] t[j]).0 != t[i - 1].0 by {
            assert(t[j] == s[j + 1]);
        }
        lemma_kv_get_found(t, i - 1);
    }
}

/// A key no entry carries is absent.
pub proof fn lemma_kv_get_absent<V>(s: Seq<(u16, V)>, key: u16)
    requires
        forall|j: int| 0 <= j < s.len() ==> s[j].0 != key,
    ensures
        kv_get(s, key) is None,
    decreases s.len(),
{
    if s.len() > 0 {
        let t = s.drop_first();
        assert forall|j: int| 0 <= j < t.len() implies t[j].0 != key by {
            assert(t[j] == s[j + 1]);
        }
        lemma_kv_get_absent(t, key);
    }
}

/// Replacing the value at position `i` keeps the order and changes `kv_get`
/// at that entry's key alone.
pub proof fn lemma_kv_update<V>(s: Seq<(u16, V)>, i: int, v: V)
    requires
        kv_sorted(s),
        0 <= i < s.len(),
    ensures
        kv_sorted(s.update(i, (s[i].0, v))),
        kv_get(s.update(i, (s[i].0, v)), s[i].0) == Some(v),
        forall|k: u16|
            k != s[i].0 ==> kv_get(s.update(i, (s[i].0, v)), k) == kv_get(s, k),
    decreases s.len(),
{
    let s2 = s.update(i, (s[i].0, v));
    assert(forall|m: int| 0 <= m < s.len() ==> s2[m].0 == s[m].0);
    assert(kv_sorted(s2));
    lemma_kv_get_found(s2, i);
    if i == 0 {
        assert(s2.drop_first() =~= s.drop_first());
    } else {
        let t = s.drop_first();
        assert(s2.drop_first() =~= t.update(i - 1, (t[i - 1].0, v)));
        assert forall|m: int, n: int| 0 <= m < n < t.len() implies t[m].0 < t[n].0 by {
            assert(t[m] == s[m + 1]);
            assert(t[n] == s[n + 1]);
        }
        lemma_kv_update(t, i - 1, v);
        assert forall|k: u16| k != s[i].0 implies kv_get(s2, k) == kv_get(s, k) by {
            if s[0].0 != k {
                assert(kv_get(s2, k) == kv_get(s2.drop_first(), k));
                assert(kv_get(s, k) == kv_get(t, k));
            }
        }
    }
}

/// Removing the entry at position `i` keeps the order, makes that entry's
/// key absent, and changes `kv_get` at no other key.
pub proof fn lemma_kv_remove<V>(s: Seq<(u16, V)>, i: int)
    requires
        kv_sorted(s),
        0 <= i < s.len(),
    ensures
        kv_sorted(s.remove(i)),
        kv_get(s.remove(i), s[i].0) is None,
        forall|k: u16| k != s[i].0 ==> kv_get(s.remove(i), k) == kv_get(s, k),
    decreases s.len(),
{
    let s2 = s.remove(i);
    assert forall|m: int, n: int| 0 <= m < n < s2.len() implies s2[m].0 < s2[n].0 by {
        assert(s2[m] == (if m < i { s[m] } else { s[m + 1] }));
        assert(s2[n] == (if n < i { s[n] } else { s[n + 1] }));
    }
    assert forall|m: int| 0 <= m < s2.len() implies s2[m].0 != s[i].0 by {
        assert(s2[m] == (if m < i { s[m] } else { s[m + 1] }));
    }
    lemma_kv_get_absent(s2, s[i].0);
    if i == 0 {
        assert(s2 =~= s.drop_first());
        assert forall|k: u16| k != s[i].0 implies kv_get(s2, k) == kv_get(s, k) by {}
    } else {
        let t = s.drop_first();
        assert forall|m: int, n: int| 0 <= m < n < t.len() implies t[m].0 < t[n].0 by {
            assert(t[m] == s[m + 1]);
            assert(t[n] == s[n + 1]);
        }
        lemma_kv_remove(t, i - 1);
        assert(s2.drop_first() =~= t.remove(i - 1));
        assert forall|k: u16| k != s[i].0 implies kv_get(s2, k) == kv_get(s, k) by {
            assert(s2[0] == s[0]);
            if s[0].0 != k {
                assert(kv_get(s2, k) == kv_get(t.remove(i - 1), k));
                assert(kv_get(s, k) == kv_get(t, k));
                assert(t[i - 1] == s[i]);
            }
        }
    }
}

/// Inserting a fresh key at its sorted position keeps the order, stores the
/// value at that key, and changes `kv_get` at no other key.
pub proof fn lemma_kv_insert<V>(s: Seq<(u16, V)>, i: int, key: u16, v: V)
    requires
        kv_sorted(s),
        0 <= i <= s.len(),
        forall|j: int| 0 <= j < i ==> s[j].0 < key,
        forall|j: int| i <= j < s.len() ==> s[j].0 > key,
    ensures
        kv_sorted(s.insert(i, (key, v))),
        kv_get(s.insert(i, (key, v)), key) == Some(v),
        forall|k: u16| k != key ==> kv_get(s.insert(i, (key, v)), k) == kv_get(s, k),
    decreases s.len(),
{
    let s2 = s.insert(i, (key, v));
    assert forall|m: int, n: int| 0 <= m < n < s2.len() implies s2[m].0 < s2[n].0 by {
        assert(s2[m] == (if m < i { s[m] } else if m == i { (key, v) } else { s[m - 1] }));
        assert(s2[n] == (if n < i { s[n] } else if n == i { (key, v) } else { s[n - 1] }));
    }
    assert forall|j: int| 0 <= j < i implies s2[j].0 != s2[i].0 by {
        assert(s2[j] == s[j]);
    }
    assert(s2[i] == (key, v));
    lemma_kv_get_found(s2, i);
    if i == 0 {
        assert(s2.drop_first() =~= s);
        assert forall|k: u16| k != key implies kv_get(s2, k) == kv_get(s, k) by {}
    } else {
        let t = s.drop_first();
        assert forall|m: int, n: int| 0 <= m < n < t.len() implies t[m].0 < t[n].0 by {
            assert(t[m] == s[m + 1]);
            assert(t[n] == s[n + 1]);
        }
        assert forall|j: int| 0 <= j < i - 1 implies t[j].0 < key by {
            assert(t[j] == s[j + 1]);
        }
        assert forall|j: int| i - 1 <= j < t.len() implies t[j].0 > key by {
            assert(t[j] == s[j + 1]);
        }
        lemma_kv_insert(t, i - 1, key, v);
        assert(s2.drop_first() =~= t.insert(i - 1, (key, v)));
        assert forall|k: u16| k != key implies kv_get(s2, k) == kv_get(s, k) by {
            assert(s2[0] == s[0]);
            if s[0].0 != k {
                assert(kv_get(s2, k) == kv_get(t.insert(i - 1, (key, v)), k));
                assert(kv_get(s, k) == kv_get(t, k));
            }
        }
    }
}

/// Ordered repository of phase-wrapped network security materials, keyed by
/// network-key slot index.
pub struct NetKeyMap {
    entries: Vec<(u16, KeyPhase<NetworkSecurityMaterials>)>,
}

impl View for NetKeyMap {
    type V = Seq<(u16, KeyPhase<NetworkSecurityMaterials>)>;

    closed spec fn view(&self) -> Seq<(u16, KeyPhase<NetworkSecurityMaterials>)> {
        self.entries@
    }
}

impl NetKeyMap {
    /// Entries sorted strictly ascending by slot index.
    pub open spec fn wf(self) -> bool {
        kv_sorted(self@)
    }

    /// An empty repository, as a device starts out at provisioning.
    pub fn new() -> (r: NetKeyMap)
        ensures
            r@ == Seq::<(u16, KeyPhase<NetworkSecurityMaterials>)>::empty(),
            r.wf(),
    {
        NetKeyMap { entries: Vec::new() }
    }

    /// The stored entries, ascending by slot index.
    pub fn entries(&self) -> (r: &Vec<(u16, KeyPhase<NetworkSecurityMaterials>)>)
        ensures
            r@ == self@,
    {
        &self.entries
    }

    /// The number of positions to the left of where `key` is or would be.
    fn position_for(&self, key: u16) -> (i: usize)
        requires
            self.wf(),
        ensures
            i <= self@.len(),
            forall|j: int| 0 <= j < i ==> self@[j].0 < key,
            forall|j: int| i <= j < self@.len() ==> self@[j].0 >= key,
    {
        let mut i: usize = 0;
        while i < self.entries.len() && self.entries[i].0 < key
            invariant
                self.wf(),
                i <= self.entries@.len(),
                forall|j: int| 0 <= j < i ==> self.entries@[j].0 < key,
            decreases self.entries@.len() - i,
        {
            i = i + 1;
        }
        proof {
            assert forall|j: int| i <= j < self@.len() implies (#[trigger] self@[j]).0 >= key by {
                if i < self@.len() && j > i {
                    assert(self@[i as int].0 < self@[j].0);
                }
            }
        }
        i
    }

    /// The stored phase state for a slot, if the slot is occupied.
    pub fn get_keys(&self, index: NetKeyIndex) -> (r: Option<&KeyPhase<NetworkSecurityMaterials>>)
        requires
            self.wf(),
        ensures
            (match r {
                Some(k) => kv_get(self@, index.0) == Some(*k),
                None => kv_get(self@, index.0) is None,
            }),
    {
        let i = self.position_for(index.0);
        if i < self.entries.len() && self.entries[i].0 == index.0 {
            proof {
                lemma_kv_get_found(self@, i as int);
            }
            Some(&self.entries[i].1)
        } else {
            proof {
                lemma_kv_get_absent(self@, index.0);
            }
            None
        }
    }

    /// Derives the full materials bundle from `new_key`, wraps it `Normal`,
    /// and stores it at `index`; returns the displaced value if the slot was
    /// occupied.
    pub fn insert(&mut self, index: NetKeyIndex, new_key: &NetKey) -> (r: Option<
        KeyPhase<NetworkSecurityMaterials>,
    >)
        requires
            old(self).wf(),
        ensures
            final(self).wf(),
            r == kv_get(old(self)@, index.0),
            (kv_get(final(self)@, index.0) matches Some(ph)
                && (ph matches KeyPhase::Normal(m) && m.is_derived_from(*new_key))),
            forall|k: u16| k != index.0 ==> kv_get(final(self)@, k) == kv_get(old(self)@, k),
            final(self)@.len() == old(self)@.len() + (if kv_get(old(self)@, index.0) is Some {
                0int
            } else {
                1int
            }),
    {
        let materials = NetworkSecurityMaterials::derive(new_key);
        let phase = KeyPhase::Normal(materials);
        let i = self.position_for(index.0);
        if i < self.entries.len() && self.entries[i].0 == index.0 {
            proof {
                lemma_kv_get_found(self@, i as int);
                lemma_kv_update(self@, i as int, phase);
            }
            let previous = self.entries[i].1;
            self.entries[i] = (index.0, phase);
            Some(previous)
        } else {
            proof {
                lemma_kv_get_absent(self@, index.0);
                lemma_kv_insert(self@, i as int, index.0, phase);
            }
            self.entries.insert(i, (index.0, phase));
            None
        }
    }

    /// Removes a slot on key revocation; returns the stored value, or
    /// nothing when the slot was free, in which case the repository is
    /// unchanged.
    pub fn remove_keys(&mut self, index: NetKeyIndex) -> (r: Option<
        KeyPhase<NetworkSecurityMaterials>,
    >)
        requires
            old(self).wf(),
        ensures
            final(self).wf(),
            r == kv_get(old(self)@, index.0),
            r is None ==> final(self)@ == old(self)@,
            kv_get(final(self)@, index.0) is None,
            forall|k: u16| k != index.0 ==> kv_get(final(self)@, k) == kv_get(old(self)@, k),
    {
        let i = self.position_for(index.0);
        if i < self.entries.len() && self.entries[i].0 == index.0 {
            proof {
                lemma_kv_get_found(self@, i as int);
                lemma_kv_remove(self@, i as int);
            }
            let entry = self.entries.remove(i);
            Some(entry.1)
        } else {
            proof {
                lemma_kv_get_absent(self@, index.0);
            }
            None
        }
    }

    /// A mutable borrow of the stored phase state for a slot, if the slot
    /// is occupied: the Key Refresh Procedure advances a rotation by
    /// overwriting it. The borrow reaches one entry's value alone; order and
    /// indices are untouched.
    pub fn get_keys_mut(&mut self, index: NetKeyIndex) -> (r: Option<
        &mut KeyPhase<NetworkSecurityMaterials>,
    >)
        requires
            old(self).wf(),
        ensures
            (match r {
                Some(m) => {
                    &&& kv_get(old(self)@, index.0) == Some(*m)
                    &&& final(self).wf()
                    &&& kv_get(final(self)@, index.0) == Some(*final(m))
                    &&& forall|k: u16|
                        k != index.0 ==> kv_get(final(self)@, k) == kv_get(old(self)@, k)
                },
                None => {
                    &&& kv_get(old(self)@, index.0) is None
                    &&& final(self)@ == old(self)@
                },
            }),
    {
        let i = self.position_for(index.0);
        if i < self.entries.len() && self.entries[i].0 == index.0 {
            proof {
                lemma_kv_get_found(self@, i as int);
            }
            let entry = &mut self.entries[i];
            proof {
                lemma_kv_update(old(self)@, i as int, final(entry).1);
            }
            Some(&mut entry.1)
        } else {
            proof {
                lemma_kv_get_absent(self@, index.0);
            }
            None
        }
    }
}

impl NetKeyMap {
    /// All stored candidates whose derived NID equals `nid_to_match`, in
    /// ascending slot order, a dual-key slot's primary candidate before its
    /// secondary. NID equality is only a pre-filter: the caller must try the
    /// candidates in the returned order until authenticated decryption
    /// succeeds, and an empty result is a normal "no match" outcome.
    pub fn matching_nid(&self, nid_to_match: NID) -> (r: Vec<
        (NetKeyIndex, NetworkSecurityMaterials),
    >)
        ensures
            r@ == nid_candidates(self@, nid_to_match.0),
    {
        let mut r: Vec<(NetKeyIndex, NetworkSecurityMaterials)> = Vec::new();
        let mut i: usize = 0;
        while i < self.entries.len()
            invariant
                i <= self.entries@.len(),
                r@ == nid_candidates(self.entries@.take(i as int), nid_to_match.0),
            decreases self.entries@.len() - i,
        {
            let index = self.entries[i].0;
            let phase = &self.entries[i].1;
            let ghost prev = r@;
            let (first, second) = phase.rx_keys();
            if first.network_keys.nid.value() == nid_to_match.value() {
                r.push((NetKeyIndex(index), *first));
            }
            match second {
                Some(m) => {
                    if m.network_keys.nid.value() == nid_to_match.value() {
                        r.push((NetKeyIndex(index), *m));
                    }
                },
                None => {},
            }
            proof {
                let se = self.entries@;
                assert(se.take(i as int + 1) =~= se.take(i as int).push(se[i as int]));
                lemma_nid_candidates_push(se.take(i as int), se[i as int], nid_to_match.0);
                assert(r@ =~= prev + net_slot_candidates(
                    se[i as int].0,
                    se[i as int].1,
                    nid_to_match.0,
                ));
            }
            i = i + 1;
        }
        proof {
            assert(self.entries@.take(self.entries@.len() as int) =~= self.entries@);
        }
        r
    }
}

/// Ordered repository of application security materials, keyed by
/// application-key slot index. Application keys carry no phase wrapper:
/// they are replaced atomically rather than rotated through a dual-key
/// window.
pub struct AppKeyMap {
    entries: Vec<(u16, ApplicationSecurityMaterials)>,
}

impl View for AppKeyMap {
    type V = Seq<(u16, ApplicationSecurityMaterials)>;

    closed spec fn view(&self) -> Seq<(u16, ApplicationSecurityMaterials)> {
        self.entries@
    }
}

impl AppKeyMap {
    /// Entries sorted strictly ascending by slot index.
    pub open spec fn wf(self) -> bool {
        kv_sorted(self@)
    }

    /// An empty repository.
    pub fn new() -> (r: AppKeyMap)
        ensures
            r@ == Seq::<(u16, ApplicationSecurityMaterials)>::empty(),
            r.wf(),
    {
        AppKeyMap { entries: Vec::new() }
    }

    /// The number of positions to the left of where `key` is or would be.
    fn position_for(&self, key: u16) -> (i: usize)
        requires
            self.wf(),
        ensures
            i <= self@.len(),
            forall|j: int| 0 <= j < i ==> self@[j].0 < key,
            forall|j: int| i <= j < self@.len() ==> self@[j].0 >= key,
    {
        let mut i: usize = 0;
        while i < self.entries.len() && self.entries[i].0 < key
            invariant
                self.wf(),
                i <= self.entries@.len(),
                forall|j: int| 0 <= j < i ==> self.entries@[j].0 < key,
            decreases self.entries@.len() - i,
        {
            i = i + 1;
        }
        proof {
            assert forall|j: int| i <= j < self@.len() implies (#[trigger] self@[j]).0 >= key by {
                if i < self@.len() && j > i {
                    assert(self@[i as int].0 < self@[j].0);
                }
            }
        }
        i
    }

    /// The stored entries, ascending by slot index.
    pub fn entries(&self) -> (r: &Vec<(u16, ApplicationSecurityMaterials)>)
        ensures
            r@ == self@,
    {
        &self.entries
    }

    /// The stored materials for a slot, if the slot is occupied.
    pub fn get_key(&self, index: AppKeyIndex) -> (r: Option<&ApplicationSecurityMaterials>)
        requires
            self.wf(),
        ensures
            (match r {
                Some(m) => kv_get(self@, index.0) == Some(*m),
                None => kv_get(self@, index.0) is None,
            }),
    {
        let i = self.position_for(index.0);
        if i < self.entries.len() && self.entries[i].0 == index.0 {
            proof {
                lemma_kv_get_found(self@, i as int);
            }
            Some(&self.entries[i].1)
        } else {
            proof {
                lemma_kv_get_absent(self@, index.0);
            }
            None
        }
    }

    /// Derives the AID from `new_key`, binds it to its parent network-key
    /// slot, and stores it at `app_key_index`; returns the displaced value
    /// if the slot was occupied.
    pub fn insert(
        &mut self,
        net_key_index: NetKeyIndex,
        app_key_index: AppKeyIndex,
        new_key: crate::keys::AppKey,
    ) -> (r: Option<ApplicationSecurityMaterials>)
        requires
            old(self).wf(),
        ensures
            final(self).wf(),
            r == kv_get(old(self)@, app_key_index.0),
            (kv_get(final(self)@, app_key_index.0) matches Some(m) && m.app_key == new_key
                && m.net_key_index == net_key_index && m.is_derived()),
            forall|k: u16|
                k != app_key_index.0 ==> kv_get(final(self)@, k) == kv_get(old(self)@, k),
            final(self)@.len() == old(self)@.len() + (if kv_get(old(self)@, app_key_index.0)
                is Some {
                0int
            } else {
                1int
            }),
    {
        let materials = ApplicationSecurityMaterials::new(new_key, net_key_index);
        let i = self.position_for(app_key_index.0);
        if i < self.entries.len() && self.entries[i].0 == app_key_index.0 {
            proof {
                lemma_kv_get_found(self@, i as int);
                lemma_kv_update(self@, i as int, materials);
            }
            let previous = self.entries[i].1;
            self.entries[i] = (app_key_index.0, materials);
            Some(previous)
        } else {
            proof {
                lemma_kv_get_absent(self@, app_key_index.0);
                lemma_kv_insert(self@, i as int, app_key_index.0, materials);
            }
            self.entries.insert(i, (app_key_index.0, materials));
            None
        }
    }

    /// Removes a slot on key revocation; returns the stored value, or
    /// nothing when the slot was free, in which case the repository is
    /// unchanged.
    pub fn remove_key(&mut self, index: AppKeyIndex) -> (r: Option<ApplicationSecurityMaterials>)
        requires
            old(self).wf(),
        ensures
            final(self).wf(),
            r == kv_get(old(self)@, index.0),
            r is None ==> final(self)@ == old(self)@,
            kv_get(final(self)@, index.0) is None,
            forall|k: u16| k != index.0 ==> kv_get(final(self)@, k) == kv_get(old(self)@, k),
    {
        let i = self.position_for(index.0);
        if i < self.entries.len() && self.entries[i].0 == index.0 {
            proof {
                lemma_kv_get_found(self@, i as int);
                lemma_kv_remove(self@, i as int);
            }
            let entry = self.entries.remove(i);
            Some(entry.1)
        } else {
            proof {
                lemma_kv_get_absent(self@, index.0);
            }
            None
        }
    }

    /// A mutable borrow of the stored materials for a slot, if the slot is
    /// occupied. The borrow reaches one entry's value alone; order and
    /// indices are untouched.
    pub fn get_key_mut(&mut self, index: AppKeyIndex) -> (r: Option<
        &mut ApplicationSecurityMaterials,
    >)
        requires
            old(self).wf(),
        ensures
            (match r {
                Some(m) => {
                    &&& kv_get(old(self)@, index.0) == Some(*m)
                    &&& final(self).wf()
                    &&& kv_get(final(self)@, index.0) == Some(*final(m))
                    &&& forall|k: u16|
                        k != index.0 ==> kv_get(final(self)@, k) == kv_get(old(self)@, k)
                },
                None => {
                    &&& kv_get(old(self)@, index.0) is None
                    &&& final(self)@ == old(self)@
                },
            }),
    {
        let i = self.position_for(index.0);
        if i < self.entries.len() && self.entries[i].0 == index.0 {
            proof {
                lemma_kv_get_found(self@, i as int);
            }
            let entry = &mut self.entries[i];
            proof {
                lemma_kv_update(old(self)@, i as int, final(entry).1);
            }
            Some(&mut entry.1)
        } else {
            proof {
                lemma_kv_get_absent(self@, index.0);
            }
            None
        }
    }
}

impl AppKeyMap {
    /// All stored materials whose derived AID equals `aid_to_match`, each
    /// slot at most once, in ascending slot order. AID equality is only a
    /// pre-filter: the caller must try the candidates in the returned order
    /// until authenticated decryption succeeds, and an empty result is a
    /// normal "no match" outcome.
    pub fn matching_aid(&self, aid_to_match: AID) -> (r: Vec<
        (AppKeyIndex, ApplicationSecurityMaterials),
    >)
        ensures
            r@ == aid_candidates(self@, aid_to_match.0),
    {
        let mut r: Vec<(AppKeyIndex, ApplicationSecurityMaterials)> = Vec::new();
        let mut i: usize = 0;
        while i < self.entries.len()
            invariant
                i <= self.entries@.len(),
                r@ == aid_candidates(self.entries@.take(i as int), aid_to_match.0),
            decreases self.entries@.len() - i,
        {
            let index = self.entries[i].0;
            let materials = &self.entries[i].1;
            let ghost prev = r@;
            if materials.aid.value() == aid_to_match.value() {
                r.push((AppKeyIndex(index), *materials));
            }
            proof {
                let se = self.entries@;
                assert(se.take(i as int + 1) =~= se.take(i as int).push(se[i as int]));
                lemma_aid_candidates_push(se.take(i as int), se[i as int], aid_to_match.0);
                assert(r@ =~= prev + app_slot_candidates(
                    se[i as int].0,
                    se[i as int].1,
                    aid_to_match.0,
                ));
            }
            i = i + 1;
        }
        proof {
            assert(self.entries@.take(self.entries@.len() as int) =~= self.entries@);
        }
        r
    }
}

/// Per-device aggregate: IV state, the device key, and the two key
/// repositories. One instance lives for the device's provisioned lifetime.
pub struct SecurityMaterials {
    pub iv_update_flag: IVUpdateFlag,
    pub iv_index: IVIndex,
    pub dev_key: DevKey,
    pub net_key_map: NetKeyMap,
    pub app_key_map: AppKeyMap,
}

impl SecurityMaterials {
    /// Both repositories keep their entries sorted.
    pub open spec fn wf(self) -> bool {
        self.net_key_map.wf() && self.app_key_map.wf()
    }

    /// A freshly provisioned device: the given IV state and device key,
    /// with both repositories empty.
    pub fn new(iv_update_flag: IVUpdateFlag, iv_index: IVIndex, dev_key: DevKey) -> (r:
        SecurityMaterials)
        ensures
            r.iv_update_flag == iv_update_flag,
            r.iv_index == iv_index,
            r.dev_key == dev_key,
            r.net_key_map@ == Seq::<(u16, KeyPhase<NetworkSecurityMaterials>)>::empty(),
            r.app_key_map@ == Seq::<(u16, ApplicationSecurityMaterials)>::empty(),
            r.wf(),
    {
        SecurityMaterials {
            iv_update_flag,
            iv_index,
            dev_key,
            net_key_map: NetKeyMap::new(),
            app_key_map: AppKeyMap::new(),
        }
    }
}

} // verus!
