//! Candidate enumeration for short-identifier matching.
//!
//! A 7-bit NID (or 6-bit AID) in a received PDU selects decryption
//! candidates from the repositories: every stored slot whose derived
//! identifier equals the query contributes its receive keys, in ascending
//! slot order, primary key before secondary. Identifier equality is a
//! necessary-but-not-sufficient pre-filter; only the authenticated decrypt
//! step downstream confirms a candidate, and an empty candidate list is a
//! normal outcome, not an error.

use vstd::prelude::*;

use crate::keys::{AppKeyIndex, NetKeyIndex};
use crate::maps::kv_sorted;
use crate::materials::{ApplicationSecurityMaterials, KeyPhase, NetworkSecurityMaterials};

verus! {

/// The candidates one network-key slot contributes for a queried NID:
/// its receive keys whose derived NID equals the query, primary first.
pub open spec fn net_slot_candidates(
    index: u16,
    phase: KeyPhase<NetworkSecurityMaterials>,
    nid: u8,
) -> Seq<(NetKeyIndex, NetworkSecurityMaterials)> {
    let primary = if phase.rx_primary().network_keys.nid.0 == nid {
        seq![(NetKeyIndex(index), phase.rx_primary())]
    } else {
        Seq::<(NetKeyIndex, NetworkSecurityMaterials)>::empty()
    };
    let secondary = match phase.rx_secondary() {
        Some(m) => {
            if m.network_keys.nid.0 == nid {
                seq![(NetKeyIndex(index), m)]
            } else {
                Seq::<(NetKeyIndex, NetworkSecurityMaterials)>::empty()
            }
        },
        None => Seq::<(NetKeyIndex, NetworkSecurityMaterials)>::empty(),
    };
    primary + secondary
}

/// All candidates the stored slots contribute for a queried NID, slot by
/// slot in storage order.
pub open spec fn nid_candidates(
    s: Seq<(u16, KeyPhase<NetworkSecurityMaterials>)>,
    nid: u8,
) -> Seq<(NetKeyIndex, NetworkSecurityMaterials)>
    decreases s.len(),
{
    if s.len() == 0 {
        Seq::<(NetKeyIndex, NetworkSecurityMaterials)>::empty()
    } else {
        net_slot_candidates(s[0].0, s[0].1, nid) + nid_candidates(s.drop_first(), nid)
    }
}

/// Appending a slot appends its candidates.
pub proof fn lemma_nid_candidates_push(
    s: Seq<(u16, KeyPhase<NetworkSecurityMaterials>)>,
    e: (u16, KeyPhase<NetworkSecurityMaterials>),
    nid: u8,
)
    ensures
        nid_candidates(s.push(e), nid) == nid_candidates(s, nid) + net_slot_candidates(
            e.0,
            e.1,
            nid,
        ),
    decreases s.len(),
{
    let sp = s.push(e);
    if s.len() == 0 {
        assert(sp.drop_first() =~= Seq::<(u16, KeyPhase<NetworkSecurityMaterials>)>::empty());
        assert(sp[0] == e);
        assert(nid_candidates(sp.drop_first(), nid) =~= Seq::<
            (NetKeyIndex, NetworkSecurityMaterials),
        >::empty());
        assert(nid_candidates(sp, nid) =~= nid_candidates(s, nid) + net_slot_candidates(
            e.0,
            e.1,
            nid,
        ));
    } else {
        assert(sp[0] == s[0]);
        assert(sp.drop_first() =~= s.drop_first().push(e));
        lemma_nid_candidates_push(s.drop_first(), e, nid);
        assert(nid_candidates(sp, nid) =~= nid_candidates(s, nid) + net_slot_candidates(
            e.0,
            e.1,
            nid,
        ));
    }
}

/// Every NID candidate is drawn from a stored slot: it carries that slot's
/// index, is one of the slot's receive keys, and its derived NID equals the
/// query. The returned value is the position of the contributing slot.
pub proof fn lemma_nid_candidates_sound(
    s: Seq<(u16, KeyPhase<NetworkSecurityMaterials>)>,
    nid: u8,
    p: int,
) -> (i: int)
    requires
        0 <= p < nid_candidates(s, nid).len(),
    ensures
        0 <= i < s.len(),
        nid_candidates(s, nid)[p].0 == NetKeyIndex(s[i].0),
        nid_candidates(s, nid)[p].1 == s[i].1.rx_primary() || Some(nid_candidates(s, nid)[p].1)
            == s[i].1.rx_secondary(),
        nid_candidates(s, nid)[p].1.network_keys.nid.0 == nid,
    decreases s.len(),
{
    let hb = net_slot_candidates(s[0].0, s[0].1, nid);
    if p < hb.len() {
        assert(nid_candidates(s, nid)[p] == hb[p]);
        0
    } else {
        let t = s.drop_first();
        let i0 = lemma_nid_candidates_sound(t, nid, p - hb.len());
        assert(t[i0] == s[i0 + 1]);
        assert(nid_candidates(s, nid)[p] == nid_candidates(t, nid)[p - hb.len()]);
        i0 + 1
    }
}

/// Candidates come out in ascending slot order.
pub proof fn lemma_matching_nid_ascending(
    s: Seq<(u16, KeyPhase<NetworkSecurityMaterials>)>,
    nid: u8,
    p: int,
    q: int,
)
    requires
        kv_sorted(s),
        0 <= p < q < nid_candidates(s, nid).len(),
    ensures
        nid_candidates(s, nid)[p].0.0 <= nid_candidates(s, nid)[q].0.0,
    decreases s.len(),
{
    let hb = net_slot_candidates(s[0].0, s[0].1, nid);
    let t = s.drop_first();
    if q < hb.len() {
        assert(nid_candidates(s, nid)[p] == hb[p]);
        assert(nid_candidates(s, nid)[q] == hb[q]);
    } else if p < hb.len() {
        assert(nid_candidates(s, nid)[p] == hb[p]);
        assert(nid_candidates(s, nid)[q] == nid_candidates(t, nid)[q - hb.len()]);
        let i = lemma_nid_candidates_sound(t, nid, q - hb.len());
        assert(t[i] == s[i + 1]);
        assert(s[0].0 < s[i + 1].0);
    } else {
        assert forall|m: int, n: int| 0 <= m < n < t.len() implies (#[trigger] t[m]).0 < (
        #[trigger] t[n]).0 by {
            assert(t[m] == s[m + 1]);
            assert(t[n] == s[n + 1]);
        }
        assert(nid_candidates(s, nid)[p] == nid_candidates(t, nid)[p - hb.len()]);
        assert(nid_candidates(s, nid)[q] == nid_candidates(t, nid)[q - hb.len()]);
        lemma_matching_nid_ascending(t, nid, p - hb.len(), q - hb.len());
    }
}

/// A stored slot whose primary receive key derives the queried NID is
/// enumerated: its primary candidate stands at the returned position.
pub proof fn lemma_matching_nid_complete_primary(
    s: Seq<(u16, KeyPhase<NetworkSecurityMaterials>)>,
    nid: u8,
    i: int,
) -> (p: int)
    requires
        0 <= i < s.len(),
        s[i].1.rx_primary().network_keys.nid.0 == nid,
    ensures
        0 <= p < nid_candidates(s, nid).len(),
        nid_candidates(s, nid)[p] == (NetKeyIndex(s[i].0), s[i].1.rx_primary()),
    decreases i,
{
    let hb = net_slot_candidates(s[0].0, s[0].1, nid);
    if i == 0 {
        assert(nid_candidates(s, nid)[0] == hb[0]);
        0
    } else {
        let t = s.drop_first();
        assert(t[i - 1] == s[i]);
        let p0 = lemma_matching_nid_complete_primary(t, nid, i - 1);
        assert(nid_candidates(s, nid)[hb.len() + p0] == nid_candidates(t, nid)[p0]);
        hb.len() + p0
    }
}

/// A stored slot whose secondary receive key derives the queried NID is
/// enumerated: that candidate stands at the returned position.
pub proof fn lemma_matching_nid_complete_secondary(
    s: Seq<(u16, KeyPhase<NetworkSecurityMaterials>)>,
    nid: u8,
    i: int,
) -> (p: int)
    requires
        0 <= i < s.len(),
        (s[i].1.rx_secondary() matches Some(m) && m.network_keys.nid.0 == nid),
    ensures
        0 <= p < nid_candidates(s, nid).len(),
        (s[i].1.rx_secondary() matches Some(m) && nid_candidates(s, nid)[p] == (
            NetKeyIndex(s[i].0),
            m,
        )),
    decreases i,
{
    let hb = net_slot_candidates(s[0].0, s[0].1, nid);
    if i == 0 {
        assert(nid_candidates(s, nid)[hb.len() - 1] == hb[hb.len() - 1]);
        hb.len() - 1
    } else {
        let t = s.drop_first();
        assert(t[i - 1] == s[i]);
        let p0 = lemma_matching_nid_complete_secondary(t, nid, i - 1);
        assert(nid_candidates(s, nid)[hb.len() + p0] == nid_candidates(t, nid)[p0]);
        hb.len() + p0
    }
}

/// A slot whose primary and secondary receive keys both derive the queried
/// NID is enumerated twice, adjacently, primary first, both under the same
/// slot index.
pub proof fn lemma_matching_nid_dual_adjacent(
    s: Seq<(u16, KeyPhase<NetworkSecurityMaterials>)>,
    nid: u8,
    i: int,
) -> (p: int)
    requires
        0 <= i < s.len(),
        s[i].1.rx_primary().network_keys.nid.0 == nid,
        (s[i].1.rx_secondary() matches Some(m) && m.network_keys.nid.0 == nid),
    ensures
        0 <= p,
        p + 1 < nid_candidates(s, nid).len(),
        nid_candidates(s, nid)[p] == (NetKeyIndex(s[i].0), s[i].1.rx_primary()),
        (s[i].1.rx_secondary() matches Some(m) && nid_candidates(s, nid)[p + 1] == (
            NetKeyIndex(s[i].0),
            m,
        )),
    decreases i,
{
    let hb = net_slot_candidates(s[0].0, s[0].1, nid);
    if i == 0 {
        assert(nid_candidates(s, nid)[0] == hb[0]);
        assert(nid_candidates(s, nid)[1] == hb[1]);
        0
    } else {
        let t = s.drop_first();
        assert(t[i - 1] == s[i]);
        let p0 = lemma_matching_nid_dual_adjacent(t, nid, i - 1);
        assert(nid_candidates(s, nid)[hb.len() + p0] == nid_candidates(t, nid)[p0]);
        assert(nid_candidates(s, nid)[hb.len() + p0 + 1] == nid_candidates(t, nid)[p0 + 1]);
        hb.len() + p0
    }
}

/// The candidate one application-key slot contributes for a queried AID:
/// its materials, when their derived AID equals the query.
pub open spec fn app_slot_candidates(
    index: u16,
    materials: ApplicationSecurityMaterials,
    aid: u8,
) -> Seq<(AppKeyIndex, ApplicationSecurityMaterials)> {
    if materials.aid.0 == aid {
        seq![(AppKeyIndex(index), materials)]
    } else {
        Seq::<(AppKeyIndex, ApplicationSecurityMaterials)>::empty()
    }
}

/// All candidates the stored slots contribute for a queried AID, slot by
/// slot in storage order; each slot yields at most one.
pub open spec fn aid_candidates(
    s: Seq<(u16, ApplicationSecurityMaterials)>,
    aid: u8,
) -> Seq<(AppKeyIndex, ApplicationSecurityMaterials)>
    decreases s.len(),
{
    if s.len() == 0 {
        Seq::<(AppKeyIndex, ApplicationSecurityMaterials)>::empty()
    } else {
        app_slot_candidates(s[0].0, s[0].1, aid) + aid_candidates(s.drop_first(), aid)
    }
}

/// Appending a slot appends its candidate, if it has one.
pub proof fn lemma_aid_candidates_push(
    s: Seq<(u16, ApplicationSecurityMaterials)>,
    e: (u16, ApplicationSecurityMaterials),
    aid: u8,
)
    ensures
        aid_candidates(s.push(e), aid) == aid_candidates(s, aid) + app_slot_candidates(
            e.0,
            e.1,
            aid,
        ),
    decreases s.len(),
{
    let sp = s.push(e);
    if s.len() == 0 {
        assert(sp.drop_first() =~= Seq::<(u16, ApplicationSecurityMaterials)>::empty());
        assert(sp[0] == e);
        assert(aid_candidates(sp.drop_first(), aid) =~= Seq::<
            (AppKeyIndex, ApplicationSecurityMaterials),
        >::empty());
        assert(aid_candidates(sp, aid) =~= aid_candidates(s, aid) + app_slot_candidates(
            e.0,
            e.1,
            aid,
        ));
    } else {
        assert(sp[0] == s[0]);
        assert(sp.drop_first() =~= s.drop_first().push(e));
        lemma_aid_candidates_push(s.drop_first(), e, aid);
        assert(aid_candidates(sp, aid) =~= aid_candidates(s, aid) + app_slot_candidates(
            e.0,
            e.1,
            aid,
        ));
    }
}

/// Every AID candidate is a stored slot's materials, under that slot's
/// index, with the queried derived AID. The returned value is the position
/// of the contributing slot.
pub proof fn lemma_aid_candidates_sound(
    s: Seq<(u16, ApplicationSecurityMaterials)>,
    aid: u8,
    p: int,
) -> (i: int)
    requires
        0 <= p < aid_candidates(s, aid).len(),
    ensures
        0 <= i < s.len(),
        aid_candidates(s, aid)[p] == (AppKeyIndex(s[i].0), s[i].1),
        s[i].1.aid.0 == aid,
    decreases s.len(),
{
    let hb = app_slot_candidates(s[0].0, s[0].1, aid);
    if p < hb.len() {
        assert(aid_candidates(s, aid)[p] == hb[p]);
        0
    } else {
        let t = s.drop_first();
        let i0 = lemma_aid_candidates_sound(t, aid, p - hb.len());
        assert(t[i0] == s[i0 + 1]);
        assert(aid_candidates(s, aid)[p] == aid_candidates(t, aid)[p - hb.len()]);
        i0 + 1
    }
}

/// AID candidates come out in strictly ascending slot order, so each stored
/// slot is enumerated at most once.
pub proof fn lemma_matching_aid_strictly_ascending(
    s: Seq<(u16, ApplicationSecurityMaterials)>,
    aid: u8,
    p: int,
    q: int,
)
    requires
        kv_sorted(s),
        0 <= p < q < aid_candidates(s, aid).len(),
    ensures
        aid_candidates(s, aid)[p].0.0 < aid_candidates(s, aid)[q].0.0,
    decreases s.len(),
{
    let hb = app_slot_candidates(s[0].0, s[0].1, aid);
    let t = s.drop_first();
    if p < hb.len() {
        assert(aid_candidates(s, aid)[p] == hb[p]);
        assert(aid_candidates(s, aid)[q] == aid_candidates(t, aid)[q - hb.len()]);
        let i = lemma_aid_candidates_sound(t, aid, q - hb.len());
        assert(t[i] == s[i + 1]);
        assert(s[0].0 < s[i + 1].0);
    } else {
        assert forall|m: int, n: int| 0 <= m < n < t.len() implies (#[trigger] t[m]).0 < (
        #[trigger] t[n]).0 by {
            assert(t[m] == s[m + 1]);
            assert(t[n] == s[n + 1]);
        }
        assert(aid_candidates(s, aid)[p] == aid_candidates(t, aid)[p - hb.len()]);
        assert(aid_candidates(s, aid)[q] == aid_candidates(t, aid)[q - hb.len()]);
        lemma_matching_aid_strictly_ascending(t, aid, p - hb.len(), q - hb.len());
    }
}

/// A stored slot whose derived AID equals the query is enumerated: its
/// candidate stands at the returned position.
pub proof fn lemma_matching_aid_complete(
    s: Seq<(u16, ApplicationSecurityMaterials)>,
    aid: u8,
    i: int,
) -> (p: int)
    requires
        0 <= i < s.len(),
        s[i].1.aid.0 == aid,
    ensures
        0 <= p < aid_candidates(s, aid).len(),
        aid_candidates(s, aid)[p] == (AppKeyIndex(s[i].0), s[i].1),
    decreases i,
{
    let hb = app_slot_candidates(s[0].0, s[0].1, aid);
    if i == 0 {
        assert(aid_candidates(s, aid)[0] == hb[0]);
        0
    } else {
        let t = s.drop_first();
        assert(t[i - 1] == s[i]);
        let p0 = lemma_matching_aid_complete(t, aid, i - 1);
        assert(aid_candidates(s, aid)[hb.len() + p0] == aid_candidates(t, aid)[p0]);
        hb.len() + p0
    }
}

} // verus!
