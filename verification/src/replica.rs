use vstd::prelude::*;
use crate::commitment::{cid_to_replica_commitment_v1, replica_cid_ok};
use crate::error::{CommitmentKind, VerifierError};
use crate::types::{ProofType, PoStProofTag, SectorInfo};

verus! {

/// A public replica descriptor: the resolved PoSt proof type and the
/// 32-byte replica commitment.
pub struct PublicReplica {
    pub post_proof: PoStProofTag,
    pub comm_r: Vec<u8>,
}

/// The mathematical content of a replica descriptor.
pub open spec fn replica_model(r: PublicReplica) -> (PoStProofTag, Seq<u8>) {
    (r.post_proof, r.comm_r@)
}

/// True when a sector entry decodes and resolves for the given context.
pub open spec fn entry_ok(s: SectorInfo, typ: ProofType) -> bool {
    replica_cid_ok(s.sealed_cid) && s.proof.post_tag(typ) is Some
}

/// The resolved PoSt tag of an entry (meaningful only when it resolves).
pub open spec fn entry_tag(s: SectorInfo, typ: ProofType) -> PoStProofTag {
    match s.proof.post_tag(typ) {
        Some(t) => t,
        None => PoStProofTag::Invalid(0),
    }
}

/// The descriptor an entry contributes to the replica set.
pub open spec fn entry_model(s: SectorInfo, typ: ProofType) -> (PoStProofTag, Seq<u8>) {
    (entry_tag(s, typ), s.sealed_cid.digest@)
}

/// The error a failing entry produces: a decode error if the commitment
/// identifier is malformed, otherwise an unsupported proof type.
pub open spec fn entry_error(s: SectorInfo, typ: ProofType) -> VerifierError {
    if !replica_cid_ok(s.sealed_cid) {
        VerifierError::MalformedCommitment(CommitmentKind::Replica)
    } else {
        VerifierError::UnsupportedProofType
    }
}

/// The replica map an input sequence denotes: each entry inserted in
/// input order, so a later entry with the same sector number wins.
pub open spec fn replica_map_model(s: Seq<SectorInfo>, typ: ProofType) -> Map<
    u64,
    (PoStProofTag, Seq<u8>),
>
    decreases s.len(),
{
    if s.len() == 0 {
        Map::empty()
    } else {
        replica_map_model(s.drop_last(), typ).insert(
            s.last().sector_number,
            entry_model(s.last(), typ),
        )
    }
}

/// Strictly ascending sector numbers: the shape of a key-ordered map.
pub open spec fn sorted_strict(m: Seq<(u64, PublicReplica)>) -> bool {
    forall|i: int, j: int| 0 <= i < j < m.len() ==> (#[trigger] m[i]).0 < (#[trigger] m[j]).0
}

/// Every descriptor holds a 32-byte commitment and a recognized tag.
pub open spec fn replicas_wf(m: Seq<(u64, PublicReplica)>) -> bool {
    forall|j: int|
        0 <= j < m.len() ==> (#[trigger] m[j]).1.comm_r@.len() == 32
            && m[j].1.post_proof.is_supported()
}

/// The map an association sequence denotes.
pub open spec fn assoc_model(m: Seq<(u64, PublicReplica)>) -> Map<
    u64,
    (PoStProofTag, Seq<u8>),
>
    decreases m.len(),
{
    if m.len() == 0 {
        Map::empty()
    } else {
        assoc_model(m.drop_last()).insert(m.last().0, replica_model(m.last().1))
    }
}

/// A key is in an association sequence's map exactly when some entry
/// holds it, and an entry with no later entry of the same key gives the
/// key its descriptor.
proof fn lemma_assoc_characterize(m: Seq<(u64, PublicReplica)>)
    ensures
        forall|k: u64| #[trigger] assoc_model(m).dom().contains(k) <==> exists|i: int|
            0 <= i < m.len() && (#[trigger] m[i]).0 == k,
        forall|i: int|
            0 <= i < m.len() && (forall|j: int| i < j < m.len() ==> m[j].0 != m[i].0)
                ==> assoc_model(m)[(#[trigger] m[i]).0] == replica_model(m[i].1),
    decreases m.len(),
{
    if m.len() == 0 {
    } else {
        let t = m.drop_last();
        lemma_assoc_characterize(t);
        assert(assoc_model(m) == assoc_model(t).insert(m.last().0, replica_model(m.last().1)));
        assert forall|k: u64| #[trigger] assoc_model(m).dom().contains(k) implies exists|i: int|
            0 <= i < m.len() && (#[trigger] m[i]).0 == k by {
            if k == m.last().0 {
                assert(m[m.len() - 1].0 == k);
            } else {
                assert(assoc_model(t).dom().contains(k));
                let i = choose|i: int| 0 <= i < t.len() && (#[trigger] t[i]).0 == k;
                assert(t[i] == m[i]);
                assert(m[i].0 == k);
            }
        }
        assert forall|k: u64| (exists|i: int| 0 <= i < m.len() && (#[trigger] m[i]).0 == k)
            implies #[trigger] assoc_model(m).dom().contains(k) by {
            let i = choose|i: int| 0 <= i < m.len() && (#[trigger] m[i]).0 == k;
            if i < m.len() - 1 {
                assert(t[i] == m[i]);
                assert(t[i].0 == k);
                assert(assoc_model(t).dom().contains(k));
            } else {
                assert(k == m.last().0);
            }
        }
        assert forall|i: int|
            0 <= i < m.len() && (forall|j: int| i < j < m.len() ==> m[j].0 != m[i].0) implies
            assoc_model(m)[(#[trigger] m[i]).0] == replica_model(m[i].1) by {
            if i == m.len() - 1 {
                assert(assoc_model(m)[m.last().0] == replica_model(m.last().1));
            } else {
                assert(t[i] == m[i]);
                assert(forall|j: int| i < j < t.len() ==> t[j] == m[j]);
                assert(forall|j: int| i < j < t.len() ==> t[j].0 != t[i].0);
                assert(assoc_model(t)[t[i].0] == replica_model(t[i].1));
                assert(m[i].0 != m.last().0);
            }
        }
    }
}

/// Inserts a descriptor under its sector number, keeping the sequence
/// key-ordered; an existing entry with the same number is replaced.
pub fn map_insert(m: &mut Vec<(u64, PublicReplica)>, key: u64, val: PublicReplica)
    requires
        sorted_strict(old(m)@),
        replicas_wf(old(m)@),
        val.comm_r@.len() == 32,
        val.post_proof.is_supported(),
    ensures
        sorted_strict(final(m)@),
        replicas_wf(final(m)@),
        assoc_model(final(m)@) == assoc_model(old(m)@).insert(key, replica_model(val)),
{
    let ghost m0 = m@;
    let mut i: usize = 0;
    while i < m.len() && m[i].0 < key
        invariant
            i <= m@.len(),
            m@ == m0,
            forall|j: int| 0 <= j < i ==> m0[j].0 < key,
        decreases m@.len() - i,
    {
        i = i + 1;
    }
    if i < m.len() && m[i].0 == key {
        let ghost iv = i as int;
        m.set(i, (key, val));
        proof {
            assert(m@ == m0.update(iv, (key, val)));
            assert(forall|a: int| 0 <= a < m@.len() && a != iv ==> m@[a] == m0[a]);
            assert(m@[iv] == (key, val));
            assert(sorted_strict(m@));
            assert(replicas_wf(m@));
            lemma_insert_model(m0, m@, iv, key, val);
        }
    } else {
        let ghost iv = i as int;
        m.insert(i, (key, val));
        proof {
            assert(m@ == m0.insert(iv, (key, val)));
            assert(forall|a: int| 0 <= a < iv ==> m@[a] == m0[a]);
            assert(forall|a: int| iv < a < m@.len() ==> m@[a] == m0[a - 1]);
            assert(m@[iv] == (key, val));
            assert(iv < m0.len() ==> m0[iv].0 > key);
            assert(sorted_strict(m@));
            assert(replicas_wf(m@));
            lemma_insert_model(m0, m@, iv, key, val);
        }
    }
}

/// Both ways of placing `(key, val)` at its ordered position produce the
/// model of the old sequence with `key` bound to the new descriptor.
proof fn lemma_insert_model(
    m0: Seq<(u64, PublicReplica)>,
    m1: Seq<(u64, PublicReplica)>,
    i: int,
    key: u64,
    val: PublicReplica,
)
    requires
        sorted_strict(m0),
        sorted_strict(m1),
        0 <= i,
        (m1 == m0.update(i, (key, val)) && i < m0.len() && m0[i].0 == key) || (m1 == m0.insert(
            i,
            (key, val),
        ) && i <= m0.len()),
    ensures
        assoc_model(m1) == assoc_model(m0).insert(key, replica_model(val)),
{
    lemma_assoc_characterize(m0);
    lemma_assoc_characterize(m1);
    let lhs = assoc_model(m1);
    let rhs = assoc_model(m0).insert(key, replica_model(val));
    assert(m1[i] == (key, val));
    assert forall|k: u64| lhs.dom().contains(k) implies rhs.dom().contains(k) by {
        let a = choose|a: int| 0 <= a < m1.len() && (#[trigger] m1[a]).0 == k;
        if k != key {
            assert(a != i);
            if m1.len() == m0.len() {
                assert(m0[a].0 == k);
            } else {
                if a < i {
                    assert(m0[a].0 == k);
                } else {
                    assert(m0[a - 1] == m1[a]);
                    assert(m0[a - 1].0 == k);
                }
            }
        }
    }
    assert forall|k: u64| rhs.dom().contains(k) implies lhs.dom().contains(k) by {
        if k == key {
            assert(m1[i].0 == key);
        } else {
            let a = choose|a: int| 0 <= a < m0.len() && (#[trigger] m0[a]).0 == k;
            if m1.len() == m0.len() {
                assert(m1[a].0 == k);
            } else {
                if a < i {
                    assert(m1[a].0 == k);
                } else {
                    assert(m1[a + 1] == m0[a]);
                    assert(m1[a + 1].0 == k);
                }
            }
        }
    }
    assert forall|k: u64| lhs.dom().contains(k) implies lhs[k] == rhs[k] by {
        if k == key {
            assert(forall|j: int| i < j < m1.len() ==> m1[j].0 != m1[i].0);
            assert(lhs[(m1[i]).0] == replica_model(m1[i].1));
            assert(lhs[key] == replica_model(val));
        } else {
            let a = choose|a: int| 0 <= a < m1.len() && (#[trigger] m1[a]).0 == k;
            assert(a != i);
            assert(forall|j: int| a < j < m1.len() ==> m1[j].0 != m1[a].0);
            assert(lhs[(m1[a]).0] == replica_model(m1[a].1));
            if m1.len() == m0.len() {
                assert(m0[a] == m1[a]);
                assert(forall|j: int| a < j < m0.len() ==> m0[j].0 != m0[a].0);
                assert(rhs[(m0[a]).0] == replica_model(m0[a].1));
            } else {
                let b: int = if a < i {
                    a
                } else {
                    a - 1
                };
                assert(m0[b] == m1[a]);
                assert(forall|j: int| b < j < m0.len() ==> m0[j].0 != m0[b].0);
                assert(rhs[(m0[b]).0] == replica_model(m0[b].1));
            }
        }
    }
    assert(lhs =~= rhs);
}

/// Builds the key-ordered replica set for a sector sequence: decodes
/// every sealed-replica commitment, resolves every proof descriptor for
/// the given context, and keys the result by sector number. Fails on the
/// first entry that does not decode or resolve, building no partial map.
pub fn to_fil_public_replica_infos(src: &Vec<SectorInfo>, typ: ProofType) -> (r: Result<
    Vec<(u64, PublicReplica)>,
    VerifierError,
>)
    ensures
        r is Ok <==> (forall|j: int| 0 <= j < src@.len() ==> #[trigger] entry_ok(src@[j], typ)),
        r matches Ok(m) ==> sorted_strict(m@) && replicas_wf(m@) && assoc_model(m@)
            == replica_map_model(src@, typ),
        forall|j: int|
            0 <= j < src@.len() && !(#[trigger] entry_ok(src@[j], typ)) && (forall|i: int|
                0 <= i < j ==> entry_ok(src@[i], typ)) ==> r == Err::<
                Vec<(u64, PublicReplica)>,
                VerifierError,
            >(entry_error(src@[j], typ)),
{
    let mut m: Vec<(u64, PublicReplica)> = Vec::new();
    let mut idx: usize = 0;
    proof {
        assert(replica_map_model(src@.subrange(0, 0), typ) =~= Map::<
            u64,
            (PoStProofTag, Seq<u8>),
        >::empty());
    }
    while idx < src.len()
        invariant
            idx <= src@.len(),
            forall|i: int| 0 <= i < idx ==> #[trigger] entry_ok(src@[i], typ),
            sorted_strict(m@),
            replicas_wf(m@),
            assoc_model(m@) == replica_map_model(src@.subrange(0, idx as int), typ),
        decreases src@.len() - idx,
    {
        let entry = &src[idx];
        let comm_r = match cid_to_replica_commitment_v1(&entry.sealed_cid) {
            Ok(c) => c,
            Err(e) => {
                proof {
                    assert(!entry_ok(src@[idx as int], typ));
                    assert(e == entry_error(src@[idx as int], typ));
                }
                return Err(e);
            },
        };
        let tag = match typ {
            ProofType::Winning => entry.proof.registered_winning_post_proof(),
            ProofType::Window => entry.proof.registered_window_post_proof(),
        };
        let tag = match tag {
            Ok(t) => t,
            Err(e) => {
                proof {
                    assert(src@[idx as int].proof.post_tag(typ) is None);
                    assert(!entry_ok(src@[idx as int], typ));
                    assert(e == entry_error(src@[idx as int], typ));
                }
                return Err(e);
            },
        };
        proof {
            lemma_post_tag_supported(src@[idx as int].proof, typ);
            assert(tag.is_supported());
        }
        map_insert(&mut m, entry.sector_number, PublicReplica { post_proof: tag, comm_r });
        idx = idx + 1;
        proof {
            let pfx = src@.subrange(0, idx as int);
            assert(pfx.drop_last() =~= src@.subrange(0, idx - 1));
            assert(pfx.last() == src@[idx - 1]);
            assert(assoc_model(m@) == replica_map_model(pfx, typ));
        }
    }
    proof {
        assert(src@.subrange(0, src@.len() as int) =~= src@);
    }
    Ok(m)
}

/// A descriptor a proof descriptor resolves to is always a recognized
/// tag.
proof fn lemma_post_tag_supported(p: crate::types::SealProofTag, typ: ProofType)
    ensures
        p.post_tag(typ) matches Some(t) ==> t.is_supported(),
{
}

/// Each sector number occurs at most once.
pub open spec fn distinct_sector_numbers(s: Seq<SectorInfo>) -> bool {
    forall|i: int, j: int|
        0 <= i < j < s.len() ==> (#[trigger] s[i]).sector_number != (#[trigger] s[j]).sector_number
}

/// A key is in the denoted replica map exactly when some entry holds it,
/// and when every entry of a number contributes the same descriptor,
/// that is the descriptor the number maps to.
proof fn lemma_replica_map_characterize(s: Seq<SectorInfo>, typ: ProofType)
    ensures
        forall|k: u64| #[trigger] replica_map_model(s, typ).dom().contains(k) <==> exists|i: int|
            0 <= i < s.len() && (#[trigger] s[i]).sector_number == k,
        forall|i: int|
            0 <= i < s.len() && (forall|j: int|
                0 <= j < s.len() && s[j].sector_number == s[i].sector_number ==> entry_model(
                    s[j],
                    typ,
                ) == entry_model(s[i], typ)) ==> replica_map_model(s, typ)[(
            #[trigger] s[i]).sector_number] == entry_model(s[i], typ),
    decreases s.len(),
{
    if s.len() == 0 {
    } else {
        let t = s.drop_last();
        lemma_replica_map_characterize(t, typ);
        assert(replica_map_model(s, typ) == replica_map_model(t, typ).insert(
            s.last().sector_number,
            entry_model(s.last(), typ),
        ));
        assert forall|k: u64| #[trigger] replica_map_model(s, typ).dom().contains(k) implies
            exists|i: int| 0 <= i < s.len() && (#[trigger] s[i]).sector_number == k by {
            if k == s.last().sector_number {
                assert(s[s.len() - 1].sector_number == k);
            } else {
                assert(replica_map_model(t, typ).dom().contains(k));
                let i = choose|i: int| 0 <= i < t.len() && (#[trigger] t[i]).sector_number == k;
                assert(t[i] == s[i]);
                assert(s[i].sector_number == k);
            }
        }
        assert forall|k: u64| (exists|i: int|
            0 <= i < s.len() && (#[trigger] s[i]).sector_number == k) implies
            #[trigger] replica_map_model(s, typ).dom().contains(k) by {
            let i = choose|i: int| 0 <= i < s.len() && (#[trigger] s[i]).sector_number == k;
            if i < s.len() - 1 {
                assert(t[i] == s[i]);
                assert(t[i].sector_number == k);
                assert(replica_map_model(t, typ).dom().contains(k));
            } else {
                assert(k == s.last().sector_number);
            }
        }
        assert forall|i: int|
            0 <= i < s.len() && (forall|j: int|
                0 <= j < s.len() && s[j].sector_number == s[i].sector_number ==> entry_model(
                    s[j],
                    typ,
                ) == entry_model(s[i], typ)) implies replica_map_model(s, typ)[(
            #[trigger] s[i]).sector_number] == entry_model(s[i], typ) by {
            let k = s[i].sector_number;
            if k == s.last().sector_number {
                assert(entry_model(s[s.len() - 1], typ) == entry_model(s[i], typ));
                assert(replica_map_model(s, typ)[k] == entry_model(s.last(), typ));
            } else {
                assert(i < s.len() - 1);
                assert(t[i] == s[i]);
                assert(forall|j: int|
                    0 <= j < t.len() && t[j].sector_number == t[i].sector_number ==> entry_model(
                        t[j],
                        typ,
                    ) == entry_model(t[i], typ)) by {
                    assert(forall|j: int| 0 <= j < t.len() ==> t[j] == s[j]);
                }
                assert(replica_map_model(t, typ)[t[i].sector_number] == entry_model(t[i], typ));
            }
        }
    }
}

/// Replica-set construction is invariant under permutation of its input:
/// two input sequences holding the same set of sector entries, with each
/// sector number occurring once, denote the same replica map.
pub proof fn lemma_replica_map_permutation(s1: Seq<SectorInfo>, s2: Seq<SectorInfo>, typ: ProofType)
    requires
        distinct_sector_numbers(s1),
        forall|x: SectorInfo| s1.contains(x) <==> s2.contains(x),
    ensures
        replica_map_model(s1, typ) == replica_map_model(s2, typ),
{
    lemma_replica_map_characterize(s1, typ);
    lemma_replica_map_characterize(s2, typ);
    let m1 = replica_map_model(s1, typ);
    let m2 = replica_map_model(s2, typ);
    assert forall|k: u64| m1.dom().contains(k) implies m2.dom().contains(k) by {
        let i = choose|i: int| 0 <= i < s1.len() && (#[trigger] s1[i]).sector_number == k;
        assert(s1.contains(s1[i]));
        assert(s2.contains(s1[i]));
        let j = choose|j: int| 0 <= j < s2.len() && s2[j] == s1[i];
        assert(s2[j].sector_number == k);
    }
    assert forall|k: u64| m2.dom().contains(k) implies m1.dom().contains(k) by {
        let i = choose|i: int| 0 <= i < s2.len() && (#[trigger] s2[i]).sector_number == k;
        assert(s2.contains(s2[i]));
        assert(s1.contains(s2[i]));
        let j = choose|j: int| 0 <= j < s1.len() && s1[j] == s2[i];
        assert(s1[j].sector_number == k);
    }
    assert forall|k: u64| m1.dom().contains(k) implies m1[k] == m2[k] by {
        let i = choose|i: int| 0 <= i < s1.len() && (#[trigger] s1[i]).sector_number == k;
        assert(forall|j: int|
            0 <= j < s1.len() && s1[j].sector_number == s1[i].sector_number ==> s1[j] == s1[i]);
        assert(m1[k] == entry_model(s1[i], typ));
        assert(s2.contains(s1[i]));
        let j0 = choose|j: int| 0 <= j < s2.len() && s2[j] == s1[i];
        assert forall|j: int|
            0 <= j < s2.len() && s2[j].sector_number == s2[j0].sector_number implies entry_model(
            s2[j],
            typ,
        ) == entry_model(s2[j0], typ) by {
            assert(s2.contains(s2[j]));
            assert(s1.contains(s2[j]));
            let l = choose|l: int| 0 <= l < s1.len() && s1[l] == s2[j];
            assert(s1[l].sector_number == k);
            assert(s1[l] == s1[i]);
        }
        assert(m2[s2[j0].sector_number] == entry_model(s2[j0], typ));
        assert(m2[k] == entry_model(s1[i], typ));
    }
    assert(m1 =~= m2);
}

/// The entries of an association sequence, reduced to their models.
pub open spec fn pair_models(m: Seq<(u64, PublicReplica)>) -> Seq<
    (u64, (PoStProofTag, Seq<u8>)),
> {
    m.map_values(|e: (u64, PublicReplica)| (e.0, replica_model(e.1)))
}

/// Two key-ordered association sequences that denote the same map hold
/// the same descriptors, for the same keys, in the same order.
pub proof fn lemma_sorted_assoc_unique(a: Seq<(u64, PublicReplica)>, b: Seq<(u64, PublicReplica)>)
    requires
        sorted_strict(a),
        sorted_strict(b),
        assoc_model(a) == assoc_model(b),
    ensures
        pair_models(a) == pair_models(b),
    decreases a.len(),
{
    lemma_assoc_characterize(a);
    lemma_assoc_characterize(b);
    if a.len() == 0 {
        if b.len() > 0 {
            assert(assoc_model(b).dom().contains(b[0].0));
            assert(false);
        }
        assert(pair_models(a) =~= pair_models(b));
    } else {
        if b.len() == 0 {
            assert(assoc_model(a).dom().contains(a[0].0));
            assert(false);
        }
        // The heads carry the minimal key of the common domain.
        assert(assoc_model(a).dom().contains(a[0].0));
        assert(assoc_model(b).dom().contains(b[0].0));
        let ia = choose|i: int| 0 <= i < a.len() && (#[trigger] a[i]).0 == b[0].0;
        let ib = choose|i: int| 0 <= i < b.len() && (#[trigger] b[i]).0 == a[0].0;
        assert(a[0].0 <= a[ia].0);
        assert(b[0].0 <= b[ib].0);
        let k = a[0].0;
        assert(b[0].0 == k);
        assert(forall|j: int| 0 < j < a.len() ==> (#[trigger] a[j]).0 != a[0].0);
        assert(forall|j: int| 0 < j < b.len() ==> (#[trigger] b[j]).0 != b[0].0);
        assert(assoc_model(a)[k] == replica_model(a[0].1));
        assert(assoc_model(b)[k] == replica_model(b[0].1));
        let ta = a.drop_first();
        let tb = b.drop_first();
        lemma_assoc_characterize(ta);
        lemma_assoc_characterize(tb);
        assert(sorted_strict(ta)) by {
            assert(forall|i: int| 0 <= i < ta.len() ==> ta[i] == a[i + 1]);
        }
        assert(sorted_strict(tb)) by {
            assert(forall|i: int| 0 <= i < tb.len() ==> tb[i] == b[i + 1]);
        }
        assert(assoc_model(ta) =~= assoc_model(a).remove(k)) by {
            lemma_tail_model(a);
        }
        assert(assoc_model(tb) =~= assoc_model(b).remove(k)) by {
            lemma_tail_model(b);
        }
        lemma_sorted_assoc_unique(ta, tb);
        assert(pair_models(ta) =~= pair_models(a).drop_first()) by {
            assert(forall|i: int| 0 <= i < ta.len() ==> ta[i] == a[i + 1]);
        }
        assert(pair_models(tb) =~= pair_models(b).drop_first()) by {
            assert(forall|i: int| 0 <= i < tb.len() ==> tb[i] == b[i + 1]);
        }
        assert(pair_models(a)[0] == pair_models(b)[0]);
        assert(pair_models(a) =~= pair_models(b)) by {
            assert(forall|i: int|
                0 < i < pair_models(a).len() ==> pair_models(a)[i] == pair_models(a).drop_first()[i
                    - 1]);
            assert(forall|i: int|
                0 < i < pair_models(b).len() ==> pair_models(b)[i] == pair_models(b).drop_first()[i
                    - 1]);
        }
    }
}

/// Dropping the head of a key-ordered association sequence removes
/// exactly the head's key from the denoted map.
proof fn lemma_tail_model(a: Seq<(u64, PublicReplica)>)
    requires
        sorted_strict(a),
        a.len() > 0,
    ensures
        assoc_model(a.drop_first()) =~= assoc_model(a).remove(a[0].0),
{
    let t = a.drop_first();
    lemma_assoc_characterize(a);
    lemma_assoc_characterize(t);
    assert(forall|i: int| 0 <= i < t.len() ==> t[i] == a[i + 1]);
    assert(sorted_strict(t));
    assert forall|k: u64| assoc_model(t).dom().contains(k) implies assoc_model(a).remove(
        a[0].0,
    ).dom().contains(k) by {
        let i = choose|i: int| 0 <= i < t.len() && (#[trigger] t[i]).0 == k;
        assert(a[i + 1].0 == k);
        assert(k != a[0].0);
    }
    assert forall|k: u64| assoc_model(a).remove(a[0].0).dom().contains(k) implies assoc_model(
        t,
    ).dom().contains(k) by {
        let i = choose|i: int| 0 <= i < a.len() && (#[trigger] a[i]).0 == k;
        assert(i != 0);
        assert(t[i - 1].0 == k);
    }
    assert forall|k: u64| assoc_model(t).dom().contains(k) implies assoc_model(t)[k] == assoc_model(
        a,
    )[k] by {
        let i = choose|i: int| 0 <= i < t.len() && (#[trigger] t[i]).0 == k;
        assert(forall|j: int| i < j < t.len() ==> t[j].0 != t[i].0);
        assert(assoc_model(t)[k] == replica_model(t[i].1));
        assert(a[i + 1].0 == k);
        assert(forall|j: int| i + 1 < j < a.len() ==> (#[trigger] a[j]).0 != a[i + 1].0);
        assert(assoc_model(a)[k] == replica_model(a[i + 1].1));
    }
}

/// The replica set builder's output is determined by the set of input
/// entries alone: two runs over inputs holding the same sector entries,
/// each sector number once, yield key-ordered outputs with identical
/// entries in identical order, whatever the input order was.
pub proof fn lemma_builder_permutation_invariant(
    s1: Seq<SectorInfo>,
    s2: Seq<SectorInfo>,
    typ: ProofType,
    m1: Seq<(u64, PublicReplica)>,
    m2: Seq<(u64, PublicReplica)>,
)
    requires
        distinct_sector_numbers(s1),
        forall|x: SectorInfo| s1.contains(x) <==> s2.contains(x),
        sorted_strict(m1),
        sorted_strict(m2),
        assoc_model(m1) == replica_map_model(s1, typ),
        assoc_model(m2) == replica_map_model(s2, typ),
    ensures
        pair_models(m1) == pair_models(m2),
{
    lemma_replica_map_permutation(s1, s2, typ);
    lemma_sorted_assoc_unique(m1, m2);
}

} // verus!
