use vstd::prelude::*;

verus! {

// A hit distance is held as the bit pattern of a non-negative IEEE-754 single-precision
// value. For non-negative values the order of the bit patterns, read as unsigned
// integers, is the order of the values, so the nearest hit is the one of least bits.

/// Whether no entry of `hits` is a hit.
pub open spec fn no_hit(hits: Seq<Option<u32>>) -> bool {
    forall|j: int| 0 <= j < hits.len() ==> hits[j] is None
}

/// Whether entry `i` of `hits` is the nearest hit: no hit lies nearer, and every hit
/// before it lies farther away.
pub open spec fn is_nearest(hits: Seq<Option<u32>>, i: int) -> bool {
    &&& 0 <= i < hits.len()
    &&& hits[i] is Some
    &&& forall|j: int|
        0 <= j < hits.len() && #[trigger] hits[j] is Some ==> hits[i]->0 <= hits[j]->0
    &&& forall|j: int| 0 <= j < i && #[trigger] hits[j] is Some ==> hits[i]->0 < hits[j]->0
}

/// The position of the nearest of the hits found along one ray; on equal distances the
/// earlier one is kept. `None` when nothing was hit.
pub fn nearest_hit(hits: &Vec<Option<u32>>) -> (r: Option<usize>)
    ensures
        match r {
            None => no_hit(hits@),
            Some(i) => is_nearest(hits@, i as int),
        },
{
    let mut best: Option<usize> = None;
    let mut k: usize = 0;
    while k < hits.len()
        invariant
            k <= hits@.len(),
            match best {
                None => no_hit(hits@.take(k as int)),
                Some(i) => is_nearest(hits@.take(k as int), i as int),
            },
        decreases hits@.len() - k,
    {
        let ghost prefix = hits@.take(k as int);
        let ghost next = hits@.take(k as int + 1);
        assert(next =~= prefix.push(hits@[k as int]));
        match hits[k] {
            None => {},
            Some(d) => {
                match best {
                    None => {
                        best = Some(k);
                    },
                    Some(i) => {
                        assert(prefix[i as int] == hits@[i as int]);
                        if d < hits[i].unwrap() {
                            best = Some(k);
                        }
                    },
                }
            },
        }
        k = k + 1;
    }
    assert(hits@.take(k as int) =~= hits@);
    best
}

/// The hits of the listed objects, in the order of the list.
pub open spec fn candidate_hits(all: Seq<Option<u32>>, cands: Seq<int>) -> Seq<Option<u32>> {
    cands.map_values(|o: int| all[o])
}

/// Let `all` hold, for each object of a scene, its hit along a ray (or none), and let
/// `cands` list, in any order, the objects that a bounding hierarchy reports for that
/// ray. If every object that the ray hits is listed, the search over the candidates
/// agrees with the search over all objects: both find no hit, or the nearest hits of
/// both lie at the same distance, and they are the same object where no other object
/// lies at that distance.
pub proof fn lemma_candidates_keep_nearest(all: Seq<Option<u32>>, cands: Seq<int>, i: int, j: int)
    requires
        forall|c: int| 0 <= c < cands.len() ==> 0 <= #[trigger] cands[c] < all.len(),
        forall|o: int|
            0 <= o < all.len() && #[trigger] all[o] is Some ==> exists|c: int|
                0 <= c < cands.len() && cands[c] == o,
    ensures
        no_hit(candidate_hits(all, cands)) <==> no_hit(all),
        is_nearest(candidate_hits(all, cands), i) && is_nearest(all, j) ==> {
            &&& candidate_hits(all, cands)[i] == all[j]
            &&& (forall|o: int| 0 <= o < all.len() && all[o] == all[j] ==> o == j) ==> cands[i]
                == j
        },
{
    let sub = candidate_hits(all, cands);
    if no_hit(sub) {
        assert forall|o: int| 0 <= o < all.len() implies all[o] is None by {
            if all[o] is Some {
                let c = choose|c: int| 0 <= c < cands.len() && cands[c] == o;
                assert(sub[c] == all[o]);
            }
        }
    }
    if no_hit(all) {
        assert forall|c: int| 0 <= c < sub.len() implies sub[c] is None by {
            assert(sub[c] == all[cands[c]]);
        }
    }
    if is_nearest(sub, i) && is_nearest(all, j) {
        assert(sub[i] == all[cands[i]]);
        let c = choose|c: int| 0 <= c < cands.len() && cands[c] == j;
        assert(sub[c] == all[j]);
    }
}

} // verus!
