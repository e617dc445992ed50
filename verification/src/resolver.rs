//! Ledge proximity: per-tick distance caches, nearest-ledge resolution and
//! ledge lookup by id.
//!
//! Distances are ordered by their exact squared values, so the minimum is the
//! true Euclidean minimum; ties resolve to the earliest-spawned ledge, the
//! first one in iteration order.

use vstd::prelude::*;

use crate::structs::{ledges_pos_ok, Ledge, Player};
use crate::vec2::{dist, dist_fx, dist_sq, dist_sq_wide, pos_ok, Vec2};

verus! {

/// `l` with its distance cache set to the fixed-point distance from `p`.
pub open spec fn with_distance(p: Vec2, l: Ledge) -> Ledge {
    Ledge {
        distance_from_player: dist_fx(p, l.position) as i64,
        id: l.id,
        position: l.position,
    }
}

/// Every ledge with its distance cache recomputed against `p`.
pub open spec fn with_distances(p: Vec2, s: Seq<Ledge>) -> Seq<Ledge> {
    Seq::new(s.len(), |i: int| with_distance(p, s[i]))
}

/// Recomputing the distance caches is idempotent: a second pass against the
/// same player position changes nothing, because the caches do not feed back
/// into the positions they are computed from.
pub proof fn lemma_distance_cache_idempotent(p: Vec2, s: Seq<Ledge>)
    ensures
        with_distances(p, with_distances(p, s)) == with_distances(p, s),
{
    assert(with_distances(p, with_distances(p, s)) =~= with_distances(p, s));
}

/// Refresh each ledge's cached `distance_from_player` against the current
/// player position. Runs every tick regardless of attachment state, so the
/// caches are never stale once the scan stage has run.
#[verifier::loop_isolation(false)]
pub fn update_ledges_information(player_pos: Vec2, ledges: &mut Vec<Ledge>)
    requires
        pos_ok(player_pos),
        ledges_pos_ok(old(ledges)@),
    ensures
        final(ledges)@ == with_distances(player_pos, old(ledges)@),
{
    let n = ledges.len();
    let mut i: usize = 0;
    while i < n
        invariant
            i <= n,
            n == ledges@.len(),
            ledges@.len() == old(ledges)@.len(),
            forall|j: int| i <= j < n ==> ledges@[j] == old(ledges)@[j],
            forall|j: int|
                0 <= j < i ==> ledges@[j] == with_distance(player_pos, old(ledges)@[j]),
        decreases n - i,
    {
        let l = ledges[i];
        let d = dist(player_pos, l.position);
        ledges[i] = Ledge { distance_from_player: d, id: l.id, position: l.position };
        i += 1;
    }
    proof {
        assert(ledges@ =~= with_distances(player_pos, old(ledges)@));
    }
}

/// Index of the ledge nearest to `p`, the earliest such index on ties;
/// meaningful only for a non-empty sequence.
pub open spec fn nearest_idx(p: Vec2, s: Seq<Ledge>) -> int
    decreases s.len(),
{
    if s.len() <= 1 {
        0
    } else {
        let j = nearest_idx(p, s.drop_last());
        if dist_sq(p, s.last().position) < dist_sq(p, s[j].position) {
            s.len() - 1
        } else {
            j
        }
    }
}

/// The nearest index is in bounds, minimizes the squared (hence Euclidean)
/// distance over all ledges, and every earlier ledge is strictly farther, so
/// ties resolve to the earliest-spawned ledge.
pub proof fn lemma_nearest_idx_props(p: Vec2, s: Seq<Ledge>)
    requires
        s.len() > 0,
    ensures
        0 <= nearest_idx(p, s) < s.len(),
        forall|j: int|
            0 <= j < s.len() ==> dist_sq(p, s[nearest_idx(p, s)].position) <= dist_sq(
                p,
                (#[trigger] s[j]).position,
            ),
        forall|j: int|
            0 <= j < nearest_idx(p, s) ==> dist_sq(p, (#[trigger] s[j]).position) > dist_sq(
                p,
                s[nearest_idx(p, s)].position,
            ),
    decreases s.len(),
{
    if s.len() > 1 {
        let t = s.drop_last();
        lemma_nearest_idx_props(p, t);
        assert forall|j: int| 0 <= j < t.len() implies t[j] == s[j] by {}
    }
}

/// The resolver's result: id, position and fixed-point distance of the
/// nearest ledge, or nothing when the scene has no ledges.
pub open spec fn nearest_opt(p: Vec2, s: Seq<Ledge>) -> Option<(u32, Vec2, i64)> {
    if s.len() == 0 {
        None
    } else {
        let ni = nearest_idx(p, s);
        Some((s[ni].id, s[ni].position, dist_fx(p, s[ni].position) as i64))
    }
}

/// Resolve the ledge nearest to `player_pos`: its id, its position and its
/// fixed-point Euclidean distance. Returns nothing exactly when no ledges
/// exist. The result minimizes the Euclidean distance over all ledges, and
/// every earlier-spawned ledge is strictly farther, so a tie goes to the
/// earliest-spawned one.
#[verifier::loop_isolation(false)]
pub fn nearest_ledge(player_pos: Vec2, ledges: &Vec<Ledge>) -> (r: Option<(u32, Vec2, i64)>)
    requires
        pos_ok(player_pos),
        ledges_pos_ok(ledges@),
    ensures
        r == nearest_opt(player_pos, ledges@),
        r is Some <==> ledges@.len() > 0,
        r matches Some(t) ==> forall|j: int|
            0 <= j < ledges@.len() ==> dist_sq(player_pos, t.1) <= dist_sq(
                player_pos,
                (#[trigger] ledges@[j]).position,
            ),
        r matches Some(t) ==> forall|j: int|
            0 <= j < nearest_idx(player_pos, ledges@) ==> dist_sq(
                player_pos,
                (#[trigger] ledges@[j]).position,
            ) > dist_sq(player_pos, t.1),
{
    if ledges.len() == 0 {
        return None;
    }
    let mut best: usize = 0;
    let mut best_sq: u128 = dist_sq_wide(player_pos, ledges[0].position);
    let mut i: usize = 1;
    while i < ledges.len()
        invariant
            1 <= i <= ledges@.len(),
            best < i,
            best == nearest_idx(player_pos, ledges@.take(i as int)),
            best_sq == dist_sq(player_pos, ledges@[best as int].position),
        decreases ledges@.len() - i,
    {
        let d = dist_sq_wide(player_pos, ledges[i].position);
        proof {
            assert(ledges@.take(i + 1).drop_last() =~= ledges@.take(i as int));
            assert(ledges@.take(i + 1).last() == ledges@[i as int]);
        }
        if d < best_sq {
            best = i;
            best_sq = d;
        }
        i += 1;
    }
    proof {
        assert(ledges@.take(ledges@.len() as int) =~= ledges@);
        lemma_nearest_idx_props(player_pos, ledges@);
    }
    let pos = ledges[best].position;
    let d = dist(player_pos, pos);
    Some((ledges[best].id, pos, d))
}

/// The ledge carrying `id`, scanning from the front; the scene's uniqueness
/// invariant makes the match unique when there is one.
pub open spec fn find_ledge(s: Seq<Ledge>, id: u32) -> Option<Ledge>
    decreases s.len(),
{
    if s.len() == 0 {
        None
    } else if s[0].id == id {
        Some(s[0])
    } else {
        find_ledge(s.subrange(1, s.len() as int), id)
    }
}

/// A successful lookup hands back one of the sequence's own elements.
pub proof fn lemma_find_ledge_in(s: Seq<Ledge>, id: u32)
    ensures
        find_ledge(s, id) matches Some(l) ==> exists|i: int|
            0 <= i < s.len() && s[i] == l,
    decreases s.len(),
{
    if s.len() > 0 && s[0].id != id {
        let t = s.subrange(1, s.len() as int);
        lemma_find_ledge_in(t, id);
        match find_ledge(s, id) {
            Some(l) => {
                let i = choose|i: int| 0 <= i < t.len() && t[i] == l;
                assert(s[i + 1] == l);
            },
            None => {},
        }
    }
}

/// Look a ledge up by id; a miss is an ordinary `None`, never a fault.
#[verifier::loop_isolation(false)]
pub fn lookup_ledge(ledges: &Vec<Ledge>, id: u32) -> (r: Option<Ledge>)
    ensures
        r == find_ledge(ledges@, id),
{
    let n = ledges.len();
    let mut i: usize = 0;
    proof {
        assert(ledges@.subrange(0, n as int) =~= ledges@);
    }
    while i < n
        invariant
            i <= n,
            n == ledges@.len(),
            find_ledge(ledges@, id) == find_ledge(
                ledges@.subrange(i as int, n as int),
                id,
            ),
        decreases n - i,
    {
        let l = ledges[i];
        proof {
            assert(ledges@.subrange(i as int, n as int)[0] == ledges@[i as int]);
            assert(ledges@.subrange(i as int, n as int).subrange(
                1,
                (n - i) as int,
            ) =~= ledges@.subrange(i + 1, n as int));
        }
        if l.id == id {
            return Some(l);
        }
        i += 1;
    }
    proof {
        assert(ledges@.subrange(n as int, n as int) =~= Seq::<Ledge>::empty());
    }
    None
}

/// The scan stage of a tick: resolve the nearest ledge and, while the player
/// is detached, record its distance in the player's scratch field. The
/// resolver never touches the attachment target once the player is attached.
pub fn player_ledge_edging(player: &mut Player, ledges: &Vec<Ledge>) -> (r: Option<
    (u32, Vec2, i64),
>)
    requires
        pos_ok(old(player).position),
        ledges_pos_ok(ledges@),
    ensures
        r == nearest_opt(old(player).position, ledges@),
        final(player).closest_distance == (if !old(player).attached && ledges@.len() > 0 {
            dist_fx(
                old(player).position,
                ledges@[nearest_idx(old(player).position, ledges@)].position,
            ) as i64
        } else {
            old(player).closest_distance
        }),
        final(player).position == old(player).position,
        final(player).velocity == old(player).velocity,
        final(player).attached == old(player).attached,
        final(player).swinging == old(player).swinging,
        final(player).attached_ledge_id == old(player).attached_ledge_id,
        final(player).attach_point == old(player).attach_point,
{
    let r = nearest_ledge(player.position, ledges);
    if !player.attached {
        match r {
            Some(t) => {
                player.closest_distance = t.2;
            },
            None => {},
        }
    }
    r
}

} // verus!
