//! Broad phase: from the current collider bounding boxes (padded by a
//! margin proportional to velocity) to a deduplicated candidate pair set,
//! excluding self-pairs and pairs of two static colliders.

use vstd::prelude::*;
use crate::shape::{
    Aabb, aabb_overlap, shape_aabb, spec_aabb_overlap, spec_shape_aabb, spec_v_abs, v_abs,
};
use crate::store::{
    Body, BodyKind, Collider, Slot, slot_get, spec_slot_get,
};
use crate::vec3::{
    Quat, Vec3, q_identity, q_rotate, spec_q_identity, spec_q_rotate, spec_v_add, spec_v_scale,
    spec_v_sub, spec_v_zero, v_add, v_scale, v_sub, v_zero,
};

verus! {

/// Extra padding added to every bounding box, keeping near-touching pairs
/// in view of the narrow phase.
pub const BROAD_MARGIN: i64 = 10_000;

/// The body a collider is attached to, if its parent handle resolves.
pub open spec fn spec_collider_body(bodies: Seq<Slot<Body>>, c: Collider) -> Option<Body> {
    match c.parent {
        Some(h) => spec_slot_get(bodies, h.index as int, h.generation),
        None => None,
    }
}

/// Arena index of the collider's parent body, when it resolves.
pub open spec fn spec_collider_body_index(bodies: Seq<Slot<Body>>, c: Collider) -> Option<usize> {
    match c.parent {
        Some(h) => if spec_collider_body(bodies, c) is Some {
            Some(h.index)
        } else {
            None
        },
        None => None,
    }
}

/// World position of a collider: the parent's transform applied to the
/// local offset, or the offset itself for a parentless collider.
pub open spec fn spec_collider_pos(bodies: Seq<Slot<Body>>, c: Collider) -> Vec3 {
    match spec_collider_body(bodies, c) {
        Some(b) => spec_v_add(b.pos, spec_q_rotate(b.rot, c.local_pos)),
        None => c.local_pos,
    }
}

pub open spec fn spec_collider_rot(bodies: Seq<Slot<Body>>, c: Collider) -> Quat {
    match spec_collider_body(bodies, c) {
        Some(b) => b.rot,
        None => spec_q_identity(),
    }
}

pub open spec fn spec_collider_vel(bodies: Seq<Slot<Body>>, c: Collider) -> Vec3 {
    match spec_collider_body(bodies, c) {
        Some(b) => b.lin_vel,
        None => spec_v_zero(),
    }
}

/// A collider is static when it has no (live) parent or its parent is a
/// fixed body.
pub open spec fn spec_collider_static(bodies: Seq<Slot<Body>>, c: Collider) -> bool {
    match spec_collider_body(bodies, c) {
        Some(b) => b.kind is Fixed,
        None => true,
    }
}

/// A collider's world bounding box, padded by |velocity| * dt plus the
/// fixed margin.
#[verifier::opaque]
pub open spec fn spec_padded_aabb(bodies: Seq<Slot<Body>>, c: Collider, dt: i64) -> Aabb {
    let bb = spec_shape_aabb(c.shape, spec_collider_pos(bodies, c), spec_collider_rot(bodies, c));
    let pad = spec_v_add(
        spec_v_abs(spec_v_scale(spec_collider_vel(bodies, c), dt as int)),
        Vec3 { x: BROAD_MARGIN, y: BROAD_MARGIN, z: BROAD_MARGIN },
    );
    Aabb { min: spec_v_sub(bb.min, pad), max: spec_v_add(bb.max, pad) }
}

/// Candidate pair: two distinct live colliders, not both static, with
/// overlapping padded boxes.
#[verifier::opaque]
pub open spec fn spec_candidate(
    bodies: Seq<Slot<Body>>,
    cols: Seq<Slot<Collider>>,
    dt: i64,
    i: int,
    j: int,
) -> bool {
    0 <= i < j < cols.len() && cols[i].val is Some && cols[j].val is Some && !(spec_collider_static(
        bodies,
        cols[i].val->0,
    ) && spec_collider_static(bodies, cols[j].val->0)) && spec_aabb_overlap(
        spec_padded_aabb(bodies, cols[i].val->0, dt),
        spec_padded_aabb(bodies, cols[j].val->0, dt),
    )
}

/// Candidate pairs (i, j') for one fixed i, j' ranging over [j, len).
pub open spec fn spec_pairs_row(
    bodies: Seq<Slot<Body>>,
    cols: Seq<Slot<Collider>>,
    dt: i64,
    i: int,
    j: int,
) -> Seq<(usize, usize)>
    decreases cols.len() - j
    when 0 <= j <= cols.len()
{
    if j >= cols.len() {
        Seq::empty()
    } else {
        let rest = spec_pairs_row(bodies, cols, dt, i, j + 1);
        if spec_candidate(bodies, cols, dt, i, j) {
            seq![(i as usize, j as usize)] + rest
        } else {
            rest
        }
    }
}

/// All candidate pairs with first index at least `i`, in row-major order.
pub open spec fn spec_pairs_from(
    bodies: Seq<Slot<Body>>,
    cols: Seq<Slot<Collider>>,
    dt: i64,
    i: int,
) -> Seq<(usize, usize)>
    decreases cols.len() - i
    when 0 <= i <= cols.len()
{
    if i >= cols.len() {
        Seq::empty()
    } else {
        spec_pairs_row(bodies, cols, dt, i, i + 1) + spec_pairs_from(bodies, cols, dt, i + 1)
    }
}

/// The broad phase's whole output.
pub open spec fn spec_broad_pairs(
    bodies: Seq<Slot<Body>>,
    cols: Seq<Slot<Collider>>,
    dt: i64,
) -> Seq<(usize, usize)> {
    spec_pairs_from(bodies, cols, dt, 0)
}

pub fn collider_body(bodies: &Vec<Slot<Body>>, c: &Collider) -> (r: Option<Body>)
    ensures
        r == spec_collider_body(bodies@, *c),
{
    match c.parent {
        Some(h) => slot_get(bodies, h.index, h.generation),
        None => None,
    }
}

pub fn collider_body_index(bodies: &Vec<Slot<Body>>, c: &Collider) -> (r: Option<usize>)
    ensures
        r == spec_collider_body_index(bodies@, *c),
{
    match c.parent {
        Some(h) => {
            if slot_get(bodies, h.index, h.generation).is_some() {
                Some(h.index)
            } else {
                None
            }
        },
        None => None,
    }
}

pub fn collider_pos(bodies: &Vec<Slot<Body>>, c: &Collider) -> (r: Vec3)
    ensures
        r == spec_collider_pos(bodies@, *c),
{
    match collider_body(bodies, c) {
        Some(b) => v_add(b.pos, q_rotate(b.rot, c.local_pos)),
        None => c.local_pos,
    }
}

pub fn collider_rot(bodies: &Vec<Slot<Body>>, c: &Collider) -> (r: Quat)
    ensures
        r == spec_collider_rot(bodies@, *c),
{
    match collider_body(bodies, c) {
        Some(b) => b.rot,
        None => q_identity(),
    }
}

pub fn collider_vel(bodies: &Vec<Slot<Body>>, c: &Collider) -> (r: Vec3)
    ensures
        r == spec_collider_vel(bodies@, *c),
{
    match collider_body(bodies, c) {
        Some(b) => b.lin_vel,
        None => v_zero(),
    }
}

pub fn collider_static(bodies: &Vec<Slot<Body>>, c: &Collider) -> (r: bool)
    ensures
        r == spec_collider_static(bodies@, *c),
{
    match collider_body(bodies, c) {
        Some(b) => matches!(b.kind, BodyKind::Fixed),
        None => true,
    }
}

fn padded_aabb(bodies: &Vec<Slot<Body>>, c: &Collider, dt: i64) -> (r: Aabb)
    ensures
        r == spec_padded_aabb(bodies@, *c, dt),
{
    proof {
        reveal(spec_padded_aabb);
    }
    let bb = shape_aabb(&c.shape, collider_pos(bodies, c), collider_rot(bodies, c));
    let pad = v_add(
        v_abs(v_scale(collider_vel(bodies, c), dt)),
        Vec3 { x: BROAD_MARGIN, y: BROAD_MARGIN, z: BROAD_MARGIN },
    );
    Aabb { min: v_sub(bb.min, pad), max: v_add(bb.max, pad) }
}

fn candidate(bodies: &Vec<Slot<Body>>, cols: &Vec<Slot<Collider>>, dt: i64, i: usize, j: usize) -> (r: bool)
    requires
        i < cols@.len(),
        j < cols@.len(),
        i < j,
    ensures
        r == spec_candidate(bodies@, cols@, dt, i as int, j as int),
{
    proof {
        reveal(spec_candidate);
    }
    let si: Slot<Collider> = cols[i];
    let sj: Slot<Collider> = cols[j];
    match (si.val, sj.val) {
        (Some(ci), Some(cj)) => {
            let both_static = collider_static(bodies, &ci) && collider_static(bodies, &cj);
            if both_static {
                false
            } else {
                let bi = padded_aabb(bodies, &ci, dt);
                let bj = padded_aabb(bodies, &cj, dt);
                aabb_overlap(&bi, &bj)
            }
        },
        _ => false,
    }
}

/// Collect every candidate pair, each exactly once, in row-major order.
pub fn broad_phase(bodies: &Vec<Slot<Body>>, cols: &Vec<Slot<Collider>>, dt: i64) -> (r: Vec<
    (usize, usize),
>)
    ensures
        r@ == spec_broad_pairs(bodies@, cols@, dt),
{
    let n: usize = cols.len();
    let mut acc: Vec<(usize, usize)> = Vec::new();
    let mut i: usize = 0;
    while i < n
        invariant
            i <= n,
            n == cols@.len(),
            spec_broad_pairs(bodies@, cols@, dt) == acc@ + spec_pairs_from(
                bodies@,
                cols@,
                dt,
                i as int,
            ),
        decreases n - i,
    {
        let mut j: usize = i + 1;
        while j < n
            invariant
                i < j <= n,
                n == cols@.len(),
                spec_broad_pairs(bodies@, cols@, dt) == acc@ + spec_pairs_row(
                    bodies@,
                    cols@,
                    dt,
                    i as int,
                    j as int,
                ) + spec_pairs_from(bodies@, cols@, dt, i as int + 1),
            decreases n - j,
        {
            if candidate(bodies, cols, dt, i, j) {
                let ghost before = acc@;
                acc.push((i, j));
                proof {
                    assert(acc@ + spec_pairs_row(bodies@, cols@, dt, i as int, j as int + 1)
                        =~= before + spec_pairs_row(bodies@, cols@, dt, i as int, j as int));
                }
            }
            j = j + 1;
        }
        proof {
            assert(acc@ + spec_pairs_from(bodies@, cols@, dt, i as int + 1) =~= acc@
                + spec_pairs_row(bodies@, cols@, dt, i as int, n as int) + spec_pairs_from(
                bodies@,
                cols@,
                dt,
                i as int + 1,
            ));
        }
        i = i + 1;
    }
    acc
}

/// A candidate pair's indices are in bounds by definition.
pub proof fn lemma_candidate_bounds(
    bodies: Seq<Slot<Body>>,
    cols: Seq<Slot<Collider>>,
    dt: i64,
    i: int,
    j: int,
)
    ensures
        spec_candidate(bodies, cols, dt, i, j) ==> 0 <= i < j < cols.len(),
{
    reveal(spec_candidate);
}

/// Elements of one row: first index i, second index in [j, len), each a
/// candidate, strictly ordered (hence no duplicates).
proof fn lemma_row_elems(
    bodies: Seq<Slot<Body>>,
    cols: Seq<Slot<Collider>>,
    dt: i64,
    i: int,
    j: int,
)
    requires
        0 <= i < cols.len(),
        0 <= j <= cols.len(),
        cols.len() <= usize::MAX,
    ensures
        forall|p: (usize, usize)|
            #[trigger] spec_pairs_row(bodies, cols, dt, i, j).contains(p) <==> (p.0 == i && j
                <= p.1 < cols.len() && spec_candidate(bodies, cols, dt, i, p.1 as int)),
        spec_pairs_row(bodies, cols, dt, i, j).no_duplicates(),
    decreases cols.len() - j,
{
    if j < cols.len() {
        lemma_row_elems(bodies, cols, dt, i, j + 1);
        let rest = spec_pairs_row(bodies, cols, dt, i, j + 1);
        let whole = spec_pairs_row(bodies, cols, dt, i, j);
        if spec_candidate(bodies, cols, dt, i, j) {
            assert(whole == seq![(i as usize, j as usize)] + rest);
            assert forall|p: (usize, usize)| #[trigger] whole.contains(p) implies (p.0 == i && j
                <= p.1 < cols.len() && spec_candidate(bodies, cols, dt, i, p.1 as int)) by {
                let k = choose|k: int| 0 <= k < whole.len() && whole[k] == p;
                if k == 0 {
                    assert(p == (i as usize, j as usize));
                } else {
                    assert(rest[k - 1] == p);
                    assert(rest.contains(p));
                }
            }
            assert forall|p: (usize, usize)|
                p.0 == i && j <= p.1 < cols.len() && spec_candidate(
                    bodies,
                    cols,
                    dt,
                    i,
                    p.1 as int,
                ) implies #[trigger] whole.contains(p) by {
                if p.1 == j {
                    assert(whole[0] == p);
                } else {
                    assert(rest.contains(p));
                    let k = choose|k: int| 0 <= k < rest.len() && rest[k] == p;
                    assert(whole[k + 1] == p);
                }
            }
            assert(!rest.contains((i as usize, j as usize)));
        } else {
            assert(whole == rest);
            assert forall|p: (usize, usize)|
                p.0 == i && j <= p.1 < cols.len() && spec_candidate(
                    bodies,
                    cols,
                    dt,
                    i,
                    p.1 as int,
                ) implies #[trigger] whole.contains(p) by {
                assert(p.1 != j);
                assert(rest.contains(p));
            }
        }
    }
}

/// LAW (broad-phase exactness): the pair set contains (i, j) precisely when
/// i < j, both colliders are live, they are not both static, and their
/// padded boxes overlap — and it contains no pair twice, whatever order
/// entities were inserted in.
pub proof fn lemma_broad_pairs_exact(
    bodies: Seq<Slot<Body>>,
    cols: Seq<Slot<Collider>>,
    dt: i64,
    i: int,
)
    requires
        0 <= i <= cols.len(),
        cols.len() <= usize::MAX,
    ensures
        forall|p: (usize, usize)|
            #[trigger] spec_pairs_from(bodies, cols, dt, i).contains(p) <==> (i <= p.0
                && spec_candidate(bodies, cols, dt, p.0 as int, p.1 as int)),
        spec_pairs_from(bodies, cols, dt, i).no_duplicates(),
    decreases cols.len() - i,
{
    if i >= cols.len() {
        assert forall|p: (usize, usize)|
            !(i <= p.0 && spec_candidate(bodies, cols, dt, p.0 as int, p.1 as int)) by {
            lemma_candidate_bounds(bodies, cols, dt, p.0 as int, p.1 as int);
        }
    } else {
        lemma_broad_pairs_exact(bodies, cols, dt, i + 1);
        lemma_row_elems(bodies, cols, dt, i, i + 1);
        let row = spec_pairs_row(bodies, cols, dt, i, i + 1);
        let rest = spec_pairs_from(bodies, cols, dt, i + 1);
        let whole = spec_pairs_from(bodies, cols, dt, i);
        assert(whole == row + rest);
        assert forall|p: (usize, usize)| #[trigger] whole.contains(p) implies (i <= p.0
            && spec_candidate(bodies, cols, dt, p.0 as int, p.1 as int)) by {
            if !row.contains(p) {
                assert(rest.contains(p));
            } else {
                assert(p.0 == i && spec_candidate(bodies, cols, dt, i, p.1 as int));
                assert(spec_candidate(bodies, cols, dt, p.0 as int, p.1 as int));
            }
        }
        assert forall|p: (usize, usize)|
            i <= p.0 && spec_candidate(bodies, cols, dt, p.0 as int, p.1 as int) implies #[trigger] whole.contains(
            p,
        ) by {
            if p.0 == i {
                lemma_candidate_bounds(bodies, cols, dt, p.0 as int, p.1 as int);
                assert(i < p.1 < cols.len());
                assert(row.contains(p));
                let k = choose|k: int| 0 <= k < row.len() && row[k] == p;
                assert(whole[k] == p);
            } else {
                assert(i + 1 <= p.0);
                assert(rest.contains(p));
                let k = choose|k: int| 0 <= k < rest.len() && rest[k] == p;
                assert(whole[row.len() + k] == p);
            }
        }
        assert forall|k1: int, k2: int| 0 <= k1 < k2 < whole.len() implies whole[k1] != whole[k2]
            by {
            if k1 < row.len() && k2 >= row.len() {
                assert(row.contains(whole[k1]));
                assert(rest.contains(whole[k2]));
                assert(whole[k1].0 == i);
                assert(i + 1 <= whole[k2].0);
            } else if k2 < row.len() {
                assert(row.no_duplicates());
            } else {
                assert(rest.no_duplicates());
                assert(rest[k1 - row.len()] != rest[k2 - row.len()]);
            }
        }
    }
}

} // verus!
