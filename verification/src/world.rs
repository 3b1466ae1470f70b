//! Bit-for-bit comparison of the game worlds that different platforms reached.

use vstd::prelude::*;

verus! {

/// The bit patterns of the three binary64 components of a vector.
#[derive(Clone, Copy, Debug)]
pub struct Vec3Bits {
    pub x: u64,
    pub y: u64,
    pub z: u64,
}

/// The bit patterns of one entity's position and velocity.
#[derive(Clone, Copy, Debug)]
pub struct EntityBits {
    pub pos: Vec3Bits,
    pub vel: Vec3Bits,
}

/// Two worlds agree bit for bit on every entity that both of them hold, taken
/// pairwise in order (the shorter world decides how many pairs there are).
pub open spec fn worlds_match(a: Seq<EntityBits>, b: Seq<EntityBits>) -> bool {
    forall|i: int| 0 <= i < a.len() && 0 <= i < b.len() ==> #[trigger] a[i] == #[trigger] b[i]
}

/// Every two of the given worlds agree bit for bit.
pub open spec fn all_worlds_match(worlds: Seq<Seq<EntityBits>>) -> bool {
    forall|i: int, j: int|
        0 <= i < j < worlds.len() ==> #[trigger] worlds_match(worlds[i], worlds[j])
}

/// Whether two entity states have identical bit patterns in all six components.
pub fn entities_identical(a: &EntityBits, b: &EntityBits) -> (same: bool)
    ensures
        same == (*a == *b),
        same == (a.pos.x == b.pos.x && a.pos.y == b.pos.y && a.pos.z == b.pos.z
            && a.vel.x == b.vel.x && a.vel.y == b.vel.y && a.vel.z == b.vel.z),
{
    a.pos.x == b.pos.x && a.pos.y == b.pos.y && a.pos.z == b.pos.z && a.vel.x == b.vel.x
        && a.vel.y == b.vel.y && a.vel.z == b.vel.z
}

/// Whether two worlds are bit-for-bit identical, entity by entity, over the
/// entities that both hold.
pub fn worlds_identical(a: &[EntityBits], b: &[EntityBits]) -> (same: bool)
    ensures
        same == worlds_match(a@, b@),
        forall|i: int|
            0 <= i < a.len() && 0 <= i < b.len() && #[trigger] a@[i] != #[trigger] b@[i] ==> !same,
        same ==> forall|i: int| 0 <= i < a.len() && 0 <= i < b.len() ==> #[trigger] a@[i] == #[trigger] b@[i],
{
    let n: usize = if a.len() < b.len() { a.len() } else { b.len() };
    let mut i: usize = 0;
    while i < n
        invariant
            n <= a.len(),
            n <= b.len(),
            n == a.len() || n == b.len(),
            i <= n,
            forall|k: int| 0 <= k < i ==> a@[k] == b@[k],
        decreases n - i,
    {
        if !entities_identical(&a[i], &b[i]) {
            assert(!worlds_match(a@, b@)) by {
                assert(a@[i as int] != b@[i as int]);
            }
            return false;
        }
        i = i + 1;
    }
    true
}

/// Whether every two of the given worlds are bit-for-bit identical.
pub fn platforms_in_sync(worlds: &[Vec<EntityBits>]) -> (in_sync: bool)
    ensures
        in_sync == all_worlds_match(worlds@.map_values(|w: Vec<EntityBits>| w@)),
        forall|i: int, j: int, k: int|
            0 <= i < j < worlds.len() && 0 <= k < worlds@[i].len() && 0 <= k < worlds@[j].len()
                && #[trigger] worlds@[i]@[k] != #[trigger] worlds@[j]@[k] ==> !in_sync,
        in_sync ==> forall|i: int, j: int, k: int|
            0 <= i < j < worlds.len() && 0 <= k < worlds@[i].len() && 0 <= k < worlds@[j].len()
                ==> #[trigger] worlds@[i]@[k] == #[trigger] worlds@[j]@[k],
{
    let ghost views = worlds@.map_values(|w: Vec<EntityBits>| w@);
    let n = worlds.len();
    let mut i: usize = 0;
    while i < n
        invariant
            n == worlds.len(),
            views == worlds@.map_values(|w: Vec<EntityBits>| w@),
            i <= n,
            forall|p: int, q: int| 0 <= p < i && p < q < n ==> #[trigger] worlds_match(views[p], views[q]),
        decreases n - i,
    {
        let mut j: usize = i + 1;
        while j < n
            invariant
                n == worlds.len(),
                views == worlds@.map_values(|w: Vec<EntityBits>| w@),
                i < n,
                i + 1 <= j <= n,
                forall|p: int, q: int| 0 <= p < i && p < q < n ==> #[trigger] worlds_match(views[p], views[q]),
                forall|q: int| i < q < j ==> #[trigger] worlds_match(views[i as int], views[q]),
            decreases n - j,
        {
            if !worlds_identical(worlds[i].as_slice(), worlds[j].as_slice()) {
                assert(!worlds_match(views[i as int], views[j as int]));
                return false;
            }
            j = j + 1;
        }
        i = i + 1;
    }
    proof {
        assert forall|p: int, q: int, k: int|
            0 <= p < q < worlds.len() && 0 <= k < worlds@[p].len() && 0 <= k < worlds@[q].len()
                implies #[trigger] worlds@[p]@[k] == #[trigger] worlds@[q]@[k] by {
            assert(worlds_match(views[p], views[q]));
            assert(views[p][k] == views[q][k]);
        }
    }
    true
}

/// Two worlds are identical exactly when, at every index that both of them
/// hold, the entities agree in all six components: the three position bit
/// patterns and the three velocity bit patterns.
pub proof fn lemma_worlds_match_componentwise(a: Seq<EntityBits>, b: Seq<EntityBits>)
    ensures
        worlds_match(a, b) <==> forall|i: int| 0 <= i < a.len() && 0 <= i < b.len() ==> {
            &&& (#[trigger] a[i]).pos.x == (#[trigger] b[i]).pos.x
            &&& a[i].pos.y == b[i].pos.y
            &&& a[i].pos.z == b[i].pos.z
            &&& a[i].vel.x == b[i].vel.x
            &&& a[i].vel.y == b[i].vel.y
            &&& a[i].vel.z == b[i].vel.z
        },
{
}

/// A difference in any one component of any entity that both worlds hold,
/// wherever it stands in the world, makes the worlds not identical.
pub proof fn lemma_worlds_difference_detected(a: Seq<EntityBits>, b: Seq<EntityBits>, k: int)
    requires
        0 <= k < a.len(),
        0 <= k < b.len(),
        a[k].pos.x != b[k].pos.x || a[k].pos.y != b[k].pos.y || a[k].pos.z != b[k].pos.z
            || a[k].vel.x != b[k].vel.x || a[k].vel.y != b[k].vel.y || a[k].vel.z != b[k].vel.z,
    ensures
        !worlds_match(a, b),
{
    assert(a[k] != b[k]);
}

/// Platforms are in sync exactly when every two of their worlds agree, at
/// every index that both hold, in all six components of the entity state.
pub proof fn lemma_all_worlds_match_componentwise(worlds: Seq<Seq<EntityBits>>)
    ensures
        all_worlds_match(worlds) <==> forall|i: int, j: int, k: int|
            0 <= i < j < worlds.len() && 0 <= k < worlds[i].len() && 0 <= k < worlds[j].len() ==> {
                &&& (#[trigger] worlds[i][k]).pos.x == (#[trigger] worlds[j][k]).pos.x
                &&& worlds[i][k].pos.y == worlds[j][k].pos.y
                &&& worlds[i][k].pos.z == worlds[j][k].pos.z
                &&& worlds[i][k].vel.x == worlds[j][k].vel.x
                &&& worlds[i][k].vel.y == worlds[j][k].vel.y
                &&& worlds[i][k].vel.z == worlds[j][k].vel.z
            },
{
    if all_worlds_match(worlds) {
        assert forall|i: int, j: int, k: int|
            0 <= i < j < worlds.len() && 0 <= k < worlds[i].len() && 0 <= k < worlds[j].len()
                implies #[trigger] worlds[i][k] == #[trigger] worlds[j][k] by {
            assert(worlds_match(worlds[i], worlds[j]));
        }
    }
    if forall|i: int, j: int, k: int|
        0 <= i < j < worlds.len() && 0 <= k < worlds[i].len() && 0 <= k < worlds[j].len()
            ==> #[trigger] worlds[i][k] == #[trigger] worlds[j][k] {
        assert forall|i: int, j: int| 0 <= i < j < worlds.len() implies #[trigger] worlds_match(
            worlds[i],
            worlds[j],
        ) by {
            assert forall|k: int| 0 <= k < worlds[i].len() && 0 <= k < worlds[j].len()
                implies #[trigger] worlds[i][k] == #[trigger] worlds[j][k] by {}
        }
    }
}

/// A difference in any one component, velocity as well as position, of any
/// entity between any two platforms means the platforms are not in sync.
pub proof fn lemma_out_of_sync_detected(worlds: Seq<Seq<EntityBits>>, i: int, j: int, k: int)
    requires
        0 <= i < j < worlds.len(),
        0 <= k < worlds[i].len(),
        0 <= k < worlds[j].len(),
        worlds[i][k].pos.x != worlds[j][k].pos.x || worlds[i][k].pos.y != worlds[j][k].pos.y
            || worlds[i][k].pos.z != worlds[j][k].pos.z || worlds[i][k].vel.x != worlds[j][k].vel.x
            || worlds[i][k].vel.y != worlds[j][k].vel.y || worlds[i][k].vel.z != worlds[j][k].vel.z,
    ensures
        !all_worlds_match(worlds),
{
    assert(worlds[i][k] != worlds[j][k]);
    assert(!worlds_match(worlds[i], worlds[j]));
}

/// Every world is bit-for-bit identical to itself.
pub proof fn lemma_worlds_match_reflexive(a: Seq<EntityBits>)
    ensures
        worlds_match(a, a),
{
}

/// Bit-for-bit identity of two worlds does not depend on the order in which
/// they are compared.
pub proof fn lemma_worlds_match_symmetric(a: Seq<EntityBits>, b: Seq<EntityBits>)
    ensures
        worlds_match(a, b) == worlds_match(b, a),
{
}

/// If a world is identical to a second one and the second to a third, the first
/// is identical to the third, provided the middle world reaches as far as one of
/// the outer two.
pub proof fn lemma_worlds_match_transitive(a: Seq<EntityBits>, b: Seq<EntityBits>, c: Seq<EntityBits>)
    requires
        worlds_match(a, b),
        worlds_match(b, c),
        b.len() >= a.len() || b.len() >= c.len(),
    ensures
        worlds_match(a, c),
{
    assert forall|i: int| 0 <= i < a.len() && 0 <= i < c.len() implies #[trigger] a[i] == #[trigger] c[i] by {
        assert(a[i] == b[i]);
        assert(b[i] == c[i]);
    }
}

} // verus!
