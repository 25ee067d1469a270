//! Smooth normals by averaging over coinciding vertices.
//!
//! Vertices that stand at the same place, to a ten-thousandth, are given
//! one normal: the sum, at unit length, of the face normals of all the
//! triangles that touch any of them.

use vstd::prelude::*;
use crate::types::Mesh3D;
use crate::vecmath::{
    add3, cross3, diff3, is_zero, is_zero3, mul3, prod3, splat, splat3, sub3, sum3, trunc3,
    truncate3, unit3, Point3D,
};

verus! {

/// `rustc_hash::FxBuildHasher`, the hasher of the position map.
#[verifier::external_type_specification]
#[verifier::external_body]
pub struct ExFxBuildHasher(rustc_hash::FxBuildHasher);

/// A position on the grid of ten-thousandths.
pub type GridKey = (i32, i32, i32);

/// The numbers of the vertices at each grid position.
pub type PositionMap = rustc_hash::FxHashMap<GridKey, Vec<usize>>;

/// What the map holds: for each grid position in it, the numbers of the
/// vertices filed there, in the order in which they were filed.
pub uninterp spec fn groups_of(positions: PositionMap) -> Map<GridKey, Seq<usize>>;

/// The group at `key`, empty where the map has none.
pub open spec fn group_at(groups: Map<GridKey, Seq<usize>>, key: GridKey) -> Seq<usize> {
    if groups.contains_key(key) {
        groups[key]
    } else {
        Seq::empty()
    }
}

/// Whether `group` is the group at some position.
pub open spec fn is_group(groups: Map<GridKey, Seq<usize>>, group: Seq<usize>) -> bool {
    exists|key: GridKey| groups.contains_key(key) && #[trigger] groups[key] == group
}

/// Whether `group` is in the list.
pub open spec fn is_listed(list: Seq<Vec<usize>>, group: Seq<usize>) -> bool {
    exists|j: int| 0 <= j < list.len() && (#[trigger] list[j])@ == group
}

/// `FxHashMap::default`: a map that holds nothing.
#[verifier::external_body]
fn new_groups() -> (positions: PositionMap)
    ensures
        groups_of(positions) == (Map::<GridKey, Seq<usize>>::empty()),
{
    rustc_hash::FxHashMap::default()
}

/// The map's `entry(key).or_default()`, and `push` on the vector that it
/// gives: `index` is added at the end of the group at `key`, which is
/// made if the map had none there. No other group changes.
#[verifier::external_body]
fn add_to_group(positions: &mut PositionMap, key: GridKey, index: usize)
    ensures
        groups_of(*final(positions)) == groups_of(*old(positions)).insert(
            key,
            group_at(groups_of(*old(positions)), key).push(index),
        ),
{
    positions.entry(key).or_default().push(index);
}

/// The map's `values()`, each group copied out: every group of the map
/// and nothing else, in the order in which the map walks them.
#[verifier::external_body]
fn group_list(positions: &PositionMap) -> (list: Vec<Vec<usize>>)
    ensures
        forall|j: int|
            0 <= j < list@.len() ==> is_group(groups_of(*positions), (#[trigger] list@[j])@),
        forall|key: GridKey| #[trigger]
            groups_of(*positions).contains_key(key) ==> is_listed(
                list@,
                groups_of(*positions)[key],
            ),
{
    positions.values().cloned().collect()
}

/// The grid position of a point: each coordinate times ten thousand, cut
/// off toward zero.
pub open spec fn quantized(v: Point3D) -> GridKey {
    trunc3(prod3(v, splat3(10000)))
}

/// The grid position of each vertex.
pub open spec fn grid_keys(vertices: Seq<Point3D>) -> Seq<GridKey> {
    Seq::new(vertices.len(), |i: int| quantized(vertices[i]))
}

/// The vertices among the first `upto` that stand at `key`, in order.
pub open spec fn members(keys: Seq<GridKey>, key: GridKey, upto: nat) -> Seq<usize>
    decreases upto,
{
    if upto == 0 {
        Seq::empty()
    } else {
        let before = members(keys, key, (upto - 1) as nat);
        if keys[upto - 1] == key {
            before.push((upto - 1) as usize)
        } else {
            before
        }
    }
}

/// The face normal of a triangle, not scaled: the cross product of its
/// two edges from the first corner.
pub open spec fn face_normal(vertices: Seq<Point3D>, i0: int, i1: int, i2: int) -> Point3D {
    cross3(diff3(vertices[i1], vertices[i0]), diff3(vertices[i2], vertices[i0]))
}

/// For each vertex, the sum of the face normals of the first `triangles`
/// triangles at each corner that it is.
pub open spec fn accumulated(vertices: Seq<Point3D>, indices: Seq<u32>, triangles: nat) -> Seq<
    Point3D,
>
    decreases triangles,
{
    if triangles == 0 {
        Seq::new(vertices.len(), |i: int| splat3(0))
    } else {
        let before = accumulated(vertices, indices, (triangles - 1) as nat);
        let i0 = indices[3 * (triangles - 1)] as int;
        let i1 = indices[3 * (triangles - 1) + 1] as int;
        let i2 = indices[3 * (triangles - 1) + 2] as int;
        let normal = face_normal(vertices, i0, i1, i2);
        let first = before.update(i0, sum3(before[i0], normal));
        let second = first.update(i1, sum3(first[i1], normal));
        second.update(i2, sum3(second[i2], normal))
    }
}

/// The sum, from zero, of the sums of the first `upto` vertices of a group.
pub open spec fn group_sum(sums: Seq<Point3D>, group: Seq<usize>, upto: nat) -> Point3D
    decreases upto,
{
    if upto == 0 {
        splat3(0)
    } else {
        sum3(group_sum(sums, group, (upto - 1) as nat), sums[group[upto - 1] as int])
    }
}

/// What the normal of a group is made from: the sum of its only vertex, or
/// the sum over its vertices.
pub open spec fn group_total(sums: Seq<Point3D>, group: Seq<usize>) -> Point3D {
    if group.len() <= 1 {
        sums[group[0] as int]
    } else {
        group_sum(sums, group, group.len())
    }
}

/// The normal of vertex `i` after smoothing: the total of its group at
/// unit length, or its old normal where that total is zero.
pub open spec fn smoothed_normal(mesh: Mesh3D, i: int) -> Point3D {
    let keys = grid_keys(mesh.vertices@);
    let sums = accumulated(mesh.vertices@, mesh.indices@, mesh.indices@.len() / 3);
    let total = group_total(sums, members(keys, keys[i], keys.len()));
    if is_zero3(total) {
        mesh.normals@[i]
    } else {
        unit3(total)
    }
}

/// The normals after smoothing.
pub open spec fn smoothed_normals(mesh: Mesh3D) -> Seq<Point3D> {
    Seq::new(mesh.vertices@.len(), |i: int| smoothed_normal(mesh, i))
}

/// Whether the first `upto` vertices of the group have their smoothed
/// normals in `normals`.
pub open spec fn settled(normals: Seq<Point3D>, mesh: Mesh3D, group: Seq<usize>, upto: int) -> bool {
    forall|q: int|
        0 <= q < upto ==> (#[trigger] group[q]) < normals.len() && normals[group[q] as int]
            == smoothed_normal(mesh, group[q] as int)
}

proof fn lemma_members_within(keys: Seq<GridKey>, key: GridKey, upto: nat)
    requires
        upto <= keys.len(),
        keys.len() <= usize::MAX,
    ensures
        forall|p: int|
            0 <= p < members(keys, key, upto).len() ==> (#[trigger] members(keys, key, upto)[p])
                < upto && keys[members(keys, key, upto)[p] as int] == key,
    decreases upto,
{
    if upto > 0 {
        lemma_members_within(keys, key, (upto - 1) as nat);
        let all = members(keys, key, upto);
        let before = members(keys, key, (upto - 1) as nat);
        assert forall|p: int| 0 <= p < all.len() implies (#[trigger] all[p]) < upto && keys[all[p] as int]
            == key by {
            if p < before.len() {
                assert(all[p] == before[p]);
            }
        }
    }
}

proof fn lemma_member_present(keys: Seq<GridKey>, i: int, upto: nat)
    requires
        0 <= i < upto <= keys.len(),
        keys.len() <= usize::MAX,
    ensures
        exists|p: int|
            0 <= p < members(keys, keys[i], upto).len() && #[trigger] members(
                keys,
                keys[i],
                upto,
            )[p] == i,
    decreases upto,
{
    let all = members(keys, keys[i], upto);
    if i == upto - 1 {
        assert(all[all.len() - 1] == i);
    } else {
        lemma_member_present(keys, i, (upto - 1) as nat);
        let before = members(keys, keys[i], (upto - 1) as nat);
        let p = choose|p: int| 0 <= p < before.len() && #[trigger] before[p] == i;
        assert(all[p] == i);
    }
}

proof fn lemma_accumulated_len(vertices: Seq<Point3D>, indices: Seq<u32>, triangles: nat)
    requires
        3 * triangles <= indices.len(),
        forall|i: int| 0 <= i < indices.len() ==> (#[trigger] indices[i]) < vertices.len(),
    ensures
        accumulated(vertices, indices, triangles).len() == vertices.len(),
    decreases triangles,
{
    if triangles > 0 {
        lemma_accumulated_len(vertices, indices, (triangles - 1) as nat);
    }
}

/// Files every vertex under its grid position.
fn group_by_position(mesh: &Mesh3D) -> (positions: PositionMap)
    ensures
        forall|key: GridKey| #[trigger]
            groups_of(positions).contains_key(key) ==> groups_of(positions)[key] == members(
                grid_keys(mesh.vertices@),
                key,
                mesh.vertices@.len(),
            ),
        forall|key: GridKey|
            groups_of(positions).contains_key(key) <==> (#[trigger] members(
                grid_keys(mesh.vertices@),
                key,
                mesh.vertices@.len(),
            )).len() > 0,
{
    let mut positions = new_groups();
    let scale = splat(10000);
    let ghost keys = grid_keys(mesh.vertices@);
    let mut i: usize = 0;
    while i < mesh.vertices.len()
        invariant
            i <= mesh.vertices@.len(),
            scale == splat3(10000),
            keys == grid_keys(mesh.vertices@),
            forall|key: GridKey| #[trigger]
                groups_of(positions).contains_key(key) ==> groups_of(positions)[key] == members(
                    keys,
                    key,
                    i as nat,
                ),
            forall|key: GridKey|
                groups_of(positions).contains_key(key) <==> (#[trigger] members(
                    keys,
                    key,
                    i as nat,
                )).len() > 0,
        decreases mesh.vertices@.len() - i,
    {
        let key = truncate3(mul3(mesh.vertices[i], scale));
        let ghost before = groups_of(positions);
        add_to_group(&mut positions, key, i);
        i += 1;
        proof {
            let after = groups_of(positions);
            assert(key == keys[i - 1]);
            assert(after == before.insert(key, group_at(before, key).push((i - 1) as usize)));
            assert forall|k: GridKey| #[trigger] after.contains_key(k) implies after[k] == members(
                keys,
                k,
                i as nat,
            ) by {
                if k != key {
                    assert(before.contains_key(k));
                } else if !before.contains_key(k) {
                    assert(members(keys, k, (i - 1) as nat).len() == 0);
                    assert(members(keys, k, (i - 1) as nat) =~= Seq::<usize>::empty());
                }
            }
            assert forall|k: GridKey|
                after.contains_key(k) <==> (#[trigger] members(keys, k, i as nat)).len() > 0 by {
                let earlier = members(keys, k, (i - 1) as nat);
                assert(before.contains_key(k) <==> earlier.len() > 0);
                if k == key {
                    assert(members(keys, k, i as nat) == earlier.push((i - 1) as usize));
                } else {
                    assert(members(keys, k, i as nat) == earlier);
                    assert(after.contains_key(k) == before.contains_key(k));
                }
            }
        }
    }
    positions
}

/// For each vertex, the sum of the face normals of the triangles at each
/// corner that it is.
fn accumulate_face_normals(mesh: &Mesh3D) -> (sums: Vec<Point3D>)
    requires
        mesh.well_formed(),
    ensures
        sums@ == accumulated(mesh.vertices@, mesh.indices@, mesh.indices@.len() / 3),
        sums@.len() == mesh.vertices@.len(),
{
    let n = mesh.vertices.len();
    let zero = splat(0);
    let mut sums: Vec<Point3D> = Vec::new();
    proof {
        lemma_accumulated_len(mesh.vertices@, mesh.indices@, mesh.indices@.len() / 3);
    }
    let mut i: usize = 0;
    while i < n
        invariant
            i <= n,
            zero == splat3(0),
            sums@ == Seq::new(i as nat, |j: int| splat3(0)),
        decreases n - i,
    {
        sums.push(zero);
        i += 1;
        assert(sums@ =~= Seq::new(i as nat, |j: int| splat3(0)));
    }
    let index_count = mesh.indices.len();
    let triangles = index_count / 3;
    let mut t: usize = 0;
    while t < triangles
        invariant
            t <= triangles,
            mesh.well_formed(),
            n == mesh.vertices@.len(),
            index_count == mesh.indices@.len(),
            triangles == index_count / 3,
            sums@.len() == n,
            sums@ == accumulated(mesh.vertices@, mesh.indices@, t as nat),
        decreases triangles - t,
    {
        assert(3 * t + 2 < index_count);
        let i0 = mesh.indices[3 * t] as usize;
        let i1 = mesh.indices[3 * t + 1] as usize;
        let i2 = mesh.indices[3 * t + 2] as usize;
        let v0 = mesh.vertices[i0];
        let edge1 = sub3(mesh.vertices[i1], v0);
        let edge2 = sub3(mesh.vertices[i2], v0);
        let normal = edge1.cross(edge2);
        let a0 = add3(sums[i0], normal);
        sums.set(i0, a0);
        let a1 = add3(sums[i1], normal);
        sums.set(i1, a1);
        let a2 = add3(sums[i2], normal);
        sums.set(i2, a2);
        t += 1;
    }
    sums
}

/// Gives every vertex the normal of the vertices that share its place.
///
/// Each vertex is filed under its position on the grid of ten-thousandths.
/// Every triangle adds its face normal, not scaled, to the sum of each of
/// its corners. The vertices of one grid position then all get the sum of
/// their sums, at unit length; where that is zero they keep the normal
/// that they had. Vertices and indices are left as they are.
pub fn compute_smooth_normals(mesh: &mut Mesh3D)
    requires
        old(mesh).well_formed(),
    ensures
        final(mesh).vertices@ == old(mesh).vertices@,
        final(mesh).indices@ == old(mesh).indices@,
        final(mesh).normals@ == smoothed_normals(*old(mesh)),
        final(mesh).well_formed(),
{
    let n = mesh.vertices.len();
    let positions = group_by_position(mesh);
    let sums = accumulate_face_normals(mesh);
    let list = group_list(&positions);
    let ghost keys = grid_keys(mesh.vertices@);
    let ghost groups = groups_of(positions);
    let mut g: usize = 0;
    while g < list.len()
        invariant
            g <= list@.len(),
            n == old(mesh).vertices@.len(),
            mesh.vertices@ == old(mesh).vertices@,
            mesh.indices@ == old(mesh).indices@,
            mesh.normals@.len() == n,
            keys == grid_keys(old(mesh).vertices@),
            keys.len() == n,
            sums@ == accumulated(
                old(mesh).vertices@,
                old(mesh).indices@,
                old(mesh).indices@.len() / 3,
            ),
            sums@.len() == n,
            forall|key: GridKey| #[trigger]
                groups.contains_key(key) ==> groups[key] == members(keys, key, n as nat),
            forall|key: GridKey|
                groups.contains_key(key) <==> (#[trigger] members(keys, key, n as nat)).len() > 0,
            forall|j: int| 0 <= j < list@.len() ==> is_group(groups, (#[trigger] list@[j])@),
            forall|i: int|
                0 <= i < n ==> (#[trigger] mesh.normals@[i]) == smoothed_normal(*old(mesh), i)
                    || mesh.normals@[i] == old(mesh).normals@[i],
            forall|j: int|
                0 <= j < g ==> settled(
                    mesh.normals@,
                    *old(mesh),
                    (#[trigger] list@[j])@,
                    list@[j]@.len() as int,
                ),
        decreases list@.len() - g,
    {
        let group = &list[g];
        assert(is_group(groups, list@[g as int]@));
        let ghost key = choose|key: GridKey|
            groups.contains_key(key) && #[trigger] groups[key] == list@[g as int]@;
        proof {
            lemma_members_within(keys, key, n as nat);
            assert(members(keys, key, n as nat).len() > 0);
        }
        let size = group.len();
        let total = if size <= 1 {
            sums[group[0]]
        } else {
            let mut sum = splat(0);
            let mut p: usize = 0;
            while p < size
                invariant
                    p <= size,
                    size == group@.len(),
                    sums@.len() == n,
                    forall|q: int| 0 <= q < size ==> (#[trigger] group@[q]) < n,
                    sum == group_sum(sums@, group@, p as nat),
                decreases size - p,
            {
                sum = add3(sum, sums[group[p]]);
                p += 1;
            }
            sum
        };
        assert(total == group_total(sums@, group@));
        assert forall|q: int| 0 <= q < size implies smoothed_normal(
            *old(mesh),
            (#[trigger] group@[q]) as int,
        ) == (if is_zero3(total) {
            old(mesh).normals@[group@[q] as int]
        } else {
            unit3(total)
        }) by {
            assert(keys[group@[q] as int] == key);
        }
        if !is_zero(total) {
            let averaged = total.normalize();
            let mut p: usize = 0;
            while p < size
                invariant
                    p <= size,
                    size == group@.len(),
                    group@ == list@[g as int]@,
                    g < list@.len(),
                    n == old(mesh).vertices@.len(),
                    mesh.vertices@ == old(mesh).vertices@,
                    mesh.indices@ == old(mesh).indices@,
                    mesh.normals@.len() == n,
                    forall|q: int|
                        0 <= q < size ==> (#[trigger] group@[q]) < n && smoothed_normal(
                            *old(mesh),
                            group@[q] as int,
                        ) == averaged,
                    forall|i: int|
                        0 <= i < n ==> (#[trigger] mesh.normals@[i]) == smoothed_normal(
                            *old(mesh),
                            i,
                        ) || mesh.normals@[i] == old(mesh).normals@[i],
                    forall|j: int|
                        0 <= j < g ==> settled(
                            mesh.normals@,
                            *old(mesh),
                            (#[trigger] list@[j])@,
                            list@[j]@.len() as int,
                        ),
                    settled(mesh.normals@, *old(mesh), group@, p as int),
                decreases size - p,
            {
                let idx = group[p];
                let ghost before = mesh.normals@;
                mesh.normals.set(idx, averaged);
                proof {
                    assert forall|j: int| 0 <= j < g implies settled(
                        mesh.normals@,
                        *old(mesh),
                        (#[trigger] list@[j])@,
                        list@[j]@.len() as int,
                    ) by {
                        assert(settled(before, *old(mesh), list@[j]@, list@[j]@.len() as int));
                    }
                    assert(settled(before, *old(mesh), group@, p as int));
                }
                p += 1;
            }
        } else {
            assert(settled(mesh.normals@, *old(mesh), group@, size as int));
        }
        g += 1;
    }
    proof {
        assert forall|i: int| 0 <= i < n implies mesh.normals@[i] == smoothed_normal(
            *old(mesh),
            i,
        ) by {
            lemma_member_present(keys, i, n as nat);
            let own = members(keys, keys[i], n as nat);
            let p = choose|p: int| 0 <= p < own.len() && #[trigger] own[p] == i;
            assert(groups.contains_key(keys[i]));
            assert(is_listed(list@, groups[keys[i]]));
            let j = choose|j: int|
                0 <= j < list@.len() && (#[trigger] list@[j])@ == groups[keys[i]];
            assert(settled(mesh.normals@, *old(mesh), list@[j]@, list@[j]@.len() as int));
            assert(list@[j]@[p] == i);
        }
        assert(mesh.normals@ =~= smoothed_normals(*old(mesh)));
    }
}

} // verus!
