use vstd::prelude::*;

verus! {

/// Whether entry `i` is the nearest hit among the first `n` entries of
/// `distances`: it is a hit, no hit among them is nearer, and every hit
/// before it is farther.
pub open spec fn is_nearest_of(distances: Seq<Option<u32>>, n: int, i: int) -> bool {
    &&& 0 <= i < n <= distances.len()
    &&& distances[i] is Some
    &&& forall|j: int|
        0 <= j < n && (#[trigger] distances[j]) is Some ==> distances[i]->0 <= distances[j]->0
    &&& forall|j: int|
        0 <= j < i && (#[trigger] distances[j]) is Some ==> distances[i]->0 < distances[j]->0
}

/// Whether entry `i` is the nearest hit of `distances`, the first of them
/// where several are equally near.
pub open spec fn is_nearest(distances: Seq<Option<u32>>, i: int) -> bool {
    is_nearest_of(distances, distances.len() as int, i)
}

/// Whether none of the first `n` entries of `distances` is a hit.
pub open spec fn no_hit_in(distances: Seq<Option<u32>>, n: int) -> bool {
    forall|j: int| 0 <= j < n ==> (#[trigger] distances[j]) is None
}

/// A list of distances has at most one nearest hit: the contract of
/// `nearest_ray_intersection` leaves no choice of index.
pub proof fn lemma_nearest_is_unique(distances: Seq<Option<u32>>, i: int, j: int)
    requires
        is_nearest(distances, i),
        is_nearest(distances, j),
    ensures
        i == j,
{
    if i < j {
        assert(distances[i] is Some);
    } else if j < i {
        assert(distances[j] is Some);
    }
}

/// Picks the nearest of the hits that a ray made on a list of bodies.
///
/// `distances[i]` is the distance from the ray's origin to its hit on body
/// `i`, or `None` where the ray misses that body. Distances are compared as
/// integers, so the caller hands in a measure that grows with the distance.
/// The result is the index of the body with the least distance, the first
/// such body on a tie, or `None` when the ray hits nothing.
pub fn nearest_ray_intersection(distances: &Vec<Option<u32>>) -> (nearest: Option<usize>)
    ensures
        nearest is Some ==> is_nearest(distances@, nearest->0 as int),
        nearest is None ==> no_hit_in(distances@, distances.len() as int),
{
    let mut nearest: Option<usize> = None;
    let mut min_distance: u32 = 0;
    let mut i: usize = 0;
    while i < distances.len()
        invariant
            i <= distances.len(),
            nearest is Some ==> is_nearest_of(distances@, i as int, nearest->0 as int),
            nearest is Some ==> distances[nearest->0 as int] == Some(min_distance),
            nearest is None ==> no_hit_in(distances@, i as int),
        decreases distances.len() - i,
    {
        match distances[i] {
            Some(distance) => {
                if nearest.is_none() || distance < min_distance {
                    nearest = Some(i);
                    min_distance = distance;
                }
            },
            None => {},
        }
        i += 1;
    }
    nearest
}

} // verus!
