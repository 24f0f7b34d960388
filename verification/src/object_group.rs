//! The scene's objects, searched linearly for the nearest hit.

use vstd::prelude::*;


use crate::object::Object;
use crate::ray::{Ray3, RayV, ray_in_range};
use crate::shape::{ShapeIntersectionInfo, HitV, no_hit_v, shape_model, lemma_shape_hit_narrowed};

verus! {

/// The intersection an object's shape reports, on views.
pub open spec fn obj_hit(o: Object, r: RayV) -> HitV {
    shape_model(o.shape, r)
}

/// No object of the group intersects the ray.
pub open spec fn group_no_hit(s: Seq<Object>, r: RayV) -> bool {
    forall|i: int| 0 <= i < s.len() ==> !(#[trigger] obj_hit(s[i], r)).did_hit
}

/// Object `j` is the nearest hit of the group: it hits, no other object hits
/// strictly closer, and every earlier object that hits does so strictly
/// farther (ties resolve to the object tested first).
pub open spec fn group_nearest(s: Seq<Object>, r: RayV, j: int) -> bool {
    &&& 0 <= j < s.len()
    &&& obj_hit(s[j], r).did_hit
    &&& forall|i: int|
        0 <= i < s.len() && (#[trigger] obj_hit(s[i], r)).did_hit ==> obj_hit(s[j], r).t
            <= obj_hit(s[i], r).t
    &&& forall|i: int|
        0 <= i < j && (#[trigger] obj_hit(s[i], r)).did_hit ==> obj_hit(s[j], r).t < obj_hit(
            s[i],
            r,
        ).t
}

/// Permutation invariance of the nearest hit: two groups holding the same
/// objects, in whatever order, report the same nearest distance for the same
/// ray, and a ray missed by one is missed by the other.
pub proof fn lemma_nearest_hit_permutation_invariant(
    s1: Seq<Object>,
    s2: Seq<Object>,
    r: RayV,
    j1: int,
    j2: int,
)
    requires
        s1.to_multiset() == s2.to_multiset(),
        group_nearest(s1, r, j1),
        group_nearest(s2, r, j2),
    ensures
        obj_hit(s1[j1], r).t == obj_hit(s2[j2], r).t,
{
    broadcast use vstd::seq_lib::group_to_multiset_ensures;

    // The winner of each group appears somewhere in the other, so each
    // group's minimum bounds the other's.
    assert(s1.contains(s1[j1]));
    assert(s2.to_multiset().count(s1[j1]) > 0);
    assert(s2.contains(s1[j1]));
    let k2 = choose|k: int| 0 <= k < s2.len() && s2[k] == s1[j1];
    assert(obj_hit(s2[j2], r).t <= obj_hit(s2[k2], r).t);

    assert(s2.contains(s2[j2]));
    assert(s1.to_multiset().count(s2[j2]) > 0);
    assert(s1.contains(s2[j2]));
    let k1 = choose|k: int| 0 <= k < s1.len() && s1[k] == s2[j2];
    assert(obj_hit(s1[j1], r).t <= obj_hit(s1[k1], r).t);
}

/// A missed ray stays missed under permutation of the group.
pub proof fn lemma_no_hit_permutation_invariant(s1: Seq<Object>, s2: Seq<Object>, r: RayV)
    requires
        s1.to_multiset() == s2.to_multiset(),
        group_no_hit(s1, r),
    ensures
        group_no_hit(s2, r),
{
    broadcast use vstd::seq_lib::group_to_multiset_ensures;

    assert forall|i: int| 0 <= i < s2.len() implies !(#[trigger] obj_hit(s2[i], r)).did_hit by {
        assert(s2.contains(s2[i]));
        assert(s1.to_multiset().count(s2[i]) > 0);
        assert(s1.contains(s2[i]));
        let k = choose|k: int| 0 <= k < s1.len() && s1[k] == s2[i];
        assert(!obj_hit(s1[k], r).did_hit);
    }
}

/// What a group intersection query returns: the handle of the intersected
/// object, if any, and the intersection data.
pub struct ObjectGroupIntersectionInfo {
    pub intersected_object: Option<usize>,
    pub shape_intersection_info: ShapeIntersectionInfo,
}

/// An ordered collection of objects, constructed once and queried many
/// times.
pub struct ObjectGroup {
    objects: Vec<Object>,
}

impl View for ObjectGroup {
    type V = Seq<Object>;

    closed spec fn view(&self) -> Seq<Object> {
        self.objects@
    }
}

impl ObjectGroup {
    /// Wraps a vector of objects.
    pub fn new_from_vector(objects: Vec<Object>) -> (r: ObjectGroup)
        ensures
            r@ == objects@,
    {
        ObjectGroup { objects }
    }

    /// A borrow of one object by its handle.
    pub fn get(&self, i: usize) -> (r: &Object)
        requires
            i < self@.len(),
        ensures
            *r == self@[i as int],
    {
        &self.objects[i]
    }

    /// How many objects the group holds.
    pub fn len(&self) -> (r: usize)
        ensures
            r == self@.len(),
    {
        self.objects.len()
    }

    /// Finds the nearest intersection of the ray with any object of the
    /// group.  No intersection yields no object handle and an intersection
    /// marked "no hit" with infinite distance.
    pub fn intersect(&self, ray: &Ray3) -> (result: ObjectGroupIntersectionInfo)
        ensures
            match result.intersected_object {
                None => group_no_hit(self@, ray@) && result.shape_intersection_info@
                    == no_hit_v(),
                Some(j) => group_nearest(self@, ray@, j as int)
                    && result.shape_intersection_info@ == obj_hit(self@[j as int], ray@),
            },
            result.shape_intersection_info.did_hit == result.intersected_object.is_some(),
    {
        self.intersect_unoptimized(ray)
    }

    /// Go through each object in the scene and check for intersection,
    /// tightening the working range to the closest confirmed hit so far.
    fn intersect_unoptimized(&self, ray: &Ray3) -> (result: ObjectGroupIntersectionInfo)
        ensures
            match result.intersected_object {
                None => group_no_hit(self@, ray@) && result.shape_intersection_info@
                    == no_hit_v(),
                Some(j) => group_nearest(self@, ray@, j as int)
                    && result.shape_intersection_info@ == obj_hit(self@[j as int], ray@),
            },
            result.shape_intersection_info.did_hit == result.intersected_object.is_some(),
    {
        let mut working_ray = *ray;
        let mut best = ShapeIntersectionInfo::default();
        let mut best_idx: Option<usize> = None;
        let n = self.objects.len();
        let mut i: usize = 0;
        while i < n
            invariant
                n == self@.len(),
                i <= n,
                working_ray@.origin == ray@.origin,
                working_ray@.direction == ray@.direction,
                working_ray@.min_t == ray@.min_t,
                best.did_hit == best_idx.is_some(),
                match best_idx {
                    None => {
                        &&& working_ray@.max_t == ray@.max_t
                        &&& best@ == no_hit_v()
                        &&& forall|k: int|
                            0 <= k < i ==> !(#[trigger] obj_hit(self@[k], ray@)).did_hit
                    },
                    Some(j) => {
                        &&& (j as int) < i
                        &&& obj_hit(self@[j as int], ray@).did_hit
                        &&& best@ == obj_hit(self@[j as int], ray@)
                        &&& working_ray@.max_t == best@.t
                        &&& ray_in_range(ray@, best@.t)
                        &&& forall|k: int|
                            0 <= k < i && (#[trigger] obj_hit(self@[k], ray@)).did_hit
                                ==> best@.t <= obj_hit(self@[k], ray@).t
                        &&& forall|k: int|
                            0 <= k < j && (#[trigger] obj_hit(self@[k], ray@)).did_hit
                                ==> best@.t < obj_hit(self@[k], ray@).t
                    },
                },
            decreases n - i,
        {
            let object = &self.objects[i];
            let shape_intersection_info = object.shape.intersect(&working_ray);
            proof {
                lemma_shape_hit_narrowed(object.shape, working_ray@, ray@);
            }
            if shape_intersection_info.did_hit {
                if shape_intersection_info.t.raw <= best.t.raw {
                    working_ray.max_t = shape_intersection_info.t;
                    best = shape_intersection_info;
                    best_idx = Some(i);
                } else {
                    // A hit against the tightened working range always beats
                    // the best so far, so this branch cannot be reached.
                    proof {
                        assert(false);
                    }
                }
            }
            i = i + 1;
        }
        ObjectGroupIntersectionInfo {
            intersected_object: best_idx,
            shape_intersection_info: best,
        }
    }
}

} // verus!
