//! Conversions between [`Vec3i`] and arrays and tuples of its components.
//!
//! Every conversion keeps each component as it is and in its place, so going
//! to an array or a tuple and back gives the vector that was started from.

use crate::vector::vec3i::Vec3i;
use vstd::prelude::*;
use vstd::std_specs::convert::{FromSpec, IntoSpec};

verus! {

/// The vector whose components are the array's elements, in order.
impl From<[i32; 3]> for Vec3i {
    fn from(a: [i32; 3]) -> (v: Vec3i)
        ensures
            v == (Vec3i { x: a[0], y: a[1], z: a[2] }),
    {
        Vec3i { x: a[0], y: a[1], z: a[2] }
    }
}

impl vstd::std_specs::convert::FromSpecImpl<[i32; 3]> for Vec3i {
    open spec fn obeys_from_spec() -> bool {
        true
    }

    open spec fn from_spec(a: [i32; 3]) -> Vec3i {
        Vec3i { x: a[0], y: a[1], z: a[2] }
    }
}

/// The vector whose components are those of the triple, in order.
impl From<(i32, i32, i32)> for Vec3i {
    fn from(t: (i32, i32, i32)) -> (v: Vec3i)
        ensures
            v == (Vec3i { x: t.0, y: t.1, z: t.2 }),
    {
        Vec3i { x: t.0, y: t.1, z: t.2 }
    }
}

impl vstd::std_specs::convert::FromSpecImpl<(i32, i32, i32)> for Vec3i {
    open spec fn obeys_from_spec() -> bool {
        true
    }

    open spec fn from_spec(t: (i32, i32, i32)) -> Vec3i {
        Vec3i { x: t.0, y: t.1, z: t.2 }
    }
}

/// The components as an array, in order.
impl From<Vec3i> for [i32; 3] {
    fn from(v: Vec3i) -> (a: [i32; 3])
        ensures
            a == [v.x, v.y, v.z],
    {
        v.to_array()
    }
}

impl vstd::std_specs::convert::FromSpecImpl<Vec3i> for [i32; 3] {
    open spec fn obeys_from_spec() -> bool {
        true
    }

    open spec fn from_spec(v: Vec3i) -> [i32; 3] {
        [v.x, v.y, v.z]
    }
}

/// The components as a triple, in order.
impl From<Vec3i> for (i32, i32, i32) {
    fn from(v: Vec3i) -> (t: (i32, i32, i32))
        ensures
            t == (v.x, v.y, v.z),
    {
        v.to_tuple()
    }
}

impl vstd::std_specs::convert::FromSpecImpl<Vec3i> for (i32, i32, i32) {
    open spec fn obeys_from_spec() -> bool {
        true
    }

    open spec fn from_spec(v: Vec3i) -> (i32, i32, i32) {
        (v.x, v.y, v.z)
    }
}

/// The default vector is the zero vector.
impl Default for Vec3i {
    fn default() -> (v: Vec3i)
        ensures
            v == (Vec3i { x: 0, y: 0, z: 0 }),
    {
        Vec3i::zero()
    }
}

impl Vec3i {
    /// Converts to any type that can be made from the array of the
    /// components. The array handed to that type's `From` holds the
    /// components in order; what comes back is whatever that `From` makes of
    /// it.
    pub fn to_compatible<T: From<[i32; 3]>>(&self) -> (r: T)
        ensures
            call_ensures(T::from, ([self.x, self.y, self.z],), r),
            T::obeys_from_spec() ==> r == T::from_spec([self.x, self.y, self.z]),
    {
        T::from(self.to_array())
    }

    /// Converts from any type that can be turned into an array of
    /// components: the vector holds the elements of the array that the
    /// value's `Into` gives, in order.
    pub fn from_compatible<T: Into<[i32; 3]>>(o: T) -> (v: Vec3i)
        ensures
            exists|a: [i32; 3]|
                #[trigger] call_ensures(T::into, (o,), a) && v == Vec3i::from_spec(a),
            T::obeys_into_spec() ==> v == Vec3i::from_spec(o.into_spec()),
    {
        let a: [i32; 3] = o.into();
        Vec3i::from(a)
    }
}

/// Array round trip: a vector turned into the array of its components and
/// made from that array again is the same vector, exactly.
pub proof fn lemma_array_round_trip(v: Vec3i)
    ensures
        Vec3i::from_spec(<[i32; 3]>::from_spec(v)) == v,
{
}

/// Array round trip, from the array's side: an array turned into a vector
/// and back holds the same elements.
pub proof fn lemma_array_round_trip_from_array(a: [i32; 3])
    ensures
        <[i32; 3]>::from_spec(Vec3i::from_spec(a)) == a,
{
    assert(<[i32; 3]>::from_spec(Vec3i::from_spec(a))@ =~= a@);
}

/// Tuple round trip: a vector turned into the triple of its components and
/// made from that triple again is the same vector, exactly.
pub proof fn lemma_tuple_round_trip(v: Vec3i)
    ensures
        Vec3i::from_spec(<(i32, i32, i32)>::from_spec(v)) == v,
{
}

/// Tuple round trip, from the triple's side.
pub proof fn lemma_tuple_round_trip_from_tuple(t: (i32, i32, i32))
    ensures
        <(i32, i32, i32)>::from_spec(Vec3i::from_spec(t)) == t,
{
}

} // verus!
