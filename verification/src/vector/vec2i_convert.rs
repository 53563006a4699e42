//! Conversions between [`Vec2i`] and arrays and tuples of its components.
//!
//! Every conversion keeps each component as it is and in its place, so going
//! to an array or a tuple and back gives the vector that was started from.

use crate::vector::vec2i::Vec2i;
use vstd::prelude::*;
use vstd::std_specs::convert::{FromSpec, IntoSpec};

verus! {

/// The vector whose components are the array's elements, in order.
impl From<[i32; 2]> for Vec2i {
    fn from(a: [i32; 2]) -> (v: Vec2i)
        ensures
            v == (Vec2i { x: a[0], y: a[1] }),
    {
        Vec2i { x: a[0], y: a[1] }
    }
}

impl vstd::std_specs::convert::FromSpecImpl<[i32; 2]> for Vec2i {
    open spec fn obeys_from_spec() -> bool {
        true
    }

    open spec fn from_spec(a: [i32; 2]) -> Vec2i {
        Vec2i { x: a[0], y: a[1] }
    }
}

/// The vector whose components are those of the pair, in order.
impl From<(i32, i32)> for Vec2i {
    fn from(t: (i32, i32)) -> (v: Vec2i)
        ensures
            v == (Vec2i { x: t.0, y: t.1 }),
    {
        Vec2i { x: t.0, y: t.1 }
    }
}

impl vstd::std_specs::convert::FromSpecImpl<(i32, i32)> for Vec2i {
    open spec fn obeys_from_spec() -> bool {
        true
    }

    open spec fn from_spec(t: (i32, i32)) -> Vec2i {
        Vec2i { x: t.0, y: t.1 }
    }
}

/// The components as an array, in order.
impl From<Vec2i> for [i32; 2] {
    fn from(v: Vec2i) -> (a: [i32; 2])
        ensures
            a == [v.x, v.y],
    {
        v.to_array()
    }
}

impl vstd::std_specs::convert::FromSpecImpl<Vec2i> for [i32; 2] {
    open spec fn obeys_from_spec() -> bool {
        true
    }

    open spec fn from_spec(v: Vec2i) -> [i32; 2] {
        [v.x, v.y]
    }
}

/// The components as a pair, in order.
impl From<Vec2i> for (i32, i32) {
    fn from(v: Vec2i) -> (t: (i32, i32))
        ensures
            t == (v.x, v.y),
    {
        v.to_tuple()
    }
}

impl vstd::std_specs::convert::FromSpecImpl<Vec2i> for (i32, i32) {
    open spec fn obeys_from_spec() -> bool {
        true
    }

    open spec fn from_spec(v: Vec2i) -> (i32, i32) {
        (v.x, v.y)
    }
}

/// The default vector is the zero vector.
impl Default for Vec2i {
    fn default() -> (v: Vec2i)
        ensures
            v == (Vec2i { x: 0, y: 0 }),
    {
        Vec2i::zero()
    }
}

impl Vec2i {
    /// Converts to any type that can be made from the array of the
    /// components. The array handed to that type's `From` holds the
    /// components in order; what comes back is whatever that `From` makes of
    /// it.
    pub fn to_compatible<T: From<[i32; 2]>>(&self) -> (r: T)
        ensures
            call_ensures(T::from, ([self.x, self.y],), r),
            T::obeys_from_spec() ==> r == T::from_spec([self.x, self.y]),
    {
        T::from(self.to_array())
    }

    /// Converts from any type that can be turned into an array of
    /// components: the vector holds the elements of the array that the
    /// value's `Into` gives, in order.
    pub fn from_compatible<T: Into<[i32; 2]>>(o: T) -> (v: Vec2i)
        ensures
            exists|a: [i32; 2]|
                #[trigger] call_ensures(T::into, (o,), a) && v == Vec2i::from_spec(a),
            T::obeys_into_spec() ==> v == Vec2i::from_spec(o.into_spec()),
    {
        let a: [i32; 2] = o.into();
        Vec2i::from(a)
    }
}

/// Array round trip: a vector turned into the array of its components and
/// made from that array again is the same vector, exactly.
pub proof fn lemma_array_round_trip(v: Vec2i)
    ensures
        Vec2i::from_spec(<[i32; 2]>::from_spec(v)) == v,
{
}

/// Array round trip, from the array's side: an array turned into a vector
/// and back holds the same elements.
pub proof fn lemma_array_round_trip_from_array(a: [i32; 2])
    ensures
        <[i32; 2]>::from_spec(Vec2i::from_spec(a)) == a,
{
    assert(<[i32; 2]>::from_spec(Vec2i::from_spec(a))@ =~= a@);
}

/// Tuple round trip: a vector turned into the pair of its components and
/// made from that pair again is the same vector, exactly.
pub proof fn lemma_tuple_round_trip(v: Vec2i)
    ensures
        Vec2i::from_spec(<(i32, i32)>::from_spec(v)) == v,
{
}

/// Tuple round trip, from the pair's side.
pub proof fn lemma_tuple_round_trip_from_tuple(t: (i32, i32))
    ensures
        <(i32, i32)>::from_spec(Vec2i::from_spec(t)) == t,
{
}

} // verus!
