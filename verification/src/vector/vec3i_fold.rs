//! Sums and products over sequences of [`Vec3i`].

use crate::arith::fits_i32;
use crate::vector::vec3i::Vec3i;
use std::iter::{Product, Sum};
use vstd::prelude::*;
use vstd::std_specs::iter::IteratorSpec;

verus! {

impl Vec3i {
    /// The component-wise sum of `items` over the mathematical integers;
    /// zero in every component for the empty sequence.
    pub open spec fn sum_of(items: Seq<Vec3i>) -> (int, int, int)
        decreases items.len(),
    {
        if items.len() == 0 {
            (0, 0, 0)
        } else {
            let rest = Vec3i::sum_of(items.drop_last());
            (rest.0 + items.last().x, rest.1 + items.last().y, rest.2 + items.last().z)
        }
    }

    /// The component-wise product of `items` over the mathematical integers;
    /// one in every component for the empty sequence.
    pub open spec fn product_of(items: Seq<Vec3i>) -> (int, int, int)
        decreases items.len(),
    {
        if items.len() == 0 {
            (1, 1, 1)
        } else {
            let rest = Vec3i::product_of(items.drop_last());
            (rest.0 * items.last().x, rest.1 * items.last().y, rest.2 * items.last().z)
        }
    }

    /// Whether the sum of every prefix of `items` fits `i32` in every
    /// component, so that adding up from the left never overflows.
    pub open spec fn prefix_sums_fit(items: Seq<Vec3i>) -> bool {
        forall|k: int|
            0 <= k <= items.len() ==> {
                &&& fits_i32(#[trigger] Vec3i::sum_of(items.take(k)).0)
                &&& fits_i32(Vec3i::sum_of(items.take(k)).1)
                &&& fits_i32(Vec3i::sum_of(items.take(k)).2)
            }
    }

    /// Whether the product of every prefix of `items` fits `i32` in every
    /// component, so that multiplying up from the left never overflows.
    pub open spec fn prefix_products_fit(items: Seq<Vec3i>) -> bool {
        forall|k: int|
            0 <= k <= items.len() ==> {
                &&& fits_i32(#[trigger] Vec3i::product_of(items.take(k)).0)
                &&& fits_i32(Vec3i::product_of(items.take(k)).1)
                &&& fits_i32(Vec3i::product_of(items.take(k)).2)
            }
    }
}

/// The component-wise sum of what the iterator yields, folded from the
/// left, starting from the zero vector; an iterator that yields nothing
/// gives the zero vector.
impl Sum for Vec3i {
    fn sum<I: Iterator<Item = Vec3i>>(iter: I) -> (r: Vec3i)
        requires
            iter.obeys_prophetic_iter_laws(),
            iter.decrease() is Some,
            Vec3i::prefix_sums_fit(iter.remaining()),
        ensures
            r@ == Vec3i::sum_of(iter.remaining()),
    {
        let mut it = iter;
        let mut acc = Vec3i::zero();
        let ghost all = iter.remaining();
        let ghost mut done: int = 0;
        proof {
            assert(all.take(0) =~= Seq::<Vec3i>::empty());
        }
        loop
            invariant
                it.obeys_prophetic_iter_laws(),
                it.decrease() is Some,
                0 <= done <= all.len(),
                it.remaining() == all.skip(done),
                acc@ == Vec3i::sum_of(all.take(done)),
                Vec3i::prefix_sums_fit(all),
            ensures
                acc@ == Vec3i::sum_of(all),
            decreases it.decrease()->0,
        {
            match it.next() {
                Some(v) => {
                    proof {
                        assert(all.take(done + 1).drop_last() =~= all.take(done));
                        assert(all.take(done + 1).last() == v);
                        assert(fits_i32(Vec3i::sum_of(all.take(done + 1)).0));
                        done = done + 1;
                    }
                    acc = acc + v;
                },
                None => {
                    proof {
                        assert(all.take(done) =~= all);
                    }
                    break ;
                },
            }
        }
        acc
    }
}

/// The component-wise sum of what the iterator yields, folded from the
/// left, starting from the zero vector; an iterator that yields nothing
/// gives the zero vector. The items are taken by reference.
impl<'a> Sum<&'a Vec3i> for Vec3i {
    fn sum<I: Iterator<Item = &'a Vec3i>>(iter: I) -> (r: Vec3i)
        requires
            iter.obeys_prophetic_iter_laws(),
            iter.decrease() is Some,
            Vec3i::prefix_sums_fit(iter.remaining().unref()),
        ensures
            r@ == Vec3i::sum_of(iter.remaining().unref()),
    {
        let mut it = iter;
        let mut acc = Vec3i::zero();
        let ghost refs = iter.remaining();
        let ghost all = refs.unref();
        let ghost mut done: int = 0;
        proof {
            assert(all.take(0) =~= Seq::<Vec3i>::empty());
        }
        loop
            invariant
                it.obeys_prophetic_iter_laws(),
                it.decrease() is Some,
                0 <= done <= all.len(),
                it.remaining() == refs.skip(done),
                all == refs.unref(),
                acc@ == Vec3i::sum_of(all.take(done)),
                Vec3i::prefix_sums_fit(all),
            ensures
                acc@ == Vec3i::sum_of(all),
            decreases it.decrease()->0,
        {
            match it.next() {
                Some(v) => {
                    proof {
                        assert(all.take(done + 1).drop_last() =~= all.take(done));
                        assert(all.take(done + 1).last() == *v);
                        assert(fits_i32(Vec3i::sum_of(all.take(done + 1)).0));
                        done = done + 1;
                    }
                    acc = acc + *v;
                },
                None => {
                    proof {
                        assert(all.take(done) =~= all);
                    }
                    break ;
                },
            }
        }
        acc
    }
}

/// The component-wise product of what the iterator yields, folded from the
/// left, starting from the vector of ones; an iterator that yields nothing
/// gives the vector of ones.
impl Product for Vec3i {
    fn product<I: Iterator<Item = Vec3i>>(iter: I) -> (r: Vec3i)
        requires
            iter.obeys_prophetic_iter_laws(),
            iter.decrease() is Some,
            Vec3i::prefix_products_fit(iter.remaining()),
        ensures
            r@ == Vec3i::product_of(iter.remaining()),
    {
        let mut it = iter;
        let mut acc = Vec3i::one();
        let ghost all = iter.remaining();
        let ghost mut done: int = 0;
        proof {
            assert(all.take(0) =~= Seq::<Vec3i>::empty());
        }
        loop
            invariant
                it.obeys_prophetic_iter_laws(),
                it.decrease() is Some,
                0 <= done <= all.len(),
                it.remaining() == all.skip(done),
                acc@ == Vec3i::product_of(all.take(done)),
                Vec3i::prefix_products_fit(all),
            ensures
                acc@ == Vec3i::product_of(all),
            decreases it.decrease()->0,
        {
            match it.next() {
                Some(v) => {
                    proof {
                        assert(all.take(done + 1).drop_last() =~= all.take(done));
                        assert(all.take(done + 1).last() == v);
                        assert(fits_i32(Vec3i::product_of(all.take(done + 1)).0));
                        done = done + 1;
                    }
                    acc = acc * v;
                },
                None => {
                    proof {
                        assert(all.take(done) =~= all);
                    }
                    break ;
                },
            }
        }
        acc
    }
}

/// The component-wise product of what the iterator yields, folded from the
/// left, starting from the vector of ones; an iterator that yields nothing
/// gives the vector of ones. The items are taken by reference.
impl<'a> Product<&'a Vec3i> for Vec3i {
    fn product<I: Iterator<Item = &'a Vec3i>>(iter: I) -> (r: Vec3i)
        requires
            iter.obeys_prophetic_iter_laws(),
            iter.decrease() is Some,
            Vec3i::prefix_products_fit(iter.remaining().unref()),
        ensures
            r@ == Vec3i::product_of(iter.remaining().unref()),
    {
        let mut it = iter;
        let mut acc = Vec3i::one();
        let ghost refs = iter.remaining();
        let ghost all = refs.unref();
        let ghost mut done: int = 0;
        proof {
            assert(all.take(0) =~= Seq::<Vec3i>::empty());
        }
        loop
            invariant
                it.obeys_prophetic_iter_laws(),
                it.decrease() is Some,
                0 <= done <= all.len(),
                it.remaining() == refs.skip(done),
                all == refs.unref(),
                acc@ == Vec3i::product_of(all.take(done)),
                Vec3i::prefix_products_fit(all),
            ensures
                acc@ == Vec3i::product_of(all),
            decreases it.decrease()->0,
        {
            match it.next() {
                Some(v) => {
                    proof {
                        assert(all.take(done + 1).drop_last() =~= all.take(done));
                        assert(all.take(done + 1).last() == *v);
                        assert(fits_i32(Vec3i::product_of(all.take(done + 1)).0));
                        done = done + 1;
                    }
                    acc = acc * *v;
                },
                None => {
                    proof {
                        assert(all.take(done) =~= all);
                    }
                    break ;
                },
            }
        }
        acc
    }
}

} // verus!
