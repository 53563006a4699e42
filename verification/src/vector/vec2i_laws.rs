//! Algebraic laws of the arithmetic on [`Vec2i`], each proved for every
//! vector on which the operations involved are defined.

use crate::arith::{abs, lemma_trunc_div_remainder, trunc_div, trunc_rem};
use crate::vector::vec2i::Vec2i;
use vstd::prelude::*;
use vstd::std_specs::ops::{AddSpec, DivSpec, MulSpec, NegSpec, RemSpec, SubSpec};

verus! {

/// Addition is commutative.
pub proof fn lemma_add_commutative(a: Vec2i, b: Vec2i)
    requires
        a.add_req(b),
    ensures
        b.add_req(a),
        a.add_spec(b) == b.add_spec(a),
{
}

/// Addition is associative.
pub proof fn lemma_add_associative(a: Vec2i, b: Vec2i, c: Vec2i)
    requires
        a.add_req(b),
        a.add_spec(b).add_req(c),
        b.add_req(c),
        a.add_req(b.add_spec(c)),
    ensures
        a.add_spec(b).add_spec(c) == a.add_spec(b.add_spec(c)),
{
}

/// The zero vector is the identity of addition, on either side.
pub proof fn lemma_add_zero(a: Vec2i)
    ensures
        a.add_req(Vec2i { x: 0, y: 0 }),
        a.add_spec(Vec2i { x: 0, y: 0 }) == a,
        (Vec2i { x: 0, y: 0 }).add_spec(a) == a,
{
}

/// Subtracting a vector is adding its negation.
pub proof fn lemma_sub_is_add_neg(a: Vec2i, b: Vec2i)
    requires
        a.sub_req(b),
        b.neg_req(),
    ensures
        a.add_req(b.neg_spec()),
        a.sub_spec(b) == a.add_spec(b.neg_spec()),
{
}

/// Subtraction undoes addition.
pub proof fn lemma_add_then_sub(a: Vec2i, b: Vec2i)
    requires
        a.add_req(b),
    ensures
        a.add_spec(b).sub_req(b),
        a.add_spec(b).sub_spec(b) == a,
{
}

/// A vector less itself is the zero vector.
pub proof fn lemma_sub_self(a: Vec2i)
    ensures
        a.sub_req(a),
        a.sub_spec(a) == (Vec2i { x: 0, y: 0 }),
{
}

/// Negating twice gives the vector back.
pub proof fn lemma_neg_involution(a: Vec2i)
    requires
        a.neg_req(),
    ensures
        a.neg_spec().neg_req(),
        a.neg_spec().neg_spec() == a,
{
}

/// The component-wise product is commutative.
pub proof fn lemma_mul_commutative(a: Vec2i, b: Vec2i)
    requires
        a.mul_req(b),
    ensures
        b.mul_req(a),
        a.mul_spec(b) == b.mul_spec(a),
{
    assert(a.x * b.x == b.x * a.x) by (nonlinear_arith);
    assert(a.y * b.y == b.y * a.y) by (nonlinear_arith);
}

/// The vector of ones is the identity of the component-wise product.
pub proof fn lemma_mul_one(a: Vec2i)
    ensures
        a.mul_req(Vec2i { x: 1, y: 1 }),
        a.mul_spec(Vec2i { x: 1, y: 1 }) == a,
        (Vec2i { x: 1, y: 1 }).mul_spec(a) == a,
{
}

/// Dividing by the vector of ones changes nothing.
pub proof fn lemma_div_one(a: Vec2i)
    ensures
        a.div_req(Vec2i { x: 1, y: 1 }),
        a.div_spec(Vec2i { x: 1, y: 1 }) == a,
{
    lemma_quotient_by_one(a.x as int);
    lemma_quotient_by_one(a.y as int);
}

/// Division rounds toward zero: in each component the quotient times the
/// divisor differs from the dividend by a remainder that is smaller in
/// magnitude than the divisor and does not have the opposite sign of the
/// dividend.
pub proof fn lemma_div_rounds_toward_zero(a: Vec2i, b: Vec2i)
    requires
        a.div_req(b),
    ensures
        a.div_spec(b).x == trunc_div(a.x as int, b.x as int),
        abs(trunc_rem(a.x as int, b.x as int)) < abs(b.x as int),
        a.x >= 0 ==> trunc_rem(a.x as int, b.x as int) >= 0,
        a.x <= 0 ==> trunc_rem(a.x as int, b.x as int) <= 0,
        a.div_spec(b).y == trunc_div(a.y as int, b.y as int),
        abs(trunc_rem(a.y as int, b.y as int)) < abs(b.y as int),
        a.y >= 0 ==> trunc_rem(a.y as int, b.y as int) >= 0,
        a.y <= 0 ==> trunc_rem(a.y as int, b.y as int) <= 0,
{
    lemma_trunc_div_remainder(a.x as int, b.x as int);
    crate::arith::lemma_trunc_div_fits(a.x, b.x);
    lemma_trunc_div_remainder(a.y as int, b.y as int);
    crate::arith::lemma_trunc_div_fits(a.y, b.y);
}

/// Quotient and remainder make up the dividend: in each component the
/// quotient times the divisor plus the remainder is the dividend.
pub proof fn lemma_div_rem(a: Vec2i, b: Vec2i)
    requires
        a.div_req(b),
    ensures
        a.rem_req(b),
        a.div_spec(b).x * b.x + a.rem_spec(b).x == a.x,
        a.div_spec(b).y * b.y + a.rem_spec(b).y == a.y,
{
    lemma_trunc_div_remainder(a.x as int, b.x as int);
    crate::arith::lemma_trunc_div_fits(a.x, b.x);
    lemma_trunc_div_remainder(a.y as int, b.y as int);
    crate::arith::lemma_trunc_div_fits(a.y, b.y);
}

/// Scalar broadcast: an operator between a vector and a scalar is the
/// operator between the vector and the vector whose components all equal the
/// scalar. The two are defined on the same operands.
pub proof fn lemma_scalar_broadcast(a: Vec2i, s: i32)
    ensures
        a.add_req(s) == a.add_req(Vec2i { x: s, y: s }),
        a.add_spec(s) == a.add_spec(Vec2i { x: s, y: s }),
        a.sub_req(s) == a.sub_req(Vec2i { x: s, y: s }),
        a.sub_spec(s) == a.sub_spec(Vec2i { x: s, y: s }),
        a.mul_req(s) == a.mul_req(Vec2i { x: s, y: s }),
        a.mul_spec(s) == a.mul_spec(Vec2i { x: s, y: s }),
        a.div_req(s) == a.div_req(Vec2i { x: s, y: s }),
        a.div_spec(s) == a.div_spec(Vec2i { x: s, y: s }),
        a.rem_req(s) == a.rem_req(Vec2i { x: s, y: s }),
        a.rem_spec(s) == a.rem_spec(Vec2i { x: s, y: s }),
{
}

/// Scalar broadcast with the scalar on the left: the scalar stands for the
/// vector whose components all equal it.
pub proof fn lemma_scalar_broadcast_left(s: i32, a: Vec2i)
    ensures
        s.add_req(a) == (Vec2i { x: s, y: s }).add_req(a),
        s.add_spec(a) == (Vec2i { x: s, y: s }).add_spec(a),
        s.sub_req(a) == (Vec2i { x: s, y: s }).sub_req(a),
        s.sub_spec(a) == (Vec2i { x: s, y: s }).sub_spec(a),
        s.mul_req(a) == (Vec2i { x: s, y: s }).mul_req(a),
        s.mul_spec(a) == (Vec2i { x: s, y: s }).mul_spec(a),
        s.div_req(a) == (Vec2i { x: s, y: s }).div_req(a),
        s.div_spec(a) == (Vec2i { x: s, y: s }).div_spec(a),
        s.rem_req(a) == (Vec2i { x: s, y: s }).rem_req(a),
        s.rem_spec(a) == (Vec2i { x: s, y: s }).rem_spec(a),
{
}

/// Multiplying by a scalar distributes over addition.
pub proof fn lemma_scale_distributes(a: Vec2i, b: Vec2i, s: i32)
    requires
        a.add_req(b),
        a.add_spec(b).mul_req(s),
        a.mul_req(s),
        b.mul_req(s),
    ensures
        a.mul_spec(s).add_req(b.mul_spec(s)),
        a.add_spec(b).mul_spec(s) == a.mul_spec(s).add_spec(b.mul_spec(s)),
{
    assert((a.x + b.x) * s == a.x * s + b.x * s) by (nonlinear_arith);
    assert((a.y + b.y) * s == a.y * s + b.y * s) by (nonlinear_arith);
}

/// The sum of no vectors is zero, and the product of none is one, in every
/// component.
pub proof fn lemma_fold_empty()
    ensures
        Vec2i::sum_of(Seq::<Vec2i>::empty()) == (0int, 0int),
        Vec2i::product_of(Seq::<Vec2i>::empty()) == (1int, 1int),
{
}

/// The sum of one vector is that vector, and so is its product.
pub proof fn lemma_fold_single(v: Vec2i)
    ensures
        Vec2i::sum_of(seq![v]) == v@,
        Vec2i::product_of(seq![v]) == v@,
{
    assert(seq![v].drop_last() =~= Seq::<Vec2i>::empty());
    reveal_with_fuel(Vec2i::sum_of, 2);
    reveal_with_fuel(Vec2i::product_of, 2);
    let unit = Vec2i::product_of(Seq::<Vec2i>::empty());
    assert(unit.0 * v.x == v.x) by (nonlinear_arith)
        requires
            unit.0 == 1,
    ;
    assert(unit.1 * v.y == v.y) by (nonlinear_arith)
        requires
            unit.1 == 1,
    ;
}

/// The sum of two sequences joined is the sum of their sums.
pub proof fn lemma_sum_of_concat(a: Seq<Vec2i>, b: Seq<Vec2i>)
    ensures
        Vec2i::sum_of(a + b) == (
            Vec2i::sum_of(a).0 + Vec2i::sum_of(b).0,
            Vec2i::sum_of(a).1 + Vec2i::sum_of(b).1,
        ),
    decreases b.len(),
{
    if b.len() == 0 {
        assert(a + b =~= a);
        assert(b =~= Seq::<Vec2i>::empty());
    } else {
        assert((a + b).drop_last() =~= a + b.drop_last());
        assert((a + b).last() == b.last());
        lemma_sum_of_concat(a, b.drop_last());
    }
}

/// The product of two sequences joined is the product of their products.
pub proof fn lemma_product_of_concat(a: Seq<Vec2i>, b: Seq<Vec2i>)
    ensures
        Vec2i::product_of(a + b) == (
            Vec2i::product_of(a).0 * Vec2i::product_of(b).0,
            Vec2i::product_of(a).1 * Vec2i::product_of(b).1,
        ),
    decreases b.len(),
{
    if b.len() == 0 {
        assert(a + b =~= a);
        let pa = Vec2i::product_of(a);
        let pb = Vec2i::product_of(b);
        assert(pa.0 * pb.0 == pa.0) by (nonlinear_arith)
            requires
                pb.0 == 1,
        ;
        assert(pa.1 * pb.1 == pa.1) by (nonlinear_arith)
            requires
                pb.1 == 1,
        ;
    } else {
        assert((a + b).drop_last() =~= a + b.drop_last());
        assert((a + b).last() == b.last());
        lemma_product_of_concat(a, b.drop_last());
        let pa = Vec2i::product_of(a);
        let pr = Vec2i::product_of(b.drop_last());
        let l = b.last();
        assert((pa.0 * pr.0) * l.x == pa.0 * (pr.0 * l.x)) by (nonlinear_arith);
        assert((pa.1 * pr.1) * l.y == pa.1 * (pr.1 * l.y)) by (nonlinear_arith);
    }
}

/// A dividend divided by one is itself.
proof fn lemma_quotient_by_one(a: int)
    ensures
        trunc_div(a, 1) == a,
{
}

} // verus!
