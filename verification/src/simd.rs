//! Lane-wise lifting of scalar operations over packed vectors.
//!
//! Hand-vectorized code is emulated by applying a scalar operation to
//! each lane of a packed value and repacking the results; the traits
//! here describe the packing, and the lift functions state, lane by
//! lane, that each result lane is an output of the given operation on
//! the corresponding input lanes.

use vstd::prelude::*;

pub mod vecs;

verus! {

/// Implemented by scalar types that support 2-element vectors.
pub trait Vector2: Copy + Sized {
    /// The packed vector type.
    type Vec;

    /// The lanes of a packed value, in order.
    spec fn lanes(v: Self::Vec) -> Seq<Self>;

    /// Pack individual elements into a vector.
    fn new(x0: Self, x1: Self) -> (r: Self::Vec)
        ensures
            Self::lanes(r) == seq![x0, x1],
    ;

    /// Extract lane 0.
    fn get0(x: &Self::Vec) -> (r: Self)
        ensures
            r == Self::lanes(*x)[0],
    ;

    /// Extract lane 1.
    fn get1(x: &Self::Vec) -> (r: Self)
        ensures
            r == Self::lanes(*x)[1],
    ;

}

/// Implemented by scalar types that support 4-element vectors.
pub trait Vector4: Copy + Sized {
    /// The packed vector type.
    type Vec;

    /// The lanes of a packed value, in order.
    spec fn lanes(v: Self::Vec) -> Seq<Self>;

    /// Pack individual elements into a vector.
    fn new(x0: Self, x1: Self, x2: Self, x3: Self) -> (r: Self::Vec)
        ensures
            Self::lanes(r) == seq![x0, x1, x2, x3],
    ;

    /// Extract lane 0.
    fn get0(x: &Self::Vec) -> (r: Self)
        ensures
            r == Self::lanes(*x)[0],
    ;

    /// Extract lane 1.
    fn get1(x: &Self::Vec) -> (r: Self)
        ensures
            r == Self::lanes(*x)[1],
    ;

    /// Extract lane 2.
    fn get2(x: &Self::Vec) -> (r: Self)
        ensures
            r == Self::lanes(*x)[2],
    ;

    /// Extract lane 3.
    fn get3(x: &Self::Vec) -> (r: Self)
        ensures
            r == Self::lanes(*x)[3],
    ;

}

/// Implemented by scalar types that support 8-element vectors.
pub trait Vector8: Copy + Sized {
    /// The packed vector type.
    type Vec;

    /// The lanes of a packed value, in order.
    spec fn lanes(v: Self::Vec) -> Seq<Self>;

    /// Pack individual elements into a vector.
    fn new(x0: Self, x1: Self, x2: Self, x3: Self, x4: Self, x5: Self, x6: Self, x7: Self) -> (r: Self::Vec)
        ensures
            Self::lanes(r) == seq![x0, x1, x2, x3, x4, x5, x6, x7],
    ;

    /// Extract lane 0.
    fn get0(x: &Self::Vec) -> (r: Self)
        ensures
            r == Self::lanes(*x)[0],
    ;

    /// Extract lane 1.
    fn get1(x: &Self::Vec) -> (r: Self)
        ensures
            r == Self::lanes(*x)[1],
    ;

    /// Extract lane 2.
    fn get2(x: &Self::Vec) -> (r: Self)
        ensures
            r == Self::lanes(*x)[2],
    ;

    /// Extract lane 3.
    fn get3(x: &Self::Vec) -> (r: Self)
        ensures
            r == Self::lanes(*x)[3],
    ;

    /// Extract lane 4.
    fn get4(x: &Self::Vec) -> (r: Self)
        ensures
            r == Self::lanes(*x)[4],
    ;

    /// Extract lane 5.
    fn get5(x: &Self::Vec) -> (r: Self)
        ensures
            r == Self::lanes(*x)[5],
    ;

    /// Extract lane 6.
    fn get6(x: &Self::Vec) -> (r: Self)
        ensures
            r == Self::lanes(*x)[6],
    ;

    /// Extract lane 7.
    fn get7(x: &Self::Vec) -> (r: Self)
        ensures
            r == Self::lanes(*x)[7],
    ;

}

/// Implemented by scalar types that support 16-element vectors.
pub trait Vector16: Copy + Sized {
    /// The packed vector type.
    type Vec;

    /// The lanes of a packed value, in order.
    spec fn lanes(v: Self::Vec) -> Seq<Self>;

    /// Pack individual elements into a vector.
    fn new(x0: Self, x1: Self, x2: Self, x3: Self, x4: Self, x5: Self, x6: Self, x7: Self, x8: Self, x9: Self, x10: Self, x11: Self, x12: Self, x13: Self, x14: Self, x15: Self) -> (r: Self::Vec)
        ensures
            Self::lanes(r) == seq![x0, x1, x2, x3, x4, x5, x6, x7, x8, x9, x10, x11, x12, x13, x14, x15],
    ;

    /// Extract lane 0.
    fn get0(x: &Self::Vec) -> (r: Self)
        ensures
            r == Self::lanes(*x)[0],
    ;

    /// Extract lane 1.
    fn get1(x: &Self::Vec) -> (r: Self)
        ensures
            r == Self::lanes(*x)[1],
    ;

    /// Extract lane 2.
    fn get2(x: &Self::Vec) -> (r: Self)
        ensures
            r == Self::lanes(*x)[2],
    ;

    /// Extract lane 3.
    fn get3(x: &Self::Vec) -> (r: Self)
        ensures
            r == Self::lanes(*x)[3],
    ;

    /// Extract lane 4.
    fn get4(x: &Self::Vec) -> (r: Self)
        ensures
            r == Self::lanes(*x)[4],
    ;

    /// Extract lane 5.
    fn get5(x: &Self::Vec) -> (r: Self)
        ensures
            r == Self::lanes(*x)[5],
    ;

    /// Extract lane 6.
    fn get6(x: &Self::Vec) -> (r: Self)
        ensures
            r == Self::lanes(*x)[6],
    ;

    /// Extract lane 7.
    fn get7(x: &Self::Vec) -> (r: Self)
        ensures
            r == Self::lanes(*x)[7],
    ;

    /// Extract lane 8.
    fn get8(x: &Self::Vec) -> (r: Self)
        ensures
            r == Self::lanes(*x)[8],
    ;

    /// Extract lane 9.
    fn get9(x: &Self::Vec) -> (r: Self)
        ensures
            r == Self::lanes(*x)[9],
    ;

    /// Extract lane 10.
    fn get10(x: &Self::Vec) -> (r: Self)
        ensures
            r == Self::lanes(*x)[10],
    ;

    /// Extract lane 11.
    fn get11(x: &Self::Vec) -> (r: Self)
        ensures
            r == Self::lanes(*x)[11],
    ;

    /// Extract lane 12.
    fn get12(x: &Self::Vec) -> (r: Self)
        ensures
            r == Self::lanes(*x)[12],
    ;

    /// Extract lane 13.
    fn get13(x: &Self::Vec) -> (r: Self)
        ensures
            r == Self::lanes(*x)[13],
    ;

    /// Extract lane 14.
    fn get14(x: &Self::Vec) -> (r: Self)
        ensures
            r == Self::lanes(*x)[14],
    ;

    /// Extract lane 15.
    fn get15(x: &Self::Vec) -> (r: Self)
        ensures
            r == Self::lanes(*x)[15],
    ;

}

/// Implemented by scalar types that support 32-element vectors.
pub trait Vector32: Copy + Sized {
    /// The packed vector type.
    type Vec;

    /// The lanes of a packed value, in order.
    spec fn lanes(v: Self::Vec) -> Seq<Self>;

    /// Pack individual elements into a vector.
    fn new(x0: Self, x1: Self, x2: Self, x3: Self, x4: Self, x5: Self, x6: Self, x7: Self, x8: Self, x9: Self, x10: Self, x11: Self, x12: Self, x13: Self, x14: Self, x15: Self, x16: Self, x17: Self, x18: Self, x19: Self, x20: Self, x21: Self, x22: Self, x23: Self, x24: Self, x25: Self, x26: Self, x27: Self, x28: Self, x29: Self, x30: Self, x31: Self) -> (r: Self::Vec)
        ensures
            Self::lanes(r) == seq![x0, x1, x2, x3, x4, x5, x6, x7, x8, x9, x10, x11, x12, x13, x14, x15, x16, x17, x18, x19, x20, x21, x22, x23, x24, x25, x26, x27, x28, x29, x30, x31],
    ;

    /// Extract lane 0.
    fn get0(x: &Self::Vec) -> (r: Self)
        ensures
            r == Self::lanes(*x)[0],
    ;

    /// Extract lane 1.
    fn get1(x: &Self::Vec) -> (r: Self)
        ensures
            r == Self::lanes(*x)[1],
    ;

    /// Extract lane 2.
    fn get2(x: &Self::Vec) -> (r: Self)
        ensures
            r == Self::lanes(*x)[2],
    ;

    /// Extract lane 3.
    fn get3(x: &Self::Vec) -> (r: Self)
        ensures
            r == Self::lanes(*x)[3],
    ;

    /// Extract lane 4.
    fn get4(x: &Self::Vec) -> (r: Self)
        ensures
            r == Self::lanes(*x)[4],
    ;

    /// Extract lane 5.
    fn get5(x: &Self::Vec) -> (r: Self)
        ensures
            r == Self::lanes(*x)[5],
    ;

    /// Extract lane 6.
    fn get6(x: &Self::Vec) -> (r: Self)
        ensures
            r == Self::lanes(*x)[6],
    ;

    /// Extract lane 7.
    fn get7(x: &Self::Vec) -> (r: Self)
        ensures
            r == Self::lanes(*x)[7],
    ;

    /// Extract lane 8.
    fn get8(x: &Self::Vec) -> (r: Self)
        ensures
            r == Self::lanes(*x)[8],
    ;

    /// Extract lane 9.
    fn get9(x: &Self::Vec) -> (r: Self)
        ensures
            r == Self::lanes(*x)[9],
    ;

    /// Extract lane 10.
    fn get10(x: &Self::Vec) -> (r: Self)
        ensures
            r == Self::lanes(*x)[10],
    ;

    /// Extract lane 11.
    fn get11(x: &Self::Vec) -> (r: Self)
        ensures
            r == Self::lanes(*x)[11],
    ;

    /// Extract lane 12.
    fn get12(x: &Self::Vec) -> (r: Self)
        ensures
            r == Self::lanes(*x)[12],
    ;

    /// Extract lane 13.
    fn get13(x: &Self::Vec) -> (r: Self)
        ensures
            r == Self::lanes(*x)[13],
    ;

    /// Extract lane 14.
    fn get14(x: &Self::Vec) -> (r: Self)
        ensures
            r == Self::lanes(*x)[14],
    ;

    /// Extract lane 15.
    fn get15(x: &Self::Vec) -> (r: Self)
        ensures
            r == Self::lanes(*x)[15],
    ;

    /// Extract lane 16.
    fn get16(x: &Self::Vec) -> (r: Self)
        ensures
            r == Self::lanes(*x)[16],
    ;

    /// Extract lane 17.
    fn get17(x: &Self::Vec) -> (r: Self)
        ensures
            r == Self::lanes(*x)[17],
    ;

    /// Extract lane 18.
    fn get18(x: &Self::Vec) -> (r: Self)
        ensures
            r == Self::lanes(*x)[18],
    ;

    /// Extract lane 19.
    fn get19(x: &Self::Vec) -> (r: Self)
        ensures
            r == Self::lanes(*x)[19],
    ;

    /// Extract lane 20.
    fn get20(x: &Self::Vec) -> (r: Self)
        ensures
            r == Self::lanes(*x)[20],
    ;

    /// Extract lane 21.
    fn get21(x: &Self::Vec) -> (r: Self)
        ensures
            r == Self::lanes(*x)[21],
    ;

    /// Extract lane 22.
    fn get22(x: &Self::Vec) -> (r: Self)
        ensures
            r == Self::lanes(*x)[22],
    ;

    /// Extract lane 23.
    fn get23(x: &Self::Vec) -> (r: Self)
        ensures
            r == Self::lanes(*x)[23],
    ;

    /// Extract lane 24.
    fn get24(x: &Self::Vec) -> (r: Self)
        ensures
            r == Self::lanes(*x)[24],
    ;

    /// Extract lane 25.
    fn get25(x: &Self::Vec) -> (r: Self)
        ensures
            r == Self::lanes(*x)[25],
    ;

    /// Extract lane 26.
    fn get26(x: &Self::Vec) -> (r: Self)
        ensures
            r == Self::lanes(*x)[26],
    ;

    /// Extract lane 27.
    fn get27(x: &Self::Vec) -> (r: Self)
        ensures
            r == Self::lanes(*x)[27],
    ;

    /// Extract lane 28.
    fn get28(x: &Self::Vec) -> (r: Self)
        ensures
            r == Self::lanes(*x)[28],
    ;

    /// Extract lane 29.
    fn get29(x: &Self::Vec) -> (r: Self)
        ensures
            r == Self::lanes(*x)[29],
    ;

    /// Extract lane 30.
    fn get30(x: &Self::Vec) -> (r: Self)
        ensures
            r == Self::lanes(*x)[30],
    ;

    /// Extract lane 31.
    fn get31(x: &Self::Vec) -> (r: Self)
        ensures
            r == Self::lanes(*x)[31],
    ;

}

/// The reduction relation: `result` can be reached from `acc` by
/// folding `g` over `s[i..]`, each step being one admissible output of
/// `g` at that position.
pub open spec fn fold_rel<G: Fn(usize, R, R) -> R, R>(g: G, s: Seq<R>, i: int, acc: R, result: R) -> bool
    decreases s.len() - i,
{
    if i < 0 {
        false
    } else if i >= s.len() {
        result == acc
    } else {
        exists|next: R|
            #[trigger] call_ensures(g, (i as usize, acc, s[i]), next) && fold_rel(
                g,
                s,
                i + 1,
                next,
                result,
            )
    }
}

/// Fold `g` over `xs[1..]` starting from `xs[0]`.
fn reduce<R: Copy, G: Fn(usize, R, R) -> R>(g: G, xs: &Vec<R>) -> (r: R)
    requires
        xs@.len() >= 1,
        forall|i: usize, a: R, b: R|
            1 <= i < xs@.len() ==> #[trigger] call_requires(g, (i, a, b)),
    ensures
        fold_rel(g, xs@, 1, xs@[0], r),
{
    let mut acc: R = xs[0];
    let mut i: usize = 1;
    while i < xs.len()
        invariant
            1 <= i <= xs@.len(),
            forall|k: usize, a: R, b: R|
                1 <= k < xs@.len() ==> #[trigger] call_requires(g, (k, a, b)),
            forall|fr: R|
                fold_rel(g, xs@, i as int, acc, fr) ==> fold_rel(g, xs@, 1, xs@[0], fr),
        decreases xs@.len() - i,
    {
        let next = g(i, acc, xs[i]);
        proof {
            assert forall|fr: R| fold_rel(g, xs@, i + 1, next, fr) implies fold_rel(
                g,
                xs@,
                1,
                xs@[0],
                fr,
            ) by {
                assert(call_ensures(g, (i, acc, xs@[i as int]), next));
                assert(fold_rel(g, xs@, i as int, acc, fr));
            }
        }
        acc = next;
        i += 1;
    }
    proof {
        assert(fold_rel(g, xs@, xs@.len() as int, acc, acc));
        assert(fold_rel(g, xs@, 1, xs@[0], acc));
    }
    acc
}

/// Lift a binary operation over a vector and a scalar: each result
/// lane is an output of `f` on the matching input lane and the scalar.
pub fn lift2_vs_v<F, A, B, R>(f: F, a: A::Vec, b: B) -> (r: R::Vec) where
    F: Fn(A, B) -> R,
    A: Vector2,
    B: Copy,
    R: Vector2,

    requires
        forall|i: int| 0 <= i < 2 ==> call_requires(f, (#[trigger] A::lanes(a)[i], b)),
    ensures
        R::lanes(r).len() == 2,
        forall|i: int|
            0 <= i < 2 ==> call_ensures(f, (A::lanes(a)[i], b), #[trigger] R::lanes(r)[i]),
{
    let r0 = f(A::get0(&a), b);
    let r1 = f(A::get1(&a), b);
    let r = R::new(r0, r1);
    proof {
        assert forall|i: int| 0 <= i < 2 implies call_ensures(
            f,
            (A::lanes(a)[i], b),
            #[trigger] R::lanes(r)[i],
        ) by {
            assert(R::lanes(r)[0] == r0);
            assert(R::lanes(r)[1] == r1);
        }
    }
    r
}

/// Lift a binary operation over two vectors, lane by lane.
pub fn lift2_vv_v<F, A, B, R>(f: F, a: A::Vec, b: B::Vec) -> (r: R::Vec) where
    F: Fn(A, B) -> R,
    A: Vector2,
    B: Vector2,
    R: Vector2,

    requires
        forall|i: int|
            0 <= i < 2 ==> call_requires(f, (#[trigger] A::lanes(a)[i], B::lanes(b)[i])),
    ensures
        R::lanes(r).len() == 2,
        forall|i: int|
            0 <= i < 2 ==> call_ensures(
                f,
                (A::lanes(a)[i], B::lanes(b)[i]),
                #[trigger] R::lanes(r)[i],
            ),
{
    let r0 = f(A::get0(&a), B::get0(&b));
    let r1 = f(A::get1(&a), B::get1(&b));
    let r = R::new(r0, r1);
    proof {
        assert forall|i: int| 0 <= i < 2 implies call_ensures(
            f,
            (A::lanes(a)[i], B::lanes(b)[i]),
            #[trigger] R::lanes(r)[i],
        ) by {
            assert(R::lanes(r)[0] == r0);
            assert(R::lanes(r)[1] == r1);
        }
    }
    r
}

/// Lift a binary operation over a vector and a scalar: each result
/// lane is an output of `f` on the matching input lane and the scalar.
pub fn lift4_vs_v<F, A, B, R>(f: F, a: A::Vec, b: B) -> (r: R::Vec) where
    F: Fn(A, B) -> R,
    A: Vector4,
    B: Copy,
    R: Vector4,

    requires
        forall|i: int| 0 <= i < 4 ==> call_requires(f, (#[trigger] A::lanes(a)[i], b)),
    ensures
        R::lanes(r).len() == 4,
        forall|i: int|
            0 <= i < 4 ==> call_ensures(f, (A::lanes(a)[i], b), #[trigger] R::lanes(r)[i]),
{
    let r0 = f(A::get0(&a), b);
    let r1 = f(A::get1(&a), b);
    let r2 = f(A::get2(&a), b);
    let r3 = f(A::get3(&a), b);
    let r = R::new(r0, r1, r2, r3);
    proof {
        assert forall|i: int| 0 <= i < 4 implies call_ensures(
            f,
            (A::lanes(a)[i], b),
            #[trigger] R::lanes(r)[i],
        ) by {
            assert(R::lanes(r)[0] == r0);
            assert(R::lanes(r)[1] == r1);
            assert(R::lanes(r)[2] == r2);
            assert(R::lanes(r)[3] == r3);
        }
    }
    r
}

/// Lift a binary operation over two vectors, lane by lane.
pub fn lift4_vv_v<F, A, B, R>(f: F, a: A::Vec, b: B::Vec) -> (r: R::Vec) where
    F: Fn(A, B) -> R,
    A: Vector4,
    B: Vector4,
    R: Vector4,

    requires
        forall|i: int|
            0 <= i < 4 ==> call_requires(f, (#[trigger] A::lanes(a)[i], B::lanes(b)[i])),
    ensures
        R::lanes(r).len() == 4,
        forall|i: int|
            0 <= i < 4 ==> call_ensures(
                f,
                (A::lanes(a)[i], B::lanes(b)[i]),
                #[trigger] R::lanes(r)[i],
            ),
{
    let r0 = f(A::get0(&a), B::get0(&b));
    let r1 = f(A::get1(&a), B::get1(&b));
    let r2 = f(A::get2(&a), B::get2(&b));
    let r3 = f(A::get3(&a), B::get3(&b));
    let r = R::new(r0, r1, r2, r3);
    proof {
        assert forall|i: int| 0 <= i < 4 implies call_ensures(
            f,
            (A::lanes(a)[i], B::lanes(b)[i]),
            #[trigger] R::lanes(r)[i],
        ) by {
            assert(R::lanes(r)[0] == r0);
            assert(R::lanes(r)[1] == r1);
            assert(R::lanes(r)[2] == r2);
            assert(R::lanes(r)[3] == r3);
        }
    }
    r
}

/// Lift a binary operation over a vector and a scalar: each result
/// lane is an output of `f` on the matching input lane and the scalar.
pub fn lift8_vs_v<F, A, B, R>(f: F, a: A::Vec, b: B) -> (r: R::Vec) where
    F: Fn(A, B) -> R,
    A: Vector8,
    B: Copy,
    R: Vector8,

    requires
        forall|i: int| 0 <= i < 8 ==> call_requires(f, (#[trigger] A::lanes(a)[i], b)),
    ensures
        R::lanes(r).len() == 8,
        forall|i: int|
            0 <= i < 8 ==> call_ensures(f, (A::lanes(a)[i], b), #[trigger] R::lanes(r)[i]),
{
    let r0 = f(A::get0(&a), b);
    let r1 = f(A::get1(&a), b);
    let r2 = f(A::get2(&a), b);
    let r3 = f(A::get3(&a), b);
    let r4 = f(A::get4(&a), b);
    let r5 = f(A::get5(&a), b);
    let r6 = f(A::get6(&a), b);
    let r7 = f(A::get7(&a), b);
    let r = R::new(r0, r1, r2, r3, r4, r5, r6, r7);
    proof {
        assert forall|i: int| 0 <= i < 8 implies call_ensures(
            f,
            (A::lanes(a)[i], b),
            #[trigger] R::lanes(r)[i],
        ) by {
            assert(R::lanes(r)[0] == r0);
            assert(R::lanes(r)[1] == r1);
            assert(R::lanes(r)[2] == r2);
            assert(R::lanes(r)[3] == r3);
            assert(R::lanes(r)[4] == r4);
            assert(R::lanes(r)[5] == r5);
            assert(R::lanes(r)[6] == r6);
            assert(R::lanes(r)[7] == r7);
        }
    }
    r
}

/// Lift a binary operation over two vectors, lane by lane.
pub fn lift8_vv_v<F, A, B, R>(f: F, a: A::Vec, b: B::Vec) -> (r: R::Vec) where
    F: Fn(A, B) -> R,
    A: Vector8,
    B: Vector8,
    R: Vector8,

    requires
        forall|i: int|
            0 <= i < 8 ==> call_requires(f, (#[trigger] A::lanes(a)[i], B::lanes(b)[i])),
    ensures
        R::lanes(r).len() == 8,
        forall|i: int|
            0 <= i < 8 ==> call_ensures(
                f,
                (A::lanes(a)[i], B::lanes(b)[i]),
                #[trigger] R::lanes(r)[i],
            ),
{
    let r0 = f(A::get0(&a), B::get0(&b));
    let r1 = f(A::get1(&a), B::get1(&b));
    let r2 = f(A::get2(&a), B::get2(&b));
    let r3 = f(A::get3(&a), B::get3(&b));
    let r4 = f(A::get4(&a), B::get4(&b));
    let r5 = f(A::get5(&a), B::get5(&b));
    let r6 = f(A::get6(&a), B::get6(&b));
    let r7 = f(A::get7(&a), B::get7(&b));
    let r = R::new(r0, r1, r2, r3, r4, r5, r6, r7);
    proof {
        assert forall|i: int| 0 <= i < 8 implies call_ensures(
            f,
            (A::lanes(a)[i], B::lanes(b)[i]),
            #[trigger] R::lanes(r)[i],
        ) by {
            assert(R::lanes(r)[0] == r0);
            assert(R::lanes(r)[1] == r1);
            assert(R::lanes(r)[2] == r2);
            assert(R::lanes(r)[3] == r3);
            assert(R::lanes(r)[4] == r4);
            assert(R::lanes(r)[5] == r5);
            assert(R::lanes(r)[6] == r6);
            assert(R::lanes(r)[7] == r7);
        }
    }
    r
}

/// Lift a binary operation over a vector and a scalar: each result
/// lane is an output of `f` on the matching input lane and the scalar.
pub fn lift16_vs_v<F, A, B, R>(f: F, a: A::Vec, b: B) -> (r: R::Vec) where
    F: Fn(A, B) -> R,
    A: Vector16,
    B: Copy,
    R: Vector16,

    requires
        forall|i: int| 0 <= i < 16 ==> call_requires(f, (#[trigger] A::lanes(a)[i], b)),
    ensures
        R::lanes(r).len() == 16,
        forall|i: int|
            0 <= i < 16 ==> call_ensures(f, (A::lanes(a)[i], b), #[trigger] R::lanes(r)[i]),
{
    let r0 = f(A::get0(&a), b);
    let r1 = f(A::get1(&a), b);
    let r2 = f(A::get2(&a), b);
    let r3 = f(A::get3(&a), b);
    let r4 = f(A::get4(&a), b);
    let r5 = f(A::get5(&a), b);
    let r6 = f(A::get6(&a), b);
    let r7 = f(A::get7(&a), b);
    let r8 = f(A::get8(&a), b);
    let r9 = f(A::get9(&a), b);
    let r10 = f(A::get10(&a), b);
    let r11 = f(A::get11(&a), b);
    let r12 = f(A::get12(&a), b);
    let r13 = f(A::get13(&a), b);
    let r14 = f(A::get14(&a), b);
    let r15 = f(A::get15(&a), b);
    let r = R::new(r0, r1, r2, r3, r4, r5, r6, r7, r8, r9, r10, r11, r12, r13, r14, r15);
    proof {
        assert forall|i: int| 0 <= i < 16 implies call_ensures(
            f,
            (A::lanes(a)[i], b),
            #[trigger] R::lanes(r)[i],
        ) by {
            assert(R::lanes(r)[0] == r0);
            assert(R::lanes(r)[1] == r1);
            assert(R::lanes(r)[2] == r2);
            assert(R::lanes(r)[3] == r3);
            assert(R::lanes(r)[4] == r4);
            assert(R::lanes(r)[5] == r5);
            assert(R::lanes(r)[6] == r6);
            assert(R::lanes(r)[7] == r7);
            assert(R::lanes(r)[8] == r8);
            assert(R::lanes(r)[9] == r9);
            assert(R::lanes(r)[10] == r10);
            assert(R::lanes(r)[11] == r11);
            assert(R::lanes(r)[12] == r12);
            assert(R::lanes(r)[13] == r13);
            assert(R::lanes(r)[14] == r14);
            assert(R::lanes(r)[15] == r15);
        }
    }
    r
}

/// Lift a binary operation over two vectors, lane by lane.
pub fn lift16_vv_v<F, A, B, R>(f: F, a: A::Vec, b: B::Vec) -> (r: R::Vec) where
    F: Fn(A, B) -> R,
    A: Vector16,
    B: Vector16,
    R: Vector16,

    requires
        forall|i: int|
            0 <= i < 16 ==> call_requires(f, (#[trigger] A::lanes(a)[i], B::lanes(b)[i])),
    ensures
        R::lanes(r).len() == 16,
        forall|i: int|
            0 <= i < 16 ==> call_ensures(
                f,
                (A::lanes(a)[i], B::lanes(b)[i]),
                #[trigger] R::lanes(r)[i],
            ),
{
    let r0 = f(A::get0(&a), B::get0(&b));
    let r1 = f(A::get1(&a), B::get1(&b));
    let r2 = f(A::get2(&a), B::get2(&b));
    let r3 = f(A::get3(&a), B::get3(&b));
    let r4 = f(A::get4(&a), B::get4(&b));
    let r5 = f(A::get5(&a), B::get5(&b));
    let r6 = f(A::get6(&a), B::get6(&b));
    let r7 = f(A::get7(&a), B::get7(&b));
    let r8 = f(A::get8(&a), B::get8(&b));
    let r9 = f(A::get9(&a), B::get9(&b));
    let r10 = f(A::get10(&a), B::get10(&b));
    let r11 = f(A::get11(&a), B::get11(&b));
    let r12 = f(A::get12(&a), B::get12(&b));
    let r13 = f(A::get13(&a), B::get13(&b));
    let r14 = f(A::get14(&a), B::get14(&b));
    let r15 = f(A::get15(&a), B::get15(&b));
    let r = R::new(r0, r1, r2, r3, r4, r5, r6, r7, r8, r9, r10, r11, r12, r13, r14, r15);
    proof {
        assert forall|i: int| 0 <= i < 16 implies call_ensures(
            f,
            (A::lanes(a)[i], B::lanes(b)[i]),
            #[trigger] R::lanes(r)[i],
        ) by {
            assert(R::lanes(r)[0] == r0);
            assert(R::lanes(r)[1] == r1);
            assert(R::lanes(r)[2] == r2);
            assert(R::lanes(r)[3] == r3);
            assert(R::lanes(r)[4] == r4);
            assert(R::lanes(r)[5] == r5);
            assert(R::lanes(r)[6] == r6);
            assert(R::lanes(r)[7] == r7);
            assert(R::lanes(r)[8] == r8);
            assert(R::lanes(r)[9] == r9);
            assert(R::lanes(r)[10] == r10);
            assert(R::lanes(r)[11] == r11);
            assert(R::lanes(r)[12] == r12);
            assert(R::lanes(r)[13] == r13);
            assert(R::lanes(r)[14] == r14);
            assert(R::lanes(r)[15] == r15);
        }
    }
    r
}

/// Lift a binary operation over a vector and a scalar: each result
/// lane is an output of `f` on the matching input lane and the scalar.
pub fn lift32_vs_v<F, A, B, R>(f: F, a: A::Vec, b: B) -> (r: R::Vec) where
    F: Fn(A, B) -> R,
    A: Vector32,
    B: Copy,
    R: Vector32,

    requires
        forall|i: int| 0 <= i < 32 ==> call_requires(f, (#[trigger] A::lanes(a)[i], b)),
    ensures
        R::lanes(r).len() == 32,
        forall|i: int|
            0 <= i < 32 ==> call_ensures(f, (A::lanes(a)[i], b), #[trigger] R::lanes(r)[i]),
{
    let r0 = f(A::get0(&a), b);
    let r1 = f(A::get1(&a), b);
    let r2 = f(A::get2(&a), b);
    let r3 = f(A::get3(&a), b);
    let r4 = f(A::get4(&a), b);
    let r5 = f(A::get5(&a), b);
    let r6 = f(A::get6(&a), b);
    let r7 = f(A::get7(&a), b);
    let r8 = f(A::get8(&a), b);
    let r9 = f(A::get9(&a), b);
    let r10 = f(A::get10(&a), b);
    let r11 = f(A::get11(&a), b);
    let r12 = f(A::get12(&a), b);
    let r13 = f(A::get13(&a), b);
    let r14 = f(A::get14(&a), b);
    let r15 = f(A::get15(&a), b);
    let r16 = f(A::get16(&a), b);
    let r17 = f(A::get17(&a), b);
    let r18 = f(A::get18(&a), b);
    let r19 = f(A::get19(&a), b);
    let r20 = f(A::get20(&a), b);
    let r21 = f(A::get21(&a), b);
    let r22 = f(A::get22(&a), b);
    let r23 = f(A::get23(&a), b);
    let r24 = f(A::get24(&a), b);
    let r25 = f(A::get25(&a), b);
    let r26 = f(A::get26(&a), b);
    let r27 = f(A::get27(&a), b);
    let r28 = f(A::get28(&a), b);
    let r29 = f(A::get29(&a), b);
    let r30 = f(A::get30(&a), b);
    let r31 = f(A::get31(&a), b);
    let r = R::new(r0, r1, r2, r3, r4, r5, r6, r7, r8, r9, r10, r11, r12, r13, r14, r15, r16, r17, r18, r19, r20, r21, r22, r23, r24, r25, r26, r27, r28, r29, r30, r31);
    proof {
        assert forall|i: int| 0 <= i < 32 implies call_ensures(
            f,
            (A::lanes(a)[i], b),
            #[trigger] R::lanes(r)[i],
        ) by {
            assert(R::lanes(r)[0] == r0);
            assert(R::lanes(r)[1] == r1);
            assert(R::lanes(r)[2] == r2);
            assert(R::lanes(r)[3] == r3);
            assert(R::lanes(r)[4] == r4);
            assert(R::lanes(r)[5] == r5);
            assert(R::lanes(r)[6] == r6);
            assert(R::lanes(r)[7] == r7);
            assert(R::lanes(r)[8] == r8);
            assert(R::lanes(r)[9] == r9);
            assert(R::lanes(r)[10] == r10);
            assert(R::lanes(r)[11] == r11);
            assert(R::lanes(r)[12] == r12);
            assert(R::lanes(r)[13] == r13);
            assert(R::lanes(r)[14] == r14);
            assert(R::lanes(r)[15] == r15);
            assert(R::lanes(r)[16] == r16);
            assert(R::lanes(r)[17] == r17);
            assert(R::lanes(r)[18] == r18);
            assert(R::lanes(r)[19] == r19);
            assert(R::lanes(r)[20] == r20);
            assert(R::lanes(r)[21] == r21);
            assert(R::lanes(r)[22] == r22);
            assert(R::lanes(r)[23] == r23);
            assert(R::lanes(r)[24] == r24);
            assert(R::lanes(r)[25] == r25);
            assert(R::lanes(r)[26] == r26);
            assert(R::lanes(r)[27] == r27);
            assert(R::lanes(r)[28] == r28);
            assert(R::lanes(r)[29] == r29);
            assert(R::lanes(r)[30] == r30);
            assert(R::lanes(r)[31] == r31);
        }
    }
    r
}

/// Lift a binary operation over two vectors, lane by lane.
pub fn lift32_vv_v<F, A, B, R>(f: F, a: A::Vec, b: B::Vec) -> (r: R::Vec) where
    F: Fn(A, B) -> R,
    A: Vector32,
    B: Vector32,
    R: Vector32,

    requires
        forall|i: int|
            0 <= i < 32 ==> call_requires(f, (#[trigger] A::lanes(a)[i], B::lanes(b)[i])),
    ensures
        R::lanes(r).len() == 32,
        forall|i: int|
            0 <= i < 32 ==> call_ensures(
                f,
                (A::lanes(a)[i], B::lanes(b)[i]),
                #[trigger] R::lanes(r)[i],
            ),
{
    let r0 = f(A::get0(&a), B::get0(&b));
    let r1 = f(A::get1(&a), B::get1(&b));
    let r2 = f(A::get2(&a), B::get2(&b));
    let r3 = f(A::get3(&a), B::get3(&b));
    let r4 = f(A::get4(&a), B::get4(&b));
    let r5 = f(A::get5(&a), B::get5(&b));
    let r6 = f(A::get6(&a), B::get6(&b));
    let r7 = f(A::get7(&a), B::get7(&b));
    let r8 = f(A::get8(&a), B::get8(&b));
    let r9 = f(A::get9(&a), B::get9(&b));
    let r10 = f(A::get10(&a), B::get10(&b));
    let r11 = f(A::get11(&a), B::get11(&b));
    let r12 = f(A::get12(&a), B::get12(&b));
    let r13 = f(A::get13(&a), B::get13(&b));
    let r14 = f(A::get14(&a), B::get14(&b));
    let r15 = f(A::get15(&a), B::get15(&b));
    let r16 = f(A::get16(&a), B::get16(&b));
    let r17 = f(A::get17(&a), B::get17(&b));
    let r18 = f(A::get18(&a), B::get18(&b));
    let r19 = f(A::get19(&a), B::get19(&b));
    let r20 = f(A::get20(&a), B::get20(&b));
    let r21 = f(A::get21(&a), B::get21(&b));
    let r22 = f(A::get22(&a), B::get22(&b));
    let r23 = f(A::get23(&a), B::get23(&b));
    let r24 = f(A::get24(&a), B::get24(&b));
    let r25 = f(A::get25(&a), B::get25(&b));
    let r26 = f(A::get26(&a), B::get26(&b));
    let r27 = f(A::get27(&a), B::get27(&b));
    let r28 = f(A::get28(&a), B::get28(&b));
    let r29 = f(A::get29(&a), B::get29(&b));
    let r30 = f(A::get30(&a), B::get30(&b));
    let r31 = f(A::get31(&a), B::get31(&b));
    let r = R::new(r0, r1, r2, r3, r4, r5, r6, r7, r8, r9, r10, r11, r12, r13, r14, r15, r16, r17, r18, r19, r20, r21, r22, r23, r24, r25, r26, r27, r28, r29, r30, r31);
    proof {
        assert forall|i: int| 0 <= i < 32 implies call_ensures(
            f,
            (A::lanes(a)[i], B::lanes(b)[i]),
            #[trigger] R::lanes(r)[i],
        ) by {
            assert(R::lanes(r)[0] == r0);
            assert(R::lanes(r)[1] == r1);
            assert(R::lanes(r)[2] == r2);
            assert(R::lanes(r)[3] == r3);
            assert(R::lanes(r)[4] == r4);
            assert(R::lanes(r)[5] == r5);
            assert(R::lanes(r)[6] == r6);
            assert(R::lanes(r)[7] == r7);
            assert(R::lanes(r)[8] == r8);
            assert(R::lanes(r)[9] == r9);
            assert(R::lanes(r)[10] == r10);
            assert(R::lanes(r)[11] == r11);
            assert(R::lanes(r)[12] == r12);
            assert(R::lanes(r)[13] == r13);
            assert(R::lanes(r)[14] == r14);
            assert(R::lanes(r)[15] == r15);
            assert(R::lanes(r)[16] == r16);
            assert(R::lanes(r)[17] == r17);
            assert(R::lanes(r)[18] == r18);
            assert(R::lanes(r)[19] == r19);
            assert(R::lanes(r)[20] == r20);
            assert(R::lanes(r)[21] == r21);
            assert(R::lanes(r)[22] == r22);
            assert(R::lanes(r)[23] == r23);
            assert(R::lanes(r)[24] == r24);
            assert(R::lanes(r)[25] == r25);
            assert(R::lanes(r)[26] == r26);
            assert(R::lanes(r)[27] == r27);
            assert(R::lanes(r)[28] == r28);
            assert(R::lanes(r)[29] == r29);
            assert(R::lanes(r)[30] == r30);
            assert(R::lanes(r)[31] == r31);
        }
    }
    r
}

/// Broadcast a scalar into every lane of a vector.
pub fn lift16_s_v<R: Vector16>(a: R) -> (r: R::Vec)
    ensures
        R::lanes(r).len() == 16,
        forall|i: int| 0 <= i < 16 ==> #[trigger] R::lanes(r)[i] == a,
{
    let r = R::new(a, a, a, a, a, a, a, a, a, a, a, a, a, a, a, a);
    proof {
        assert forall|i: int| 0 <= i < 16 implies #[trigger] R::lanes(r)[i] == a by {
            assert(R::lanes(r)[0] == a);
            assert(R::lanes(r)[1] == a);
            assert(R::lanes(r)[2] == a);
            assert(R::lanes(r)[3] == a);
            assert(R::lanes(r)[4] == a);
            assert(R::lanes(r)[5] == a);
            assert(R::lanes(r)[6] == a);
            assert(R::lanes(r)[7] == a);
            assert(R::lanes(r)[8] == a);
            assert(R::lanes(r)[9] == a);
            assert(R::lanes(r)[10] == a);
            assert(R::lanes(r)[11] == a);
            assert(R::lanes(r)[12] == a);
            assert(R::lanes(r)[13] == a);
            assert(R::lanes(r)[14] == a);
            assert(R::lanes(r)[15] == a);
        }
    }
    r
}

/// Broadcast a scalar into every lane of a vector.
pub fn lift32_s_v<R: Vector32>(a: R) -> (r: R::Vec)
    ensures
        R::lanes(r).len() == 32,
        forall|i: int| 0 <= i < 32 ==> #[trigger] R::lanes(r)[i] == a,
{
    let r = R::new(a, a, a, a, a, a, a, a, a, a, a, a, a, a, a, a, a, a, a, a, a, a, a, a, a, a, a, a, a, a, a, a);
    proof {
        assert forall|i: int| 0 <= i < 32 implies #[trigger] R::lanes(r)[i] == a by {
            assert(R::lanes(r)[0] == a);
            assert(R::lanes(r)[1] == a);
            assert(R::lanes(r)[2] == a);
            assert(R::lanes(r)[3] == a);
            assert(R::lanes(r)[4] == a);
            assert(R::lanes(r)[5] == a);
            assert(R::lanes(r)[6] == a);
            assert(R::lanes(r)[7] == a);
            assert(R::lanes(r)[8] == a);
            assert(R::lanes(r)[9] == a);
            assert(R::lanes(r)[10] == a);
            assert(R::lanes(r)[11] == a);
            assert(R::lanes(r)[12] == a);
            assert(R::lanes(r)[13] == a);
            assert(R::lanes(r)[14] == a);
            assert(R::lanes(r)[15] == a);
            assert(R::lanes(r)[16] == a);
            assert(R::lanes(r)[17] == a);
            assert(R::lanes(r)[18] == a);
            assert(R::lanes(r)[19] == a);
            assert(R::lanes(r)[20] == a);
            assert(R::lanes(r)[21] == a);
            assert(R::lanes(r)[22] == a);
            assert(R::lanes(r)[23] == a);
            assert(R::lanes(r)[24] == a);
            assert(R::lanes(r)[25] == a);
            assert(R::lanes(r)[26] == a);
            assert(R::lanes(r)[27] == a);
            assert(R::lanes(r)[28] == a);
            assert(R::lanes(r)[29] == a);
            assert(R::lanes(r)[30] == a);
            assert(R::lanes(r)[31] == a);
        }
    }
    r
}

/// Lift a unary operation over a vector and reduce the lane results
/// with `g`: there is a sequence of per-lane outputs of `f` that `g`
/// folds to the result.
pub fn lift2_v_s<F, G, A, R>(f: F, g: G, a: A::Vec) -> (r: R) where
    F: Fn(A) -> R,
    G: Fn(usize, R, R) -> R,
    A: Vector2,
    R: Copy,

    requires
        forall|i: int| 0 <= i < 2 ==> call_requires(f, (#[trigger] A::lanes(a)[i],)),
        forall|i: usize, x: R, y: R|
            1 <= i < 2 ==> #[trigger] call_requires(g, (i, x, y)),
    ensures
        exists|rs: Seq<R>|
            rs.len() == 2 && (forall|i: int|
                0 <= i < 2 ==> call_ensures(f, (A::lanes(a)[i],), #[trigger] rs[i]))
                && fold_rel(g, rs, 1, rs[0], r),
{
    let r0 = f(A::get0(&a));
    let r1 = f(A::get1(&a));
    let mut xs: Vec<R> = Vec::new();
    xs.push(r0);
    xs.push(r1);
    let r = reduce(g, &xs);
    proof {
        assert(xs@ =~= seq![r0, r1]);
        assert forall|i: int| 0 <= i < 2 implies call_ensures(
            f,
            (A::lanes(a)[i],),
            #[trigger] xs@[i],
        ) by {
            assert(xs@[0] == r0);
            assert(xs@[1] == r1);
        }
    }
    r
}

/// Lift a unary operation over a vector and reduce the lane results
/// with `g`: there is a sequence of per-lane outputs of `f` that `g`
/// folds to the result.
pub fn lift4_v_s<F, G, A, R>(f: F, g: G, a: A::Vec) -> (r: R) where
    F: Fn(A) -> R,
    G: Fn(usize, R, R) -> R,
    A: Vector4,
    R: Copy,

    requires
        forall|i: int| 0 <= i < 4 ==> call_requires(f, (#[trigger] A::lanes(a)[i],)),
        forall|i: usize, x: R, y: R|
            1 <= i < 4 ==> #[trigger] call_requires(g, (i, x, y)),
    ensures
        exists|rs: Seq<R>|
            rs.len() == 4 && (forall|i: int|
                0 <= i < 4 ==> call_ensures(f, (A::lanes(a)[i],), #[trigger] rs[i]))
                && fold_rel(g, rs, 1, rs[0], r),
{
    let r0 = f(A::get0(&a));
    let r1 = f(A::get1(&a));
    let r2 = f(A::get2(&a));
    let r3 = f(A::get3(&a));
    let mut xs: Vec<R> = Vec::new();
    xs.push(r0);
    xs.push(r1);
    xs.push(r2);
    xs.push(r3);
    let r = reduce(g, &xs);
    proof {
        assert(xs@ =~= seq![r0, r1, r2, r3]);
        assert forall|i: int| 0 <= i < 4 implies call_ensures(
            f,
            (A::lanes(a)[i],),
            #[trigger] xs@[i],
        ) by {
            assert(xs@[0] == r0);
            assert(xs@[1] == r1);
            assert(xs@[2] == r2);
            assert(xs@[3] == r3);
        }
    }
    r
}

/// Lift a unary operation over a vector and reduce the lane results
/// with `g`: there is a sequence of per-lane outputs of `f` that `g`
/// folds to the result.
pub fn lift8_v_s<F, G, A, R>(f: F, g: G, a: A::Vec) -> (r: R) where
    F: Fn(A) -> R,
    G: Fn(usize, R, R) -> R,
    A: Vector8,
    R: Copy,

    requires
        forall|i: int| 0 <= i < 8 ==> call_requires(f, (#[trigger] A::lanes(a)[i],)),
        forall|i: usize, x: R, y: R|
            1 <= i < 8 ==> #[trigger] call_requires(g, (i, x, y)),
    ensures
        exists|rs: Seq<R>|
            rs.len() == 8 && (forall|i: int|
                0 <= i < 8 ==> call_ensures(f, (A::lanes(a)[i],), #[trigger] rs[i]))
                && fold_rel(g, rs, 1, rs[0], r),
{
    let r0 = f(A::get0(&a));
    let r1 = f(A::get1(&a));
    let r2 = f(A::get2(&a));
    let r3 = f(A::get3(&a));
    let r4 = f(A::get4(&a));
    let r5 = f(A::get5(&a));
    let r6 = f(A::get6(&a));
    let r7 = f(A::get7(&a));
    let mut xs: Vec<R> = Vec::new();
    xs.push(r0);
    xs.push(r1);
    xs.push(r2);
    xs.push(r3);
    xs.push(r4);
    xs.push(r5);
    xs.push(r6);
    xs.push(r7);
    let r = reduce(g, &xs);
    proof {
        assert(xs@ =~= seq![r0, r1, r2, r3, r4, r5, r6, r7]);
        assert forall|i: int| 0 <= i < 8 implies call_ensures(
            f,
            (A::lanes(a)[i],),
            #[trigger] xs@[i],
        ) by {
            assert(xs@[0] == r0);
            assert(xs@[1] == r1);
            assert(xs@[2] == r2);
            assert(xs@[3] == r3);
            assert(xs@[4] == r4);
            assert(xs@[5] == r5);
            assert(xs@[6] == r6);
            assert(xs@[7] == r7);
        }
    }
    r
}

/// Lift a unary operation over a vector and reduce the lane results
/// with `g`: there is a sequence of per-lane outputs of `f` that `g`
/// folds to the result.
pub fn lift16_v_s<F, G, A, R>(f: F, g: G, a: A::Vec) -> (r: R) where
    F: Fn(A) -> R,
    G: Fn(usize, R, R) -> R,
    A: Vector16,
    R: Copy,

    requires
        forall|i: int| 0 <= i < 16 ==> call_requires(f, (#[trigger] A::lanes(a)[i],)),
        forall|i: usize, x: R, y: R|
            1 <= i < 16 ==> #[trigger] call_requires(g, (i, x, y)),
    ensures
        exists|rs: Seq<R>|
            rs.len() == 16 && (forall|i: int|
                0 <= i < 16 ==> call_ensures(f, (A::lanes(a)[i],), #[trigger] rs[i]))
                && fold_rel(g, rs, 1, rs[0], r),
{
    let r0 = f(A::get0(&a));
    let r1 = f(A::get1(&a));
    let r2 = f(A::get2(&a));
    let r3 = f(A::get3(&a));
    let r4 = f(A::get4(&a));
    let r5 = f(A::get5(&a));
    let r6 = f(A::get6(&a));
    let r7 = f(A::get7(&a));
    let r8 = f(A::get8(&a));
    let r9 = f(A::get9(&a));
    let r10 = f(A::get10(&a));
    let r11 = f(A::get11(&a));
    let r12 = f(A::get12(&a));
    let r13 = f(A::get13(&a));
    let r14 = f(A::get14(&a));
    let r15 = f(A::get15(&a));
    let mut xs: Vec<R> = Vec::new();
    xs.push(r0);
    xs.push(r1);
    xs.push(r2);
    xs.push(r3);
    xs.push(r4);
    xs.push(r5);
    xs.push(r6);
    xs.push(r7);
    xs.push(r8);
    xs.push(r9);
    xs.push(r10);
    xs.push(r11);
    xs.push(r12);
    xs.push(r13);
    xs.push(r14);
    xs.push(r15);
    let r = reduce(g, &xs);
    proof {
        assert(xs@ =~= seq![r0, r1, r2, r3, r4, r5, r6, r7, r8, r9, r10, r11, r12, r13, r14, r15]);
        assert forall|i: int| 0 <= i < 16 implies call_ensures(
            f,
            (A::lanes(a)[i],),
            #[trigger] xs@[i],
        ) by {
            assert(xs@[0] == r0);
            assert(xs@[1] == r1);
            assert(xs@[2] == r2);
            assert(xs@[3] == r3);
            assert(xs@[4] == r4);
            assert(xs@[5] == r5);
            assert(xs@[6] == r6);
            assert(xs@[7] == r7);
            assert(xs@[8] == r8);
            assert(xs@[9] == r9);
            assert(xs@[10] == r10);
            assert(xs@[11] == r11);
            assert(xs@[12] == r12);
            assert(xs@[13] == r13);
            assert(xs@[14] == r14);
            assert(xs@[15] == r15);
        }
    }
    r
}

/// Lift a unary operation over a vector and reduce the lane results
/// with `g`: there is a sequence of per-lane outputs of `f` that `g`
/// folds to the result.
pub fn lift32_v_s<F, G, A, R>(f: F, g: G, a: A::Vec) -> (r: R) where
    F: Fn(A) -> R,
    G: Fn(usize, R, R) -> R,
    A: Vector32,
    R: Copy,

    requires
        forall|i: int| 0 <= i < 32 ==> call_requires(f, (#[trigger] A::lanes(a)[i],)),
        forall|i: usize, x: R, y: R|
            1 <= i < 32 ==> #[trigger] call_requires(g, (i, x, y)),
    ensures
        exists|rs: Seq<R>|
            rs.len() == 32 && (forall|i: int|
                0 <= i < 32 ==> call_ensures(f, (A::lanes(a)[i],), #[trigger] rs[i]))
                && fold_rel(g, rs, 1, rs[0], r),
{
    let r0 = f(A::get0(&a));
    let r1 = f(A::get1(&a));
    let r2 = f(A::get2(&a));
    let r3 = f(A::get3(&a));
    let r4 = f(A::get4(&a));
    let r5 = f(A::get5(&a));
    let r6 = f(A::get6(&a));
    let r7 = f(A::get7(&a));
    let r8 = f(A::get8(&a));
    let r9 = f(A::get9(&a));
    let r10 = f(A::get10(&a));
    let r11 = f(A::get11(&a));
    let r12 = f(A::get12(&a));
    let r13 = f(A::get13(&a));
    let r14 = f(A::get14(&a));
    let r15 = f(A::get15(&a));
    let r16 = f(A::get16(&a));
    let r17 = f(A::get17(&a));
    let r18 = f(A::get18(&a));
    let r19 = f(A::get19(&a));
    let r20 = f(A::get20(&a));
    let r21 = f(A::get21(&a));
    let r22 = f(A::get22(&a));
    let r23 = f(A::get23(&a));
    let r24 = f(A::get24(&a));
    let r25 = f(A::get25(&a));
    let r26 = f(A::get26(&a));
    let r27 = f(A::get27(&a));
    let r28 = f(A::get28(&a));
    let r29 = f(A::get29(&a));
    let r30 = f(A::get30(&a));
    let r31 = f(A::get31(&a));
    let mut xs: Vec<R> = Vec::new();
    xs.push(r0);
    xs.push(r1);
    xs.push(r2);
    xs.push(r3);
    xs.push(r4);
    xs.push(r5);
    xs.push(r6);
    xs.push(r7);
    xs.push(r8);
    xs.push(r9);
    xs.push(r10);
    xs.push(r11);
    xs.push(r12);
    xs.push(r13);
    xs.push(r14);
    xs.push(r15);
    xs.push(r16);
    xs.push(r17);
    xs.push(r18);
    xs.push(r19);
    xs.push(r20);
    xs.push(r21);
    xs.push(r22);
    xs.push(r23);
    xs.push(r24);
    xs.push(r25);
    xs.push(r26);
    xs.push(r27);
    xs.push(r28);
    xs.push(r29);
    xs.push(r30);
    xs.push(r31);
    let r = reduce(g, &xs);
    proof {
        assert(xs@ =~= seq![r0, r1, r2, r3, r4, r5, r6, r7, r8, r9, r10, r11, r12, r13, r14, r15, r16, r17, r18, r19, r20, r21, r22, r23, r24, r25, r26, r27, r28, r29, r30, r31]);
        assert forall|i: int| 0 <= i < 32 implies call_ensures(
            f,
            (A::lanes(a)[i],),
            #[trigger] xs@[i],
        ) by {
            assert(xs@[0] == r0);
            assert(xs@[1] == r1);
            assert(xs@[2] == r2);
            assert(xs@[3] == r3);
            assert(xs@[4] == r4);
            assert(xs@[5] == r5);
            assert(xs@[6] == r6);
            assert(xs@[7] == r7);
            assert(xs@[8] == r8);
            assert(xs@[9] == r9);
            assert(xs@[10] == r10);
            assert(xs@[11] == r11);
            assert(xs@[12] == r12);
            assert(xs@[13] == r13);
            assert(xs@[14] == r14);
            assert(xs@[15] == r15);
            assert(xs@[16] == r16);
            assert(xs@[17] == r17);
            assert(xs@[18] == r18);
            assert(xs@[19] == r19);
            assert(xs@[20] == r20);
            assert(xs@[21] == r21);
            assert(xs@[22] == r22);
            assert(xs@[23] == r23);
            assert(xs@[24] == r24);
            assert(xs@[25] == r25);
            assert(xs@[26] == r26);
            assert(xs@[27] == r27);
            assert(xs@[28] == r28);
            assert(xs@[29] == r29);
            assert(xs@[30] == r30);
            assert(xs@[31] == r31);
        }
    }
    r
}

/// Logical shift right by an 8-bit immediate; zero when the distance
/// exceeds the lane width.
pub fn srl_immed_u8_u8(x: u8, imm8: u8) -> (r: u8)
    ensures
        r == (if imm8 > 7 {
            0u8
        } else {
            x >> imm8
        }),
{
    if imm8 > 7 {
        0
    } else {
        x >> imm8
    }
}

/// Logical shift right by an 8-bit immediate; zero when the distance
/// exceeds the lane width.
pub fn srl_immed_u16_u8(x: u16, imm8: u8) -> (r: u16)
    ensures
        r == (if imm8 > 15 {
            0u16
        } else {
            x >> imm8
        }),
{
    if imm8 > 15 {
        0
    } else {
        x >> imm8
    }
}

/// Logical shift right by an 8-bit immediate; zero when the distance
/// exceeds the lane width.
pub fn srl_immed_u32_u8(x: u32, imm8: u8) -> (r: u32)
    ensures
        r == (if imm8 > 31 {
            0u32
        } else {
            x >> imm8
        }),
{
    if imm8 > 31 {
        0
    } else {
        x >> imm8
    }
}

/// Logical shift right by an 8-bit immediate; zero when the distance
/// exceeds the lane width.
pub fn srl_immed_u64_u8(x: u64, imm8: u8) -> (r: u64)
    ensures
        r == (if imm8 > 63 {
            0u64
        } else {
            x >> imm8
        }),
{
    if imm8 > 63 {
        0
    } else {
        x >> imm8
    }
}

/// The sign bit of a byte, widened to an `i32`.
pub fn sign_u8_i32(x: u8) -> (r: i32)
    ensures
        r == ((x >> 7) & 1) as i32,
{
    ((x >> 7) & 1) as i32
}

} // verus!
