//! The packed vector types and their lane access.

use vstd::prelude::*;

use crate::simd::{Vector16, Vector2, Vector32, Vector4, Vector8};

verus! {

/// A packed vector of 2 `u64` lanes.
#[derive(Clone, Copy, Debug)]
#[allow(non_camel_case_types)]
pub struct u64x2(pub u64, pub u64);

impl Vector2 for u64 {
    type Vec = u64x2;

    open spec fn lanes(v: u64x2) -> Seq<u64> {
        seq![v.0, v.1]
    }

    fn new(x0: u64, x1: u64) -> (r: u64x2) {
        let r = u64x2(x0, x1);
        proof {
            assert(<u64 as Vector2>::lanes(r) =~= seq![x0, x1]);
        }
        r
    }

    fn get0(x: &u64x2) -> (r: u64) {
        x.0
    }

    fn get1(x: &u64x2) -> (r: u64) {
        x.1
    }

}

/// A packed vector of 2 `u128` lanes.
#[derive(Clone, Copy, Debug)]
#[allow(non_camel_case_types)]
pub struct u128x2(pub u128, pub u128);

impl Vector2 for u128 {
    type Vec = u128x2;

    open spec fn lanes(v: u128x2) -> Seq<u128> {
        seq![v.0, v.1]
    }

    fn new(x0: u128, x1: u128) -> (r: u128x2) {
        let r = u128x2(x0, x1);
        proof {
            assert(<u128 as Vector2>::lanes(r) =~= seq![x0, x1]);
        }
        r
    }

    fn get0(x: &u128x2) -> (r: u128) {
        x.0
    }

    fn get1(x: &u128x2) -> (r: u128) {
        x.1
    }

}

/// A packed vector of 4 `u32` lanes.
#[derive(Clone, Copy, Debug)]
#[allow(non_camel_case_types)]
pub struct u32x4(pub u32, pub u32, pub u32, pub u32);

impl Vector4 for u32 {
    type Vec = u32x4;

    open spec fn lanes(v: u32x4) -> Seq<u32> {
        seq![v.0, v.1, v.2, v.3]
    }

    fn new(x0: u32, x1: u32, x2: u32, x3: u32) -> (r: u32x4) {
        let r = u32x4(x0, x1, x2, x3);
        proof {
            assert(<u32 as Vector4>::lanes(r) =~= seq![x0, x1, x2, x3]);
        }
        r
    }

    fn get0(x: &u32x4) -> (r: u32) {
        x.0
    }

    fn get1(x: &u32x4) -> (r: u32) {
        x.1
    }

    fn get2(x: &u32x4) -> (r: u32) {
        x.2
    }

    fn get3(x: &u32x4) -> (r: u32) {
        x.3
    }

}

/// A packed vector of 4 `u64` lanes.
#[derive(Clone, Copy, Debug)]
#[allow(non_camel_case_types)]
pub struct u64x4(pub u64, pub u64, pub u64, pub u64);

impl Vector4 for u64 {
    type Vec = u64x4;

    open spec fn lanes(v: u64x4) -> Seq<u64> {
        seq![v.0, v.1, v.2, v.3]
    }

    fn new(x0: u64, x1: u64, x2: u64, x3: u64) -> (r: u64x4) {
        let r = u64x4(x0, x1, x2, x3);
        proof {
            assert(<u64 as Vector4>::lanes(r) =~= seq![x0, x1, x2, x3]);
        }
        r
    }

    fn get0(x: &u64x4) -> (r: u64) {
        x.0
    }

    fn get1(x: &u64x4) -> (r: u64) {
        x.1
    }

    fn get2(x: &u64x4) -> (r: u64) {
        x.2
    }

    fn get3(x: &u64x4) -> (r: u64) {
        x.3
    }

}

/// A packed vector of 8 `u16` lanes.
#[derive(Clone, Copy, Debug)]
#[allow(non_camel_case_types)]
pub struct u16x8(pub u16, pub u16, pub u16, pub u16, pub u16, pub u16, pub u16, pub u16);

impl Vector8 for u16 {
    type Vec = u16x8;

    open spec fn lanes(v: u16x8) -> Seq<u16> {
        seq![v.0, v.1, v.2, v.3, v.4, v.5, v.6, v.7]
    }

    fn new(x0: u16, x1: u16, x2: u16, x3: u16, x4: u16, x5: u16, x6: u16, x7: u16) -> (r: u16x8) {
        let r = u16x8(x0, x1, x2, x3, x4, x5, x6, x7);
        proof {
            assert(<u16 as Vector8>::lanes(r) =~= seq![x0, x1, x2, x3, x4, x5, x6, x7]);
        }
        r
    }

    fn get0(x: &u16x8) -> (r: u16) {
        x.0
    }

    fn get1(x: &u16x8) -> (r: u16) {
        x.1
    }

    fn get2(x: &u16x8) -> (r: u16) {
        x.2
    }

    fn get3(x: &u16x8) -> (r: u16) {
        x.3
    }

    fn get4(x: &u16x8) -> (r: u16) {
        x.4
    }

    fn get5(x: &u16x8) -> (r: u16) {
        x.5
    }

    fn get6(x: &u16x8) -> (r: u16) {
        x.6
    }

    fn get7(x: &u16x8) -> (r: u16) {
        x.7
    }

}

/// A packed vector of 8 `u32` lanes.
#[derive(Clone, Copy, Debug)]
#[allow(non_camel_case_types)]
pub struct u32x8(pub u32, pub u32, pub u32, pub u32, pub u32, pub u32, pub u32, pub u32);

impl Vector8 for u32 {
    type Vec = u32x8;

    open spec fn lanes(v: u32x8) -> Seq<u32> {
        seq![v.0, v.1, v.2, v.3, v.4, v.5, v.6, v.7]
    }

    fn new(x0: u32, x1: u32, x2: u32, x3: u32, x4: u32, x5: u32, x6: u32, x7: u32) -> (r: u32x8) {
        let r = u32x8(x0, x1, x2, x3, x4, x5, x6, x7);
        proof {
            assert(<u32 as Vector8>::lanes(r) =~= seq![x0, x1, x2, x3, x4, x5, x6, x7]);
        }
        r
    }

    fn get0(x: &u32x8) -> (r: u32) {
        x.0
    }

    fn get1(x: &u32x8) -> (r: u32) {
        x.1
    }

    fn get2(x: &u32x8) -> (r: u32) {
        x.2
    }

    fn get3(x: &u32x8) -> (r: u32) {
        x.3
    }

    fn get4(x: &u32x8) -> (r: u32) {
        x.4
    }

    fn get5(x: &u32x8) -> (r: u32) {
        x.5
    }

    fn get6(x: &u32x8) -> (r: u32) {
        x.6
    }

    fn get7(x: &u32x8) -> (r: u32) {
        x.7
    }

}

/// A packed vector of 16 `u8` lanes.
#[derive(Clone, Copy, Debug)]
#[allow(non_camel_case_types)]
pub struct u8x16(pub u8, pub u8, pub u8, pub u8, pub u8, pub u8, pub u8, pub u8, pub u8, pub u8, pub u8, pub u8, pub u8, pub u8, pub u8, pub u8);

impl Vector16 for u8 {
    type Vec = u8x16;

    open spec fn lanes(v: u8x16) -> Seq<u8> {
        seq![v.0, v.1, v.2, v.3, v.4, v.5, v.6, v.7, v.8, v.9, v.10, v.11, v.12, v.13, v.14, v.15]
    }

    fn new(x0: u8, x1: u8, x2: u8, x3: u8, x4: u8, x5: u8, x6: u8, x7: u8, x8: u8, x9: u8, x10: u8, x11: u8, x12: u8, x13: u8, x14: u8, x15: u8) -> (r: u8x16) {
        let r = u8x16(x0, x1, x2, x3, x4, x5, x6, x7, x8, x9, x10, x11, x12, x13, x14, x15);
        proof {
            assert(<u8 as Vector16>::lanes(r) =~= seq![x0, x1, x2, x3, x4, x5, x6, x7, x8, x9, x10, x11, x12, x13, x14, x15]);
        }
        r
    }

    fn get0(x: &u8x16) -> (r: u8) {
        x.0
    }

    fn get1(x: &u8x16) -> (r: u8) {
        x.1
    }

    fn get2(x: &u8x16) -> (r: u8) {
        x.2
    }

    fn get3(x: &u8x16) -> (r: u8) {
        x.3
    }

    fn get4(x: &u8x16) -> (r: u8) {
        x.4
    }

    fn get5(x: &u8x16) -> (r: u8) {
        x.5
    }

    fn get6(x: &u8x16) -> (r: u8) {
        x.6
    }

    fn get7(x: &u8x16) -> (r: u8) {
        x.7
    }

    fn get8(x: &u8x16) -> (r: u8) {
        x.8
    }

    fn get9(x: &u8x16) -> (r: u8) {
        x.9
    }

    fn get10(x: &u8x16) -> (r: u8) {
        x.10
    }

    fn get11(x: &u8x16) -> (r: u8) {
        x.11
    }

    fn get12(x: &u8x16) -> (r: u8) {
        x.12
    }

    fn get13(x: &u8x16) -> (r: u8) {
        x.13
    }

    fn get14(x: &u8x16) -> (r: u8) {
        x.14
    }

    fn get15(x: &u8x16) -> (r: u8) {
        x.15
    }

}

/// A packed vector of 16 `u16` lanes.
#[derive(Clone, Copy, Debug)]
#[allow(non_camel_case_types)]
pub struct u16x16(pub u16, pub u16, pub u16, pub u16, pub u16, pub u16, pub u16, pub u16, pub u16, pub u16, pub u16, pub u16, pub u16, pub u16, pub u16, pub u16);

impl Vector16 for u16 {
    type Vec = u16x16;

    open spec fn lanes(v: u16x16) -> Seq<u16> {
        seq![v.0, v.1, v.2, v.3, v.4, v.5, v.6, v.7, v.8, v.9, v.10, v.11, v.12, v.13, v.14, v.15]
    }

    fn new(x0: u16, x1: u16, x2: u16, x3: u16, x4: u16, x5: u16, x6: u16, x7: u16, x8: u16, x9: u16, x10: u16, x11: u16, x12: u16, x13: u16, x14: u16, x15: u16) -> (r: u16x16) {
        let r = u16x16(x0, x1, x2, x3, x4, x5, x6, x7, x8, x9, x10, x11, x12, x13, x14, x15);
        proof {
            assert(<u16 as Vector16>::lanes(r) =~= seq![x0, x1, x2, x3, x4, x5, x6, x7, x8, x9, x10, x11, x12, x13, x14, x15]);
        }
        r
    }

    fn get0(x: &u16x16) -> (r: u16) {
        x.0
    }

    fn get1(x: &u16x16) -> (r: u16) {
        x.1
    }

    fn get2(x: &u16x16) -> (r: u16) {
        x.2
    }

    fn get3(x: &u16x16) -> (r: u16) {
        x.3
    }

    fn get4(x: &u16x16) -> (r: u16) {
        x.4
    }

    fn get5(x: &u16x16) -> (r: u16) {
        x.5
    }

    fn get6(x: &u16x16) -> (r: u16) {
        x.6
    }

    fn get7(x: &u16x16) -> (r: u16) {
        x.7
    }

    fn get8(x: &u16x16) -> (r: u16) {
        x.8
    }

    fn get9(x: &u16x16) -> (r: u16) {
        x.9
    }

    fn get10(x: &u16x16) -> (r: u16) {
        x.10
    }

    fn get11(x: &u16x16) -> (r: u16) {
        x.11
    }

    fn get12(x: &u16x16) -> (r: u16) {
        x.12
    }

    fn get13(x: &u16x16) -> (r: u16) {
        x.13
    }

    fn get14(x: &u16x16) -> (r: u16) {
        x.14
    }

    fn get15(x: &u16x16) -> (r: u16) {
        x.15
    }

}

/// A packed vector of 32 `u8` lanes.
#[derive(Clone, Copy, Debug)]
#[allow(non_camel_case_types)]
pub struct u8x32(pub u8, pub u8, pub u8, pub u8, pub u8, pub u8, pub u8, pub u8, pub u8, pub u8, pub u8, pub u8, pub u8, pub u8, pub u8, pub u8, pub u8, pub u8, pub u8, pub u8, pub u8, pub u8, pub u8, pub u8, pub u8, pub u8, pub u8, pub u8, pub u8, pub u8, pub u8, pub u8);

impl Vector32 for u8 {
    type Vec = u8x32;

    open spec fn lanes(v: u8x32) -> Seq<u8> {
        seq![v.0, v.1, v.2, v.3, v.4, v.5, v.6, v.7, v.8, v.9, v.10, v.11, v.12, v.13, v.14, v.15, v.16, v.17, v.18, v.19, v.20, v.21, v.22, v.23, v.24, v.25, v.26, v.27, v.28, v.29, v.30, v.31]
    }

    fn new(x0: u8, x1: u8, x2: u8, x3: u8, x4: u8, x5: u8, x6: u8, x7: u8, x8: u8, x9: u8, x10: u8, x11: u8, x12: u8, x13: u8, x14: u8, x15: u8, x16: u8, x17: u8, x18: u8, x19: u8, x20: u8, x21: u8, x22: u8, x23: u8, x24: u8, x25: u8, x26: u8, x27: u8, x28: u8, x29: u8, x30: u8, x31: u8) -> (r: u8x32) {
        let r = u8x32(x0, x1, x2, x3, x4, x5, x6, x7, x8, x9, x10, x11, x12, x13, x14, x15, x16, x17, x18, x19, x20, x21, x22, x23, x24, x25, x26, x27, x28, x29, x30, x31);
        proof {
            assert(<u8 as Vector32>::lanes(r) =~= seq![x0, x1, x2, x3, x4, x5, x6, x7, x8, x9, x10, x11, x12, x13, x14, x15, x16, x17, x18, x19, x20, x21, x22, x23, x24, x25, x26, x27, x28, x29, x30, x31]);
        }
        r
    }

    fn get0(x: &u8x32) -> (r: u8) {
        x.0
    }

    fn get1(x: &u8x32) -> (r: u8) {
        x.1
    }

    fn get2(x: &u8x32) -> (r: u8) {
        x.2
    }

    fn get3(x: &u8x32) -> (r: u8) {
        x.3
    }

    fn get4(x: &u8x32) -> (r: u8) {
        x.4
    }

    fn get5(x: &u8x32) -> (r: u8) {
        x.5
    }

    fn get6(x: &u8x32) -> (r: u8) {
        x.6
    }

    fn get7(x: &u8x32) -> (r: u8) {
        x.7
    }

    fn get8(x: &u8x32) -> (r: u8) {
        x.8
    }

    fn get9(x: &u8x32) -> (r: u8) {
        x.9
    }

    fn get10(x: &u8x32) -> (r: u8) {
        x.10
    }

    fn get11(x: &u8x32) -> (r: u8) {
        x.11
    }

    fn get12(x: &u8x32) -> (r: u8) {
        x.12
    }

    fn get13(x: &u8x32) -> (r: u8) {
        x.13
    }

    fn get14(x: &u8x32) -> (r: u8) {
        x.14
    }

    fn get15(x: &u8x32) -> (r: u8) {
        x.15
    }

    fn get16(x: &u8x32) -> (r: u8) {
        x.16
    }

    fn get17(x: &u8x32) -> (r: u8) {
        x.17
    }

    fn get18(x: &u8x32) -> (r: u8) {
        x.18
    }

    fn get19(x: &u8x32) -> (r: u8) {
        x.19
    }

    fn get20(x: &u8x32) -> (r: u8) {
        x.20
    }

    fn get21(x: &u8x32) -> (r: u8) {
        x.21
    }

    fn get22(x: &u8x32) -> (r: u8) {
        x.22
    }

    fn get23(x: &u8x32) -> (r: u8) {
        x.23
    }

    fn get24(x: &u8x32) -> (r: u8) {
        x.24
    }

    fn get25(x: &u8x32) -> (r: u8) {
        x.25
    }

    fn get26(x: &u8x32) -> (r: u8) {
        x.26
    }

    fn get27(x: &u8x32) -> (r: u8) {
        x.27
    }

    fn get28(x: &u8x32) -> (r: u8) {
        x.28
    }

    fn get29(x: &u8x32) -> (r: u8) {
        x.29
    }

    fn get30(x: &u8x32) -> (r: u8) {
        x.30
    }

    fn get31(x: &u8x32) -> (r: u8) {
        x.31
    }

}

} // verus!
