//! Tests of the SIMD lane-lifting utilities.

use rvt::simd::vecs::{u16x8, u32x4, u64x2, u8x16};
use rvt::simd::{
    lift16_s_v, lift16_vs_v, lift2_v_s, lift2_vv_v, lift4_v_s, lift4_vs_v, lift4_vv_v,
    sign_u8_i32, srl_immed_u16_u8, srl_immed_u32_u8, srl_immed_u64_u8, srl_immed_u8_u8, Vector16,
    Vector2, Vector4, Vector8,
};

#[test]
fn lift_pairwise_xor() {
    let a = <u64 as Vector2>::new(0b1100, 0b1010);
    let b = <u64 as Vector2>::new(0b1010, 0b1010);
    let r: u64x2 = lift2_vv_v::<_, u64, u64, u64>(|x: u64, y: u64| x ^ y, a, b);
    assert_eq!(<u64 as Vector2>::get0(&r), 0b0110);
    assert_eq!(<u64 as Vector2>::get1(&r), 0);
}

#[test]
fn lift_vector_scalar_shift() {
    let a = <u32 as Vector4>::new(8, 16, 32, 64);
    let r: u32x4 = lift4_vs_v::<_, u32, u8, u32>(|x: u32, s: u8| srl_immed_u32_u8(x, s), a, 3);
    assert_eq!(<u32 as Vector4>::get0(&r), 1);
    assert_eq!(<u32 as Vector4>::get1(&r), 2);
    assert_eq!(<u32 as Vector4>::get2(&r), 4);
    assert_eq!(<u32 as Vector4>::get3(&r), 8);
}

#[test]
fn lift_reduce_sum() {
    let a = <u64 as Vector2>::new(3, 4);
    let s: u64 = lift2_v_s::<_, _, u64, u64>(
        |x: u64| x,
        |_i: usize, acc: u64, x: u64| acc.wrapping_add(x),
        a,
    );
    assert_eq!(s, 7);

    let b = <u32 as Vector4>::new(1, 2, 3, 4);
    let s4: u32 = lift4_v_s::<_, _, u32, u32>(
        |x: u32| x,
        |_i: usize, acc: u32, x: u32| acc.wrapping_add(x),
        b,
    );
    assert_eq!(s4, 10);
}

#[test]
fn broadcast_fills_lanes() {
    let v = lift16_s_v::<u8>(9);
    assert_eq!(<u8 as Vector16>::get0(&v), 9);
    assert_eq!(<u8 as Vector16>::get7(&v), 9);
    assert_eq!(<u8 as Vector16>::get15(&v), 9);
}

#[test]
fn lift16_shifts_each_lane() {
    let a: u8x16 = lift16_s_v::<u8>(0x80);
    let r: u8x16 = lift16_vs_v::<_, u8, u8, u8>(|x: u8, s: u8| srl_immed_u8_u8(x, s), a, 7);
    assert_eq!(<u8 as Vector16>::get0(&r), 1);
    assert_eq!(<u8 as Vector16>::get15(&r), 1);
}

#[test]
fn vector_roundtrip_lanes() {
    let v = <u16 as Vector8>::new(0, 1, 2, 3, 4, 5, 6, 7);
    let w: u16x8 = v;
    assert_eq!(<u16 as Vector8>::get5(&w), 5);
    let x = <u8 as Vector16>::new(0, 1, 2, 3, 4, 5, 6, 7, 8, 9, 10, 11, 12, 13, 14, 15);
    assert_eq!(<u8 as Vector16>::get12(&x), 12);
}

#[test]
fn scalar_shift_saturates_to_zero() {
    assert_eq!(srl_immed_u8_u8(0xFF, 4), 0x0F);
    assert_eq!(srl_immed_u8_u8(0xFF, 8), 0);
    assert_eq!(srl_immed_u16_u8(0x8000, 15), 1);
    assert_eq!(srl_immed_u16_u8(1, 16), 0);
    assert_eq!(srl_immed_u32_u8(0x8000_0000, 31), 1);
    assert_eq!(srl_immed_u32_u8(1, 32), 0);
    assert_eq!(srl_immed_u64_u8(1 << 63, 63), 1);
    assert_eq!(srl_immed_u64_u8(1, 64), 0);
}

#[test]
fn sign_bit_widening() {
    assert_eq!(sign_u8_i32(0x80), 1);
    assert_eq!(sign_u8_i32(0x7F), 0);
    assert_eq!(sign_u8_i32(0xFF), 1);
}
