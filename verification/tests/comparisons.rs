//! Comparisons that write bitmap words.

use vortex_rows::native::{NativePType, F16, F32, F64};
use vortex_rows::scalar_fn::fns::operators::CompareOperator;
use vortex_rows::scalar_fn::fns::simd::{
    apply_op, avx2_available, avx512_available, compact_even_bits, compare_into_words, CpuFeatures,
    DenseComparison, PrimitiveInput, SimdCompare,
};

const OPS: [CompareOperator; 6] = [
    CompareOperator::Eq,
    CompareOperator::NotEq,
    CompareOperator::Gt,
    CompareOperator::Gte,
    CompareOperator::Lt,
    CompareOperator::Lte,
];

/// Every set of processor features.
fn feature_sets() -> Vec<CpuFeatures> {
    let mut out = Vec::new();
    for avx2 in [false, true] {
        for avx512f in [false, true] {
            for avx512bw in [false, true] {
                out.push(CpuFeatures { avx2, avx512f, avx512bw });
            }
        }
    }
    out
}

#[test]
fn benchmark_dispatch_uses_compiled_features() {
    for features in feature_sets() {
        assert_eq!(avx2_available(features), features.avx2);
        assert_eq!(avx512_available::<i64>(features), features.avx512f);
        assert_eq!(
            avx512_available::<i8>(features),
            features.avx512f && features.avx512bw
        );
    }
}

fn expected<T: NativePType>(
    lhs: PrimitiveInput<'_, T>,
    rhs: PrimitiveInput<'_, T>,
    op: CompareOperator,
) -> u64 {
    (0..64).fold(0, |word, bit| word | ((apply_op(lhs.get(bit), rhs.get(bit), op) as u64) << bit))
}

fn assert_simd_matches_scalar<T: SimdCompare>(lhs: &[T; 64], rhs: &[T; 64]) {
    let shapes = [
        (PrimitiveInput::Slice(lhs.as_slice()), PrimitiveInput::Slice(rhs.as_slice())),
        (PrimitiveInput::Slice(lhs.as_slice()), PrimitiveInput::Constant(rhs[7])),
        (PrimitiveInput::Constant(lhs[11]), PrimitiveInput::Slice(rhs.as_slice())),
    ];

    for op in OPS {
        for (lhs, rhs) in shapes {
            let expected = expected(lhs, rhs, op);
            let comparison = DenseComparison::new(lhs, rhs, op);
            let mut actual = [0];
            T::compare_words_avx2(comparison, &mut actual);
            assert_eq!(actual[0], expected, "AVX2 {op:?}");
            let mut actual = [0];
            T::compare_words_avx512(comparison, &mut actual);
            assert_eq!(actual[0], expected, "AVX-512 {op:?}");
        }
    }

    assert_word_loop_matches_scalar(lhs, rhs);
}

fn assert_word_loop_matches_scalar<T: SimdCompare>(lhs_seed: &[T; 64], rhs_seed: &[T; 64]) {
    for len in [0, 1, 7, 8, 9, 63, 64, 65, 129] {
        let lhs_values = lhs_seed.iter().copied().cycle().take(len).collect::<Vec<_>>();
        let rhs_values = rhs_seed.iter().copied().cycle().take(len).collect::<Vec<_>>();
        let shapes = [
            (
                PrimitiveInput::Slice(lhs_values.as_slice()),
                PrimitiveInput::Slice(rhs_values.as_slice()),
            ),
            (
                PrimitiveInput::Slice(lhs_values.as_slice()),
                PrimitiveInput::Constant(rhs_seed[7]),
            ),
            (
                PrimitiveInput::Constant(lhs_seed[11]),
                PrimitiveInput::Slice(rhs_values.as_slice()),
            ),
            (PrimitiveInput::Constant(lhs_seed[11]), PrimitiveInput::Constant(rhs_seed[7])),
        ];

        for op in OPS {
            for (lhs, rhs) in shapes {
                let mut expected = vec![0; len.div_ceil(64)];
                for index in 0..len {
                    expected[index / 64] |=
                        (apply_op(lhs.get(index), rhs.get(index), op) as u64) << (index % 64);
                }
                for features in feature_sets() {
                    let mut actual = vec![u64::MAX; len.div_ceil(64)];
                    compare_into_words(lhs, rhs, op, len, &mut actual, features);
                    assert_eq!(actual, expected, "word loop len={len} op={op:?}");
                }
            }
        }
    }
}

#[test]
fn u8_masks_match_scalar() {
    let lhs = std::array::from_fn(|index| (index as u8).wrapping_mul(37));
    let rhs = std::array::from_fn(|index| (index as u8).wrapping_mul(19).wrapping_add(127));
    assert_simd_matches_scalar(&lhs, &rhs);
}

#[test]
fn i8_masks_match_scalar() {
    let lhs = std::array::from_fn(|index| (index as i8).wrapping_mul(37));
    let rhs = std::array::from_fn(|index| (index as i8).wrapping_mul(-19).wrapping_add(63));
    assert_simd_matches_scalar(&lhs, &rhs);
}

#[test]
fn signed_16_masks_match_scalar() {
    let lhs = std::array::from_fn(|index| (index as i16).wrapping_mul(i16::MAX / 31));
    let rhs = std::array::from_fn(|index| (index as i16).wrapping_mul(i16::MIN / 29));
    assert_simd_matches_scalar(&lhs, &rhs);
}

#[test]
fn unsigned_16_masks_match_scalar() {
    let lhs = std::array::from_fn(|index| (index as u16).wrapping_mul(u16::MAX / 31));
    let rhs = std::array::from_fn(|index| (index as u16).wrapping_mul(u16::MAX / 29));
    assert_simd_matches_scalar(&lhs, &rhs);
}

#[test]
fn signed_32_masks_match_scalar() {
    let lhs = std::array::from_fn(|index| (index as i32).wrapping_mul(i32::MAX / 31));
    let rhs = std::array::from_fn(|index| (index as i32).wrapping_mul(i32::MIN / 29));
    assert_simd_matches_scalar(&lhs, &rhs);
}

#[test]
fn unsigned_32_masks_match_scalar() {
    let lhs = std::array::from_fn(|index| (index as u32).wrapping_mul(u32::MAX / 31));
    let rhs = std::array::from_fn(|index| (index as u32).wrapping_mul(u32::MAX / 29));
    assert_simd_matches_scalar(&lhs, &rhs);
}

#[test]
fn signed_64_masks_match_scalar() {
    let lhs = std::array::from_fn(|index| (index as i64).wrapping_mul(i64::MAX / 31));
    let rhs = std::array::from_fn(|index| (index as i64).wrapping_mul(i64::MIN / 29));
    assert_simd_matches_scalar(&lhs, &rhs);
}

#[test]
fn unsigned_64_masks_match_scalar() {
    let lhs = std::array::from_fn(|index| (index as u64).wrapping_mul(u64::MAX / 31));
    let rhs = std::array::from_fn(|index| (index as u64).wrapping_mul(u64::MAX / 29));
    assert_simd_matches_scalar(&lhs, &rhs);
}

#[test]
fn float_64_total_order_masks_match_scalar() {
    const BITS: [u64; 16] = [
        0xfff8_0000_0000_0001,
        0xfff0_0000_0000_0000,
        0xbff0_0000_0000_0000,
        0x8000_0000_0000_0001,
        0x8000_0000_0000_0000,
        0x0000_0000_0000_0000,
        0x0000_0000_0000_0001,
        0x3ff0_0000_0000_0000,
        0x7ff0_0000_0000_0000,
        0x7ff8_0000_0000_0000,
        0x7ff8_0000_0000_0001,
        0x7fff_ffff_ffff_ffff,
        0xfff8_0000_0000_0000,
        0x4000_0000_0000_0000,
        0xc000_0000_0000_0000,
        0x3fe0_0000_0000_0000,
    ];
    let lhs = std::array::from_fn(|index| F64 { bits: BITS[index % BITS.len()] });
    let rhs = std::array::from_fn(|index| F64 { bits: BITS[(index * 7 + 3) % BITS.len()] });
    assert_simd_matches_scalar(&lhs, &rhs);
    for a in BITS {
        for b in BITS {
            let order = f64::from_bits(a).total_cmp(&f64::from_bits(b));
            assert_eq!(F64 { bits: a }.is_lt(F64 { bits: b }), order.is_lt());
            assert_eq!(F64 { bits: a }.is_eq(F64 { bits: b }), order.is_eq());
        }
    }
}

#[test]
fn float_16_total_order_masks_match_scalar() {
    const BITS: [u16; 16] = [
        0xfe01, 0xfc00, 0xbc00, 0x8001, 0x8000, 0x0000, 0x0001, 0x3c00, 0x7c00, 0x7e00, 0x7e01,
        0x7fff, 0xfe00, 0x4000, 0xc000, 0x3800,
    ];
    let lhs = std::array::from_fn(|index| F16 { bits: BITS[index % BITS.len()] });
    let rhs = std::array::from_fn(|index| F16 { bits: BITS[(index * 7 + 3) % BITS.len()] });
    assert_simd_matches_scalar(&lhs, &rhs);
    for a in BITS {
        for b in BITS {
            let order = half::f16::from_bits(a).total_cmp(&half::f16::from_bits(b));
            assert_eq!(F16 { bits: a }.is_lt(F16 { bits: b }), order.is_lt());
            assert_eq!(F16 { bits: a }.is_eq(F16 { bits: b }), order.is_eq());
        }
    }
}

#[test]
fn float_32_total_order_masks_match_scalar() {
    const BITS: [u32; 16] = [
        0xffc0_0001,
        0xff80_0000,
        0xbf80_0000,
        0x8000_0001,
        0x8000_0000,
        0x0000_0000,
        0x0000_0001,
        0x3f80_0000,
        0x7f80_0000,
        0x7fc0_0000,
        0x7fc0_0001,
        0x7fff_ffff,
        0xffc0_0000,
        0x4000_0000,
        0xc000_0000,
        0x3f00_0000,
    ];
    let lhs = std::array::from_fn(|index| F32 { bits: BITS[index % BITS.len()] });
    let rhs = std::array::from_fn(|index| F32 { bits: BITS[(index * 7 + 3) % BITS.len()] });
    assert_simd_matches_scalar(&lhs, &rhs);
    for a in BITS {
        for b in BITS {
            let order = f32::from_bits(a).total_cmp(&f32::from_bits(b));
            assert_eq!(F32 { bits: a }.is_lt(F32 { bits: b }), order.is_lt());
            assert_eq!(F32 { bits: a }.is_eq(F32 { bits: b }), order.is_eq());
        }
    }
}

#[test]
fn even_bits_are_packed_together() {
    assert_eq!(compact_even_bits(0), 0);
    assert_eq!(compact_even_bits(0x5555_5555), 0xffff);
    assert_eq!(compact_even_bits(0x4000_0001), 0x8001);
}

/// Every comparison is reduced to "equal" or "greater", inverted where the operator asks for it.
#[test]
fn comparisons_reduce_to_equal_or_greater() {
    let values = [4i64, 5, 6];
    let column = PrimitiveInput::Slice(values.as_slice());
    let five = PrimitiveInput::Constant(5i64);
    assert!(matches!(
        DenseComparison::new(five, column, CompareOperator::Lte),
        DenseComparison::GreaterConstantArray { constant: 5, values: [4, 5, 6], invert: u64::MAX }
    ));
    assert!(matches!(
        DenseComparison::new(column, five, CompareOperator::Lt),
        DenseComparison::GreaterConstantArray { constant: 5, values: [4, 5, 6], invert: 0 }
    ));
    assert!(matches!(
        DenseComparison::new(column, five, CompareOperator::Gt),
        DenseComparison::GreaterArrayConstant { values: [4, 5, 6], constant: 5, invert: 0 }
    ));
    assert!(matches!(
        DenseComparison::new(five, column, CompareOperator::NotEq),
        DenseComparison::EqualArrayConstant { values: [4, 5, 6], constant: 5, invert: u64::MAX }
    ));
    assert!(matches!(
        DenseComparison::new(column, column, CompareOperator::Eq),
        DenseComparison::EqualArrays { invert: 0, .. }
    ));
    assert!(matches!(
        DenseComparison::new(column, column, CompareOperator::Gte),
        DenseComparison::GreaterArrays { invert: u64::MAX, .. }
    ));
}
