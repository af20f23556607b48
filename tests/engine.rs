use fast_inference::arch::{detect_cpu_architecture, detect_simd_instruction_set, CpuArchitecture, CpuFeatures, SimdInstructionSet};
use fast_inference::cli::{ModelType, DEFAULT_TRIALS};
use fast_inference::model::{check_dimension, logistic_class, render_labels, svm_label, PredictError};
use fast_inference::params::{decode_le_words, row_count, split_parameters, InputError};
use fast_inference::strategy::{vector_prefix_len, Sequential, StrategyKind, AVX, NEON, SSE};

fn no_features() -> CpuFeatures {
    CpuFeatures {
        avx512f: false,
        avx2: false,
        avx: false,
        sse4_2: false,
        sse4_1: false,
        sse2: false,
        neon: false,
        msa: false,
        altivec: false,
        rvv: false,
    }
}

#[test]
fn architecture_names_map_to_families() {
    assert_eq!(detect_cpu_architecture(b"x86_64"), CpuArchitecture::X86_64);
    assert_eq!(detect_cpu_architecture(b"aarch64"), CpuArchitecture::AArch64);
    assert_eq!(detect_cpu_architecture(b"mips"), CpuArchitecture::Mips);
    assert_eq!(detect_cpu_architecture(b"mips64"), CpuArchitecture::Mips);
    assert_eq!(detect_cpu_architecture(b"powerpc"), CpuArchitecture::PowerPC);
    assert_eq!(detect_cpu_architecture(b"powerpc64"), CpuArchitecture::PowerPC);
    assert_eq!(detect_cpu_architecture(b"riscv32"), CpuArchitecture::RiscV);
    assert_eq!(detect_cpu_architecture(b"riscv64"), CpuArchitecture::RiscV);
    assert_eq!(detect_cpu_architecture(b"x86"), CpuArchitecture::Unknown);
    assert_eq!(detect_cpu_architecture(b""), CpuArchitecture::Unknown);
    assert_eq!(detect_cpu_architecture(b"x86_64 "), CpuArchitecture::Unknown);
}

#[test]
fn strongest_x86_set_wins() {
    let mut f = no_features();
    f.sse2 = true;
    f.sse4_1 = true;
    f.avx2 = true;
    assert_eq!(detect_simd_instruction_set(CpuArchitecture::X86_64, &f), SimdInstructionSet::AVX2);
    f.avx512f = true;
    assert_eq!(detect_simd_instruction_set(CpuArchitecture::X86_64, &f), SimdInstructionSet::AVX512);
    let mut g = no_features();
    g.sse2 = true;
    assert_eq!(detect_simd_instruction_set(CpuArchitecture::X86_64, &g), SimdInstructionSet::SSE2);
    assert_eq!(
        detect_simd_instruction_set(CpuArchitecture::X86_64, &no_features()),
        SimdInstructionSet::NoSimd
    );
}

#[test]
fn features_of_another_architecture_are_ignored() {
    let mut f = no_features();
    f.avx = true;
    f.neon = true;
    assert_eq!(detect_simd_instruction_set(CpuArchitecture::AArch64, &f), SimdInstructionSet::Neon);
    assert_eq!(detect_simd_instruction_set(CpuArchitecture::Mips, &f), SimdInstructionSet::NoSimd);
    assert_eq!(detect_simd_instruction_set(CpuArchitecture::Unknown, &f), SimdInstructionSet::NoSimd);
    f.msa = true;
    f.altivec = true;
    f.rvv = true;
    assert_eq!(detect_simd_instruction_set(CpuArchitecture::Mips, &f), SimdInstructionSet::MSA);
    assert_eq!(detect_simd_instruction_set(CpuArchitecture::PowerPC, &f), SimdInstructionSet::Altivec);
    assert_eq!(detect_simd_instruction_set(CpuArchitecture::RiscV, &f), SimdInstructionSet::RVV);
}

#[test]
fn strategies_know_their_kind_and_width() {
    assert_eq!(Sequential.kind(), StrategyKind::Sequential);
    assert_eq!(SSE.kind(), StrategyKind::Sse);
    assert_eq!(AVX.kind(), StrategyKind::Avx);
    assert_eq!(NEON.kind(), StrategyKind::Neon);
    assert_eq!(StrategyKind::Sequential.lanes(), 1);
    assert_eq!(StrategyKind::Sse.lanes(), 4);
    assert_eq!(StrategyKind::Avx.lanes(), 8);
    assert_eq!(StrategyKind::Neon.lanes(), 4);
    assert_eq!(StrategyKind::Sse.alignment(), 16);
    assert_eq!(StrategyKind::Avx.alignment(), 32);
    assert_eq!(StrategyKind::Neon.alignment(), 16);
}

#[test]
fn unsupported_strategy_falls_back_to_scalar() {
    assert_eq!(StrategyKind::Avx.runnable_on(SimdInstructionSet::SSE4_2), StrategyKind::Sequential);
    assert_eq!(StrategyKind::Avx.runnable_on(SimdInstructionSet::AVX2), StrategyKind::Avx);
    assert_eq!(StrategyKind::Sse.runnable_on(SimdInstructionSet::SSE2), StrategyKind::Sse);
    assert_eq!(StrategyKind::Sse.runnable_on(SimdInstructionSet::Neon), StrategyKind::Sequential);
    assert_eq!(StrategyKind::Neon.runnable_on(SimdInstructionSet::Neon), StrategyKind::Neon);
    assert_eq!(StrategyKind::Neon.runnable_on(SimdInstructionSet::AVX512), StrategyKind::Sequential);
    assert_eq!(StrategyKind::Sequential.runnable_on(SimdInstructionSet::NoSimd), StrategyKind::Sequential);
    assert!(!StrategyKind::Avx.is_supported_by(SimdInstructionSet::NoSimd));
}

#[test]
fn aligned_path_needs_both_slices_aligned() {
    assert!(StrategyKind::Sse.use_aligned_loads(64, 16));
    assert!(!StrategyKind::Sse.use_aligned_loads(68, 16));
    assert!(!StrategyKind::Sse.use_aligned_loads(64, 20));
    assert!(StrategyKind::Avx.use_aligned_loads(64, 96));
    assert!(!StrategyKind::Avx.use_aligned_loads(64, 80));
}

#[test]
fn remainder_lengths_split_into_groups_and_tail() {
    assert_eq!(vector_prefix_len(5, 4), 4);
    assert_eq!(vector_prefix_len(9, 8), 8);
    assert_eq!(vector_prefix_len(3, 4), 0);
    assert_eq!(vector_prefix_len(0, 8), 0);
    assert_eq!(vector_prefix_len(16, 8), 16);
    assert_eq!(vector_prefix_len(255, 8), 248);
}

#[test]
fn remainder_grouping_matches_sequential_sum() {
    // Sum with four lane accumulators plus a scalar tail, as the 4-wide
    // strategies do, and compare with the index-order sum.
    for len in 1..=256usize {
        let w: Vec<f32> = (0..len).map(|i| ((i * 7 % 13) as f32 - 6.0) / 8.0).collect();
        let x: Vec<f32> = (0..len).map(|i| ((i * 5 % 11) as f32 - 5.0) / 4.0).collect();
        for lanes in [4usize, 8] {
            let p = vector_prefix_len(len, lanes);
            let mut acc = vec![0.0f32; lanes];
            let mut i = 0;
            while i < p {
                for j in 0..lanes {
                    acc[j] += w[i + j] * x[i + j];
                }
                i += lanes;
            }
            let mut tail = 0.0f32;
            for k in p..len {
                tail += w[k] * x[k];
            }
            let grouped: f32 = acc.iter().sum::<f32>() + tail + 0.5;
            let seq: f32 = w.iter().zip(x.iter()).map(|(a, b)| a * b).sum::<f32>() + 0.5;
            assert!((grouped - seq).abs() < 1e-4);
        }
    }
}

#[test]
fn dimension_mismatch_is_reported() {
    assert_eq!(check_dimension(4, 4), Ok(()));
    assert_eq!(check_dimension(0, 0), Ok(()));
    assert_eq!(
        check_dimension(4, 3),
        Err(PredictError::DimensionMismatch { expected: 4, found: 3 })
    );
    assert_eq!(
        check_dimension(2, 5),
        Err(PredictError::DimensionMismatch { expected: 2, found: 5 })
    );
}

#[test]
fn labels_follow_thresholds() {
    assert_eq!(logistic_class(true), 1);
    assert_eq!(logistic_class(false), 0);
    assert_eq!(svm_label(true), 1);
    assert_eq!(svm_label(false), -1);
}

#[test]
fn labels_render_one_line_each() {
    assert_eq!(render_labels(&vec![1, 0, -1, 1]), b"1\n0\n-1\n1\n".to_vec());
    assert_eq!(render_labels(&vec![]), Vec::<u8>::new());
}

#[test]
fn words_decode_little_endian() {
    let bytes = [0x00u8, 0x00, 0x80, 0x3f, 0x01, 0x02, 0x03, 0x04];
    let words = decode_le_words(&bytes).unwrap();
    assert_eq!(words, vec![0x3f80_0000u32, 0x0403_0201]);
    assert_eq!(f32::from_bits(words[0]), 1.0);
    assert_eq!(decode_le_words(&[1u8, 2, 3]), Err(InputError::TrailingBytes { len: 3 }));
    assert_eq!(decode_le_words(&[]), Ok(vec![]));
}

#[test]
fn parameters_split_into_weights_and_bias() {
    assert_eq!(split_parameters(&vec![1, 2, 3]), Ok((vec![1, 2], 3)));
    assert_eq!(split_parameters(&vec![7]), Ok((vec![], 7)));
    assert_eq!(split_parameters(&vec![]), Err(InputError::EmptyParameters));
}

#[test]
fn rows_must_divide_evenly() {
    assert_eq!(row_count(12, 4), Ok(3));
    assert_eq!(row_count(0, 4), Ok(0));
    assert_eq!(row_count(10, 4), Err(InputError::RaggedRows { len: 10, dim: 4 }));
    assert_eq!(row_count(10, 0), Err(InputError::ZeroDimension));
}

#[test]
fn model_types_have_display_names() {
    assert_eq!(ModelType::Logistic.display_name(), "Logistic");
    assert_eq!(ModelType::Svm.display_name(), "SVM");
    assert_eq!(DEFAULT_TRIALS, 50);
}
