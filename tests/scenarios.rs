use fast_inference::model::{check_dimension, logistic_class, svm_label, PredictError};
use fast_inference::strategy::{vector_prefix_len, StrategyKind};

/// The score as a strategy of `kind` sums it: lane accumulators over the
/// vector prefix, reduced in lane order, then the scalar tail and the bias.
fn score(kind: StrategyKind, w: &[f32], x: &[f32], bias: f32) -> f32 {
    check_dimension(w.len(), x.len()).unwrap();
    let lanes = kind.lanes();
    let prefix = vector_prefix_len(w.len(), lanes);
    let mut acc = vec![0.0f32; lanes];
    let mut i = 0;
    while i < prefix {
        for j in 0..lanes {
            acc[j] += w[i + j] * x[i + j];
        }
        i += lanes;
    }
    let tail: f32 = (prefix..w.len()).map(|k| w[k] * x[k]).sum();
    acc.iter().sum::<f32>() + tail + bias
}

fn sigmoid(s: f32) -> f32 {
    1.0 / (1.0 + (-s).exp())
}

const KINDS: [StrategyKind; 4] =
    [StrategyKind::Sequential, StrategyKind::Sse, StrategyKind::Avx, StrategyKind::Neon];

#[test]
fn all_ones_give_score_four_and_class_one() {
    let w = [1.0f32; 4];
    let x = [1.0f32; 4];
    for kind in KINDS {
        let s = score(kind, &w, &x, 0.0);
        assert_eq!(s, 4.0);
        let p = sigmoid(s);
        assert!((p - 0.98201379).abs() < 1e-6);
        assert_eq!(logistic_class(p > 0.5), 1);
        assert_eq!(svm_label(s > 0.0), 1);
    }
}

#[test]
fn negative_weights_give_class_zero_and_label_minus_one() {
    let w = [-1.0f32, -1.0];
    let x = [1.0f32, 1.0];
    for kind in KINDS {
        let s = score(kind, &w, &x, 0.0);
        assert_eq!(s, -2.0);
        let p = sigmoid(s);
        assert!((p - 0.11920292).abs() < 1e-6);
        assert_eq!(logistic_class(p > 0.5), 0);
        assert_eq!(svm_label(s > 0.0), -1);
    }
}

#[test]
fn empty_or_zero_vectors_score_the_bias() {
    for kind in KINDS {
        assert_eq!(score(kind, &[], &[], 0.75), 0.75);
        assert_eq!(score(kind, &[0.0; 9], &[0.0; 9], -1.5), -1.5);
        assert_eq!(score(kind, &[0.0; 5], &[3.0; 5], 2.0), 2.0);
    }
}

#[test]
fn misaligned_rows_score_as_aligned_ones() {
    let backing: Vec<f32> = (0..40).map(|i| (i as f32 - 20.0) / 7.0).collect();
    let weights: Vec<f32> = (0..13).map(|i| (i as f32) / 5.0 - 1.0).collect();
    let first = score(StrategyKind::Avx, &weights, &backing[0..13], 0.25);
    let copy: Vec<f32> = backing[0..13].to_vec();
    let shifted: Vec<f32> = [vec![0.0f32], copy.clone()].concat();
    assert_eq!(score(StrategyKind::Avx, &weights, &copy, 0.25), first);
    assert_eq!(score(StrategyKind::Avx, &weights, &shifted[1..], 0.25), first);
}

#[test]
fn wrong_row_length_is_refused() {
    for found in [0usize, 3, 5, 100] {
        assert_eq!(
            check_dimension(4, found),
            Err(PredictError::DimensionMismatch { expected: 4, found })
        );
    }
}
