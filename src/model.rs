//! The model layer's rules: the dimension check before evaluation, the
//! thresholds that turn a score into a label, and the output lines.
use vstd::prelude::*;

verus! {

/// Why a prediction cannot be made.
#[derive(Debug, Clone, Copy, PartialEq, Eq, Structural)]
pub enum PredictError {
    /// The row's length differs from the number of weights.
    DimensionMismatch { expected: usize, found: usize },
}

/// Accepts a row of `found` values for a model of `expected` weights.
pub fn check_dimension(expected: usize, found: usize) -> (r: Result<(), PredictError>)
    ensures
        expected == found <==> r is Ok,
        expected != found ==> r == Err::<(), PredictError>(
            PredictError::DimensionMismatch { expected, found },
        ),
{
    if expected == found {
        Ok(())
    } else {
        Err(PredictError::DimensionMismatch { expected, found })
    }
}

/// Logistic class: 1 where the probability is above one half, else 0.
pub fn logistic_class(above_half: bool) -> (r: i32)
    ensures
        r == (if above_half { 1i32 } else { 0i32 }),
{
    if above_half {
        1
    } else {
        0
    }
}

/// SVM label: +1 where the margin is positive, else -1.
pub fn svm_label(positive_margin: bool) -> (r: i32)
    ensures
        r == (if positive_margin { 1i32 } else { -1i32 }),
{
    if positive_margin {
        1
    } else {
        -1
    }
}

/// A label that the output format can write.
pub open spec fn is_label(l: i32) -> bool {
    l == 1 || l == 0 || l == -1
}

/// The output line of one label, in ASCII: "1", "0" or "-1", then a newline.
pub open spec fn label_line(l: i32) -> Seq<u8> {
    if l == 1 {
        seq![49u8, 10u8]
    } else if l == 0 {
        seq![48u8, 10u8]
    } else {
        seq![45u8, 49u8, 10u8]
    }
}

/// The output of a run: one line per label, in row order.
pub open spec fn rendered(labels: Seq<i32>) -> Seq<u8>
    decreases labels.len(),
{
    if labels.len() == 0 {
        Seq::empty()
    } else {
        rendered(labels.drop_last()) + label_line(labels.last())
    }
}

/// Writes one line per label, in order.
pub fn render_labels(labels: &Vec<i32>) -> (r: Vec<u8>)
    requires
        forall|k: int| 0 <= k < labels@.len() ==> is_label(#[trigger] labels@[k]),
        3 * labels@.len() <= usize::MAX,
    ensures
        r@ == rendered(labels@),
{
    let mut out: Vec<u8> = Vec::new();
    let mut i: usize = 0;
    while i < labels.len()
        invariant
            i <= labels@.len(),
            out@ == rendered(labels@.subrange(0, i as int)),
            out@.len() <= 3 * i,
            3 * labels@.len() <= usize::MAX,
        decreases labels@.len() - i,
    {
        let l = labels[i];
        if l == 1 {
            out.push(49u8);
        } else if l == 0 {
            out.push(48u8);
        } else {
            out.push(45u8);
            out.push(49u8);
        }
        out.push(10u8);
        proof {
            let s = labels@.subrange(0, i + 1);
            assert(s.drop_last() =~= labels@.subrange(0, i as int));
            assert(s.last() == l);
        }
        i = i + 1;
        assert(out@ =~= rendered(labels@.subrange(0, i as int)));
    }
    assert(labels@.subrange(0, labels@.len() as int) =~= labels@);
    out
}

} // verus!
