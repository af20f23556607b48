//! Evaluation strategies: their lane widths, the instruction sets they need,
//! the scalar fallback, and how a dot product is split into lane groups and
//! a scalar tail.
use vstd::prelude::*;
use crate::arch::SimdInstructionSet;

verus! {

/// The strategies that a model can be built with.
#[derive(Debug, Clone, Copy, PartialEq, Eq, Structural)]
pub enum StrategyKind {
    Sequential,
    Sse,
    Avx,
    Neon,
}

/// Scalar evaluation in index order; the reference for all others.
#[derive(Debug, Clone, Copy, PartialEq, Eq, Structural)]
pub struct Sequential;

/// 128-bit x86 vectors: four lanes.
#[derive(Debug, Clone, Copy, PartialEq, Eq, Structural)]
pub struct SSE;

/// 256-bit x86 vectors: eight lanes.
#[derive(Debug, Clone, Copy, PartialEq, Eq, Structural)]
pub struct AVX;

/// 128-bit ARM vectors: four lanes.
#[derive(Debug, Clone, Copy, PartialEq, Eq, Structural)]
pub struct NEON;

impl Sequential {
    pub fn kind(&self) -> (r: StrategyKind)
        ensures
            r == StrategyKind::Sequential,
    {
        StrategyKind::Sequential
    }
}

impl SSE {
    pub fn kind(&self) -> (r: StrategyKind)
        ensures
            r == StrategyKind::Sse,
    {
        StrategyKind::Sse
    }
}

impl AVX {
    pub fn kind(&self) -> (r: StrategyKind)
        ensures
            r == StrategyKind::Avx,
    {
        StrategyKind::Avx
    }
}

impl NEON {
    pub fn kind(&self) -> (r: StrategyKind)
        ensures
            r == StrategyKind::Neon,
    {
        StrategyKind::Neon
    }
}

/// Floats processed per vector instruction.
pub open spec fn lanes_of(k: StrategyKind) -> nat {
    match k {
        StrategyKind::Sequential => 1,
        StrategyKind::Sse => 4,
        StrategyKind::Avx => 8,
        StrategyKind::Neon => 4,
    }
}

/// The byte boundary of the aligned load path: the vector width in bytes
/// (a single float for the scalar strategy).
pub open spec fn alignment_of(k: StrategyKind) -> nat {
    match k {
        StrategyKind::Sequential => 4,
        StrategyKind::Sse => 16,
        StrategyKind::Avx => 32,
        StrategyKind::Neon => 16,
    }
}

/// Whether a CPU whose strongest instruction set is `s` can run `k`.
pub open spec fn supports(s: SimdInstructionSet, k: StrategyKind) -> bool {
    match k {
        StrategyKind::Sequential => true,
        StrategyKind::Sse => matches!(s,
            SimdInstructionSet::AVX512 | SimdInstructionSet::AVX2 | SimdInstructionSet::AVX
            | SimdInstructionSet::SSE4_2 | SimdInstructionSet::SSE4_1 | SimdInstructionSet::SSE2),
        StrategyKind::Avx => matches!(s,
            SimdInstructionSet::AVX512 | SimdInstructionSet::AVX2 | SimdInstructionSet::AVX),
        StrategyKind::Neon => s == SimdInstructionSet::Neon,
    }
}

impl StrategyKind {
    pub fn lanes(&self) -> (r: usize)
        ensures
            r == lanes_of(*self),
            r > 0,
    {
        match self {
            StrategyKind::Sequential => 1,
            StrategyKind::Sse => 4,
            StrategyKind::Avx => 8,
            StrategyKind::Neon => 4,
        }
    }

    pub fn alignment(&self) -> (r: usize)
        ensures
            r == alignment_of(*self),
            r > 0,
    {
        match self {
            StrategyKind::Sequential => 4,
            StrategyKind::Sse => 16,
            StrategyKind::Avx => 32,
            StrategyKind::Neon => 16,
        }
    }

    /// Whether a CPU whose strongest instruction set is `available` can run
    /// this strategy.
    pub fn is_supported_by(&self, available: SimdInstructionSet) -> (r: bool)
        ensures
            r == supports(available, *self),
    {
        match self {
            StrategyKind::Sequential => true,
            StrategyKind::Sse => match available {
                SimdInstructionSet::AVX512 | SimdInstructionSet::AVX2 | SimdInstructionSet::AVX
                | SimdInstructionSet::SSE4_2 | SimdInstructionSet::SSE4_1
                | SimdInstructionSet::SSE2 => true,
                _ => false,
            },
            StrategyKind::Avx => match available {
                SimdInstructionSet::AVX512 | SimdInstructionSet::AVX2
                | SimdInstructionSet::AVX => true,
                _ => false,
            },
            StrategyKind::Neon => match available {
                SimdInstructionSet::Neon => true,
                _ => false,
            },
        }
    }

    /// The strategy that actually runs when this one is requested: itself
    /// where the CPU supports it, the scalar strategy otherwise.
    pub fn runnable_on(&self, available: SimdInstructionSet) -> (r: StrategyKind)
        ensures
            supports(available, *self) ==> r == *self,
            !supports(available, *self) ==> r == StrategyKind::Sequential,
            supports(available, r),
    {
        if self.is_supported_by(available) {
            *self
        } else {
            StrategyKind::Sequential
        }
    }

    /// Whether both slices start on this strategy's alignment boundary, so
    /// that the aligned load path may be taken.
    pub fn use_aligned_loads(&self, input_addr: usize, weights_addr: usize) -> (r: bool)
        ensures
            r == (input_addr as nat % alignment_of(*self) == 0 && weights_addr as nat
                % alignment_of(*self) == 0),
    {
        let a = self.alignment();
        input_addr % a == 0 && weights_addr % a == 0
    }
}

/// The length of the prefix that fills whole lane groups.
pub open spec fn vector_prefix(len: int, lanes: int) -> int {
    len - len % lanes
}

/// The number of elements that the vector loop covers: the largest multiple
/// of `lanes` not above `len`. The rest is summed one element at a time.
pub fn vector_prefix_len(len: usize, lanes: usize) -> (r: usize)
    requires
        lanes > 0,
    ensures
        r as int == vector_prefix(len as int, lanes as int),
        r <= len,
        r % lanes == 0,
        len - r < lanes,
{
    let m = len % lanes;
    proof {
        vstd::arithmetic::div_mod::lemma_fundamental_div_mod(len as int, lanes as int);
        vstd::arithmetic::div_mod::lemma_mod_bound(len as int, lanes as int);
        vstd::arithmetic::div_mod::lemma_mod_multiples_basic(
            len as int / lanes as int,
            lanes as int,
        );
        assert(len as int / lanes as int >= 0) by {
            vstd::arithmetic::div_mod::lemma_div_pos_is_pos(len as int, lanes as int);
        }
        assert(len as int - m as int == lanes as int * (len as int / lanes as int));
        vstd::arithmetic::mul::lemma_mul_is_commutative(lanes as int, len as int / lanes as int);
    }
    let r = len - m;
    r
}

/// The element that lane `j` of lane group `g` reads.
pub open spec fn lane_index(g: int, j: int, lanes: int) -> int {
    g * lanes + j
}

/// Lane groups and the scalar tail together read every element below `len`
/// exactly once: each lane slot of each whole group reads an element of the
/// vector prefix, two different slots never read the same element, every
/// element of the prefix is read by a slot, and the slots and the tail add
/// up to `len` elements.
pub proof fn lemma_lane_groups_and_tail_partition(len: int, lanes: int)
    requires
        0 <= len,
        0 < lanes,
    ensures
        0 <= vector_prefix(len, lanes) <= len,
        len - vector_prefix(len, lanes) < lanes,
        vector_prefix(len, lanes) % lanes == 0,
        forall|g: int, j: int|
            0 <= g < vector_prefix(len, lanes) / lanes && 0 <= j < lanes ==> 0 <= #[trigger] lane_index(
                g,
                j,
                lanes,
            ) < vector_prefix(len, lanes),
        forall|g1: int, j1: int, g2: int, j2: int|
            0 <= j1 < lanes && 0 <= j2 < lanes && #[trigger] lane_index(g1, j1, lanes)
                == #[trigger] lane_index(g2, j2, lanes) ==> g1 == g2 && j1 == j2,
        forall|i: int|
            0 <= i < vector_prefix(len, lanes) ==> 0 <= #[trigger] (i / lanes) < vector_prefix(len, lanes) / lanes
                && i == lane_index(i / lanes, i % lanes, lanes) && 0 <= i % lanes < lanes,
        (vector_prefix(len, lanes) / lanes) * lanes + (len - vector_prefix(len, lanes)) == len,
{
    let p = vector_prefix(len, lanes);
    let n = len / lanes;
    vstd::arithmetic::div_mod::lemma_fundamental_div_mod(len, lanes);
    vstd::arithmetic::div_mod::lemma_mod_bound(len, lanes);
    vstd::arithmetic::div_mod::lemma_div_pos_is_pos(len, lanes);
    assert(p == n * lanes) by {
        vstd::arithmetic::mul::lemma_mul_is_commutative(lanes, n);
    }
    vstd::arithmetic::div_mod::lemma_fundamental_div_mod_converse(p, lanes, n, 0);
    assert(p / lanes == n);
    assert forall|g: int, j: int| 0 <= g < p / lanes && 0 <= j < lanes implies 0 <= #[trigger] lane_index(
        g,
        j,
        lanes,
    ) < p by {
        vstd::arithmetic::mul::lemma_mul_nonnegative(g, lanes);
        vstd::arithmetic::mul::lemma_mul_inequality(g + 1, n, lanes);
        vstd::arithmetic::mul::lemma_mul_is_distributive_add_other_way(lanes, g, 1);
    }
    assert forall|g1: int, j1: int, g2: int, j2: int|
        0 <= j1 < lanes && 0 <= j2 < lanes && #[trigger] lane_index(g1, j1, lanes)
            == #[trigger] lane_index(g2, j2, lanes) implies g1 == g2 && j1 == j2 by {
        let x = lane_index(g1, j1, lanes);
        vstd::arithmetic::div_mod::lemma_fundamental_div_mod_converse(x, lanes, g1, j1);
        vstd::arithmetic::div_mod::lemma_fundamental_div_mod_converse(x, lanes, g2, j2);
    }
    assert forall|i: int| 0 <= i < p implies 0 <= #[trigger] (i / lanes) < p / lanes && i
        == lane_index(i / lanes, i % lanes, lanes) && 0 <= i % lanes < lanes by {
        vstd::arithmetic::div_mod::lemma_fundamental_div_mod(i, lanes);
        vstd::arithmetic::div_mod::lemma_mod_bound(i, lanes);
        vstd::arithmetic::div_mod::lemma_div_pos_is_pos(i, lanes);
        vstd::arithmetic::div_mod::lemma_div_is_ordered(i, p, lanes);
        if i / lanes == n {
            vstd::arithmetic::mul::lemma_mul_is_commutative(lanes, i / lanes);
        }
        vstd::arithmetic::mul::lemma_mul_is_commutative(lanes, i / lanes);
    }
}

/// The product that element `i` adds to the score.
pub open spec fn term(w: Seq<int>, x: Seq<int>, i: int) -> int {
    w[i] * x[i]
}

/// The scalar strategy's sum: the first `n` products, in index order.
pub open spec fn dot_prefix(w: Seq<int>, x: Seq<int>, n: nat) -> int
    decreases n,
{
    if n == 0 {
        0
    } else {
        dot_prefix(w, x, (n - 1) as nat) + term(w, x, n - 1)
    }
}

/// Lane `j`'s accumulator after `g` whole lane groups.
pub open spec fn lane_acc(w: Seq<int>, x: Seq<int>, lanes: nat, j: nat, g: nat) -> int
    decreases g,
{
    if g == 0 {
        0
    } else {
        lane_acc(w, x, lanes, j, (g - 1) as nat) + term(w, x, lane_index(g - 1, j as int, lanes as int))
    }
}

/// The horizontal reduction of lanes `0..k` after `g` groups, in lane order.
pub open spec fn lanes_reduced(w: Seq<int>, x: Seq<int>, lanes: nat, k: nat, g: nat) -> int
    decreases k,
{
    if k == 0 {
        0
    } else {
        lanes_reduced(w, x, lanes, (k - 1) as nat, g) + lane_acc(w, x, lanes, (k - 1) as nat, g)
    }
}

/// The scalar tail: the products of elements `from..to`, in index order.
pub open spec fn tail_sum(w: Seq<int>, x: Seq<int>, from: nat, to: nat) -> int
    decreases to - from,
{
    if to <= from {
        0
    } else {
        tail_sum(w, x, from, (to - 1) as nat) + term(w, x, to - 1)
    }
}

/// A vector strategy's sum: the reduced lane accumulators over the whole
/// groups, plus the scalar tail.
pub open spec fn lane_grouped_dot(w: Seq<int>, x: Seq<int>, lanes: nat, len: nat) -> int {
    lanes_reduced(w, x, lanes, lanes, len / lanes) + tail_sum(
        w,
        x,
        vector_prefix(len as int, lanes as int) as nat,
        len,
    )
}

/// The products of lanes `0..k` of group `g`.
pub open spec fn group_block(w: Seq<int>, x: Seq<int>, lanes: nat, g: nat, k: nat) -> int
    decreases k,
{
    if k == 0 {
        0
    } else {
        group_block(w, x, lanes, g, (k - 1) as nat) + term(w, x, lane_index(g as int, k - 1, lanes as int))
    }
}

proof fn lemma_lanes_reduced_step(w: Seq<int>, x: Seq<int>, lanes: nat, k: nat, g: nat)
    ensures
        lanes_reduced(w, x, lanes, k, g + 1) == lanes_reduced(w, x, lanes, k, g) + group_block(
            w,
            x,
            lanes,
            g,
            k,
        ),
    decreases k,
{
    if k > 0 {
        lemma_lanes_reduced_step(w, x, lanes, (k - 1) as nat, g);
    }
}

proof fn lemma_dot_prefix_block(w: Seq<int>, x: Seq<int>, lanes: nat, g: nat, k: nat)
    ensures
        dot_prefix(w, x, g * lanes + k) == dot_prefix(w, x, g * lanes) + group_block(w, x, lanes, g, k),
    decreases k,
{
    if k > 0 {
        lemma_dot_prefix_block(w, x, lanes, g, (k - 1) as nat);
        assert(g * lanes + k - 1 == lane_index(g as int, k - 1, lanes as int));
    }
}

proof fn lemma_lanes_reduced_empty(w: Seq<int>, x: Seq<int>, lanes: nat, k: nat)
    ensures
        lanes_reduced(w, x, lanes, k, 0) == 0,
    decreases k,
{
    if k > 0 {
        lemma_lanes_reduced_empty(w, x, lanes, (k - 1) as nat);
    }
}

proof fn lemma_lanes_reduced_groups(w: Seq<int>, x: Seq<int>, lanes: nat, g: nat)
    ensures
        lanes_reduced(w, x, lanes, lanes, g) == dot_prefix(w, x, g * lanes),
    decreases g,
{
    if g == 0 {
        lemma_lanes_reduced_empty(w, x, lanes, lanes);
    } else {
        let h = (g - 1) as nat;
        lemma_lanes_reduced_groups(w, x, lanes, h);
        lemma_lanes_reduced_step(w, x, lanes, lanes, h);
        lemma_dot_prefix_block(w, x, lanes, h, lanes);
        assert(h * lanes + lanes == g * lanes) by (nonlinear_arith)
            requires
                h + 1 == g,
        ;
    }
}

proof fn lemma_dot_prefix_tail(w: Seq<int>, x: Seq<int>, from: nat, to: nat)
    requires
        from <= to,
    ensures
        dot_prefix(w, x, to) == dot_prefix(w, x, from) + tail_sum(w, x, from, to),
    decreases to - from,
{
    if from < to {
        lemma_dot_prefix_tail(w, x, from, (to - 1) as nat);
    }
}

/// In exact arithmetic, summing through lane accumulators, reducing them in
/// lane order and adding the scalar tail gives the index-order sum: a vector
/// strategy and the scalar strategy differ only by the rounding of their
/// different summation orders.
pub proof fn lemma_lane_grouped_dot_is_dot(w: Seq<int>, x: Seq<int>, lanes: nat, len: nat)
    requires
        lanes > 0,
        w.len() == len,
        x.len() == len,
    ensures
        lane_grouped_dot(w, x, lanes, len) == dot_prefix(w, x, len),
{
    let g = len / lanes;
    let p = vector_prefix(len as int, lanes as int);
    vstd::arithmetic::div_mod::lemma_fundamental_div_mod(len as int, lanes as int);
    vstd::arithmetic::mul::lemma_mul_is_commutative(lanes as int, g as int);
    assert(p == g * lanes);
    lemma_lanes_reduced_groups(w, x, lanes, g);
    lemma_dot_prefix_tail(w, x, p as nat, len);
}

proof fn lemma_dot_prefix_zero_weights(w: Seq<int>, x: Seq<int>, n: nat)
    requires
        n <= w.len(),
        forall|i: int| 0 <= i < w.len() ==> w[i] == 0,
    ensures
        dot_prefix(w, x, n) == 0,
    decreases n,
{
    if n > 0 {
        lemma_dot_prefix_zero_weights(w, x, (n - 1) as nat);
        assert(w[n - 1] == 0);
    }
}

/// With no weights, or only zero weights, every strategy's score is the bias
/// itself (in exact arithmetic): the lane-grouped sum and the index-order
/// sum both vanish.
pub proof fn lemma_zero_weights_score_is_bias(w: Seq<int>, x: Seq<int>, lanes: nat, bias: int)
    requires
        lanes > 0,
        w.len() == x.len(),
        forall|i: int| 0 <= i < w.len() ==> w[i] == 0,
    ensures
        dot_prefix(w, x, w.len()) + bias == bias,
        lane_grouped_dot(w, x, lanes, w.len()) + bias == bias,
{
    lemma_dot_prefix_zero_weights(w, x, w.len());
    lemma_lane_grouped_dot_is_dot(w, x, lanes, w.len());
}

} // verus!
