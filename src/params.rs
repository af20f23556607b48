//! Shaping raw parameter and data files: little-endian 32-bit words, the
//! split of the parameter vector into weights and bias, and the row count of
//! the data matrix. Words hold the bit patterns of 32-bit floats.
use vstd::prelude::*;

verus! {

/// Why a parameter or data file cannot be used.
#[derive(Debug, Clone, Copy, PartialEq, Eq, Structural)]
pub enum InputError {
    /// The byte count is not a multiple of four.
    TrailingBytes { len: usize },
    /// The parameter vector holds no bias.
    EmptyParameters,
    /// The model has no features, so rows cannot be told apart.
    ZeroDimension,
    /// The data length is not a whole number of rows.
    RaggedRows { len: usize, dim: usize },
}

/// The little-endian word that starts at byte `i`.
pub open spec fn le_word_at(b: Seq<u8>, i: int) -> int {
    b[i] as int + 256 * b[i + 1] as int + 65536 * b[i + 2] as int + 16777216 * b[i + 3] as int
}

/// Reads the bytes as consecutive little-endian 32-bit words.
pub fn decode_le_words(bytes: &[u8]) -> (r: Result<Vec<u32>, InputError>)
    ensures
        bytes@.len() % 4 != 0 <==> r == Err::<Vec<u32>, InputError>(
            InputError::TrailingBytes { len: bytes@.len() as usize },
        ),
        r is Ok <==> bytes@.len() % 4 == 0,
        r is Ok ==> r->Ok_0@.len() == bytes@.len() / 4 && forall|k: int|
            0 <= k < bytes@.len() / 4 ==> #[trigger] r->Ok_0@[k] as int == le_word_at(bytes@, 4 * k),
{
    if bytes.len() % 4 != 0 {
        return Err(InputError::TrailingBytes { len: bytes.len() });
    }
    let len = bytes.len();
    let n = len / 4;
    let mut words: Vec<u32> = Vec::with_capacity(n);
    let mut k: usize = 0;
    while k < n
        invariant
            len == bytes@.len(),
            n == bytes@.len() / 4,
            bytes@.len() % 4 == 0,
            k <= n,
            words@.len() == k,
            forall|m: int| 0 <= m < k ==> #[trigger] words@[m] as int == le_word_at(bytes@, 4 * m),
        decreases n - k,
    {
        assert(4 * k + 4 <= len) by {
            vstd::arithmetic::div_mod::lemma_fundamental_div_mod(bytes@.len() as int, 4);
        }
        let i = 4 * k;
        let w: u32 = bytes[i] as u32 + 256 * (bytes[i + 1] as u32) + 65536 * (bytes[i + 2] as u32)
            + 16777216 * (bytes[i + 3] as u32);
        words.push(w);
        k = k + 1;
    }
    Ok(words)
}

/// Splits a parameter vector into its weights (all but the last word) and
/// its bias (the last word).
pub fn split_parameters(params: &Vec<u32>) -> (r: Result<(Vec<u32>, u32), InputError>)
    ensures
        params@.len() == 0 <==> r == Err::<(Vec<u32>, u32), InputError>(InputError::EmptyParameters),
        r is Ok <==> params@.len() > 0,
        r is Ok ==> r->Ok_0.0@ == params@.drop_last() && r->Ok_0.1 == params@.last(),
{
    if params.len() == 0 {
        return Err(InputError::EmptyParameters);
    }
    let d = params.len() - 1;
    let mut weights: Vec<u32> = Vec::with_capacity(d);
    let mut i: usize = 0;
    while i < d
        invariant
            d == params@.len() - 1,
            i <= d,
            weights@ == params@.subrange(0, i as int),
        decreases d - i,
    {
        weights.push(params[i]);
        i = i + 1;
        assert(weights@ =~= params@.subrange(0, i as int));
    }
    assert(weights@ =~= params@.drop_last());
    Ok((weights, params[d]))
}

/// The number of rows of length `dim` in a data matrix of `data_len` words.
pub fn row_count(data_len: usize, dim: usize) -> (r: Result<usize, InputError>)
    ensures
        dim == 0 <==> r == Err::<usize, InputError>(InputError::ZeroDimension),
        dim != 0 && data_len % dim != 0 <==> r == Err::<usize, InputError>(
            InputError::RaggedRows { len: data_len, dim },
        ),
        r is Ok <==> dim != 0 && data_len % dim == 0,
        r is Ok ==> r->Ok_0 == data_len / dim && r->Ok_0 * dim == data_len,
{
    if dim == 0 {
        return Err(InputError::ZeroDimension);
    }
    if data_len % dim != 0 {
        return Err(InputError::RaggedRows { len: data_len, dim });
    }
    proof {
        vstd::arithmetic::div_mod::lemma_fundamental_div_mod(data_len as int, dim as int);
        vstd::arithmetic::mul::lemma_mul_is_commutative(dim as int, data_len as int / dim as int);
    }
    Ok(data_len / dim)
}

} // verus!
