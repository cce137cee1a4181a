use vstd::prelude::*;

use crate::error::EngineError;

verus! {

/// Size in bytes of one 32-bit float element.
pub const ELEMENT_BYTES: u32 = 4;

/// Whether an `m x n` result, counted in bytes, fits the 32-bit size arithmetic.
pub open spec fn fits_output(m: u32, n: u32) -> bool {
    m as int * n as int * 4 <= u32::MAX as int
}

/// The parameter block `(m, n, k)`: query rows, document rows and the shared
/// embedding width.
#[derive(Clone, Copy, Debug, PartialEq, Eq, Structural)]
pub struct Dimensions {
    pub m: u32,
    pub n: u32,
    pub k: u32,
}

impl Dimensions {
    /// A parameter block whose result size is representable.
    pub open spec fn wf(&self) -> bool {
        fits_output(self.m, self.n)
    }

    /// Number of entries of the result.
    pub open spec fn spec_output_len(&self) -> int {
        self.m as int * self.n as int
    }

    /// Row-major position of the entry for query `i` and document `j`.
    pub open spec fn spec_entry_index(&self, i: int, j: int) -> int {
        i * self.n as int + j
    }

    /// Query row of the entry at row-major position `idx`.
    pub open spec fn spec_row(&self, idx: int) -> int {
        idx / (self.n as int)
    }

    /// Document column of the entry at row-major position `idx`.
    pub open spec fn spec_col(&self, idx: int) -> int {
        idx % (self.n as int)
    }

    /// Checks the result size before any allocation is made.
    pub fn new(m: u32, n: u32, k: u32) -> (r: Result<Dimensions, EngineError>)
        ensures
            r is Ok <==> fits_output(m, n),
            r matches Ok(d) ==> d.m == m && d.n == n && d.k == k && d.wf(),
            r matches Err(e) ==> e == EngineError::BufferSizeOverflow,
    {
        proof {
            lemma_word_product(m, n);
        }
        let cells: u64 = m as u64 * n as u64;
        if cells > (u32::MAX / ELEMENT_BYTES) as u64 {
            Err(EngineError::BufferSizeOverflow)
        } else {
            Ok(Dimensions { m, n, k })
        }
    }

    /// Number of entries of the result, `m * n`.
    pub fn output_len(&self) -> (r: usize)
        requires
            self.wf(),
        ensures
            r as int == self.spec_output_len(),
    {
        proof {
            assert(self.m as int * self.n as int <= u32::MAX as int) by (nonlinear_arith)
                requires self.m as int * self.n as int * 4 <= u32::MAX as int;
            lemma_word_product(self.m, self.n);
        }
        (self.m as u64 * self.n as u64) as usize
    }

    /// Size in bytes of the output and staging buffers, `m * n * 4`.
    pub fn output_size_bytes(&self) -> (r: u64)
        requires
            self.wf(),
        ensures
            r as int == self.spec_output_len() * 4,
            r <= u32::MAX,
    {
        proof {
            lemma_word_product(self.m, self.n);
        }
        self.m as u64 * self.n as u64 * ELEMENT_BYTES as u64
    }

    /// Whether flattened inputs of these lengths have the shapes `(m, k)` and
    /// `(n, k)`.
    pub fn accepts_inputs(&self, a_len: usize, b_len: usize) -> (r: bool)
        ensures
            r == (a_len as int == self.m as int * self.k as int && b_len as int == self.n
                as int * self.k as int),
    {
        proof {
            lemma_word_product(self.m, self.k);
            lemma_word_product(self.n, self.k);
        }
        let a_need: u64 = self.m as u64 * self.k as u64;
        let b_need: u64 = self.n as u64 * self.k as u64;
        a_len as u64 == a_need && b_len as u64 == b_need
    }

    /// The three words of the uniform parameter block, in kernel order.
    pub fn param_words(&self) -> (r: Vec<u32>)
        ensures
            r@ == seq![self.m, self.n, self.k],
    {
        let r = vec![self.m, self.n, self.k];
        assert(r@ =~= seq![self.m, self.n, self.k]);
        r
    }

    /// Row-major position of the entry for query `i` and document `j`.
    pub fn entry_index(&self, i: u32, j: u32) -> (r: usize)
        requires
            self.wf(),
            i < self.m,
            j < self.n,
        ensures
            r as int == self.spec_entry_index(i as int, j as int),
            r < self.spec_output_len(),
    {
        proof {
            lemma_index_in_range(self.m as int, self.n as int, i as int, j as int);
            assert(self.m as int * self.n as int <= u32::MAX as int) by (nonlinear_arith)
                requires self.m as int * self.n as int * 4 <= u32::MAX as int;
            lemma_word_product(i, self.n);
        }
        (i as u64 * self.n as u64 + j as u64) as usize
    }

    /// Query row and document column of the entry at row-major position `idx`.
    pub fn entry_position(&self, idx: usize) -> (r: (u32, u32))
        requires
            self.wf(),
            idx < self.spec_output_len(),
        ensures
            r.0 < self.m,
            r.1 < self.n,
            r.0 as int == self.spec_row(idx as int),
            r.1 as int == self.spec_col(idx as int),
            self.spec_entry_index(r.0 as int, r.1 as int) == idx as int,
    {
        proof {
            lemma_position_of_index(self.m as int, self.n as int, idx as int);
        }
        assert(self.n > 0);
        ((idx / self.n as usize) as u32, (idx % self.n as usize) as u32)
    }
}

proof fn lemma_word_product(a: u32, b: u32)
    ensures
        a as int * b as int <= u64::MAX as int,
{
    assert(a as int * b as int <= u32::MAX as int * u32::MAX as int) by (nonlinear_arith)
        requires a as int <= u32::MAX as int, b as int <= u32::MAX as int, 0 <= a as int, 0 <= b as int;
}

proof fn lemma_index_in_range(m: int, n: int, i: int, j: int)
    requires
        0 <= i < m,
        0 <= j < n,
    ensures
        0 <= i * n + j < m * n,
{
    assert(i * n + j < m * n) by (nonlinear_arith)
        requires 0 <= i < m, 0 <= j < n;
    assert(0 <= i * n) by (nonlinear_arith)
        requires 0 <= i, 0 <= n;
}

proof fn lemma_position_of_index(m: int, n: int, idx: int)
    requires
        0 <= m,
        0 <= n,
        0 <= idx < m * n,
    ensures
        n > 0,
        0 <= idx / n < m,
        0 <= idx % n < n,
        (idx / n) * n + idx % n == idx,
{
    if n == 0 {
        assert(m * n == 0) by (nonlinear_arith)
            requires n == 0;
    }
    assert((idx / n) * n + idx % n == idx) by (nonlinear_arith)
        requires n > 0;
    assert(0 <= idx % n < n) by (nonlinear_arith)
        requires n > 0;
    assert(0 <= idx / n) by (nonlinear_arith)
        requires n > 0, idx >= 0;
    assert(idx / n < m) by (nonlinear_arith)
        requires n > 0, idx < m * n, idx >= 0;
}

/// Reshaping the flat result row-major by `n` reproduces the `(m, n)` grid:
/// every query/document pair owns a distinct position below `m * n`, and every
/// such position is the one of the pair `(idx / n, idx % n)`.
pub proof fn lemma_row_major_reshape(d: Dimensions)
    requires
        d.wf(),
    ensures
        forall|i: int, j: int|
            0 <= i < d.m && 0 <= j < d.n ==> 0 <= #[trigger] d.spec_entry_index(i, j)
                < d.spec_output_len(),
        forall|i1: int, j1: int, i2: int, j2: int|
            0 <= i1 < d.m && 0 <= j1 < d.n && 0 <= i2 < d.m && 0 <= j2 < d.n
                && #[trigger] d.spec_entry_index(i1, j1) == #[trigger] d.spec_entry_index(i2, j2)
                ==> i1 == i2 && j1 == j2,
        forall|idx: int|
            0 <= idx < d.spec_output_len() ==> 0 <= #[trigger] d.spec_row(idx) < d.m && 0
                <= d.spec_col(idx) < d.n && d.spec_entry_index(d.spec_row(idx), d.spec_col(idx))
                == idx,
{
    let n = d.n as int;
    assert forall|i: int, j: int| 0 <= i < d.m && 0 <= j < d.n implies 0
        <= #[trigger] d.spec_entry_index(i, j) < d.spec_output_len() by {
        lemma_index_in_range(d.m as int, n, i, j);
    }
    assert forall|i1: int, j1: int, i2: int, j2: int|
        0 <= i1 < d.m && 0 <= j1 < d.n && 0 <= i2 < d.m && 0 <= j2 < d.n
            && #[trigger] d.spec_entry_index(i1, j1) == #[trigger] d.spec_entry_index(i2, j2)
        implies i1 == i2 && j1 == j2 by {
        let x = i1 * n + j1;
        assert(x / n == i1 && x % n == j1) by (nonlinear_arith)
            requires x == i1 * n + j1, 0 <= j1 < n, 0 <= i1;
        assert(x / n == i2 && x % n == j2) by (nonlinear_arith)
            requires x == i2 * n + j2, 0 <= j2 < n, 0 <= i2;
    }
    assert forall|idx: int| 0 <= idx < d.spec_output_len() implies 0 <= #[trigger] d.spec_row(idx)
        < d.m && 0 <= d.spec_col(idx) < d.n && d.spec_entry_index(d.spec_row(idx), d.spec_col(idx))
        == idx by {
        lemma_position_of_index(d.m as int, n, idx);
    }
}

} // verus!
