use vstd::prelude::*;

use crate::shape::{Dimensions, lemma_row_major_reshape};

verus! {

/// Side of the square tile of invocations that the kernel declares.
pub const WORKGROUP_SIZE: u32 = 16;

/// `ceil(extent / WORKGROUP_SIZE)`: workgroups needed to cover `extent` items.
pub open spec fn groups_for(extent: int) -> int {
    (extent + (WORKGROUP_SIZE as int) - 1) / (WORKGROUP_SIZE as int)
}

/// What the kernel does for the invocation at global position `(row, col)`:
/// the output entry it writes, or nothing when the position lies outside the
/// logical `m x n` result.
pub open spec fn spec_target(d: Dimensions, row: int, col: int) -> Option<int> {
    if 0 <= row < d.m && 0 <= col < d.n {
        Some(d.spec_entry_index(row, col))
    } else {
        None
    }
}

/// Workgroups along one axis of the grid, rounded up.
pub fn workgroup_count(extent: u32) -> (r: u32)
    ensures
        r as int == groups_for((extent as int)),
        r as int * (WORKGROUP_SIZE as int) >= (extent as int),
        r as int * (WORKGROUP_SIZE as int) < (extent as int) + (WORKGROUP_SIZE as int),
{
    let whole = extent / WORKGROUP_SIZE;
    if extent % WORKGROUP_SIZE != 0 {
        whole + 1
    } else {
        whole
    }
}

/// The dispatch grid `ceil(m / 16) x ceil(n / 16) x 1` that covers the result.
pub fn dispatch_grid(d: &Dimensions) -> (r: (u32, u32, u32))
    ensures
        r.0 as int == groups_for(d.m as int),
        r.1 as int == groups_for(d.n as int),
        r.2 == 1,
{
    (workgroup_count(d.m), workgroup_count(d.n), 1)
}

/// The kernel's bound check and indexing for the invocation at `(row, col)`.
pub fn kernel_target(d: &Dimensions, row: u32, col: u32) -> (r: Option<usize>)
    requires
        d.wf(),
    ensures
        r matches Some(i) ==> spec_target(*d, row as int, col as int) == Some(i as int),
        r is None ==> spec_target(*d, row as int, col as int) is None,
{
    if row < d.m && col < d.n {
        Some(d.entry_index(row, col))
    } else {
        None
    }
}

/// The grid covers every entry of the result, adds less than one workgroup of
/// spare invocations along each axis, and the invocations that write do so
/// inside the result, each to an entry of its own.
pub proof fn lemma_tiling_covers_result(d: Dimensions)
    requires
        d.wf(),
    ensures
        groups_for(d.m as int) * (WORKGROUP_SIZE as int) >= d.m,
        groups_for(d.n as int) * (WORKGROUP_SIZE as int) >= d.n,
        groups_for(d.m as int) * (WORKGROUP_SIZE as int) < d.m + WORKGROUP_SIZE,
        groups_for(d.n as int) * (WORKGROUP_SIZE as int) < d.n + WORKGROUP_SIZE,
        forall|i: int, j: int|
            0 <= i < d.m && 0 <= j < d.n ==> #[trigger] spec_target(d, i, j) == Some(
                d.spec_entry_index(i, j),
            ),
        forall|row: int, col: int|
            #[trigger] spec_target(d, row, col) is Some ==> 0 <= spec_target(d, row, col)->0
                < d.spec_output_len(),
        forall|r1: int, c1: int, r2: int, c2: int|
            #[trigger] spec_target(d, r1, c1) is Some && spec_target(d, r1, c1) == #[trigger] spec_target(
                d,
                r2,
                c2,
            ) ==> r1 == r2 && c1 == c2,
{
    lemma_row_major_reshape(d);
    let m = d.m as int;
    let n = d.n as int;
    assert(groups_for(m) * 16 >= m && groups_for(m) * 16 < m + 16) by (nonlinear_arith)
        requires m >= 0, groups_for(m) == (m + 15) / 16;
    assert(groups_for(n) * 16 >= n && groups_for(n) * 16 < n + 16) by (nonlinear_arith)
        requires n >= 0, groups_for(n) == (n + 15) / 16;
    assert forall|r1: int, c1: int, r2: int, c2: int|
        #[trigger] spec_target(d, r1, c1) is Some && spec_target(d, r1, c1) == #[trigger] spec_target(
            d,
            r2,
            c2,
        ) implies r1 == r2 && c1 == c2 by {
        assert(d.spec_entry_index(r1, c1) == d.spec_entry_index(r2, c2));
    }
}

} // verus!
