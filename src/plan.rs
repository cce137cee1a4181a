use vstd::prelude::*;

use crate::dispatch::{dispatch_grid, groups_for};
use crate::error::EngineError;
use crate::readback::{be_bytes, le_bytes, param_bytes};
use crate::shape::{Dimensions, fits_output};

verus! {

/// Everything the host computes before it touches the device: the checked
/// dimensions, the size of the output and staging buffers, the bytes of the
/// parameter block and the dispatch grid.
pub struct LaunchPlan {
    pub dims: Dimensions,
    pub output_len: usize,
    pub output_bytes: u64,
    pub params: Vec<u8>,
    pub grid: (u32, u32, u32),
}

impl LaunchPlan {
    pub open spec fn wf(&self) -> bool {
        &&& self.dims.wf()
        &&& self.output_len as int == self.dims.spec_output_len()
        &&& self.output_bytes as int == self.dims.spec_output_len() * 4
        &&& self.params@.len() == 12
        &&& (self.params@ == le_bytes(seq![self.dims.m, self.dims.n, self.dims.k]) || self.params@
            == be_bytes(seq![self.dims.m, self.dims.n, self.dims.k]))
        &&& self.grid.0 as int == groups_for(self.dims.m as int)
        &&& self.grid.1 as int == groups_for(self.dims.n as int)
        &&& self.grid.2 == 1
    }
}

/// Plans one invocation for `m` queries and `n` documents of width `k`. It
/// fails with `BufferSizeOverflow`, before any allocation, exactly when
/// `m * n * 4` does not fit in 32 bits.
pub fn plan_launch(m: u32, n: u32, k: u32) -> (r: Result<LaunchPlan, EngineError>)
    ensures
        r is Ok <==> fits_output(m, n),
        r matches Ok(p) ==> p.wf() && p.dims == (Dimensions { m, n, k }),
        r matches Err(e) ==> e == EngineError::BufferSizeOverflow,
{
    let dims = match Dimensions::new(m, n, k) {
        Ok(d) => d,
        Err(e) => {
            return Err(e);
        },
    };
    let output_len = dims.output_len();
    let output_bytes = dims.output_size_bytes();
    let params = param_bytes(&dims);
    let grid = dispatch_grid(&dims);
    Ok(LaunchPlan { dims, output_len, output_bytes, params, grid })
}

} // verus!
