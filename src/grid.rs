//! Dispatch grids: how many thread-groups a launch asks for.
use crate::error::HalError;
use vstd::prelude::*;

verus! {

/// The largest number of thread-groups that one launch may request along an axis
/// on the command-buffer-style backend.
pub const MAX_NUM_WORKGROUPS: u32 = 65535;

/// `ceil(n / d)` on mathematical integers.
pub open spec fn ceil_div(n: int, d: int) -> int
    recommends
        d > 0,
{
    (n + d - 1) / d
}

/// The number of thread-groups needed to cover `threads` threads along each axis.
pub open spec fn spec_grid_for(threads: [u32; 3], block_dim: [u32; 3]) -> Seq<int> {
    seq![
        ceil_div(threads[0] as int, block_dim[0] as int),
        ceil_div(threads[1] as int, block_dim[1] as int),
        ceil_div(threads[2] as int, block_dim[2] as int),
    ]
}

/// Block dimensions declared by a kernel: three positive extents.
pub open spec fn valid_block_dim(block_dim: [u32; 3]) -> bool {
    block_dim[0] > 0 && block_dim[1] > 0 && block_dim[2] > 0
}

/// `ceil(n / d)` without overflow.
pub fn div_ceil_u32(n: u32, d: u32) -> (r: u32)
    requires
        d > 0,
    ensures
        r as int == ceil_div(n as int, d as int),
        r as int * d >= n,
        r > 0 ==> (r as int - 1) * d < n,
{
    let q = n / d;
    if n % d == 0 {
        assert(q as int == ceil_div(n as int, d as int) && q as int * d == n && (q > 0 ==> (q as int
            - 1) * d < n)) by (nonlinear_arith)
            requires
                d > 0,
                q == n / d,
                n % d == 0,
        ;
        q
    } else {
        assert(q < 0xffff_ffff && (q + 1) as int == ceil_div(n as int, d as int) && (q + 1) * d
            >= n && q * d < n) by (nonlinear_arith)
            requires
                d > 0,
                q == n / d,
                n % d != 0,
                n <= 0xffff_ffff,
        ;
        q + 1
    }
}

/// Whether a direct grid asks for any thread-group at all.
pub open spec fn has_work(grid: [u32; 3]) -> bool {
    grid[0] > 0 && grid[1] > 0 && grid[2] > 0
}

/// The number of thread-groups to dispatch along each axis so that `num_threads` threads
/// are covered by groups of `block_dim` threads.
pub fn grid_for(num_threads: [u32; 3], block_dim: [u32; 3]) -> (r: [u32; 3])
    requires
        valid_block_dim(block_dim),
    ensures
        r@.map_values(|g: u32| g as int) == spec_grid_for(num_threads, block_dim),
        forall|i: int| 0 <= i < 3 ==> r[i] as int * block_dim[i] >= num_threads[i],
        forall|i: int| 0 <= i < 3 && r[i] > 0 ==> (r[i] as int - 1) * block_dim[i] < num_threads[i],
{
    let r = [
        div_ceil_u32(num_threads[0], block_dim[0]),
        div_ceil_u32(num_threads[1], block_dim[1]),
        div_ceil_u32(num_threads[2], block_dim[2]),
    ];
    assert(r@.map_values(|g: u32| g as int) =~= spec_grid_for(num_threads, block_dim));
    r
}

/// The 1-D thread count that a capped launch keeps: at most `MAX_NUM_WORKGROUPS`
/// thread-groups of `block_x` threads.
pub open spec fn spec_capped_threads(num_threads: u32, block_x: u32) -> int {
    if num_threads as int <= MAX_NUM_WORKGROUPS as int * block_x as int {
        num_threads as int
    } else {
        MAX_NUM_WORKGROUPS as int * block_x as int
    }
}

/// Clamps a 1-D thread count so that its grid never exceeds `MAX_NUM_WORKGROUPS`
/// thread-groups.
pub fn capped_threads(num_threads: u32, block_x: u32) -> (r: u32)
    ensures
        r as int == spec_capped_threads(num_threads, block_x),
{
    assert(MAX_NUM_WORKGROUPS as u64 * block_x as u64 <= 0xffff * 0xffff_ffff) by (nonlinear_arith);
    let max_num_threads: u64 = MAX_NUM_WORKGROUPS as u64 * block_x as u64;
    if (num_threads as u64) <= max_num_threads {
        num_threads
    } else {
        max_num_threads as u32
    }
}

/// Clamping a 1-D thread count to `MAX_NUM_WORKGROUPS` groups of `block_x` threads leaves
/// a grid of at most `MAX_NUM_WORKGROUPS` thread-groups, whatever the requested count.
pub proof fn lemma_capped_grid_bounded(num_threads: u32, block_x: u32)
    requires
        block_x > 0,
    ensures
        ceil_div(spec_capped_threads(num_threads, block_x), block_x as int)
            <= MAX_NUM_WORKGROUPS as int,
{
    let t = spec_capped_threads(num_threads, block_x);
    let b = block_x as int;
    let m = MAX_NUM_WORKGROUPS as int;
    assert(0 <= t <= m * b);
    assert((t + b - 1) / b <= m) by (nonlinear_arith)
        requires
            b > 0,
            0 <= t <= m * b,
    ;
}

/// Where a dispatch takes its grid from.
pub enum DispatchGrid<I> {
    /// A grid given by the host.
    Direct([u32; 3]),
    /// A grid read at submission time from a device-resident buffer of three `u32`.
    Indirect(I),
}

impl<I> From<[u32; 3]> for DispatchGrid<I> {
    fn from(grid: [u32; 3]) -> (r: DispatchGrid<I>) {
        DispatchGrid::Direct(grid)
    }
}

impl<I> vstd::std_specs::convert::FromSpecImpl<[u32; 3]> for DispatchGrid<I> {
    open spec fn obeys_from_spec() -> bool {
        true
    }

    open spec fn from_spec(grid: [u32; 3]) -> DispatchGrid<I> {
        DispatchGrid::Direct(grid)
    }
}

impl<I> From<u32> for DispatchGrid<I> {
    fn from(grid: u32) -> (r: DispatchGrid<I>) {
        DispatchGrid::Direct([grid, 1, 1])
    }
}

impl<I> vstd::std_specs::convert::FromSpecImpl<u32> for DispatchGrid<I> {
    open spec fn obeys_from_spec() -> bool {
        true
    }

    open spec fn from_spec(grid: u32) -> DispatchGrid<I> {
        DispatchGrid::Direct([grid, 1, 1])
    }
}

/// What a backend does for one dispatch.
pub enum GridWork<I> {
    /// Nothing: the grid has a zero axis.
    Skip,
    /// Dispatch this many thread-groups along each axis.
    Workgroups([u32; 3]),
    /// Dispatch with the grid read from this device buffer.
    Indirect(I),
}

/// The work that a dispatch with `grid` amounts to.
pub open spec fn spec_grid_work<I>(grid: DispatchGrid<I>) -> GridWork<I> {
    match grid {
        DispatchGrid::Direct(g) => if has_work(g) {
            GridWork::Workgroups(g)
        } else {
            GridWork::Skip
        },
        DispatchGrid::Indirect(b) => GridWork::Indirect(b),
    }
}

/// Decides the work of a dispatch on the command-buffer-style backend: a direct grid
/// with a zero axis is skipped, any other grid is dispatched as given.
pub fn grid_work<I>(grid: DispatchGrid<I>) -> (r: GridWork<I>)
    ensures
        r == spec_grid_work(grid),
{
    match grid {
        DispatchGrid::Direct(g) => {
            if g[0] > 0 && g[1] > 0 && g[2] > 0 {
                GridWork::Workgroups(g)
            } else {
                GridWork::Skip
            }
        },
        DispatchGrid::Indirect(b) => GridWork::Indirect(b),
    }
}

/// Decides the work of a dispatch on the stream-style backend, which launches with an
/// explicit grid and has no indirect dispatch: an indirect grid is reported as
/// unsupported.
pub fn stream_grid_work<I>(grid: DispatchGrid<I>) -> (r: Result<GridWork<I>, HalError>)
    ensures
        grid is Direct ==> r == Ok::<GridWork<I>, HalError>(spec_grid_work(grid)),
        grid is Indirect ==> r matches Err(HalError::UnsupportedOperation(_)),
{
    match grid {
        DispatchGrid::Direct(g) => Ok(grid_work(DispatchGrid::Direct(g))),
        DispatchGrid::Indirect(_) => Err(
            HalError::UnsupportedOperation(String::from_str("indirect dispatch")),
        ),
    }
}

} // verus!
