//! How each backend performs a dispatch built by a compiled function.
use crate::binding::ShaderBinding;
use crate::error::HalError;
use crate::function::DispatchCall;
use crate::grid::{grid_work, has_work, spec_grid_work, stream_grid_work, DispatchGrid, GridWork};
use vstd::prelude::*;

verus! {

/// The entries of one bind group: the resources bound in one binding space, each at its
/// slot.
pub struct BindGroup<R> {
    pub space: u32,
    pub entries: Vec<(u32, R)>,
}

/// A dispatch on the command-buffer-style backend: one bind group per binding space, and
/// the work to record in the pass.
pub struct PassDispatch<R, I> {
    pub groups: Vec<BindGroup<R>>,
    pub work: GridWork<I>,
}

/// The binding spaces that `args` uses, each once, in order of first use.
pub open spec fn spaces_of<R>(args: Seq<(ShaderBinding, R)>) -> Seq<u32>
    decreases args.len(),
{
    if args.len() == 0 {
        Seq::empty()
    } else {
        let rest = spaces_of(args.drop_last());
        if rest.contains(args.last().0.space) {
            rest
        } else {
            rest.push(args.last().0.space)
        }
    }
}

/// The entries of the bind group of `space`: each argument bound in that space, at its
/// slot, in binding order.
pub open spec fn group_entries<R>(args: Seq<(ShaderBinding, R)>, space: u32) -> Seq<(u32, R)>
    decreases args.len(),
{
    if args.len() == 0 {
        Seq::empty()
    } else {
        let rest = group_entries(args.drop_last(), space);
        if args.last().0.space == space {
            rest.push((args.last().0.index, args.last().1))
        } else {
            rest
        }
    }
}

fn contains_space(spaces: &Vec<u32>, space: u32) -> (r: bool)
    ensures
        r == spaces@.contains(space),
{
    let mut i: usize = 0;
    while i < spaces.len()
        invariant
            i <= spaces@.len(),
            forall|k: int| 0 <= k < i ==> spaces@[k] != space,
        decreases spaces@.len() - i,
    {
        if spaces[i] == space {
            return true;
        }
        i = i + 1;
    }
    false
}

/// The entries of the bind group of `space`.
fn collect_group<R: Copy>(args: &Vec<(ShaderBinding, R)>, space: u32) -> (r: Vec<(u32, R)>)
    ensures
        r@ == group_entries(args@, space),
{
    let mut entries: Vec<(u32, R)> = Vec::new();
    let mut k: usize = 0;
    while k < args.len()
        invariant
            k <= args@.len(),
            entries@ == group_entries(args@.take(k as int), space),
        decreases args@.len() - k,
    {
        assert(args@.take(k as int + 1).drop_last() =~= args@.take(k as int));
        let binding = args[k].0;
        if binding.space == space {
            entries.push((binding.index, args[k].1));
        }
        k = k + 1;
    }
    assert(args@.take(args@.len() as int) =~= args@);
    entries
}

/// Plans a dispatch on the command-buffer-style backend: the bound arguments are grouped
/// by binding space, in order of first use, each at its slot and in binding order; a
/// direct grid with a zero axis records no work.
pub fn plan_pass_dispatch<R: Copy, I>(call: DispatchCall<R, I>) -> (r: PassDispatch<R, I>)
    ensures
        r.groups@.len() == spaces_of(call.args@).len(),
        forall|i: int|
            0 <= i < r.groups@.len() ==> (#[trigger] r.groups@[i]).space == spaces_of(
                call.args@,
            )[i] && r.groups@[i].entries@ == group_entries(call.args@, spaces_of(call.args@)[i]),
        r.work == spec_grid_work(call.grid),
{
    let args = &call.args;
    let mut spaces: Vec<u32> = Vec::new();
    let mut i: usize = 0;
    while i < args.len()
        invariant
            i <= args@.len(),
            spaces@ == spaces_of(args@.take(i as int)),
        decreases args@.len() - i,
    {
        assert(args@.take(i as int + 1).drop_last() =~= args@.take(i as int));
        let space = args[i].0.space;
        if !contains_space(&spaces, space) {
            spaces.push(space);
        }
        i = i + 1;
    }
    assert(args@.take(args@.len() as int) =~= args@);
    let mut groups: Vec<BindGroup<R>> = Vec::new();
    let mut j: usize = 0;
    while j < spaces.len()
        invariant
            j <= spaces@.len(),
            spaces@ == spaces_of(args@),
            groups@.len() == j,
            forall|t: int|
                0 <= t < j ==> (#[trigger] groups@[t]).space == spaces@[t] && groups@[t].entries@
                    == group_entries(args@, spaces@[t]),
        decreases spaces@.len() - j,
    {
        let space = spaces[j];
        let entries = collect_group(args, space);
        groups.push(BindGroup { space, entries });
        j = j + 1;
    }
    PassDispatch { groups, work: grid_work(call.grid) }
}

/// A kernel launch on the stream-style backend: the arguments in binding order and
/// explicit grid and block dimensions.
pub struct StreamLaunch<R> {
    pub args: Vec<R>,
    pub grid_dim: [u32; 3],
    pub block_dim: [u32; 3],
}

/// Plans a dispatch on the stream-style backend, which passes arguments by position and
/// has no indirect dispatch. A direct grid with a zero axis launches nothing and
/// succeeds; an indirect grid is reported as unsupported.
pub fn plan_stream_launch<R, I>(call: DispatchCall<R, I>) -> (r: Result<
    Option<StreamLaunch<R>>,
    HalError,
>)
    ensures
        call.grid is Indirect <==> r is Err,
        r is Err ==> r->Err_0 is UnsupportedOperation,
        call.grid matches DispatchGrid::Direct(g) ==> (r is Ok && (has_work(g) <==> r->Ok_0 is Some)),
        r matches Ok(Some(l)) ==> call.grid == DispatchGrid::<I>::Direct(l.grid_dim) && l.block_dim
            == call.block_dim && l.args@ == call.args@.map_values(|e: (ShaderBinding, R)| e.1),
{
    let ghost all = call.args@;
    let block_dim = call.block_dim;
    let grid_dim = match stream_grid_work(call.grid) {
        Err(e) => {
            return Err(e);
        },
        Ok(GridWork::Workgroups(g)) => g,
        Ok(_) => {
            return Ok(None);
        },
    };
    let mut args = call.args;
    let mut out: Vec<R> = Vec::new();
    while args.len() > 0
        invariant
            out@ + args@.map_values(|e: (ShaderBinding, R)| e.1) == all.map_values(
                |e: (ShaderBinding, R)| e.1,
            ),
        decreases args@.len(),
    {
        let ghost before = args@;
        let (_, resource) = args.remove(0);
        out.push(resource);
        assert(before.map_values(|e: (ShaderBinding, R)| e.1) =~= seq![before[0].1]
            + args@.map_values(|e: (ShaderBinding, R)| e.1));
    }
    assert(out@ =~= all.map_values(|e: (ShaderBinding, R)| e.1));
    Ok(Some(StreamLaunch { args: out, grid_dim, block_dim }))
}

} // verus!
