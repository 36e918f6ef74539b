//! Compiled functions: an entry point with its reflected binding layout and thread-group
//! dimensions, and the dispatches built from it.
use crate::binding::{BoundArgs, ShaderArgs, ShaderBinding};
use crate::error::{HalError, ShaderArgsError};
use crate::grid::{
    capped_threads, ceil_div, grid_for, spec_capped_threads, valid_block_dim, DispatchGrid,
    MAX_NUM_WORKGROUPS,
};
use vstd::prelude::*;

verus! {

/// One parameter of an entry point, as reflection reports it.
pub struct ReflectedParam {
    /// The variable's name; `None` for a parameter without a variable.
    pub name: Option<String>,
    /// Whether the parameter is bound to an intrinsic semantic (a thread or group id
    /// supplied by the execution grid).
    pub has_semantic: bool,
    /// Where the parameter attaches.
    pub binding: ShaderBinding,
}

/// Whether the caller must supply an argument for the parameter.
pub open spec fn bound_by_caller(p: ReflectedParam) -> bool {
    p.name is Some && !p.has_semantic
}

/// The binding layout of an entry point: one (name, locator) pair for each parameter that
/// the caller supplies, in declaration order.
pub open spec fn layout_of(params: Seq<ReflectedParam>) -> Seq<(Seq<char>, ShaderBinding)>
    decreases params.len(),
{
    if params.len() == 0 {
        Seq::empty()
    } else {
        let p = params.last();
        let rest = layout_of(params.drop_last());
        if bound_by_caller(p) {
            rest.push((p.name->Some_0@, p.binding))
        } else {
            rest
        }
    }
}

/// What binding `args` against `layout` adds to a dispatch.
pub open spec fn bound_entries<R, A: ShaderArgs<R>>(
    layout: Seq<(Seq<char>, ShaderBinding)>,
    args: A,
) -> Seq<(ShaderBinding, R)> {
    Seq::new(layout.len(), |i: int| (layout[i].1, args.resource(layout[i].0)))
}

/// Whether `args` has something for every name of `layout`.
pub open spec fn provides_all<R, A: ShaderArgs<R>>(
    layout: Seq<(Seq<char>, ShaderBinding)>,
    args: A,
) -> bool {
    forall|i: int| 0 <= i < layout.len() ==> args.provides(#[trigger] layout[i].0)
}

/// Whether the name at `k` is the first name of `layout` that `args` lacks.
pub open spec fn first_missing<R, A: ShaderArgs<R>>(
    layout: Seq<(Seq<char>, ShaderBinding)>,
    args: A,
    k: int,
) -> bool {
    &&& 0 <= k < layout.len()
    &&& !args.provides(layout[k].0)
    &&& forall|i: int| 0 <= i < k ==> args.provides(#[trigger] layout[i].0)
}

/// Whether `grid` is the direct grid of `ceil(num_threads[i] / block_dim[i])`
/// thread-groups along each axis `i`.
pub open spec fn covers_threads<I>(grid: DispatchGrid<I>, num_threads: [u32; 3], block_dim: [u32; 3]) -> bool {
    &&& grid is Direct
    &&& forall|i: int|
        0 <= i < 3 ==> grid->Direct_0[i] as int == #[trigger] ceil_div(
            num_threads[i] as int,
            block_dim[i] as int,
        )
}

/// One kernel invocation, ready for a backend to perform: the bound arguments, the grid
/// and the thread-group dimensions.
pub struct DispatchCall<R, I> {
    pub args: Vec<(ShaderBinding, R)>,
    pub grid: DispatchGrid<I>,
    pub block_dim: [u32; 3],
}

/// A loaded entry point together with its reflected binding layout and declared
/// thread-group dimensions.
pub struct GpuFunction<F> {
    block_dim: [u32; 3],
    args: Vec<(String, ShaderBinding)>,
    function: F,
}

impl<F> GpuFunction<F> {
    /// The binding layout.
    pub closed spec fn layout(&self) -> Seq<(Seq<char>, ShaderBinding)> {
        self.args@.map_values(|a: (String, ShaderBinding)| (a.0@, a.1))
    }

    /// The declared thread-group dimensions.
    pub closed spec fn spec_block_dim(&self) -> [u32; 3] {
        self.block_dim
    }

    /// The loaded function handle.
    pub closed spec fn spec_function(&self) -> F {
        self.function
    }

    /// Every compiled function declares three positive thread-group dimensions.
    pub open spec fn wf(&self) -> bool {
        valid_block_dim(self.spec_block_dim())
    }

    /// Wraps a loaded function with what reflection reports of its entry point: the
    /// thread-group dimensions and the parameters. The layout keeps each named parameter
    /// that is not bound to an intrinsic semantic. Dimensions with a zero extent are
    /// refused.
    pub fn from_reflection(block_dim: [u32; 3], params: &Vec<ReflectedParam>, function: F) -> (r:
        Result<GpuFunction<F>, HalError>)
        ensures
            valid_block_dim(block_dim) ==> r is Ok && r->Ok_0.wf() && r->Ok_0.layout() == layout_of(
                params@,
            ) && r->Ok_0.spec_block_dim() == block_dim && r->Ok_0.spec_function() == function,
            !valid_block_dim(block_dim) ==> r matches Err(HalError::CompileOrLoad(_)),
    {
        if block_dim[0] == 0 || block_dim[1] == 0 || block_dim[2] == 0 {
            return Err(HalError::CompileOrLoad(String::from_str("empty thread-group dimension")));
        }
        let mut args: Vec<(String, ShaderBinding)> = Vec::new();
        let mut i: usize = 0;
        while i < params.len()
            invariant
                i <= params@.len(),
                args@.map_values(|a: (String, ShaderBinding)| (a.0@, a.1)) == layout_of(
                    params@.take(i as int),
                ),
            decreases params@.len() - i,
        {
            let ghost before = args@;
            let p = &params[i];
            assert(params@.take(i as int + 1).drop_last() =~= params@.take(i as int));
            assert(params@.take(i as int + 1).last() == params@[i as int]);
            if !p.has_semantic {
                match &p.name {
                    Some(name) => {
                        args.push((name.clone(), p.binding));
                        assert(args@.map_values(|a: (String, ShaderBinding)| (a.0@, a.1))
                            =~= before.map_values(|a: (String, ShaderBinding)| (a.0@, a.1)).push(
                            (name@, p.binding),
                        ));
                    },
                    None => {},
                }
            }
            i = i + 1;
        }
        assert(params@.take(params@.len() as int) =~= params@);
        Ok(GpuFunction { block_dim, args, function })
    }

    /// The declared thread-group dimensions.
    pub fn block_dim(&self) -> (r: [u32; 3])
        ensures
            r == self.spec_block_dim(),
    {
        self.block_dim
    }

    /// The loaded function handle.
    pub fn function(&self) -> (r: &F)
        ensures
            *r == self.spec_function(),
    {
        &self.function
    }

    /// The number of arguments that the layout asks for.
    pub fn num_args(&self) -> (r: usize)
        ensures
            r == self.layout().len(),
    {
        self.args.len()
    }

    /// Writes into `dispatch`, in layout order, the argument that `args` has for each name
    /// of the layout. The first name that `args` lacks is reported, and the dispatch then
    /// holds only the arguments bound before it.
    pub fn bind<R, A: ShaderArgs<R>>(&self, dispatch: &mut BoundArgs<R>, args: &A) -> (r: Result<
        (),
        ShaderArgsError,
    >)
        ensures
            r is Ok <==> provides_all(self.layout(), *args),
            r is Ok ==> final(dispatch)@ == old(dispatch)@ + bound_entries(self.layout(), *args),
            r is Err ==> exists|k: int|
                first_missing(self.layout(), *args, k) && r->Err_0.missing_name()
                    == #[trigger] self.layout()[k].0 && final(dispatch)@ == old(dispatch)@
                    + bound_entries(self.layout().take(k), *args),
    {
        let ghost layout = self.layout();
        let ghost start = dispatch@;
        let mut i: usize = 0;
        while i < self.args.len()
            invariant
                layout == self.layout(),
                start == old(dispatch)@,
                i <= layout.len(),
                forall|j: int| 0 <= j < i ==> args.provides(#[trigger] layout[j].0),
                dispatch@ == start + bound_entries(layout.take(i as int), *args),
            decreases layout.len() - i,
        {
            let entry = &self.args[i];
            assert(layout[i as int] == (entry.0@, entry.1));
            let res = args.write_arg(entry.1, entry.0.as_str(), dispatch);
            match res {
                Ok(()) => {
                    assert(bound_entries(layout.take(i as int + 1), *args) =~= bound_entries(
                        layout.take(i as int),
                        *args,
                    ).push((entry.1, args.resource(entry.0@))));
                },
                Err(e) => {
                    assert(first_missing(layout, *args, i as int));
                    assert(e.missing_name() == layout[i as int].0);
                    return Err(e);
                },
            }
            i = i + 1;
        }
        assert(layout.take(layout.len() as int) =~= layout);
        Ok(())
    }

    /// Builds a dispatch of this function over `grid`: the arguments are bound as `bind`
    /// binds them, the block dimensions are the declared ones.
    pub fn launch_grid<R, I, A: ShaderArgs<R>>(&self, args: &A, grid: DispatchGrid<I>) -> (r:
        Result<DispatchCall<R, I>, ShaderArgsError>)
        ensures
            r is Ok <==> provides_all(self.layout(), *args),
            r is Ok ==> r->Ok_0.args@ == bound_entries(self.layout(), *args) && r->Ok_0.grid
                == grid && r->Ok_0.block_dim == self.spec_block_dim(),
            r is Err ==> exists|k: int|
                first_missing(self.layout(), *args, k) && r->Err_0.missing_name()
                    == #[trigger] self.layout()[k].0,
    {
        let mut dispatch = BoundArgs::new();
        match self.bind(&mut dispatch, args) {
            Ok(()) => {
                let call = DispatchCall {
                    args: dispatch.into_entries(),
                    grid,
                    block_dim: self.block_dim,
                };
                assert(call.args@ =~= bound_entries(self.layout(), *args));
                Ok(call)
            },
            Err(e) => Err(e),
        }
    }

    /// Builds a dispatch that covers `num_threads` threads along each axis: the grid
    /// has `ceil(num_threads[i] / block_dim[i])` thread-groups along axis `i`.
    pub fn launch<R, I, A: ShaderArgs<R>>(&self, args: &A, num_threads: [u32; 3]) -> (r: Result<
        DispatchCall<R, I>,
        ShaderArgsError,
    >)
        requires
            self.wf(),
        ensures
            r is Ok <==> provides_all(self.layout(), *args),
            r is Ok ==> r->Ok_0.args@ == bound_entries(self.layout(), *args)
                && r->Ok_0.block_dim == self.spec_block_dim() && covers_threads(
                r->Ok_0.grid,
                num_threads,
                self.spec_block_dim(),
            ),
            r is Err ==> exists|k: int|
                first_missing(self.layout(), *args, k) && r->Err_0.missing_name()
                    == #[trigger] self.layout()[k].0,
    {
        let grid = grid_for(num_threads, self.block_dim);
        proof {
            assert forall|i: int| 0 <= i < 3 implies grid[i] as int == #[trigger] ceil_div(
                num_threads[i] as int,
                self.block_dim[i] as int,
            ) by {
                assert(grid@.map_values(|g: u32| g as int)[i] == grid[i] as int);
            }
        }
        self.launch_grid(args, DispatchGrid::Direct(grid))
    }

    /// Builds a 1-D dispatch whose thread count is first clamped to what
    /// `MAX_NUM_WORKGROUPS` thread-groups cover, so that the grid never exceeds that many
    /// groups. The function's block dimensions must be 1 along the second and third axes.
    pub fn launch_capped<R, I, A: ShaderArgs<R>>(&self, args: &A, num_threads: u32) -> (r:
        Result<DispatchCall<R, I>, ShaderArgsError>)
        requires
            self.wf(),
            self.spec_block_dim()[1] == 1,
            self.spec_block_dim()[2] == 1,
        ensures
            r is Ok <==> provides_all(self.layout(), *args),
            r is Ok ==> r->Ok_0.args@ == bound_entries(self.layout(), *args)
                && r->Ok_0.block_dim == self.spec_block_dim() && covers_threads(
                r->Ok_0.grid,
                [spec_capped_threads(num_threads, self.spec_block_dim()[0]) as u32, 1, 1],
                self.spec_block_dim(),
            ) && r->Ok_0.grid->Direct_0[0] <= MAX_NUM_WORKGROUPS,
            r is Err ==> exists|k: int|
                first_missing(self.layout(), *args, k) && r->Err_0.missing_name()
                    == #[trigger] self.layout()[k].0,
    {
        let threads = capped_threads(num_threads, self.block_dim[0]);
        proof {
            crate::grid::lemma_capped_grid_bounded(num_threads, self.block_dim[0]);
        }
        self.launch(args, [threads, 1, 1])
    }

    /// Builds a dispatch whose grid is read, at submission time, from the device buffer
    /// `grid`.
    pub fn launch_indirect<R, I, A: ShaderArgs<R>>(&self, args: &A, grid: I) -> (r: Result<
        DispatchCall<R, I>,
        ShaderArgsError,
    >)
        ensures
            r is Ok <==> provides_all(self.layout(), *args),
            r is Ok ==> r->Ok_0.args@ == bound_entries(self.layout(), *args) && r->Ok_0.grid
                == DispatchGrid::<I>::Indirect(grid) && r->Ok_0.block_dim == self.spec_block_dim(),
            r is Err ==> exists|k: int|
                first_missing(self.layout(), *args, k) && r->Err_0.missing_name()
                    == #[trigger] self.layout()[k].0,
    {
        self.launch_grid(args, DispatchGrid::Indirect(grid))
    }
}

} // verus!
