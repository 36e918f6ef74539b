use slang_hal::dispatch::{plan_pass_dispatch, plan_stream_launch};
use slang_hal::function::{DispatchCall, ReflectedParam};
use slang_hal::grid::{
    capped_threads, div_ceil_u32, grid_for, grid_work, stream_grid_work, DispatchGrid, GridWork,
    MAX_NUM_WORKGROUPS,
};
use slang_hal::{GpuFunction, HalError, NamedArgs, ShaderBinding};

fn function_with_block(block_dim: [u32; 3]) -> GpuFunction<&'static str> {
    let params = vec![ReflectedParam {
        name: Some("a".to_string()),
        has_semantic: false,
        binding: ShaderBinding { space: 0, index: 0 },
    }];
    GpuFunction::from_reflection(block_dim, &params, "main").unwrap()
}

fn bundle() -> NamedArgs<u32> {
    NamedArgs::new().with("a", 7)
}

#[test]
fn launch_rounds_up_to_whole_groups() {
    let f = function_with_block([256, 1, 1]);
    let call: DispatchCall<u32, ()> = f.launch(&bundle(), [10000, 1, 1]).unwrap();
    match call.grid {
        DispatchGrid::Direct(g) => assert_eq!(g, [40, 1, 1]),
        DispatchGrid::Indirect(_) => panic!("expected a direct grid"),
    }
    assert_eq!(call.block_dim, [256, 1, 1]);
    assert!(39 * 256 < 10000 && 10000 <= 40 * 256);
}

#[test]
fn grid_for_each_axis() {
    assert_eq!(grid_for([10000, 1, 1], [256, 1, 1]), [40, 1, 1]);
    assert_eq!(grid_for([0, 5, 64], [8, 4, 64]), [0, 2, 1]);
    assert_eq!(grid_for([u32::MAX, 1, 1], [1, 1, 1]), [u32::MAX, 1, 1]);
    assert_eq!(grid_for([u32::MAX, 1, 1], [2, 1, 1]), [2147483648, 1, 1]);
}

#[test]
fn div_ceil_exact_and_inexact() {
    assert_eq!(div_ceil_u32(9984, 256), 39);
    assert_eq!(div_ceil_u32(9985, 256), 40);
    assert_eq!(div_ceil_u32(0, 3), 0);
    assert_eq!(div_ceil_u32(1, 3), 1);
}

#[test]
fn capped_launch_never_exceeds_group_limit() {
    let f = function_with_block([64, 1, 1]);
    for threads in [0u32, 1, 64, 65535 * 64, 65535 * 64 + 1, u32::MAX] {
        let call: DispatchCall<u32, ()> = f.launch_capped(&bundle(), threads).unwrap();
        match call.grid {
            DispatchGrid::Direct(g) => {
                assert!(g[0] <= MAX_NUM_WORKGROUPS);
                assert_eq!([g[1], g[2]], [1, 1]);
            }
            DispatchGrid::Indirect(_) => panic!("expected a direct grid"),
        }
    }
    let call: DispatchCall<u32, ()> = f.launch_capped(&bundle(), u32::MAX).unwrap();
    assert!(matches!(call.grid, DispatchGrid::Direct([65535, 1, 1])));
    let call: DispatchCall<u32, ()> = f.launch_capped(&bundle(), 1000).unwrap();
    assert!(matches!(call.grid, DispatchGrid::Direct([16, 1, 1])));
}

#[test]
fn capped_threads_clamps() {
    assert_eq!(capped_threads(10, 256), 10);
    assert_eq!(capped_threads(u32::MAX, 256), 65535 * 256);
    assert_eq!(capped_threads(u32::MAX, 1), 65535);
    assert_eq!(capped_threads(u32::MAX, 70000), u32::MAX);
}

#[test]
fn zero_axis_grid_does_no_work() {
    assert!(matches!(grid_work::<()>(DispatchGrid::Direct([0, 1, 1])), GridWork::Skip));
    assert!(matches!(grid_work::<()>(DispatchGrid::Direct([4, 0, 1])), GridWork::Skip));
    assert!(matches!(grid_work::<()>(DispatchGrid::Direct([4, 2, 0])), GridWork::Skip));
    assert!(matches!(
        grid_work::<()>(DispatchGrid::Direct([4, 2, 1])),
        GridWork::Workgroups([4, 2, 1])
    ));
    assert!(matches!(grid_work(DispatchGrid::Indirect(9u8)), GridWork::Indirect(9)));
}

#[test]
fn zero_axis_launch_succeeds_on_both_backends() {
    let f = function_with_block([32, 1, 1]);
    let call: DispatchCall<u32, ()> = f.launch(&bundle(), [0, 1, 1]).unwrap();
    let pass = plan_pass_dispatch(call);
    assert!(matches!(pass.work, GridWork::Skip));
    assert_eq!(pass.groups.len(), 1);
    assert_eq!(pass.groups[0].space, 0);
    assert_eq!(pass.groups[0].entries, vec![(0, 7)]);
    let call: DispatchCall<u32, ()> = f.launch(&bundle(), [0, 1, 1]).unwrap();
    assert!(matches!(plan_stream_launch(call), Ok(None)));
}

#[test]
fn stream_launch_carries_grid_and_block() {
    let f = function_with_block([32, 2, 1]);
    let call: DispatchCall<u32, ()> = f.launch(&bundle(), [100, 3, 1]).unwrap();
    let launch = plan_stream_launch(call).unwrap().unwrap();
    assert_eq!(launch.grid_dim, [4, 2, 1]);
    assert_eq!(launch.block_dim, [32, 2, 1]);
    assert_eq!(launch.args, vec![7]);
}

#[test]
fn stream_backend_rejects_indirect_grid() {
    let f = function_with_block([32, 1, 1]);
    let call: DispatchCall<u32, u8> = f.launch_indirect(&bundle(), 3u8).unwrap();
    assert!(matches!(call.grid, DispatchGrid::Indirect(3)));
    assert!(matches!(
        plan_stream_launch(call),
        Err(HalError::UnsupportedOperation(_))
    ));
    assert!(matches!(
        stream_grid_work(DispatchGrid::Indirect(1u8)),
        Err(HalError::UnsupportedOperation(_))
    ));
}

#[test]
fn pass_dispatch_keeps_indirect_grid() {
    let f = function_with_block([32, 1, 1]);
    let call: DispatchCall<u32, u8> = f.launch_indirect(&bundle(), 5u8).unwrap();
    let pass = plan_pass_dispatch(call);
    assert!(matches!(pass.work, GridWork::Indirect(5)));
}

#[test]
fn grid_from_conversions() {
    let g: DispatchGrid<()> = DispatchGrid::from(12u32);
    assert!(matches!(g, DispatchGrid::Direct([12, 1, 1])));
    let g: DispatchGrid<()> = DispatchGrid::from([1u32, 2, 3]);
    assert!(matches!(g, DispatchGrid::Direct([1, 2, 3])));
}

#[test]
fn pass_dispatch_groups_by_binding_space() {
    let b = |space: u32, index: u32| ShaderBinding { space, index };
    let call: DispatchCall<char, ()> = DispatchCall {
        args: vec![(b(1, 0), 'a'), (b(0, 2), 'b'), (b(1, 3), 'c'), (b(2, 0), 'd'), (b(0, 0), 'e')],
        grid: DispatchGrid::Direct([1, 1, 1]),
        block_dim: [1, 1, 1],
    };
    let pass = plan_pass_dispatch(call);
    let spaces: Vec<u32> = pass.groups.iter().map(|g| g.space).collect();
    assert_eq!(spaces, vec![1, 0, 2]);
    assert_eq!(pass.groups[0].entries, vec![(0, 'a'), (3, 'c')]);
    assert_eq!(pass.groups[1].entries, vec![(2, 'b'), (0, 'e')]);
    assert_eq!(pass.groups[2].entries, vec![(0, 'd')]);
    assert!(matches!(pass.work, GridWork::Workgroups([1, 1, 1])));
}

#[test]
fn pass_dispatch_without_arguments_has_no_group() {
    let call: DispatchCall<char, ()> = DispatchCall {
        args: vec![],
        grid: DispatchGrid::Direct([2, 1, 1]),
        block_dim: [1, 1, 1],
    };
    assert!(plan_pass_dispatch(call).groups.is_empty());
}
