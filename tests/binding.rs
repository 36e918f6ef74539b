use slang_hal::function::{DispatchCall, ReflectedParam};
use slang_hal::{
    BoundArgs, Buffer, GpuFunction, HalError, NamedArgs, ShaderArgs, ShaderArgsError,
    ShaderBinding,
};

fn param(name: Option<&str>, has_semantic: bool, space: u32, index: u32) -> ReflectedParam {
    ReflectedParam {
        name: name.map(|n| n.to_string()),
        has_semantic,
        binding: ShaderBinding { space, index },
    }
}

fn add_function() -> GpuFunction<()> {
    let params = vec![
        param(Some("a"), false, 0, 0),
        param(Some("thread_id"), true, 0, 0),
        param(None, false, 0, 5),
        param(Some("b"), false, 0, 1),
    ];
    GpuFunction::from_reflection([64, 1, 1], &params, ()).unwrap()
}

#[test]
fn reflection_keeps_caller_parameters_in_order() {
    let f = add_function();
    assert_eq!(f.num_args(), 2);
    assert_eq!(f.block_dim(), [64, 1, 1]);
    let args = NamedArgs::new().with("b", 20u32).with("a", 10u32);
    let mut dispatch = BoundArgs::new();
    assert!(f.bind(&mut dispatch, &args).is_ok());
    assert_eq!(
        dispatch.into_entries(),
        vec![
            (ShaderBinding { space: 0, index: 0 }, 10),
            (ShaderBinding { space: 0, index: 1 }, 20)
        ]
    );
}

#[test]
fn reflection_refuses_empty_block() {
    let r = GpuFunction::from_reflection([64, 0, 1], &vec![], ());
    assert!(matches!(r, Err(HalError::CompileOrLoad(_))));
}

#[test]
fn missing_field_is_named() {
    let f = add_function();
    let args = NamedArgs::new().with("a", 1u32);
    let r: Result<DispatchCall<u32, ()>, ShaderArgsError> = f.launch(&args, [64, 1, 1]);
    match r {
        Err(e) => {
            assert_eq!(e, ShaderArgsError::ArgNotFound("b".to_string()));
            assert_eq!(e.message(), "argument not found: b");
        }
        Ok(_) => panic!("a missing field must fail"),
    }
}

#[test]
fn first_missing_field_is_reported() {
    let f = add_function();
    let args: NamedArgs<u32> = NamedArgs::new().with("c", 1u32);
    let mut dispatch = BoundArgs::new();
    let r = f.bind(&mut dispatch, &args);
    assert_eq!(r, Err(ShaderArgsError::ArgNotFound("a".to_string())));
    assert_eq!(dispatch.len(), 0);
}

#[test]
fn absent_optional_field_is_a_mismatch() {
    let f = add_function();
    let args = NamedArgs::new().with("a", 1u32).with_optional("b", None);
    let mut dispatch = BoundArgs::new();
    let r = f.bind(&mut dispatch, &args);
    assert_eq!(r, Err(ShaderArgsError::ArgNotFound("b".to_string())));
    assert_eq!(dispatch.len(), 1);
}

#[test]
fn first_field_of_a_name_wins() {
    let args = NamedArgs::new().with("a", 1u32).with("a", 2u32);
    let mut dispatch = BoundArgs::new();
    let binding = ShaderBinding { space: 1, index: 3 };
    assert!(args.write_arg(binding, "a", &mut dispatch).is_ok());
    assert_eq!(dispatch.into_entries(), vec![(binding, 1)]);
}

#[test]
fn unit_and_none_bind_nothing() {
    let mut dispatch: BoundArgs<u32> = BoundArgs::new();
    let binding = ShaderBinding { space: 0, index: 0 };
    let r = ShaderArgs::<u32>::write_arg(&(), binding, "x", &mut dispatch);
    assert_eq!(r, Err(ShaderArgsError::ArgNotFound("x".to_string())));
    let none: Option<NamedArgs<u32>> = None;
    assert_eq!(
        none.write_arg(binding, "y", &mut dispatch),
        Err(ShaderArgsError::ArgNotFound("y".to_string()))
    );
    let some = Some(NamedArgs::new().with("y", 4u32));
    assert!(some.write_arg(binding, "y", &mut dispatch).is_ok());
    let borrowed = &some;
    assert!(borrowed.write_arg(binding, "y", &mut dispatch).is_ok());
    assert_eq!(dispatch.into_entries(), vec![(binding, 4), (binding, 4)]);
}

#[test]
fn arg_error_converts_to_hal_error() {
    let e: HalError = ShaderArgsError::ArgNotFound("q".to_string()).into();
    assert!(matches!(e, HalError::ArgNotFound(ref n) if n == "q"));
}

#[test]
fn buffer_slices_bind_under_any_name() {
    let buffer = Buffer::from_data(11u8, 4, 4).unwrap();
    let slice = buffer.slice(1, 3);
    let f = add_function();
    let args = NamedArgs::new().with("a", slice).with("b", buffer.as_slice());
    let call: DispatchCall<_, ()> = f.launch(&args, [4, 1, 1]).unwrap();
    assert_eq!(call.args.len(), 2);
    assert_eq!(call.args[0].1.offset(), 4);
    assert_eq!(call.args[0].1.size(), 8);
    assert_eq!(call.args[1].1.size(), 16);
    let mut dispatch = BoundArgs::new();
    let binding = ShaderBinding { space: 0, index: 2 };
    assert!(slice.write_arg(binding, "anything", &mut dispatch).is_ok());
    assert_eq!(*dispatch.into_entries()[0].1.handle(), 11u8);
}

#[test]
fn whole_buffers_bind_themselves() {
    let buffer = Buffer::from_data(5u8, 3, 8).unwrap();
    let f = add_function();
    let args = NamedArgs::new().with("a", buffer.slice(0, 1)).with("b", buffer.as_slice());
    let call: DispatchCall<_, ()> = f.launch(&args, [1, 1, 1]).unwrap();
    assert_eq!(call.args[1].1.size(), 24);
    let mut dispatch = BoundArgs::new();
    let binding = ShaderBinding { space: 2, index: 1 };
    let whole = &buffer;
    assert!(whole.write_arg(binding, "any", &mut dispatch).is_ok());
    let entries = dispatch.into_entries();
    assert_eq!(entries.len(), 1);
    assert_eq!(entries[0].0, binding);
    assert_eq!(entries[0].1.offset(), 0);
    assert_eq!(entries[0].1.size(), 24);
    assert_eq!(entries[0].1.len(), 3);
}
