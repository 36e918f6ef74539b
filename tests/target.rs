use slang_hal::target::{select_entry_points, target_extension, ShaderTarget};

#[test]
fn extensions_of_targets() {
    assert_eq!(target_extension(ShaderTarget::Wgsl), "wgsl");
    assert_eq!(target_extension(ShaderTarget::Ptx), "ptx");
    assert_eq!(target_extension(ShaderTarget::CudaSource), "cu");
    assert_eq!(target_extension(ShaderTarget::Metal), "metal");
}

#[test]
fn entry_point_selection() {
    let names: Vec<String> = ["init", "step", "init"].iter().map(|s| s.to_string()).collect();
    assert_eq!(select_entry_points(&names, None), vec![0, 1, 2]);
    assert_eq!(select_entry_points(&names, Some("init")), vec![0, 2]);
    assert_eq!(select_entry_points(&names, Some("step")), vec![1]);
    assert_eq!(select_entry_points(&names, Some("missing")), Vec::<usize>::new());
    assert_eq!(select_entry_points(&vec![], None), Vec::<usize>::new());
}
