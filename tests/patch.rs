use slang_hal::patch::{SourcePatches, TextPatch};

#[test]
fn fixed_rewrite_removes_half_precision() {
    let patches = SourcePatches::new();
    assert_eq!(patches.len(), 0);
    let src = "enable f16;\nvar<private> x: f16 = f16(1.0);\n";
    assert_eq!(patches.apply(src), "\nvar<private> x: f32 = f32(1.0);\n");
    assert_eq!(patches.apply("fn main() {}"), "fn main() {}");
}

#[test]
fn patches_apply_in_list_order() {
    let mut patches = SourcePatches::new();
    patches.push(TextPatch::new("x+", "y").unwrap());
    patches.push(TextPatch::new("y", "z").unwrap());
    assert_eq!(patches.len(), 2);
    assert_eq!(patches.apply("axxb x"), "azb z");
}

#[test]
fn patch_expands_capture_groups() {
    let p = TextPatch::new(r"(\w+)\[(\d+)\]", "$1.at($2)").unwrap();
    assert_eq!(p.apply("a[3] + bb[10]"), "a.at(3) + bb.at(10)");
}

#[test]
fn invalid_pattern_is_refused() {
    assert!(TextPatch::new("(", "x").is_none());
    assert!(TextPatch::new("a{2,1}", "x").is_none());
    assert!(TextPatch::new("", "x").is_some());
}
