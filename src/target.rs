//! Compilation targets of the backends, and which entry points of a module a compiled
//! program keeps.
use vstd::prelude::*;

verus! {

/// The code that a backend loads.
#[derive(Copy, Clone, PartialEq, Eq, Debug, Structural)]
pub enum ShaderTarget {
    /// WGSL text, loaded by the command-buffer-style backend.
    Wgsl,
    /// PTX assembly, loaded by the stream-style backend.
    Ptx,
    /// CUDA C++ source.
    CudaSource,
    /// Metal shading language source.
    Metal,
}

/// The file extension of code compiled for `target`.
pub open spec fn spec_extension(target: ShaderTarget) -> Seq<char> {
    match target {
        ShaderTarget::Wgsl => "wgsl"@,
        ShaderTarget::Ptx => "ptx"@,
        ShaderTarget::CudaSource => "cu"@,
        ShaderTarget::Metal => "metal"@,
    }
}

/// The file extension of code compiled for `target`.
pub fn target_extension(target: ShaderTarget) -> (r: &'static str)
    ensures
        r@ == spec_extension(target),
{
    match target {
        ShaderTarget::Wgsl => "wgsl",
        ShaderTarget::Ptx => "ptx",
        ShaderTarget::CudaSource => "cu",
        ShaderTarget::Metal => "metal",
    }
}

/// Whether a compiled program keeps the entry point named `name`: every entry point
/// where none is requested, else only the requested one.
pub open spec fn keeps(wanted: Option<Seq<char>>, name: Seq<char>) -> bool {
    wanted is None || wanted == Some(name)
}

/// The positions, in order, of the entry points that a program keeps.
pub open spec fn kept_positions(names: Seq<Seq<char>>, wanted: Option<Seq<char>>) -> Seq<usize>
    decreases names.len(),
{
    if names.len() == 0 {
        Seq::empty()
    } else {
        let rest = kept_positions(names.drop_last(), wanted);
        if keeps(wanted, names.last()) {
            rest.push((names.len() - 1) as usize)
        } else {
            rest
        }
    }
}

/// Selects the entry points that a program built from a module keeps, given their names
/// in module order: their positions, in order.
pub fn select_entry_points(names: &Vec<String>, wanted: Option<&str>) -> (r: Vec<usize>)
    ensures
        r@ == kept_positions(
            names@.map_values(|n: String| n@),
            match wanted {
                Some(w) => Some(w@),
                None => None,
            },
        ),
{
    let ghost all = names@.map_values(|n: String| n@);
    let ghost w = match wanted {
        Some(w) => Some(w@),
        None => None::<Seq<char>>,
    };
    let wanted_owned: Option<String> = match wanted {
        Some(s) => Some(s.to_owned()),
        None => None,
    };
    let mut r: Vec<usize> = Vec::new();
    let mut i: usize = 0;
    while i < names.len()
        invariant
            i <= names@.len(),
            all == names@.map_values(|n: String| n@),
            w == match wanted_owned {
                Some(s) => Some(s@),
                None => None::<Seq<char>>,
            },
            r@ == kept_positions(all.take(i as int), w),
        decreases names@.len() - i,
    {
        assert(all.take(i as int + 1).drop_last() =~= all.take(i as int));
        assert(all.take(i as int + 1).last() == names@[i as int]@);
        let keep = match &wanted_owned {
            Some(s) => names[i].eq(s),
            None => true,
        };
        if keep {
            r.push(i);
        }
        i = i + 1;
    }
    assert(all.take(names@.len() as int) =~= all);
    r
}

} // verus!
