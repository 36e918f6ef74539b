//! The argument-binding protocol: values that write themselves into a dispatch under the
//! binding locator that a kernel's layout gives for a name.
use crate::error::ShaderArgsError;
use vstd::prelude::*;

verus! {

/// Where a resource attaches in a compiled program's layout, taken verbatim from
/// reflection.
#[derive(Copy, Clone, PartialEq, Eq, Debug, Structural)]
pub struct ShaderBinding {
    /// Binding space (aka. binding group).
    pub space: u32,
    /// Binding index.
    pub index: u32,
}

/// The arguments accumulated by one dispatch, in the order in which they were written,
/// each with the locator it was bound to.
pub struct BoundArgs<R> {
    entries: Vec<(ShaderBinding, R)>,
}

impl<R> View for BoundArgs<R> {
    type V = Seq<(ShaderBinding, R)>;

    closed spec fn view(&self) -> Seq<(ShaderBinding, R)> {
        self.entries@
    }
}

impl<R> BoundArgs<R> {
    /// A dispatch with nothing bound yet.
    pub fn new() -> (r: BoundArgs<R>)
        ensures
            r@ == Seq::<(ShaderBinding, R)>::empty(),
    {
        BoundArgs { entries: Vec::new() }
    }

    /// Binds `resource` at `binding`.
    pub fn push(&mut self, binding: ShaderBinding, resource: R)
        ensures
            final(self)@ == old(self)@.push((binding, resource)),
    {
        self.entries.push((binding, resource));
    }

    /// The number of bound arguments.
    pub fn len(&self) -> (r: usize)
        ensures
            r == self@.len(),
    {
        self.entries.len()
    }

    /// The bound arguments, in binding order.
    pub fn into_entries(self) -> (r: Vec<(ShaderBinding, R)>)
        ensures
            r@ == self@,
    {
        self.entries
    }
}

/// The error that reports `name` as missing.
pub open spec fn not_found(r: Result<(), ShaderArgsError>, name: Seq<char>) -> bool {
    r is Err && r->Err_0.missing_name() == name
}

/// A value that contributes arguments to a dispatch of resources of type `R`.
pub trait ShaderArgs<R> {
    /// Whether the value has something to bind under `name`.
    spec fn provides(&self, name: Seq<char>) -> bool;

    /// What the value binds under `name`, where it provides it.
    spec fn resource(&self, name: Seq<char>) -> R;

    /// Binds the value's argument for `name` at `binding`, or reports `name` as missing
    /// and leaves the dispatch as it was.
    fn write_arg(&self, binding: ShaderBinding, name: &str, dispatch: &mut BoundArgs<R>) -> (r:
        Result<(), ShaderArgsError>)
        ensures
            self.provides(name@) ==> r is Ok && final(dispatch)@ == old(dispatch)@.push(
                (binding, self.resource(name@)),
            ),
            !self.provides(name@) ==> not_found(r, name@) && final(dispatch)@ == old(dispatch)@,
    ;
}

/// The error for `name`.
fn arg_not_found(name: &str) -> (r: Result<(), ShaderArgsError>)
    ensures
        not_found(r, name@),
{
    Err(ShaderArgsError::ArgNotFound(name.to_owned()))
}

/// The empty bundle: it has nothing to bind.
impl<R> ShaderArgs<R> for () {
    open spec fn provides(&self, name: Seq<char>) -> bool {
        false
    }

    open spec fn resource(&self, name: Seq<char>) -> R {
        arbitrary()
    }

    fn write_arg(&self, binding: ShaderBinding, name: &str, dispatch: &mut BoundArgs<R>) -> (r:
        Result<(), ShaderArgsError>) {
        arg_not_found(name)
    }
}

/// An absent value binds nothing; a present one binds what it holds.
impl<R, T: ShaderArgs<R>> ShaderArgs<R> for Option<T> {
    open spec fn provides(&self, name: Seq<char>) -> bool {
        match self {
            Some(t) => t.provides(name),
            None => false,
        }
    }

    open spec fn resource(&self, name: Seq<char>) -> R {
        match self {
            Some(t) => t.resource(name),
            None => arbitrary(),
        }
    }

    fn write_arg(&self, binding: ShaderBinding, name: &str, dispatch: &mut BoundArgs<R>) -> (r:
        Result<(), ShaderArgsError>) {
        match self {
            Some(t) => t.write_arg(binding, name, dispatch),
            None => arg_not_found(name),
        }
    }
}

/// A borrowed value binds what the value it points to binds.
impl<'b, R, T: ShaderArgs<R>> ShaderArgs<R> for &'b T {
    open spec fn provides(&self, name: Seq<char>) -> bool {
        (**self).provides(name)
    }

    open spec fn resource(&self, name: Seq<char>) -> R {
        (**self).resource(name)
    }

    fn write_arg(&self, binding: ShaderBinding, name: &str, dispatch: &mut BoundArgs<R>) -> (r:
        Result<(), ShaderArgsError>) {
        (**self).write_arg(binding, name, dispatch)
    }
}

/// What the first field named `name` holds: `None` where no field has that name.
pub open spec fn lookup<R>(fields: Seq<(Seq<char>, Option<R>)>, name: Seq<char>) -> Option<
    Option<R>,
>
    decreases fields.len(),
{
    if fields.len() == 0 {
        None
    } else if fields[0].0 == name {
        Some(fields[0].1)
    } else {
        lookup(fields.drop_first(), name)
    }
}

/// A named bundle of heterogeneous arguments: each field is a name and a resource,
/// possibly absent. Binding a name delegates to the first field of that name; a name
/// with no field, or whose field is absent, is a mismatch.
pub struct NamedArgs<R> {
    fields: Vec<(String, Option<R>)>,
}

impl<R> View for NamedArgs<R> {
    type V = Seq<(Seq<char>, Option<R>)>;

    closed spec fn view(&self) -> Seq<(Seq<char>, Option<R>)> {
        self.fields@.map_values(|f: (String, Option<R>)| (f.0@, f.1))
    }
}

impl<R: Copy> NamedArgs<R> {
    /// A bundle without fields.
    pub fn new() -> (r: NamedArgs<R>)
        ensures
            r@ == Seq::<(Seq<char>, Option<R>)>::empty(),
    {
        let r = NamedArgs { fields: Vec::new() };
        assert(r@ =~= Seq::<(Seq<char>, Option<R>)>::empty());
        r
    }

    /// Adds a field named `name` that holds `resource`.
    pub fn with(self, name: &str, resource: R) -> (r: NamedArgs<R>)
        ensures
            r@ == self@.push((name@, Some(resource))),
    {
        self.with_optional(name, Some(resource))
    }

    /// Adds a field named `name` that may hold nothing.
    pub fn with_optional(self, name: &str, resource: Option<R>) -> (r: NamedArgs<R>)
        ensures
            r@ == self@.push((name@, resource)),
    {
        let mut fields = self.fields;
        fields.push((name.to_owned(), resource));
        let r = NamedArgs { fields };
        assert(r@ =~= self@.push((name@, resource)));
        r
    }

    /// The field looked up for `name`, as an index into the fields.
    fn find(&self, name: &str) -> (r: Option<usize>)
        ensures
            match r {
                Some(i) => i < self@.len() && lookup(self@, name@) == Some(self@[i as int].1),
                None => lookup(self@, name@) is None,
            },
    {
        let key = name.to_owned();
        let n = self.fields.len();
        let mut i: usize = 0;
        assert(self@.subrange(0, n as int) =~= self@);
        while i < n
            invariant
                n == self@.len(),
                key@ == name@,
                i <= n,
                lookup(self@, name@) == lookup(self@.subrange(i as int, n as int), name@),
            decreases n - i,
        {
            proof {
                let rest = self@.subrange(i as int, n as int);
                assert(rest[0] == self@[i as int]);
                assert(rest.drop_first() =~= self@.subrange(i as int + 1, n as int));
            }
            if self.fields[i].0.eq(&key) {
                return Some(i);
            }
            i = i + 1;
        }
        None
    }
}

impl<R: Copy> ShaderArgs<R> for NamedArgs<R> {
    open spec fn provides(&self, name: Seq<char>) -> bool {
        lookup(self@, name) matches Some(Some(_))
    }

    open spec fn resource(&self, name: Seq<char>) -> R {
        lookup(self@, name)->Some_0->Some_0
    }

    fn write_arg(&self, binding: ShaderBinding, name: &str, dispatch: &mut BoundArgs<R>) -> (r:
        Result<(), ShaderArgsError>) {
        match self.find(name) {
            Some(i) => match &self.fields[i].1 {
                Some(resource) => {
                    dispatch.push(binding, *resource);
                    Ok(())
                },
                None => arg_not_found(name),
            },
            None => arg_not_found(name),
        }
    }
}

} // verus!
