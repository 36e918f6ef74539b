//! Errors shared by every backend.
use vstd::prelude::*;

verus! {

/// A bundle had nothing to bind under a name that a binding layout asked for.
#[derive(Debug)]
pub enum ShaderArgsError {
    ArgNotFound(String),
}

impl ShaderArgsError {
    /// The argument name that could not be bound.
    pub open spec fn missing_name(&self) -> Seq<char> {
        match self {
            ShaderArgsError::ArgNotFound(name) => name@,
        }
    }

    /// A human-readable description of the error.
    pub fn message(&self) -> (r: String)
        ensures
            r@ == seq!['a', 'r', 'g', 'u', 'm', 'e', 'n', 't', ' ', 'n', 'o', 't', ' ', 'f', 'o', 'u', 'n', 'd', ':', ' '] + self.missing_name(),
    {
        match self {
            ShaderArgsError::ArgNotFound(name) => {
                let mut r = String::from_str("argument not found: ");
                proof {
                    reveal_strlit("argument not found: ");
                }
                r.append(name.as_str());
                r
            },
        }
    }
}

impl PartialEq for ShaderArgsError {
    fn eq(&self, other: &ShaderArgsError) -> (r: bool)
        ensures
            r == (self.missing_name() == other.missing_name()),
    {
        match (self, other) {
            (ShaderArgsError::ArgNotFound(a), ShaderArgsError::ArgNotFound(b)) => a.eq(b),
        }
    }
}

impl vstd::std_specs::cmp::PartialEqSpecImpl for ShaderArgsError {
    open spec fn obeys_eq_spec() -> bool {
        true
    }

    open spec fn eq_spec(&self, other: &ShaderArgsError) -> bool {
        self.missing_name() == other.missing_name()
    }
}

/// The failures a backend operation reports, whatever backend it runs on.
#[derive(Debug)]
pub enum HalError {
    /// A module could not be compiled or loaded.
    CompileOrLoad(String),
    /// A module has no entry point of the requested name.
    FunctionNotFound(String),
    /// An argument bundle did not match a binding layout.
    ArgNotFound(String),
    /// The driver or the queue failed.
    Device(String),
    /// The backend has no way to perform the operation.
    UnsupportedOperation(String),
    /// A self-describing value could not be encoded or decoded.
    Serialization(String),
}

impl From<ShaderArgsError> for HalError {
    fn from(e: ShaderArgsError) -> (r: HalError) {
        match e {
            ShaderArgsError::ArgNotFound(name) => HalError::ArgNotFound(name),
        }
    }
}

impl vstd::std_specs::convert::FromSpecImpl<ShaderArgsError> for HalError {
    open spec fn obeys_from_spec() -> bool {
        true
    }

    open spec fn from_spec(e: ShaderArgsError) -> HalError {
        match e {
            ShaderArgsError::ArgNotFound(name) => HalError::ArgNotFound(name),
        }
    }
}

} // verus!
