//! The one recoverable error of the library.
use vstd::prelude::*;

verus! {

/// Narrowing a type-erased value to the wrong concrete type: holds the name
/// of the requested type, then the name of the type actually held.
#[derive(Debug, Clone, Copy, PartialEq, Eq)]
pub struct TypeMismatch(pub &'static str, pub &'static str);

impl TypeMismatch {
    /// The name of the requested type.
    pub fn expected(&self) -> (r: &'static str)
        ensures
            r == self.0,
    {
        self.0
    }

    /// The name of the type actually held.
    pub fn actual(&self) -> (r: &'static str)
        ensures
            r == self.1,
    {
        self.1
    }
}

} // verus!
