//! The compiler's ambient type state: what the type checker statically
//! knows while deriving type descriptors. Expression nodes read it and
//! never mutate it.

use vstd::prelude::*;
use crate::kind::KindSet;

verus! {

/// Compile-time state handed to `type_def`: the kinds the external
/// target (the record a query expression reads) may hold.
#[derive(Clone, Copy, Debug, PartialEq, Eq, Structural)]
pub struct Compiler {
    pub target: KindSet,
}

impl Compiler {
    pub fn new(target: KindSet) -> (r: Compiler)
        ensures
            r == (Compiler { target }),
    {
        Compiler { target }
    }
}

} // verus!
