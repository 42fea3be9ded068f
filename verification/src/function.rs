//! Owned handles to callable function objects held by the core.

use vstd::prelude::*;

verus! {

/// An owned reference to a function object held by the core.
#[derive(Debug)]
pub struct Function {
    id: u64,
}

impl View for Function {
    type V = int;

    closed spec fn view(&self) -> int {
        self.id as int
    }
}

impl Function {
    /// The id of the function object this handle names.
    pub fn id(&self) -> (r: u64)
        ensures
            r == self@,
    {
        self.id
    }

    pub(crate) fn from_id(id: u64) -> (r: Function)
        ensures
            r@ == id,
    {
        Function { id }
    }
}

} // verus!
