//! Fresh variable names for generated guard code.
use vstd::prelude::*;
use crate::text::{decimal, push_decimal};

verus! {

/// A counter of the variables in scope, and whether guards check only the
/// first element of a sequence.
pub struct Typescript {
    only_first: bool,
    var: usize,
}

impl Typescript {
    pub closed spec fn depth(&self) -> nat {
        self.var as nat
    }

    pub closed spec fn first(&self) -> bool {
        self.only_first
    }

    /// Whether guards check only the first element of a sequence.
    pub fn only_first(&self) -> (r: bool)
        ensures
            r == self.first(),
    {
        self.only_first
    }

    pub fn new() -> (r: Typescript)
        ensures
            r.depth() == 0,
            !r.first(),
    {
        Typescript { only_first: false, var: 0 }
    }

    /// Opens a scope and names its variable: `val1`, `val2`, ...
    pub fn pushvar(&mut self) -> (r: String)
        requires
            old(self).depth() < usize::MAX,
        ensures
            final(self).depth() == old(self).depth() + 1,
            final(self).first() == old(self).first(),
            r@ == "val"@ + decimal(final(self).depth()),
    {
        self.var = self.var + 1;
        let mut r = String::from_str("val");
        push_decimal(&mut r, self.var);
        r
    }

    /// Closes the innermost scope.
    pub fn popvar(&mut self)
        ensures
            final(self).depth() == if old(self).depth() > 0 {
                (old(self).depth() - 1) as nat
            } else {
                0
            },
            final(self).first() == old(self).first(),
    {
        if self.var > 0 {
            self.var = self.var - 1;
        }
    }
}

} // verus!
