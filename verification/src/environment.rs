//! The bare modeling mode marker of the alternate application lineage:
//! it carries no state of its own; its toolbar and window-event hooks
//! live with the windowing shell.

use vstd::prelude::*;

verus! {

#[derive(Clone, Copy, Debug)]
pub struct Modeling {}

impl Modeling {
    pub fn new() -> (r: Modeling)
        ensures
            r == (Modeling {  }),
    {
        Modeling {  }
    }
}

} // verus!
