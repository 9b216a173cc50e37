use vstd::prelude::*;

verus! {

/// One line of the high-score table.
#[derive(Clone, Debug)]
pub struct Score {
    pub points: u32,
    pub name: String,
}

} // verus!
