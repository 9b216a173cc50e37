use vstd::prelude::*;

verus! {

/// What a state machine's `update` hands back: the next state, or the signal
/// that ends it.
#[derive(Clone, Copy, Debug, PartialEq, Eq)]
pub enum Outcome<W, Q> {
    Running(W),
    Quit(Q),
}

impl<W, Q> Outcome<W, Q> {
    pub fn is_running(&self) -> (r: bool)
        ensures
            r == (self is Running),
    {
        match self {
            Outcome::Running(_) => true,
            Outcome::Quit(_) => false,
        }
    }

    pub fn is_quit(&self) -> (r: bool)
        ensures
            r == (self is Quit),
    {
        match self {
            Outcome::Running(_) => false,
            Outcome::Quit(_) => true,
        }
    }
}

} // verus!
