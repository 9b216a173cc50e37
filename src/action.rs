use vstd::prelude::*;

use crate::animator::{Animator, Data};
use crate::input::{hkey_of, HKey, Input, InputStateExt, Key};
use crate::time::Duration;

verus! {

pub type Direction = HKey;

/// What the player's character is doing.
#[derive(Clone, Copy, Debug, PartialEq, Eq, Structural)]
pub enum Action {
    Idle { animator: Data },
    Walk { direction: Direction, animator: Animator },
    Jump { direction: Option<Direction>, animator: Data },
}

/// `a` advanced by `delta`, as `Animator::animate` does it.
pub open spec fn advanced(a: Animator, delta: Duration) -> Animator {
    Animator {
        data: a.data,
        elapsed: if a.elapsed.nanos + delta.nanos > u64::MAX {
            Duration { nanos: u64::MAX }
        } else {
            Duration { nanos: (a.elapsed.nanos + delta.nanos) as u64 }
        },
    }
}

impl Action {
    pub open spec fn wf(self) -> bool {
        match self {
            Action::Idle { animator } => animator.wf(),
            Action::Walk { animator, .. } => animator.wf(),
            Action::Jump { animator, .. } => animator.wf(),
        }
    }

    /// The configuration of the action's animation, running or not.
    pub open spec fn data(self) -> Data {
        match self {
            Action::Idle { animator } => animator,
            Action::Walk { animator, .. } => animator.data,
            Action::Jump { animator, .. } => animator,
        }
    }

    /// The animation at rest: a walk's clock stops, a resting one is kept.
    pub open spec fn stopped_spec(self) -> Data {
        self.data()
    }

    /// The animation running: a walk's clock goes on by `elapsed`, a resting
    /// one starts from the first frame.
    pub open spec fn running_spec(self, elapsed: Duration) -> Animator {
        match self {
            Action::Walk { animator, .. } => advanced(animator, elapsed),
            _ => Animator { data: self.data(), elapsed: Duration { nanos: 0 } },
        }
    }

    /// The action after one tick in which the jump key was `jump` and the
    /// arrow keys gave `direction`.
    pub open spec fn next_spec(self, jump: bool, direction: Option<Direction>, elapsed: Duration) -> Action {
        if jump {
            Action::Jump { direction, animator: self.stopped_spec() }
        } else {
            match direction {
                None => Action::Idle { animator: self.stopped_spec() },
                Some(d) => Action::Walk { direction: d, animator: self.running_spec(elapsed) },
            }
        }
    }

    /// The action after a tick with `input`: the space bar jumps, the arrow
    /// keys walk.
    pub open spec fn update_spec(self, input: Input, elapsed: Duration) -> Action {
        self.next_spec(input.down.has(Key::Space), hkey_of(input.down.left, input.down.right), elapsed)
    }

    pub fn update(self, input: &Input, elapsed: Duration) -> (r: Action)
        ensures
            r == self.update_spec(*input, elapsed),
            self.wf() ==> r.wf(),
    {
        let jump = input.is_key_down(Key::Space);
        let direction = input.hkey();
        self.step(jump, direction, elapsed)
    }

    /// The transition itself, on the jump flag and the held direction.
    pub fn step(self, jump: bool, direction: Option<Direction>, elapsed: Duration) -> (r: Action)
        ensures
            r == self.next_spec(jump, direction, elapsed),
            self.wf() ==> r.wf(),
    {
        match (jump, direction) {
            (true, direction) => Action::Jump { animator: self.stopped_animator(), direction },
            (false, None) => Action::Idle { animator: self.stopped_animator() },
            (false, Some(direction)) => Action::Walk {
                animator: self.running_animator(elapsed),
                direction,
            },
        }
    }

    fn stopped_animator(self) -> (r: Data)
        ensures
            r == self.stopped_spec(),
    {
        match self {
            Action::Idle { animator } => animator,
            Action::Jump { animator, .. } => animator,
            Action::Walk { animator, .. } => animator.stop(),
        }
    }

    fn running_animator(self, elapsed: Duration) -> (r: Animator)
        ensures
            r == self.running_spec(elapsed),
    {
        match self {
            Action::Idle { animator } => animator.start(),
            Action::Jump { animator, .. } => animator.start(),
            Action::Walk { mut animator, .. } => {
                animator.animate(elapsed);
                animator
            },
        }
    }
}

/// A walk that goes on as a walk keeps its clock: the accumulated time is
/// never reset, only moved forward.
pub proof fn lemma_walk_keeps_phase(a: Action, d: Direction, elapsed: Duration)
    requires
        a is Walk,
    ensures
        a.next_spec(false, Some(d), elapsed) is Walk,
        a.next_spec(false, Some(d), elapsed)->Walk_animator.data == a->Walk_animator.data,
        a.next_spec(false, Some(d), elapsed)->Walk_animator.elapsed.nanos >= a->Walk_animator.elapsed.nanos,
        a->Walk_animator.elapsed.nanos > 0 ==> a.next_spec(false, Some(d), elapsed)->Walk_animator.elapsed.nanos > 0,
        a->Walk_animator.elapsed.nanos + elapsed.nanos <= u64::MAX ==> a.next_spec(
            false,
            Some(d),
            elapsed,
        )->Walk_animator.elapsed.nanos == a->Walk_animator.elapsed.nanos + elapsed.nanos,
{
}

/// However long the walk has run, its clock shows one of the animation's
/// frames: `floor(elapsed / frame_duration) mod frames`, below `frames`.
pub proof fn lemma_running_frame_in_range(a: Action, elapsed: Duration)
    requires
        a.wf(),
    ensures
        a.running_spec(elapsed).wf(),
        a.running_spec(elapsed).data == a.data(),
        a.running_spec(elapsed).frame_spec() == (a.running_spec(elapsed).elapsed.nanos as int
            / a.data().frame_duration.nanos as int) % (a.data().frames as int),
        a.running_spec(elapsed).frame_spec() < a.data().frames,
{
    crate::animator::lemma_frame_in_range(a.running_spec(elapsed));
}

/// A walk that begins from rest or from a jump starts its clock at zero.
pub proof fn lemma_walk_starts_fresh(a: Action, d: Direction, elapsed: Duration)
    requires
        !(a is Walk),
    ensures
        a.next_spec(false, Some(d), elapsed) is Walk,
        a.next_spec(false, Some(d), elapsed)->Walk_animator.elapsed.nanos == 0,
        a.next_spec(false, Some(d), elapsed)->Walk_animator.data == a.data(),
{
}

} // verus!
