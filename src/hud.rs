use vstd::prelude::*;

use crate::asset::{self, Error, FontFace, Helper, Loader};
use crate::outcome::Outcome;
use crate::text::{Cached, Pattern, Text};
use crate::time::Duration;

verus! {

/// Seconds a round lasts.
pub const ROUND_SECS: u64 = 100;

/// The countdown and the score shown during play.
#[derive(Clone, Copy, Debug, PartialEq, Eq, Structural)]
pub struct Hud {
    pub timer: Duration,
    pub score: u32,
}

/// The score after adding `scored` to `score`, held at zero from below.
pub open spec fn scored_spec(score: u32, scored: i32) -> int {
    if score + scored < 0 {
        0
    } else {
        score + scored
    }
}

impl Hud {
    pub fn new(timer: Duration, score: u32) -> (r: Hud)
        ensures
            r.timer == timer,
            r.score == score,
    {
        Hud { timer, score }
    }

    pub fn timer(&self) -> (r: Duration)
        ensures
            r == self.timer,
    {
        self.timer
    }

    /// One tick: the score moves by `scored` (never below zero) and the
    /// timer runs down by `elapsed`. Where the timer would go below zero the
    /// round is over.
    pub fn update(self, scored: i32, elapsed: Duration) -> (r: Outcome<Hud, ()>)
        requires
            self.score + scored <= u32::MAX,
        ensures
            self.timer.nanos >= elapsed.nanos <==> r is Running,
            r matches Outcome::Running(h) ==> h.timer.nanos == self.timer.nanos - elapsed.nanos
                && h.score == scored_spec(self.score, scored),
    {
        let score: u32 = if scored >= 0 {
            self.score + scored as u32
        } else {
            let loss: i64 = -(scored as i64);
            if (self.score as i64) < loss {
                0
            } else {
                (self.score as i64 - loss) as u32
            }
        };
        match self.timer.checked_sub(elapsed) {
            Some(timer) => Outcome::Running(Hud { timer, score }),
            None => Outcome::Quit(()),
        }
    }
}

impl Default for Hud {
    fn default() -> (r: Hud)
        ensures
            r.timer.nanos == ROUND_SECS * crate::time::NANOS_PER_SEC,
            r.score == 0,
    {
        Hud { timer: Duration::from_secs(ROUND_SECS), score: 0 }
    }
}

} // verus!

verus! {

/// The countdown and score texts.
pub struct Assets<T, F> {
    pub timer: Text<T, F, Duration>,
    pub score: Text<T, F, u32>,
}

pub open spec fn timer_pattern_spec() -> Pattern {
    Pattern { prefix: "Time: ", width: 3 }
}

pub open spec fn score_pattern_spec() -> Pattern {
    Pattern { prefix: "Score: ", width: 5 }
}

pub fn timer_pattern() -> (r: Pattern)
    ensures
        r == timer_pattern_spec(),
        r.prefix@ == "Time: "@,
        r.width == 3,
{
    proof {
        reveal_strlit("Time: ");
    }
    Pattern { prefix: "Time: ", width: 3 }
}

pub fn score_pattern() -> (r: Pattern)
    ensures
        r == score_pattern_spec(),
        r.prefix@ == "Score: "@,
        r.width == 5,
{
    proof {
        reveal_strlit("Score: ");
    }
    Pattern { prefix: "Score: ", width: 5 }
}

impl<T, F: FontFace<Texture = T>> Assets<T, F> {
    /// The texts show the HUD's values.
    pub open spec fn follows(self, hud: Hud) -> bool {
        self.timer.value.cached_spec() == hud.timer.cached_spec()
            && self.score.value.cached_spec() == hud.score.cached_spec()
    }

    /// Follows the HUD, rendering again only the texts whose shown value
    /// changed; where neither changed nothing is rendered and the texts are
    /// kept as they are.
    pub fn next(self, hud: &Hud) -> (r: Result<Assets<T, F>, Error>)
        ensures
            r matches Ok(a) ==> a.follows(*hud) && a.timer.font == self.timer.font && a.score.font == self.score.font
                && a.timer.pattern == self.timer.pattern && a.score.pattern == self.score.pattern,
            self.follows(*hud) ==> (r matches Ok(a) && a == self),
    {
        let mut assets = self;
        assets.timer.update(hud.timer)?;
        assets.score.update(hud.score)?;
        Ok(assets)
    }

    pub fn load<L: Loader<Texture = T, Font = F>>(hud: &Hud, helper: &mut Helper<L>) -> (r: Result<
        Assets<T, F>,
        Error,
    >)
        ensures
            final(helper).data == old(helper).data,
            r matches Ok(a) ==> a.follows(*hud)
                && a.timer.pattern == timer_pattern_spec() && a.score.pattern == score_pattern_spec(),
    {
        let font = helper.font(asset::Font::KenPixel, 32)?;
        let timer = Text::load(hud.timer, font.clone(), timer_pattern())?;
        let score = Text::load(hud.score, font, score_pattern())?;
        Ok(Assets { timer, score })
    }
}

} // verus!
