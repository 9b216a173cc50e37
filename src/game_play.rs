use vstd::prelude::*;

use crate::asset::{self, Color, Error, FontFace, Helper, Image, Loader};
use crate::data::{Animators, Game};
use crate::hud::{self, Hud};
use crate::input::{Input, Key};
use crate::outcome::Outcome;
use crate::player::{self, Kind, Player};
use crate::time::Duration;

verus! {

/// A round in progress: the countdown and the player.
#[derive(Clone, Copy, Debug, PartialEq, Eq, Structural)]
pub struct Running {
    pub hud: Hud,
    pub player: Player,
}

/// A round whose time has run out, waiting for the player to go on.
#[derive(Clone, Copy, Debug, PartialEq, Eq, Structural)]
pub struct TimeUp {}

#[derive(Clone, Copy, Debug, PartialEq, Eq, Structural)]
pub enum GamePlay {
    Running(Running),
    TimeUp(TimeUp),
}

impl Running {
    pub open spec fn wf(self) -> bool {
        self.player.wf()
    }

    /// A fresh round for the chosen character.
    pub fn new(kind: Kind, animators: &Animators) -> (r: Running)
        ensures
            r.hud.timer.nanos == hud::ROUND_SECS * crate::time::NANOS_PER_SEC,
            r.hud.score == 0,
            r.player.kind == kind,
            r.player.action == (crate::action::Action::Idle { animator: player::animator_of(kind, *animators) }),
            animators.wf() ==> r.wf(),
    {
        Running { hud: Hud::default(), player: Player::new(kind, animators) }
    }

    pub open spec fn update_spec(self, input: Input, elapsed: Duration) -> Outcome<Running, ()> {
        if self.hud.timer.nanos >= elapsed.nanos {
            Outcome::Running(
                Running {
                    hud: Hud {
                        timer: Duration { nanos: (self.hud.timer.nanos - elapsed.nanos) as u64 },
                        score: self.hud.score,
                    },
                    player: Player { kind: self.player.kind, action: self.player.action.update_spec(input, elapsed) },
                },
            )
        } else {
            Outcome::Quit(())
        }
    }

    /// One tick: the player moves, the countdown runs down; the round ends
    /// when the countdown would go below zero.
    pub fn update(self, input: &Input, elapsed: Duration) -> (r: Outcome<Running, ()>)
        ensures
            r == self.update_spec(*input, elapsed),
            (r is Running) <==> self.hud.timer.nanos >= elapsed.nanos,
            r matches Outcome::Running(n) ==> n.player.kind == self.player.kind
                && n.player.action == self.player.action.update_spec(*input, elapsed)
                && n.hud.timer.nanos == self.hud.timer.nanos - elapsed.nanos
                && n.hud.score == self.hud.score,
            self.wf() ==> (r matches Outcome::Running(n) ==> n.wf()),
    {
        let mut player = self.player;
        player.update(input, elapsed);
        match self.hud.update(0, elapsed) {
            Outcome::Running(hud) => Outcome::Running(Running { hud, player }),
            Outcome::Quit(()) => Outcome::Quit(()),
        }
    }
}

impl TimeUp {
    /// Ends when the return key is pressed.
    pub fn update(self, input: &Input) -> (r: Outcome<TimeUp, ()>)
        ensures
            r == (if input.pressed.has(Key::Return) {
                Outcome::<TimeUp, ()>::Quit(())
            } else {
                Outcome::Running(self)
            }),
            (r is Quit) <==> input.pressed.has(Key::Return),
    {
        if input.did_press_key(Key::Return) {
            Outcome::Quit(())
        } else {
            Outcome::Running(self)
        }
    }
}

impl GamePlay {
    pub open spec fn wf(self) -> bool {
        match self {
            GamePlay::Running(r) => r.wf(),
            GamePlay::TimeUp(_) => true,
        }
    }

    /// A fresh round: the full countdown, no score, the character at rest.
    pub open spec fn new_spec(kind: Kind, animators: Animators) -> GamePlay {
        GamePlay::Running(
            Running {
                hud: Hud {
                    timer: Duration { nanos: (hud::ROUND_SECS * crate::time::NANOS_PER_SEC) as u64 },
                    score: 0,
                },
                player: Player {
                    kind,
                    action: crate::action::Action::Idle { animator: player::animator_of(kind, animators) },
                },
            },
        )
    }

    pub fn new(kind: Kind, animators: &Animators) -> (r: GamePlay)
        ensures
            r == GamePlay::new_spec(kind, *animators),
            animators.wf() ==> r.wf(),
    {
        GamePlay::Running(Running::new(kind, animators))
    }

    pub open spec fn update_spec(self, input: Input, elapsed: Duration) -> Outcome<GamePlay, ()> {
        match self {
            GamePlay::Running(run) => match run.update_spec(input, elapsed) {
                Outcome::Running(n) => Outcome::Running(GamePlay::Running(n)),
                Outcome::Quit(_) => Outcome::Running(GamePlay::TimeUp(TimeUp {})),
            },
            GamePlay::TimeUp(t) => if input.pressed.has(Key::Return) {
                Outcome::Quit(())
            } else {
                Outcome::Running(GamePlay::TimeUp(t))
            },
        }
    }

    /// A running round goes on, or turns into its time-up screen when the
    /// countdown expires; the time-up screen ends on the return key.
    pub fn update(self, input: &Input, elapsed: Duration) -> (r: Outcome<GamePlay, ()>)
        ensures
            r == self.update_spec(*input, elapsed),
            self is Running ==> r is Running,
            self matches GamePlay::Running(run) ==> (r == Outcome::<GamePlay, ()>::Running(GamePlay::TimeUp(TimeUp {}))
                <==> run.hud.timer.nanos < elapsed.nanos),
            self is TimeUp ==> ((r is Quit) <==> input.pressed.has(Key::Return)),
            self is TimeUp ==> (r matches Outcome::Running(g) ==> g is TimeUp),
            self.wf() ==> (r matches Outcome::Running(g) ==> g.wf()),
    {
        match self {
            GamePlay::Running(r) => match r.update(input, elapsed) {
                Outcome::Running(r) => Outcome::Running(GamePlay::Running(r)),
                Outcome::Quit(()) => Outcome::Running(GamePlay::TimeUp(TimeUp {})),
            },
            GamePlay::TimeUp(t) => match t.update(input) {
                Outcome::Running(t) => Outcome::Running(GamePlay::TimeUp(t)),
                Outcome::Quit(()) => Outcome::Quit(()),
            },
        }
    }
}

/// What a running round draws: the HUD and the player.
pub struct RunningAssets<T, F> {
    pub hud: hud::Assets<T, F>,
    pub player: player::Assets<T>,
}

/// What the time-up screen draws: the round as it last was, under an alert.
pub struct TimeUpAssets<T, F> {
    pub game: RunningAssets<T, F>,
    pub alert: Image<T>,
    pub instructions: Image<T>,
}

pub enum Assets<T, F> {
    Running(RunningAssets<T, F>),
    TimeUp(TimeUpAssets<T, F>),
}

impl<T, F: FontFace<Texture = T>> RunningAssets<T, F> {
    pub open spec fn follows(self, world: Running) -> bool {
        self.hud.follows(world.hud) && self.player.follows(world.player)
    }

    /// Fresh from `load`: the HUD's texts show its values and the player is
    /// at rest, facing right, at the sizes the game data gives.
    pub open spec fn loaded(self, world: Running, data: Game) -> bool {
        self.hud.follows(world.hud) && self.player.loaded(world.player, data)
    }

    /// Follows the round without loading anything. Where the HUD's texts
    /// already show its values nothing is rendered and nothing can fail.
    pub fn next(self, world: &Running) -> (r: Result<RunningAssets<T, F>, Error>)
        requires
            world.wf(),
        ensures
            self.hud.follows(world.hud) ==> (r matches Ok(a) && a.hud == self.hud),
            r matches Ok(a) ==> a.player == self.player.next_spec(world.player),
            r matches Ok(a) ==> a.follows(*world)
                && a.player.flip == player::next_flip(self.player.flip, world.player.action)
                && a.player.action.pose() == self.player.action.pose()
                && a.player.action.sheet() == self.player.action.sheet(),
    {
        let hud = self.hud.next(&world.hud)?;
        let player = self.player.next(&world.player);
        Ok(RunningAssets { hud, player })
    }

    pub fn load<L: Loader<Texture = T, Font = F>>(world: &Running, helper: &mut Helper<L>) -> (r: Result<
        RunningAssets<T, F>,
        Error,
    >)
        ensures
            final(helper).data == old(helper).data,
            r matches Ok(a) ==> a.loaded(*world, old(helper).data),
    {
        let hud = hud::Assets::load(&world.hud, helper)?;
        let player = player::Assets::load(&world.player, helper)?;
        Ok(RunningAssets { hud, player })
    }
}

impl<T, F: FontFace<Texture = T>> TimeUpAssets<T, F> {
    /// Keeps the round's last visuals and loads the alert over them.
    pub fn load<L: Loader<Texture = T, Font = F>>(helper: &mut Helper<L>, game: RunningAssets<T, F>) -> (r: Result<
        TimeUpAssets<T, F>,
        Error,
    >)
        ensures
            final(helper).data == old(helper).data,
            r matches Ok(a) ==> a.game == game,
    {
        let font = helper.font(asset::Font::KenPixel, 48)?;
        let alert_text = "TIME'S UP";
        let alert = Image {
            texture: (*font).texturize(alert_text, Color(255, 0, 0, 255))?,
            dims: (*font).measure(alert_text)?,
        };
        let instructions_text = "<PRESS ENTER>";
        let instructions = Image {
            texture: (*font).texturize(instructions_text, Color(255, 255, 255, 255))?,
            dims: (*font).measure(instructions_text)?,
        };
        Ok(TimeUpAssets { game, alert, instructions })
    }
}

impl<T, F: FontFace<Texture = T>> Assets<T, F> {
    /// The assets are of the state's variant.
    pub open spec fn same_variant(self, world: GamePlay) -> bool {
        match (self, world) {
            (Assets::Running(_), GamePlay::Running(_)) => true,
            (Assets::TimeUp(_), GamePlay::TimeUp(_)) => true,
            _ => false,
        }
    }

    /// The running round's texts already show its HUD (or the round is
    /// not running): following it in place cannot fail.
    pub open spec fn texts_current(self, world: GamePlay) -> bool {
        match (self, world) {
            (Assets::Running(a), GamePlay::Running(w)) => a.hud.follows(w.hud),
            _ => true,
        }
    }

    /// Follows the state: a running round is followed in place; its end
    /// loads the alert over the round's last visuals; a round that starts
    /// again after its time-up screen is loaded afresh.
    pub fn next<L: Loader<Texture = T, Font = F>>(self, world: &GamePlay, helper: &mut Helper<L>) -> (r: Result<
        Assets<T, F>,
        Error,
    >)
        requires
            world.wf(),
        ensures
            final(helper).data == old(helper).data,
            self.same_variant(*world) ==> *final(helper) == *old(helper),
            r matches Ok(a) ==> a.same_variant(*world),
            self.same_variant(*world) && self.texts_current(*world) ==> r is Ok,
            (self is TimeUp && world is TimeUp) ==> (r matches Ok(Assets::TimeUp(t)) && t == self->TimeUp_0),
            (self is Running && world is Running) ==> (r matches Ok(Assets::Running(a)) ==> a.player
                == self->Running_0.player.next_spec(world->Running_0.player) && a.follows(world->Running_0)),
            (self is Running && world is Running && self.texts_current(*world)) ==> (r matches Ok(
                Assets::Running(a),
            ) && a.hud == self->Running_0.hud),
            (self is TimeUp && world is Running) ==> (r matches Ok(Assets::Running(a)) ==> a.loaded(
                world->Running_0,
                old(helper).data,
            )),
            (self is Running && world is TimeUp) && r is Ok ==> r->Ok_0->TimeUp_0.game == self->Running_0,
            r matches Ok(Assets::Running(a)) ==> a.hud.follows(world->Running_0.hud),
    {
        match *world {
            GamePlay::Running(ref w) => {
                let a = match self {
                    Assets::Running(r) => r.next(w)?,
                    Assets::TimeUp(_) => RunningAssets::load(w, helper)?,
                };
                Ok(Assets::Running(a))
            },
            GamePlay::TimeUp(_) => {
                let a = match self {
                    Assets::TimeUp(t) => t,
                    Assets::Running(r) => TimeUpAssets::load(helper, r)?,
                };
                Ok(Assets::TimeUp(a))
            },
        }
    }

    /// Builds the assets of a running round. A time-up screen has no assets
    /// of its own to start from: it only follows a round's.
    pub fn load<L: Loader<Texture = T, Font = F>>(world: &GamePlay, helper: &mut Helper<L>) -> (r: Result<
        Assets<T, F>,
        Error,
    >)
        ensures
            final(helper).data == old(helper).data,
            r matches Ok(a) ==> a.same_variant(*world),
            world is Running ==> (r matches Ok(Assets::Running(a)) ==> a.loaded(
                world->Running_0,
                old(helper).data,
            )),
            world is TimeUp ==> r matches Err(Error::ConfigurationInconsistency),
            world is TimeUp ==> *final(helper) == *old(helper),
    {
        match *world {
            GamePlay::Running(ref w) => {
                let a = RunningAssets::load(w, helper)?;
                Ok(Assets::Running(a))
            },
            GamePlay::TimeUp(_) => Err(Error::ConfigurationInconsistency),
        }
    }
}

} // verus!
