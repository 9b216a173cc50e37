use vstd::prelude::*;

use crate::asset::{Error, FontFace, Helper, Loader};
use crate::data::Game;
use crate::game_play::{self, GamePlay};
use crate::high_score::{self, HighScore};
use crate::input::{Input, Key};
use crate::menu::{self, Menu};
use crate::outcome::Outcome;
use crate::player_select::{self, PlayerKind, PlayerSelect};
use crate::time::Duration;

verus! {

/// The signal a screen ends with.
#[derive(Clone, Copy, Debug, PartialEq, Eq, Structural)]
pub enum Quit {
    Menu(menu::Kind),
    HighScore,
    PlayerSelect(PlayerKind),
    GamePlay,
}

/// Where the player is.
#[derive(Clone, Copy, Debug, PartialEq, Eq, Structural)]
pub enum Screen {
    Menu(Menu),
    HighScore(HighScore),
    PlayerSelect(PlayerSelect),
    GamePlay(GamePlay),
}

impl Screen {
    pub open spec fn wf(self) -> bool {
        match self {
            Screen::PlayerSelect(ps) => ps.wf(),
            Screen::GamePlay(gp) => gp.wf(),
            _ => true,
        }
    }

    /// The game starts at the main menu.
    pub fn new() -> (r: Screen)
        ensures
            r == Screen::Menu(Menu { gui: menu::Gui { selected: menu::Kind::NewGame } }),
            r.wf(),
    {
        Screen::Menu(Menu::default())
    }

    pub open spec fn update_spec(self, input: Input, elapsed: Duration) -> Outcome<Screen, Quit> {
        match self {
            Screen::Menu(m) => match m.update_spec(input) {
                Outcome::Running(m) => Outcome::Running(Screen::Menu(m)),
                Outcome::Quit(k) => Outcome::Quit(Quit::Menu(k)),
            },
            Screen::HighScore(hs) => if input.pressed.has(Key::Return) {
                Outcome::Quit(Quit::HighScore)
            } else {
                Outcome::Running(Screen::HighScore(hs))
            },
            Screen::PlayerSelect(ps) => match ps.update_spec(input, elapsed) {
                Outcome::Running(ps) => Outcome::Running(Screen::PlayerSelect(ps)),
                Outcome::Quit(k) => Outcome::Quit(Quit::PlayerSelect(k)),
            },
            Screen::GamePlay(gp) => match gp.update_spec(input, elapsed) {
                Outcome::Running(gp) => Outcome::Running(Screen::GamePlay(gp)),
                Outcome::Quit(_) => Outcome::Quit(Quit::GamePlay),
            },
        }
    }

    /// Hands the tick to the active screen; its end becomes this machine's
    /// quit signal.
    pub fn update(self, input: &Input, elapsed: Duration) -> (r: Outcome<Screen, Quit>)
        ensures
            r == self.update_spec(*input, elapsed),
            self.wf() ==> (r matches Outcome::Running(s) ==> s.wf()),
    {
        match self {
            Screen::Menu(m) => match m.update(input) {
                Outcome::Running(m) => Outcome::Running(Screen::Menu(m)),
                Outcome::Quit(k) => Outcome::Quit(Quit::Menu(k)),
            },
            Screen::HighScore(hs) => match hs.update(input) {
                Outcome::Running(hs) => Outcome::Running(Screen::HighScore(hs)),
                Outcome::Quit(()) => Outcome::Quit(Quit::HighScore),
            },
            Screen::PlayerSelect(ps) => match ps.update(input, elapsed) {
                Outcome::Running(ps) => Outcome::Running(Screen::PlayerSelect(ps)),
                Outcome::Quit(k) => Outcome::Quit(Quit::PlayerSelect(k)),
            },
            Screen::GamePlay(gp) => match gp.update(input, elapsed) {
                Outcome::Running(gp) => Outcome::Running(Screen::GamePlay(gp)),
                Outcome::Quit(()) => Outcome::Quit(Quit::GamePlay),
            },
        }
    }
}

/// What each screen draws: one variant per screen.
pub enum Assets<T, F> {
    Menu(menu::Assets<T>),
    HighScore(high_score::Assets<T>),
    PlayerSelect(player_select::Assets<T>),
    GamePlay(game_play::Assets<T, F>),
}

impl<T, F: FontFace<Texture = T>> Assets<T, F> {
    /// The assets have the screen's shape: the same variant, and within
    /// play the same stage of the round.
    pub open spec fn same_variant(self, screen: Screen) -> bool {
        match (self, screen) {
            (Assets::Menu(_), Screen::Menu(_)) => true,
            (Assets::HighScore(_), Screen::HighScore(_)) => true,
            (Assets::PlayerSelect(_), Screen::PlayerSelect(_)) => true,
            (Assets::GamePlay(a), Screen::GamePlay(g)) => a.same_variant(g),
            _ => false,
        }
    }

    /// Assets that share the screen's shape show its current values.
    pub open spec fn follows(self, screen: Screen) -> bool {
        match (self, screen) {
            (Assets::Menu(a), Screen::Menu(m)) => a.follows(m),
            (Assets::PlayerSelect(a), Screen::PlayerSelect(ps)) => a.follows(ps),
            (Assets::GamePlay(game_play::Assets::Running(a)), Screen::GamePlay(GamePlay::Running(r))) => a.follows(r),
            _ => true,
        }
    }

    /// Within a running round, the HUD's texts already show its values; on
    /// every other screen this holds. Following such a screen in place
    /// renders nothing and cannot fail.
    pub open spec fn texts_current(self, screen: Screen) -> bool {
        match (self, screen) {
            (Assets::GamePlay(a), Screen::GamePlay(g)) => a.texts_current(g),
            _ => true,
        }
    }

    /// What a cold `load` yields for `screen`: the menu shows its selection;
    /// the character picker starts with both characters standing and the
    /// guide at its first frames; a round starts with its HUD shown and the
    /// player at rest, facing right.
    pub open spec fn loaded(self, screen: Screen, data: Game) -> bool {
        match (self, screen) {
            (Assets::Menu(a), Screen::Menu(m)) => a.follows(m),
            (Assets::HighScore(_), Screen::HighScore(_)) => true,
            (Assets::PlayerSelect(a), Screen::PlayerSelect(_)) => a.loaded(),
            (
                Assets::GamePlay(game_play::Assets::Running(a)),
                Screen::GamePlay(GamePlay::Running(r)),
            ) => a.loaded(r, data),
            _ => false,
        }
    }

    /// What following a screen of the same variant keeps: the high-score
    /// table as it is, the menu with only its selection moved, the picker
    /// with its sprites moved to their frames.
    pub open spec fn kept(self, screen: Screen) -> Assets<T, F> {
        match (self, screen) {
            (Assets::Menu(a), Screen::Menu(m)) => Assets::Menu(a.next_spec(m)),
            (Assets::PlayerSelect(a), Screen::PlayerSelect(ps)) => Assets::PlayerSelect(a.next_spec(ps)),
            _ => self,
        }
    }

    /// Builds a screen's assets from scratch.
    pub fn load<L: Loader<Texture = T, Font = F>>(screen: &Screen, helper: &mut Helper<L>) -> (r: Result<
        Assets<T, F>,
        Error,
    >) where T: Clone
        ensures
            final(helper).data == old(helper).data,
            r matches Ok(a) ==> a.same_variant(*screen) && a.loaded(*screen, old(helper).data),
            screen matches Screen::GamePlay(GamePlay::TimeUp(_)) ==> r matches Err(Error::ConfigurationInconsistency),
    {
        match *screen {
            Screen::Menu(ref m) => {
                let a = menu::Assets::load(m, helper)?;
                Ok(Assets::Menu(a))
            },
            Screen::HighScore(_) => {
                let a = high_score::Assets::load(helper)?;
                Ok(Assets::HighScore(a))
            },
            Screen::PlayerSelect(_) => {
                let a = player_select::Assets::load(helper)?;
                Ok(Assets::PlayerSelect(a))
            },
            Screen::GamePlay(ref gp) => {
                let a = game_play::Assets::load(gp, helper)?;
                Ok(Assets::GamePlay(a))
            },
        }
    }

    /// Brings the assets in line with the screen. Where the screen kept its
    /// variant they follow it in place and nothing is loaded; otherwise they
    /// are built again from scratch (the end of a round keeps the round's last
    /// visuals under its alert).
    pub fn next<L: Loader<Texture = T, Font = F>>(self, screen: &Screen, helper: &mut Helper<L>) -> (r: Result<
        Assets<T, F>,
        Error,
    >) where T: Clone
        requires
            screen.wf(),
        ensures
            final(helper).data == old(helper).data,
            r matches Ok(a) ==> a.same_variant(*screen),
            self.same_variant(*screen) ==> *final(helper) == *old(helper),
            self.same_variant(*screen) ==> (r matches Ok(a) ==> a.follows(*screen)),
            self.same_variant(*screen) && self.texts_current(*screen) ==> r is Ok,
            self.same_variant(*screen) && !(screen is GamePlay) ==> r == Ok::<Assets<T, F>, Error>(
                self.kept(*screen),
            ),
            (self matches Assets::GamePlay(game_play::Assets::TimeUp(_)) && screen matches Screen::GamePlay(
                GamePlay::TimeUp(_),
            )) ==> r == Ok::<Assets<T, F>, Error>(self),
            (self matches Assets::GamePlay(game_play::Assets::Running(_)) && screen matches Screen::GamePlay(
                GamePlay::Running(_),
            )) ==> (r matches Ok(Assets::GamePlay(game_play::Assets::Running(b))) ==> b.player
                == self->GamePlay_0->Running_0.player.next_spec(screen->GamePlay_0->Running_0.player)),
            !(self is GamePlay && screen is GamePlay) && !self.same_variant(*screen) ==> (r matches Ok(a)
                ==> a.loaded(*screen, old(helper).data)),
            (self matches Assets::GamePlay(game_play::Assets::TimeUp(_)) && screen matches Screen::GamePlay(
                GamePlay::Running(_),
            )) ==> (r matches Ok(a) ==> a.loaded(*screen, old(helper).data)),
            (self matches Assets::GamePlay(game_play::Assets::Running(_)) && screen matches Screen::GamePlay(
                GamePlay::TimeUp(_),
            )) ==> (r matches Ok(Assets::GamePlay(game_play::Assets::TimeUp(t))) ==> t.game
                == self->GamePlay_0->Running_0),
            (!(self is GamePlay) && screen matches Screen::GamePlay(GamePlay::TimeUp(_))) ==> (r matches Err(
                Error::ConfigurationInconsistency,
            )),
    {
        match *screen {
            Screen::Menu(ref world) => {
                let a = match self {
                    Assets::Menu(m) => m.next(world),
                    _ => menu::Assets::load(world, helper)?,
                };
                Ok(Assets::Menu(a))
            },
            Screen::HighScore(_) => {
                let a = match self {
                    Assets::HighScore(hs) => hs,
                    _ => high_score::Assets::load(helper)?,
                };
                Ok(Assets::HighScore(a))
            },
            Screen::PlayerSelect(ref world) => {
                let a = match self {
                    Assets::PlayerSelect(ps) => ps.next(world),
                    _ => player_select::Assets::load(helper)?,
                };
                Ok(Assets::PlayerSelect(a))
            },
            Screen::GamePlay(ref world) => {
                let a = match self {
                    Assets::GamePlay(gp) => gp.next(world, helper)?,
                    _ => game_play::Assets::load(world, helper)?,
                };
                Ok(Assets::GamePlay(a))
            },
        }
    }
}

} // verus!
