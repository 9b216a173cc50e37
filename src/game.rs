use vstd::prelude::*;

use crate::asset::{Error, FontFace, Helper, Loader};
use crate::data::Animators;
use crate::game_play::GamePlay;
use crate::high_score::HighScore;
use crate::input::Input;
use crate::menu::{self, Menu};
use crate::outcome::Outcome;
use crate::player_select::PlayerSelect;
use crate::screen::{self, Quit, Screen};
use crate::time::Duration;

verus! {

/// The whole simulation: the active screen and the animation configurations
/// that new screens start from.
#[derive(Clone, Copy, Debug, PartialEq, Eq, Structural)]
pub struct World {
    pub screen: Screen,
    pub animators: Animators,
}

/// The screen a quit signal leads to, always built fresh.
pub open spec fn next_screen_spec(q: Quit, animators: Animators) -> Screen {
    match q {
        Quit::Menu(menu::Kind::NewGame) => Screen::PlayerSelect(PlayerSelect::new_spec(animators)),
        Quit::Menu(menu::Kind::HighScore) => Screen::HighScore(HighScore {  }),
        Quit::HighScore => Screen::Menu(Menu { gui: menu::Gui { selected: menu::Kind::NewGame } }),
        Quit::GamePlay => Screen::Menu(Menu { gui: menu::Gui { selected: menu::Kind::NewGame } }),
        Quit::PlayerSelect(k) => Screen::GamePlay(GamePlay::new_spec(k, animators)),
    }
}

/// Builds the screen that a quit signal leads to.
pub fn next_screen(q: Quit, animators: &Animators) -> (r: Screen)
    ensures
        r == next_screen_spec(q, *animators),
        animators.wf() ==> r.wf(),
{
    match q {
        Quit::Menu(m) => match m {
            menu::Kind::NewGame => Screen::PlayerSelect(PlayerSelect::new(animators)),
            menu::Kind::HighScore => Screen::HighScore(HighScore {  }),
        },
        Quit::HighScore => Screen::Menu(Menu::default()),
        Quit::GamePlay => Screen::Menu(Menu::default()),
        Quit::PlayerSelect(k) => Screen::GamePlay(GamePlay::new(k, animators)),
    }
}

impl World {
    pub open spec fn wf(self) -> bool {
        self.animators.wf() && self.screen.wf()
    }

    /// The game at its main menu.
    pub fn new(animators: Animators) -> (r: World)
        ensures
            r.animators == animators,
            r.screen == Screen::Menu(Menu { gui: menu::Gui { selected: menu::Kind::NewGame } }),
            animators.wf() ==> r.wf(),
    {
        World { screen: Screen::new(), animators }
    }

    pub open spec fn update_spec(self, input: Input, elapsed: Duration) -> World {
        World {
            screen: match self.screen.update_spec(input, elapsed) {
                Outcome::Running(s) => s,
                Outcome::Quit(q) => next_screen_spec(q, self.animators),
            },
            animators: self.animators,
        }
    }

    /// One tick: the active screen goes on, or its quit signal picks the
    /// next screen. The game itself never ends.
    pub fn update(self, input: &Input, elapsed: Duration) -> (r: World)
        ensures
            r == self.update_spec(*input, elapsed),
            self.wf() ==> r.wf(),
    {
        let animators = self.animators;
        let screen = match self.screen.update(input, elapsed) {
            Outcome::Running(s) => s,
            Outcome::Quit(q) => next_screen(q, &animators),
        };
        World { screen, animators }
    }
}

/// What the whole game draws.
pub struct Assets<T, F> {
    pub screen: screen::Assets<T, F>,
}

impl<T, F: FontFace<Texture = T>> Assets<T, F> {
    pub open spec fn same_variant(self, world: World) -> bool {
        self.screen.same_variant(world.screen)
    }

    pub open spec fn follows(self, world: World) -> bool {
        self.screen.follows(world.screen)
    }

    pub open spec fn texts_current(self, world: World) -> bool {
        self.screen.texts_current(world.screen)
    }

    pub fn load<L: Loader<Texture = T, Font = F>>(world: &World, helper: &mut Helper<L>) -> (r: Result<
        Assets<T, F>,
        Error,
    >) where T: Clone
        ensures
            final(helper).data == old(helper).data,
            r matches Ok(a) ==> a.same_variant(*world) && a.screen.loaded(world.screen, old(helper).data),
            world.screen matches Screen::GamePlay(GamePlay::TimeUp(_)) ==> r matches Err(
                Error::ConfigurationInconsistency,
            ),
    {
        let screen = screen::Assets::load(&world.screen, helper)?;
        Ok(Assets { screen })
    }

    /// Brings the assets in line with the world, loading only where the
    /// screen changed shape.
    pub fn next<L: Loader<Texture = T, Font = F>>(self, world: &World, helper: &mut Helper<L>) -> (r: Result<
        Assets<T, F>,
        Error,
    >) where T: Clone
        requires
            world.wf(),
        ensures
            final(helper).data == old(helper).data,
            r matches Ok(a) ==> a.same_variant(*world),
            self.same_variant(*world) ==> *final(helper) == *old(helper),
            self.same_variant(*world) ==> (r matches Ok(a) ==> a.follows(*world)),
            self.same_variant(*world) && self.texts_current(*world) ==> r is Ok,
            self.same_variant(*world) && !(world.screen is GamePlay) ==> (r matches Ok(a) && a.screen
                == self.screen.kept(world.screen)),
            !(self.screen is GamePlay && world.screen is GamePlay) && !self.same_variant(*world) ==> (r matches Ok(
                a,
            ) ==> a.screen.loaded(world.screen, old(helper).data)),
            (!(self.screen is GamePlay) && world.screen matches Screen::GamePlay(GamePlay::TimeUp(_))) ==> (r matches Err(
                Error::ConfigurationInconsistency,
            )),
    {
        let screen = self.screen.next(&world.screen, helper)?;
        Ok(Assets { screen })
    }
}

} // verus!
