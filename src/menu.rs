use vstd::prelude::*;

use crate::asset::{self, Color, Error, FontFace, Helper, Image, Loader};
use crate::input::{Input, Key};
use crate::outcome::Outcome;

verus! {

/// The main menu's options.
#[derive(Clone, Copy, Debug, PartialEq, Eq, Structural)]
pub enum Kind {
    NewGame,
    HighScore,
}

pub type Quit = Kind;

/// The option the main menu has selected.
#[derive(Clone, Copy, Debug, PartialEq, Eq, Structural)]
pub struct Gui {
    pub selected: Kind,
}

#[derive(Clone, Copy, Debug, PartialEq, Eq, Structural)]
pub struct Menu {
    pub gui: Gui,
}

pub open spec fn other(k: Kind) -> Kind {
    match k {
        Kind::NewGame => Kind::HighScore,
        Kind::HighScore => Kind::NewGame,
    }
}

impl Gui {
    /// The selection after a tick: one of the up and down keys (not both)
    /// moves it to the other option.
    pub open spec fn selected_after(self, input: Input) -> Kind {
        if input.pressed.down != input.pressed.up {
            other(self.selected)
        } else {
            self.selected
        }
    }

    /// Moves the selection; the return key chooses it.
    pub fn update(self, input: &Input) -> (r: Outcome<Gui, Kind>)
        ensures
            input.pressed.has(Key::Return) ==> r == Outcome::<Gui, Kind>::Quit(self.selected_after(*input)),
            !input.pressed.has(Key::Return) ==> r == Outcome::<Gui, Kind>::Running(
                Gui { selected: self.selected_after(*input) },
            ),
    {
        let mut gui = self;
        if input.did_press_key(Key::Down) != input.did_press_key(Key::Up) {
            gui.selected = match gui.selected {
                Kind::NewGame => Kind::HighScore,
                Kind::HighScore => Kind::NewGame,
            };
        }
        if input.did_press_key(Key::Return) {
            Outcome::Quit(gui.selected)
        } else {
            Outcome::Running(gui)
        }
    }
}

impl Default for Gui {
    fn default() -> (r: Gui)
        ensures
            r.selected == Kind::NewGame,
    {
        Gui { selected: Kind::NewGame }
    }
}

impl Default for Menu {
    fn default() -> (r: Menu)
        ensures
            r.gui.selected == Kind::NewGame,
    {
        Menu { gui: Gui::default() }
    }
}

impl Menu {
    pub open spec fn update_spec(self, input: Input) -> Outcome<Menu, Kind> {
        if input.pressed.has(Key::Return) {
            Outcome::Quit(self.gui.selected_after(input))
        } else {
            Outcome::Running(Menu { gui: Gui { selected: self.gui.selected_after(input) } })
        }
    }

    pub fn update(self, input: &Input) -> (r: Outcome<Menu, Kind>)
        ensures
            r == self.update_spec(*input),
            input.pressed.has(Key::Return) ==> r == Outcome::<Menu, Kind>::Quit(self.gui.selected_after(*input)),
            !input.pressed.has(Key::Return) ==> r == Outcome::<Menu, Kind>::Running(
                Menu { gui: Gui { selected: self.gui.selected_after(*input) } },
            ),
    {
        match self.gui.update(input) {
            Outcome::Running(gui) => Outcome::Running(Menu { gui }),
            Outcome::Quit(k) => Outcome::Quit(k),
        }
    }
}

/// An option's label, plain and highlighted.
pub struct Button<T> {
    pub idle: T,
    pub selected: T,
    pub dims: crate::data::Dimension,
}

impl<T> Button<T> {
    pub fn load<F: FontFace<Texture = T>>(text: &str, font: &F) -> (r: Result<Button<T>, Error>) {
        let dims = font.measure(text)?;
        let idle = font.texturize(text, Color(255, 255, 255, 255))?;
        let selected = font.texturize(text, Color(255, 255, 0, 255))?;
        Ok(Button { idle, selected, dims })
    }
}

/// The options and the picker shown beside the selected one.
pub struct GuiAssets<T> {
    pub selected: Kind,
    pub new_game: Button<T>,
    pub high_score: Button<T>,
    pub picker: Image<T>,
}

impl<T> GuiAssets<T> {
    pub fn load<F: FontFace<Texture = T>>(font: &F, picker: Image<T>, gui: &Gui) -> (r: Result<GuiAssets<T>, Error>)
        ensures
            r matches Ok(a) ==> a.selected == gui.selected,
    {
        let new_game = Button::load("New Game", font)?;
        let high_score = Button::load("High Scores", font)?;
        Ok(GuiAssets { new_game, high_score, picker, selected: gui.selected })
    }

    pub fn next(self, gui: &Gui) -> (r: GuiAssets<T>)
        ensures
            r == (GuiAssets { selected: gui.selected, ..self }),
    {
        let mut assets = self;
        assets.selected = gui.selected;
        assets
    }
}

pub struct Assets<T> {
    pub husky: Image<T>,
    pub duck: Image<T>,
    pub heart: Image<T>,
    pub instructions: Image<T>,
    pub gui: GuiAssets<T>,
}

impl<T> Assets<T> {
    pub open spec fn follows(self, menu: Menu) -> bool {
        self.gui.selected == menu.gui.selected
    }

    pub fn load<F: FontFace<Texture = T>, L: Loader<Texture = T, Font = F>>(menu: &Menu, helper: &mut Helper<L>) -> (r:
        Result<Assets<T>, Error>)
        ensures
            final(helper).data == old(helper).data,
            r matches Ok(a) ==> a.follows(*menu),
    {
        let husky = helper.image(asset::Texture::Husky)?.scale(2);
        let duck = helper.image(asset::Texture::Duck)?.scale(2);
        let heart = helper.image(asset::Texture::Heart)?.scale(2);
        let instructions = {
            let font = helper.font(asset::Font::KenPixel, 32)?;
            let text = "<Use Arrow Keys to select option; then press Enter>";
            let texture = (*font).texturize(text, Color(255, 255, 0, 255))?;
            let dims = (*font).measure(text)?;
            Image { texture, dims }
        };
        let picker = helper.image(asset::Texture::Heart)?;
        let font = helper.font(asset::Font::KenPixel, 64)?;
        let gui = GuiAssets::load(&*font, picker, &menu.gui)?;
        Ok(Assets { husky, duck, heart, instructions, gui })
    }

    /// What `next` makes of these assets: only the selection changes.
    pub open spec fn next_spec(self, menu: Menu) -> Assets<T> {
        Assets { gui: GuiAssets { selected: menu.gui.selected, ..self.gui }, ..self }
    }

    /// Follows the selection without loading anything.
    pub fn next(self, menu: &Menu) -> (r: Assets<T>)
        ensures
            r == self.next_spec(*menu),
            r.follows(*menu),
    {
        let mut assets = self;
        assets.gui = assets.gui.next(&menu.gui);
        assets
    }
}

} // verus!
