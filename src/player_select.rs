use vstd::prelude::*;

use crate::action::advanced;
use crate::animator::{Animator, Data};
use crate::asset::{self, Color, Error, FontFace, Helper, Image, Loader, Sprite, TileSheet};
use crate::data::{Animators, Dimension};
use crate::input::{Input, Key};
use crate::outcome::Outcome;
use crate::player::ButtonKind;
use crate::time::Duration;

verus! {

pub type PlayerKind = ButtonKind;

/// The highlighted character, with the clock of its walk.
#[derive(Clone, Copy, Debug, PartialEq, Eq, Structural)]
pub enum Selected {
    Husky(Animator),
    Duck(Animator),
}

/// The character picker: the highlighted character, if any, and the
/// animations each one walks with when highlighted.
#[derive(Clone, Copy, Debug, PartialEq, Eq, Structural)]
pub struct Gui {
    pub selected: Option<Selected>,
    pub duck: Data,
    pub husky: Data,
}

/// The animations that show what to collect and what to avoid.
#[derive(Clone, Copy, Debug, PartialEq, Eq, Structural)]
pub struct Guide {
    pub gem: Animator,
    pub coin: Animator,
    pub cat: Animator,
}

#[derive(Clone, Copy, Debug, PartialEq, Eq, Structural)]
pub struct PlayerSelect {
    pub guide: Guide,
    pub gui: Gui,
}

pub open spec fn kind_of(s: Selected) -> PlayerKind {
    match s {
        Selected::Husky(_) => ButtonKind::Husky,
        Selected::Duck(_) => ButtonKind::Duck,
    }
}

pub open spec fn clock_of(s: Selected) -> Animator {
    match s {
        Selected::Husky(a) => a,
        Selected::Duck(a) => a,
    }
}

impl Gui {
    pub open spec fn wf(self) -> bool {
        &&& self.duck.wf()
        &&& self.husky.wf()
        &&& self.selected matches Some(s) ==> clock_of(s).wf()
    }

    /// Nothing highlighted yet.
    pub fn new(animators: &Animators) -> (r: Gui)
        ensures
            r.selected is None,
            r.duck == animators.duck,
            r.husky == animators.husky,
            animators.wf() ==> r.wf(),
    {
        Gui { selected: None, duck: animators.duck, husky: animators.husky }
    }

    /// The highlight after a tick in which only `left` or only `right` of the
    /// arrow keys may have been pressed: the highlighted character keeps
    /// walking unless the other side was pressed; pressing a side highlights
    /// its character with a fresh walk.
    pub open spec fn selected_after(self, left: bool, right: bool, elapsed: Duration) -> Option<Selected> {
        match self.selected {
            Some(Selected::Husky(a)) if !right => Some(Selected::Husky(advanced(a, elapsed))),
            Some(Selected::Duck(a)) if !left => Some(Selected::Duck(advanced(a, elapsed))),
            _ => if right {
                Some(Selected::Duck(Animator { data: self.duck, elapsed: Duration { nanos: 0 } }))
            } else if left {
                Some(Selected::Husky(Animator { data: self.husky, elapsed: Duration { nanos: 0 } }))
            } else {
                None
            },
        }
    }

    pub open spec fn update_spec(self, input: Input, elapsed: Duration) -> Outcome<Gui, PlayerKind> {
        let left = input.pressed.left && !input.pressed.right;
        let right = input.pressed.right && !input.pressed.left;
        let selected = self.selected_after(left, right, elapsed);
        match selected {
            Some(s) if input.pressed.enter => Outcome::Quit(kind_of(s)),
            _ => Outcome::Running(Gui { selected, ..self }),
        }
    }

    /// Moves the highlight with the left and right keys; the return key
    /// picks the highlighted character.
    pub fn update(self, input: &Input, elapsed: Duration) -> (r: Outcome<Gui, PlayerKind>)
        ensures
            r == self.update_spec(*input, elapsed),
            self.wf() ==> (r matches Outcome::Running(g) ==> g.wf()),
    {
        let (left, right) = {
            let left = input.did_press_key(Key::Left);
            let right = input.did_press_key(Key::Right);
            (left && !right, right && !left)
        };
        let mut gui = self;
        gui.selected = match self.selected {
            Some(Selected::Husky(a)) if !right => {
                let mut a = a;
                a.animate(elapsed);
                Some(Selected::Husky(a))
            },
            Some(Selected::Duck(a)) if !left => {
                let mut a = a;
                a.animate(elapsed);
                Some(Selected::Duck(a))
            },
            _ => if right {
                Some(Selected::Duck(self.duck.start()))
            } else if left {
                Some(Selected::Husky(self.husky.start()))
            } else {
                None
            },
        };
        match gui.selected {
            Some(s) if input.did_press_key(Key::Return) => {
                let kind = match s {
                    Selected::Husky(_) => ButtonKind::Husky,
                    Selected::Duck(_) => ButtonKind::Duck,
                };
                Outcome::Quit(kind)
            },
            _ => Outcome::Running(gui),
        }
    }
}

impl Guide {
    pub open spec fn wf(self) -> bool {
        self.gem.wf() && self.coin.wf() && self.cat.wf()
    }

    pub open spec fn new_spec(animators: Animators) -> Guide {
        Guide {
            gem: animators.gem.start_spec(),
            coin: animators.coin.start_spec(),
            cat: animators.cat_idle.start_spec(),
        }
    }

    pub open spec fn update_spec(self, elapsed: Duration) -> Guide {
        Guide {
            gem: advanced(self.gem, elapsed),
            coin: advanced(self.coin, elapsed),
            cat: advanced(self.cat, elapsed),
        }
    }

    /// Every animation starts at its first frame.
    pub fn new(animators: &Animators) -> (r: Guide)
        ensures
            r == Guide::new_spec(*animators),
            animators.wf() ==> r.wf(),
    {
        Guide { gem: animators.gem.start(), coin: animators.coin.start(), cat: animators.cat_idle.start() }
    }

    /// Every animation runs on by `elapsed`.
    pub fn update(self, elapsed: Duration) -> (r: Guide)
        ensures
            r == self.update_spec(elapsed),
            self.wf() ==> r.wf(),
    {
        let mut guide = self;
        guide.coin.animate(elapsed);
        guide.gem.animate(elapsed);
        guide.cat.animate(elapsed);
        guide
    }
}

impl PlayerSelect {
    pub open spec fn wf(self) -> bool {
        self.guide.wf() && self.gui.wf()
    }

    pub open spec fn new_spec(animators: Animators) -> PlayerSelect {
        PlayerSelect {
            guide: Guide::new_spec(animators),
            gui: Gui { selected: None, duck: animators.duck, husky: animators.husky },
        }
    }

    /// The guide's animations start; nothing is highlighted.
    pub fn new(animators: &Animators) -> (r: PlayerSelect)
        ensures
            r == PlayerSelect::new_spec(*animators),
            animators.wf() ==> r.wf(),
    {
        PlayerSelect { guide: Guide::new(animators), gui: Gui::new(animators) }
    }

    pub open spec fn update_spec(self, input: Input, elapsed: Duration) -> Outcome<PlayerSelect, PlayerKind> {
        match self.gui.update_spec(input, elapsed) {
            Outcome::Running(g) => Outcome::Running(PlayerSelect { gui: g, guide: self.guide.update_spec(elapsed) }),
            Outcome::Quit(k) => Outcome::Quit(k),
        }
    }

    /// The picker decides; the guide's animations run on while it does.
    pub fn update(self, input: &Input, elapsed: Duration) -> (r: Outcome<PlayerSelect, PlayerKind>)
        ensures
            r == self.update_spec(*input, elapsed),
            self.gui.update_spec(*input, elapsed) matches Outcome::Quit(k) ==> r == Outcome::<
                PlayerSelect,
                PlayerKind,
            >::Quit(k),
            self.gui.update_spec(*input, elapsed) matches Outcome::Running(g) ==> r == Outcome::<
                PlayerSelect,
                PlayerKind,
            >::Running(PlayerSelect { gui: g, guide: self.guide.update_spec(elapsed) }),
            self.wf() ==> (r matches Outcome::Running(p) ==> p.wf()),
    {
        let guide = self.guide;
        match self.gui.update(input, elapsed) {
            Outcome::Running(gui) => Outcome::Running(PlayerSelect { gui, guide: guide.update(elapsed) }),
            Outcome::Quit(k) => Outcome::Quit(k),
        }
    }
}

} // verus!

verus! {

/// A character on the picker: walking with the picker under it when
/// highlighted, else standing still; both forms keep what the other needs.
pub enum Button<T> {
    Selected(Sprite<T>, T, Image<T>),
    Idle(Image<T>, TileSheet<T>, Image<T>),
}

impl<T> Button<T> {
    pub open spec fn pose(self) -> T {
        match self {
            Button::Selected(_, t, _) => t,
            Button::Idle(i, _, _) => i.texture,
        }
    }

    pub open spec fn sheet(self) -> TileSheet<T> {
        match self {
            Button::Selected(s, _, _) => s.sheet,
            Button::Idle(_, s, _) => s,
        }
    }

    pub open spec fn picker(self) -> Image<T> {
        match self {
            Button::Selected(_, _, p) => p,
            Button::Idle(_, _, p) => p,
        }
    }

    pub open spec fn keeps(self, other: Button<T>) -> bool {
        self.pose() == other.pose() && self.sheet() == other.sheet() && self.picker() == other.picker()
    }

    pub open spec fn deselected_spec(self) -> Button<T> {
        match self {
            Button::Selected(s, texture, picker) => Button::Idle(Image { texture, dims: s.dims }, s.sheet, picker),
            Button::Idle(i, s, p) => Button::Idle(i, s, p),
        }
    }

    pub open spec fn selected_spec(self, tile: u32) -> Button<T> {
        match self {
            Button::Selected(s, t, picker) => Button::Selected(Sprite { tile, ..s }, t, picker),
            Button::Idle(i, sheet, picker) => Button::Selected(Sprite { sheet, tile, dims: i.dims }, i.texture, picker),
        }
    }

    /// The size it is drawn at.
    pub open spec fn dims(self) -> Dimension {
        match self {
            Button::Selected(s, _, _) => s.dims,
            Button::Idle(i, _, _) => i.dims,
        }
    }

    /// Standing still.
    pub fn deselected(self) -> (r: Button<T>)
        ensures
            r == self.deselected_spec(),
            r.dims() == self.dims(),
            r is Idle,
            r.keeps(self),
    {
        match self {
            Button::Selected(s, texture, picker) => {
                let dims = s.dims;
                Button::Idle(Image { texture, dims }, s.sheet, picker)
            },
            b => b,
        }
    }

    /// Walking, at `tile`.
    pub fn selected(self, tile: u32) -> (r: Button<T>)
        ensures
            r == self.selected_spec(tile),
            r.dims() == self.dims(),
            r matches Button::Selected(s, _, _) && s.tile == tile,
            r.keeps(self),
    {
        match self {
            Button::Selected(mut s, t, picker) => {
                s.tile = tile;
                Button::Selected(s, t, picker)
            },
            Button::Idle(i, sheet, picker) => {
                let dims = i.dims;
                Button::Selected(Sprite { sheet, tile, dims }, i.texture, picker)
            },
        }
    }
}

/// The two characters of the picker.
pub struct GuiAssets<T> {
    pub duck: Button<T>,
    pub husky: Button<T>,
}

impl<T> GuiAssets<T> {
    /// The highlighted character walks at its clock's frame; the other stands.
    pub open spec fn follows(self, gui: Gui) -> bool {
        match gui.selected {
            None => self.duck is Idle && self.husky is Idle,
            Some(Selected::Duck(a)) => self.husky is Idle && (self.duck matches Button::Selected(s, _, _)
                && s.tile == a.frame_spec()),
            Some(Selected::Husky(a)) => self.duck is Idle && (self.husky matches Button::Selected(s, _, _)
                && s.tile == a.frame_spec()),
        }
    }

    pub open spec fn next_spec(self, gui: Gui) -> GuiAssets<T> {
        match gui.selected {
            None => GuiAssets { duck: self.duck.deselected_spec(), husky: self.husky.deselected_spec() },
            Some(Selected::Duck(a)) => GuiAssets {
                duck: self.duck.selected_spec(a.frame_spec() as u32),
                husky: self.husky.deselected_spec(),
            },
            Some(Selected::Husky(a)) => GuiAssets {
                duck: self.duck.deselected_spec(),
                husky: self.husky.selected_spec(a.frame_spec() as u32),
            },
        }
    }

    pub fn load<F: FontFace<Texture = T>, L: Loader<Texture = T, Font = F>>(helper: &mut Helper<L>) -> (r: Result<
        GuiAssets<T>,
        Error,
    >) where T: Clone
        ensures
            final(helper).data == old(helper).data,
            r matches Ok(a) ==> a.duck is Idle && a.husky is Idle,
    {
        let picker = helper.image(asset::Texture::Heart)?;
        let husky = {
            let image = helper.image(asset::Texture::Husky)?.scale(2);
            let sheet = helper.sheet(asset::Animation::Husky)?;
            Button::Idle(image, sheet, picker.clone())
        };
        let duck = {
            let image = helper.image(asset::Texture::Duck)?.scale(2);
            let sheet = helper.sheet(asset::Animation::Duck)?;
            Button::Idle(image, sheet, picker)
        };
        Ok(GuiAssets { duck, husky })
    }

    /// Follows the highlight without loading anything.
    pub fn next(self, gui: &Gui) -> (r: GuiAssets<T>)
        requires
            gui.wf(),
        ensures
            r == self.next_spec(*gui),
            r.follows(*gui),
            r.duck.dims() == self.duck.dims(),
            r.husky.dims() == self.husky.dims(),
            r.duck.keeps(self.duck),
            r.husky.keeps(self.husky),
    {
        match gui.selected {
            None => GuiAssets { duck: self.duck.deselected(), husky: self.husky.deselected() },
            Some(Selected::Duck(a)) => GuiAssets { husky: self.husky.deselected(), duck: self.duck.selected(a.frame()) },
            Some(Selected::Husky(a)) => GuiAssets {
                duck: self.duck.deselected(),
                husky: self.husky.selected(a.frame()),
            },
        }
    }
}

/// The guide's labels and animations.
pub struct GuideAssets<T> {
    pub collect: Image<T>,
    pub avoid: Image<T>,
    pub gem: Sprite<T>,
    pub coin: Sprite<T>,
    pub cat: Sprite<T>,
}

impl<T> GuideAssets<T> {
    pub open spec fn follows(self, guide: Guide) -> bool {
        &&& self.gem.tile == guide.gem.frame_spec()
        &&& self.coin.tile == guide.coin.frame_spec()
        &&& self.cat.tile == guide.cat.frame_spec()
    }

    pub fn load<F: FontFace<Texture = T>, L: Loader<Texture = T, Font = F>>(font: &F, helper: &mut Helper<L>) -> (r:
        Result<GuideAssets<T>, Error>)
        ensures
            final(helper).data == old(helper).data,
            r matches Ok(a) ==> a.gem.tile == 0 && a.coin.tile == 0 && a.cat.tile == 0,
    {
        let color = Color(255, 255, 0, 255);
        let collect = Image { texture: font.texturize("Collect", color)?, dims: font.measure("Collect")? };
        let coin = helper.sprite(asset::Animation::Coin)?.scale(2);
        let gem = helper.sprite(asset::Animation::Gem)?.scale(2);
        let avoid = Image { texture: font.texturize("Avoid", color)?, dims: font.measure("Avoid")? };
        let cat = helper.sprite(asset::Animation::IdleCat)?.scale(2);
        Ok(GuideAssets { collect, avoid, gem, coin, cat })
    }

    pub open spec fn next_spec(self, guide: Guide) -> GuideAssets<T> {
        GuideAssets {
            gem: Sprite { tile: guide.gem.frame_spec() as u32, ..self.gem },
            coin: Sprite { tile: guide.coin.frame_spec() as u32, ..self.coin },
            cat: Sprite { tile: guide.cat.frame_spec() as u32, ..self.cat },
            ..self
        }
    }

    /// Moves every sprite to its clock's frame.
    pub fn next(self, guide: &Guide) -> (r: GuideAssets<T>)
        requires
            guide.wf(),
        ensures
            r == self.next_spec(*guide),
            r.follows(*guide),
            r.gem.sheet == self.gem.sheet && r.coin.sheet == self.coin.sheet && r.cat.sheet == self.cat.sheet,
    {
        let mut assets = self;
        assets.gem.tile = guide.gem.frame();
        assets.coin.tile = guide.coin.frame();
        assets.cat.tile = guide.cat.frame();
        assets
    }
}

pub struct Assets<T> {
    pub title: Image<T>,
    pub instructions: Image<T>,
    pub guide: GuideAssets<T>,
    pub gui: GuiAssets<T>,
}

impl<T> Assets<T> {
    pub open spec fn follows(self, world: PlayerSelect) -> bool {
        self.guide.follows(world.guide) && self.gui.follows(world.gui)
    }

    /// Fresh from `load`: both characters standing, the guide at its first
    /// frames.
    pub open spec fn loaded(self) -> bool {
        &&& self.gui.duck is Idle
        &&& self.gui.husky is Idle
        &&& self.guide.gem.tile == 0
        &&& self.guide.coin.tile == 0
        &&& self.guide.cat.tile == 0
    }

    /// What `next` makes of these assets for `world`.
    pub open spec fn next_spec(self, world: PlayerSelect) -> Assets<T> {
        Assets { guide: self.guide.next_spec(world.guide), gui: self.gui.next_spec(world.gui), ..self }
    }

    pub fn load<F: FontFace<Texture = T>, L: Loader<Texture = T, Font = F>>(helper: &mut Helper<L>) -> (r: Result<
        Assets<T>,
        Error,
    >) where T: Clone
        ensures
            final(helper).data == old(helper).data,
            r matches Ok(a) ==> a.loaded(),
    {
        let color = Color(255, 255, 0, 255);
        let font = helper.font(asset::Font::KenPixel, 64)?;
        let title = Image {
            texture: (*font).texturize("Select Player", color)?,
            dims: (*font).measure("Select Player")?,
        };
        let guide = GuideAssets::load(&*font, helper)?;
        let instructions = {
            let font = helper.font(asset::Font::KenPixel, 32)?;
            let text = "<Use Arrow Keys to choose player; then press Enter>";
            Image { texture: (*font).texturize(text, color)?, dims: (*font).measure(text)? }
        };
        let gui = GuiAssets::load(helper)?;
        Ok(Assets { title, guide, instructions, gui })
    }

    /// Follows the picker and the guide without loading anything.
    pub fn next(self, world: &PlayerSelect) -> (r: Assets<T>)
        requires
            world.wf(),
        ensures
            r == self.next_spec(*world),
            r.follows(*world),
    {
        let mut assets = self;
        assets.guide = assets.guide.next(&world.guide);
        assets.gui = assets.gui.next(&world.gui);
        assets
    }
}

} // verus!
