use vstd::prelude::*;

use crate::action::{Action, Direction};
use crate::animator::Data;
use crate::asset::{self, Error, Helper, Image, Loader, Sprite, TileSheet};
use crate::data::{Animators, Dimension, Game};
use crate::input::{HKey, Input};
use crate::time::Duration;

verus! {

/// The characters a player can pick.
#[derive(Clone, Copy, Debug, PartialEq, Eq, Structural)]
pub enum ButtonKind {
    Husky,
    Duck,
}

pub type Kind = ButtonKind;

/// A horizontal mirroring of a drawn texture.
#[derive(Clone, Copy, Debug, PartialEq, Eq, Structural)]
pub enum Flip {
    Horizontal,
}

/// Sprites face right: facing left mirrors them.
pub open spec fn flip_spec(d: Direction) -> Option<Flip> {
    match d {
        HKey::Left => Some(Flip::Horizontal),
        HKey::Right => None,
    }
}

pub fn flip_of(d: Direction) -> (r: Option<Flip>)
    ensures
        r == flip_spec(d),
{
    match d {
        HKey::Left => Some(Flip::Horizontal),
        HKey::Right => None,
    }
}

/// The character under the player's control.
#[derive(Clone, Copy, Debug, PartialEq, Eq, Structural)]
pub struct Player {
    pub kind: Kind,
    pub action: Action,
}

/// The animation configuration of a character.
pub open spec fn animator_of(kind: Kind, animators: Animators) -> Data {
    match kind {
        ButtonKind::Husky => animators.husky,
        ButtonKind::Duck => animators.duck,
    }
}

/// The still image of a character.
pub open spec fn pose_of(kind: Kind) -> asset::Texture {
    match kind {
        ButtonKind::Husky => asset::Texture::Husky,
        ButtonKind::Duck => asset::Texture::Duck,
    }
}

/// The walk sheet of a character.
pub open spec fn walk_of(kind: Kind) -> asset::Animation {
    match kind {
        ButtonKind::Husky => asset::Animation::Husky,
        ButtonKind::Duck => asset::Animation::Duck,
    }
}

impl Player {
    pub open spec fn wf(self) -> bool {
        self.action.wf()
    }

    /// A character standing still.
    pub fn new(kind: Kind, animators: &Animators) -> (r: Player)
        ensures
            r.kind == kind,
            r.action == (Action::Idle { animator: animator_of(kind, *animators) }),
            animators.wf() ==> r.wf(),
    {
        let animator = match kind {
            ButtonKind::Husky => animators.husky,
            ButtonKind::Duck => animators.duck,
        };
        Player { kind, action: Action::Idle { animator } }
    }

    pub fn update(&mut self, input: &Input, elapsed: Duration)
        ensures
            final(self).kind == old(self).kind,
            final(self).action == old(self).action.update_spec(*input, elapsed),
            old(self).wf() ==> final(self).wf(),
    {
        self.action = self.action.update(input, elapsed);
    }
}

/// What is drawn for an action: a still pose with the sheet kept for the next
/// walk, or a tile of the sheet with the pose kept for the next rest.
pub enum ActionAssets<T> {
    Idle(Image<T>, TileSheet<T>),
    Animated(Sprite<T>, T),
}

impl<T> ActionAssets<T> {
    /// The still pose's texture.
    pub open spec fn pose(self) -> T {
        match self {
            ActionAssets::Idle(i, _) => i.texture,
            ActionAssets::Animated(_, t) => t,
        }
    }

    /// The walk's tile sheet.
    pub open spec fn sheet(self) -> TileSheet<T> {
        match self {
            ActionAssets::Idle(_, s) => s,
            ActionAssets::Animated(s, _) => s.sheet,
        }
    }

    /// The size it is drawn at.
    pub open spec fn dims(self) -> Dimension {
        match self {
            ActionAssets::Idle(i, _) => i.dims,
            ActionAssets::Animated(s, _) => s.dims,
        }
    }

    /// It shows what `action` calls for: the pose at rest or in the air,
    /// the walk's current tile while walking.
    pub open spec fn follows(self, action: Action) -> bool {
        match action {
            Action::Walk { animator, .. } => self matches ActionAssets::Animated(s, _) && s.tile
                == animator.frame_spec(),
            _ => self is Idle,
        }
    }

    pub open spec fn rest_spec(self) -> ActionAssets<T> {
        match self {
            ActionAssets::Animated(s, texture) => ActionAssets::Idle(Image { texture, dims: s.dims }, s.sheet),
            ActionAssets::Idle(i, s) => ActionAssets::Idle(i, s),
        }
    }

    pub open spec fn walk_spec(self, tile: u32) -> ActionAssets<T> {
        match self {
            ActionAssets::Animated(s, texture) => ActionAssets::Animated(Sprite { tile, ..s }, texture),
            ActionAssets::Idle(i, sheet) => ActionAssets::Animated(Sprite { sheet, tile, dims: i.dims }, i.texture),
        }
    }

    /// What `next` makes of these assets for `action`.
    pub open spec fn next_spec(self, action: Action) -> ActionAssets<T> {
        match action {
            Action::Walk { animator, .. } => self.walk_spec(animator.frame_spec() as u32),
            _ => self.rest_spec(),
        }
    }

    /// The pose, to rest or jump with.
    pub fn rest(self) -> (r: ActionAssets<T>)
        ensures
            r == self.rest_spec(),
            r is Idle,
            r.pose() == self.pose(),
            r.sheet() == self.sheet(),
            r.dims() == self.dims(),
    {
        match self {
            ActionAssets::Animated(s, texture) => ActionAssets::Idle(Image { texture, dims: s.dims }, s.sheet),
            idle => idle,
        }
    }

    /// The sheet at `tile`, to walk with.
    pub fn walk(self, tile: u32) -> (r: ActionAssets<T>)
        ensures
            r == self.walk_spec(tile),
            r matches ActionAssets::Animated(s, _) && s.tile == tile,
            r.pose() == self.pose(),
            r.sheet() == self.sheet(),
            r.dims() == self.dims(),
    {
        match self {
            ActionAssets::Animated(mut sprite, texture) => {
                sprite.tile = tile;
                ActionAssets::Animated(sprite, texture)
            },
            ActionAssets::Idle(i, sheet) => ActionAssets::Animated(Sprite { sheet, tile, dims: i.dims }, i.texture),
        }
    }

    /// Follows `action`, keeping every loaded texture.
    pub fn next(self, action: &Action) -> (r: ActionAssets<T>)
        requires
            action.wf(),
        ensures
            r == self.next_spec(*action),
            r.follows(*action),
            r.pose() == self.pose(),
            r.sheet() == self.sheet(),
            r.dims() == self.dims(),
    {
        match *action {
            Action::Idle { .. } => self.rest(),
            Action::Jump { .. } => self.rest(),
            Action::Walk { ref animator, .. } => self.walk(animator.frame()),
        }
    }
}

/// What is drawn for the player: the action's pose or tile, mirrored to face
/// the last direction the player moved in.
pub struct Assets<T> {
    pub action: ActionAssets<T>,
    pub flip: Option<Flip>,
}

/// The mirroring after `action`: walking faces the walk; a jump with a
/// direction faces it; at rest, or in a jump without one, the last facing is
/// kept.
pub open spec fn next_flip(flip: Option<Flip>, action: Action) -> Option<Flip> {
    match action {
        Action::Walk { direction, .. } => flip_spec(direction),
        Action::Jump { direction: Some(d), .. } => flip_spec(d),
        _ => flip,
    }
}

impl<T> Assets<T> {
    pub open spec fn follows(self, player: Player) -> bool {
        self.action.follows(player.action)
    }

    /// What `next` makes of these assets for `player`.
    pub open spec fn next_spec(self, player: Player) -> Assets<T> {
        Assets { action: self.action.next_spec(player.action), flip: next_flip(self.flip, player.action) }
    }

    /// Fresh from `load`: the pose at rest, facing right, at the size the
    /// game data gives the character, with the character's walk sheet.
    pub open spec fn loaded(self, player: Player, data: Game) -> bool {
        &&& self.action is Idle
        &&& self.flip is None
        &&& self.action.dims() == data.texture_spec(pose_of(player.kind)).1
        &&& self.action.sheet().tiles == data.animation_spec(walk_of(player.kind)).2
    }

    /// Loads the character's pose and sheet; it starts at rest, facing right.
    pub fn load<L: Loader<Texture = T>>(player: &Player, helper: &mut Helper<L>) -> (r: Result<Assets<T>, Error>)
        ensures
            final(helper).data == old(helper).data,
            r matches Ok(a) ==> a.loaded(*player, old(helper).data),
    {
        let (texture, animation) = match player.kind {
            ButtonKind::Duck => (asset::Texture::Duck, asset::Animation::Duck),
            ButtonKind::Husky => (asset::Texture::Husky, asset::Animation::Husky),
        };
        let image = helper.image(texture)?;
        let sheet = helper.sheet(animation)?;
        Ok(Assets { action: ActionAssets::Idle(image, sheet), flip: None })
    }

    /// Follows the player's action without loading anything.
    pub fn next(self, player: &Player) -> (r: Assets<T>)
        requires
            player.wf(),
        ensures
            r == self.next_spec(*player),
            r.follows(*player),
            r.flip == next_flip(self.flip, player.action),
            r.action.pose() == self.action.pose(),
            r.action.sheet() == self.action.sheet(),
            r.action.dims() == self.action.dims(),
    {
        let flip = match player.action {
            Action::Walk { direction, .. } => flip_of(direction),
            Action::Jump { direction: Some(d), .. } => flip_of(d),
            _ => self.flip,
        };
        Assets { action: self.action.next(&player.action), flip }
    }
}

} // verus!
