use vstd::prelude::*;
use vstd::string::StringExecFns;

use crate::data::{Dimension, Game};
use crate::score::Score;

use std::rc::Rc;

verus! {

/// The still images the screens show.
#[derive(Clone, Copy, Debug, PartialEq, Eq, Structural)]
pub enum Texture {
    Husky,
    Duck,
    Heart,
}

/// The tile sheets the screens animate.
#[derive(Clone, Copy, Debug, PartialEq, Eq, Structural)]
pub enum Animation {
    Husky,
    Duck,
    Coin,
    Gem,
    IdleCat,
}

/// The typefaces the screens write with.
#[derive(Clone, Copy, Debug, PartialEq, Eq, Structural)]
pub enum Font {
    KenPixel,
    Joystix,
}

pub open spec fn font_path_spec(font: Font) -> Seq<char> {
    match font {
        Font::KenPixel => "media/fonts/kenpixel_mini.ttf"@,
        Font::Joystix => "media/fonts/joystix.monospace.ttf"@,
    }
}

/// The directory the sprite files are read from.
pub open spec fn sprite_dir() -> Seq<char> {
    "media/sprites/"@
}

impl Font {
    /// The file the typeface is read from.
    pub fn path(&self) -> (r: &'static str)
        ensures
            r@ == font_path_spec(*self),
    {
        match *self {
            Font::KenPixel => {
                proof {
                    reveal_strlit("media/fonts/kenpixel_mini.ttf");
                }
                "media/fonts/kenpixel_mini.ttf"
            },
            Font::Joystix => {
                proof {
                    reveal_strlit("media/fonts/joystix.monospace.ttf");
                }
                "media/fonts/joystix.monospace.ttf"
            },
        }
    }
}

/// Where a still image comes from: its file name and its size on screen.
pub struct TextureData<'t> {
    pub texture: &'t str,
    pub dims: Dimension,
}

/// Where an animation comes from: its sheet's file name, the size of one
/// frame on screen and the grid of tiles in the sheet.
pub struct AnimationData<'t> {
    pub texture: &'t str,
    pub dims: Dimension,
    pub tiles: Dimension,
}

/// An RGBA color.
#[derive(Clone, Copy, Debug, PartialEq, Eq, Structural)]
pub struct Color(pub u8, pub u8, pub u8, pub u8);

/// Why a frame's assets could not be brought in line with the game state.
#[derive(Clone, Debug)]
pub enum Error {
    /// A texture or font is missing or could not be decoded.
    ResourceLoadFailure(String),
    /// The assets were asked to follow a state they cannot be built for.
    ConfigurationInconsistency,
}

/// A loaded texture and the size it is drawn at.
#[derive(Clone, Debug)]
pub struct Image<T> {
    pub texture: T,
    pub dims: Dimension,
}

/// A texture cut into a grid of equally sized tiles.
#[derive(Clone, Debug)]
pub struct TileSheet<T> {
    pub texture: T,
    pub tiles: Dimension,
}

/// One tile of a sheet, drawn at a given size.
#[derive(Clone, Debug)]
pub struct Sprite<T> {
    pub sheet: TileSheet<T>,
    pub dims: Dimension,
    pub tile: u32,
}

/// `v * scale`, held at the largest `u32`.
pub open spec fn scaled(v: u32, scale: u32) -> u32 {
    if v * scale > u32::MAX {
        u32::MAX
    } else {
        (v * scale) as u32
    }
}

pub open spec fn scaled_dims(d: Dimension, scale: u32) -> Dimension {
    Dimension { x: scaled(d.x, scale), y: scaled(d.y, scale) }
}

fn scale_side(v: u32, scale: u32) -> (r: u32)
    ensures
        r == scaled(v, scale),
{
    assert((v as u64) * (scale as u64) <= u64::MAX) by (nonlinear_arith)
        requires
            v <= u32::MAX,
            scale <= u32::MAX,
    ;
    let wide: u64 = v as u64 * scale as u64;
    if wide > u32::MAX as u64 {
        u32::MAX
    } else {
        wide as u32
    }
}

impl Dimension {
    /// Both sides multiplied by `scale`, held at the largest `u32`.
    pub fn scale(self, scale: u32) -> (r: Dimension)
        ensures
            r == scaled_dims(self, scale),
    {
        Dimension { x: scale_side(self.x, scale), y: scale_side(self.y, scale) }
    }
}

impl<T> Image<T> {
    pub fn scale(self, scale: u32) -> (r: Image<T>)
        ensures
            r.texture == self.texture,
            r.dims == scaled_dims(self.dims, scale),
    {
        Image { texture: self.texture, dims: self.dims.scale(scale) }
    }
}

impl<T> Sprite<T> {
    /// The sheet's first tile at the given size.
    pub fn new(sheet: TileSheet<T>, dims: Dimension) -> (r: Sprite<T>)
        ensures
            r.sheet == sheet,
            r.dims == dims,
            r.tile == 0,
    {
        Sprite { sheet, dims, tile: 0 }
    }

    pub fn scale(self, scale: u32) -> (r: Sprite<T>)
        ensures
            r.sheet == self.sheet,
            r.tile == self.tile,
            r.dims == scaled_dims(self.dims, scale),
    {
        Sprite { sheet: self.sheet, tile: self.tile, dims: self.dims.scale(scale) }
    }
}

/// A loaded typeface: it measures and renders text.
pub trait FontFace {
    type Texture;

    fn measure(&self, text: &str) -> Result<Dimension, Error>;

    fn texturize(&self, text: &str, color: Color) -> Result<Self::Texture, Error>;
}

/// The rendering backend's loading services, by file path, and the store of
/// high scores.
pub trait Loader {
    type Texture: Clone;

    type Font: FontFace<Texture = Self::Texture>;

    fn load_texture(&mut self, path: &str) -> Result<Self::Texture, Error>;

    fn load_font(&mut self, path: &str, size: u16) -> Result<Rc<Self::Font>, Error>;

    fn high_scores(&mut self) -> Vec<Score>;
}

/// Loads the game's assets by their logical names, through a backend loader
/// and the game's description of where each asset lives.
pub struct Helper<L> {
    pub loader: L,
    pub data: Game,
}

impl<L: Loader> Helper<L> {
    pub fn new(loader: L, data: Game) -> (r: Helper<L>)
        ensures
            r.loader == loader,
            r.data == data,
    {
        Helper { loader, data }
    }

    /// The path a sprite file is loaded from.
    fn sprite_path(name: &str) -> (r: String)
        ensures
            r@ == sprite_dir() + name@,
    {
        proof {
            reveal_strlit("media/sprites/");
        }
        let mut path = String::from_str("media/sprites/");
        path.append(name);
        path
    }

    pub fn texture(&mut self, asset: Texture) -> (r: Result<L::Texture, Error>)
        ensures
            final(self).data == old(self).data,
    {
        let path = Self::sprite_path(self.data.texture(asset).texture);
        self.loader.load_texture(path.as_str())
    }

    pub fn image(&mut self, asset: Texture) -> (r: Result<Image<L::Texture>, Error>)
        ensures
            final(self).data == old(self).data,
            r matches Ok(i) ==> i.dims == old(self).data.texture_spec(asset).1,
    {
        let dims = self.data.texture(asset).dims;
        let texture = self.texture(asset)?;
        Ok(Image { texture, dims })
    }

    pub fn sheet(&mut self, asset: Animation) -> (r: Result<TileSheet<L::Texture>, Error>)
        ensures
            final(self).data == old(self).data,
            r matches Ok(s) ==> s.tiles == old(self).data.animation_spec(asset).2,
    {
        let tiles = self.data.animation(asset).tiles;
        let path = Self::sprite_path(self.data.animation(asset).texture);
        let texture = self.loader.load_texture(path.as_str())?;
        Ok(TileSheet { texture, tiles })
    }

    pub fn sprite(&mut self, asset: Animation) -> (r: Result<Sprite<L::Texture>, Error>)
        ensures
            final(self).data == old(self).data,
            r matches Ok(s) ==> s.dims == old(self).data.animation_spec(asset).1
                && s.sheet.tiles == old(self).data.animation_spec(asset).2 && s.tile == 0,
    {
        let dims = self.data.animation(asset).dims;
        let sheet = self.sheet(asset)?;
        Ok(Sprite::new(sheet, dims))
    }

    pub fn font(&mut self, font: Font, size: u16) -> (r: Result<Rc<L::Font>, Error>)
        ensures
            final(self).data == old(self).data,
    {
        self.loader.load_font(font.path(), size)
    }

    pub fn high_scores(&mut self) -> (r: Vec<Score>)
        ensures
            final(self).data == old(self).data,
    {
        self.loader.high_scores()
    }
}

} // verus!
