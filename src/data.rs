use vstd::prelude::*;

use crate::animator::Data;
use crate::asset::{Animation as AnimationKind, AnimationData, Texture as TextureKind, TextureData};
use crate::time::{Duration, NANOS_PER_MILLI};

verus! {

/// A width and height, or a count of tiles across and down.
#[derive(Clone, Copy, Debug, PartialEq, Eq, Structural)]
pub struct Dimension {
    pub x: u32,
    pub y: u32,
}

/// The file name of an image under the sprites directory.
#[derive(Clone, Debug)]
pub struct Texture(pub String);

/// A tile sheet and how its frames play: `duration` is the whole cycle in
/// milliseconds.
#[derive(Clone, Debug)]
pub struct Animation {
    pub texture: Texture,
    pub frames: u32,
    pub tiles: Dimension,
    pub duration: u64,
}

#[derive(Clone, Debug)]
pub struct Player {
    pub animation: Animation,
    pub idle_texture: Texture,
    pub out_size: Dimension,
}

#[derive(Clone, Debug)]
pub struct Cat {
    pub idle: Animation,
    pub walking: Animation,
    pub out_size: Dimension,
}

#[derive(Clone, Debug)]
pub struct Image {
    pub texture: Texture,
    pub out_size: Dimension,
}

#[derive(Clone, Debug)]
pub struct Collectable {
    pub animation: Animation,
    pub out_size: Dimension,
    pub score: u32,
}

#[derive(Clone, Debug)]
pub struct Ground {
    pub center: Texture,
    pub left: Texture,
    pub right: Texture,
    pub top: Texture,
    pub top_left: Texture,
    pub top_right: Texture,
    pub out_size: Dimension,
}

/// The game's static description: sprites, sizes and animation timings.
#[derive(Clone, Debug)]
pub struct Game {
    pub duck: Player,
    pub husky: Player,
    pub ground: Ground,
    pub gem: Collectable,
    pub coin: Collectable,
    pub cat: Cat,
    pub background: Image,
    pub goal: Image,
    pub heart: Image,
    pub spike: Image,
}

/// The animation configurations that the screens start their clocks from.
#[derive(Clone, Copy, Debug, PartialEq, Eq, Structural)]
pub struct Animators {
    pub duck: Data,
    pub husky: Data,
    pub gem: Data,
    pub cat_idle: Data,
    pub cat_walking: Data,
    pub coin: Data,
}

impl Animators {
    pub open spec fn wf(self) -> bool {
        self.duck.wf() && self.husky.wf() && self.gem.wf() && self.cat_idle.wf()
            && self.cat_walking.wf() && self.coin.wf()
    }
}

impl Animation {
    /// The time each frame is shown, in whole milliseconds, where the
    /// configuration gives a usable one.
    pub open spec fn frame_millis(self) -> int {
        if self.frames == 0 {
            0
        } else {
            (self.duration as int) / (self.frames as int)
        }
    }

    pub open spec fn animator_spec(self) -> Option<Data> {
        if self.frames > 0 && 0 < self.frame_millis() && self.frame_millis() * NANOS_PER_MILLI <= u64::MAX {
            Some(
                Data {
                    frames: self.frames,
                    frame_duration: Duration { nanos: (self.frame_millis() * NANOS_PER_MILLI) as u64 },
                },
            )
        } else {
            None
        }
    }

    /// The animation's clock configuration: the cycle split evenly over the
    /// frames. `None` where there are no frames or a frame would last no time
    /// at all (or longer than a duration can hold).
    pub fn animator(&self) -> (r: Option<Data>)
        ensures
            r == self.animator_spec(),
            r matches Some(d) ==> d.wf(),
    {
        if self.frames == 0 {
            return None;
        }
        let millis = self.duration / (self.frames as u64);
        if millis == 0 || millis > u64::MAX / NANOS_PER_MILLI {
            return None;
        }
        assert(millis * NANOS_PER_MILLI <= u64::MAX) by (nonlinear_arith)
            requires
                millis <= u64::MAX / NANOS_PER_MILLI,
                NANOS_PER_MILLI > 0,
        ;
        assert(millis * NANOS_PER_MILLI > 0) by (nonlinear_arith)
            requires
                millis > 0,
                NANOS_PER_MILLI > 0,
        ;
        Some(Data::new(self.frames, Duration::from_millis(millis)))
    }
}

impl Game {
    pub open spec fn animators_spec(self) -> Option<Animators> {
        match (
            self.duck.animation.animator_spec(),
            self.husky.animation.animator_spec(),
            self.gem.animation.animator_spec(),
            self.cat.idle.animator_spec(),
            self.cat.walking.animator_spec(),
            self.coin.animation.animator_spec(),
        ) {
            (Some(duck), Some(husky), Some(gem), Some(cat_idle), Some(cat_walking), Some(coin)) => Some(
                Animators { duck, husky, gem, cat_idle, cat_walking, coin },
            ),
            _ => None,
        }
    }

    /// The clock configuration of every animation, or `None` where one of
    /// them cannot be built.
    pub fn animators(&self) -> (r: Option<Animators>)
        ensures
            r == self.animators_spec(),
            r matches Some(a) ==> a.wf(),
    {
        let duck = self.duck.animation.animator();
        let husky = self.husky.animation.animator();
        let gem = self.gem.animation.animator();
        let cat_idle = self.cat.idle.animator();
        let cat_walking = self.cat.walking.animator();
        let coin = self.coin.animation.animator();
        match (duck, husky, gem, cat_idle, cat_walking, coin) {
            (Some(duck), Some(husky), Some(gem), Some(cat_idle), Some(cat_walking), Some(coin)) => Some(
                Animators { duck, husky, gem, cat_idle, cat_walking, coin },
            ),
            _ => None,
        }
    }

    /// Where a still image's file and size come from.
    pub open spec fn texture_spec(self, texture: TextureKind) -> (Seq<char>, Dimension) {
        match texture {
            TextureKind::Husky => (self.husky.idle_texture.0@, self.husky.out_size),
            TextureKind::Duck => (self.duck.idle_texture.0@, self.duck.out_size),
            TextureKind::Heart => (self.heart.texture.0@, self.heart.out_size),
        }
    }

    /// Where an animation's sheet, size and tile grid come from.
    pub open spec fn animation_spec(self, animation: AnimationKind) -> (Seq<char>, Dimension, Dimension) {
        match animation {
            AnimationKind::Husky => (self.husky.animation.texture.0@, self.husky.out_size, self.husky.animation.tiles),
            AnimationKind::Duck => (self.duck.animation.texture.0@, self.duck.out_size, self.duck.animation.tiles),
            AnimationKind::Coin => (self.coin.animation.texture.0@, self.coin.out_size, self.coin.animation.tiles),
            AnimationKind::Gem => (self.gem.animation.texture.0@, self.gem.out_size, self.gem.animation.tiles),
            AnimationKind::IdleCat => (self.cat.idle.texture.0@, self.cat.out_size, self.cat.idle.tiles),
        }
    }

    pub fn texture<'t>(&'t self, texture: TextureKind) -> (r: TextureData<'t>)
        ensures
            (r.texture@, r.dims) == self.texture_spec(texture),
    {
        match texture {
            TextureKind::Husky => TextureData {
                texture: self.husky.idle_texture.0.as_str(),
                dims: self.husky.out_size,
            },
            TextureKind::Duck => TextureData {
                texture: self.duck.idle_texture.0.as_str(),
                dims: self.duck.out_size,
            },
            TextureKind::Heart => TextureData {
                texture: self.heart.texture.0.as_str(),
                dims: self.heart.out_size,
            },
        }
    }

    pub fn animation<'t>(&'t self, animation: AnimationKind) -> (r: AnimationData<'t>)
        ensures
            (r.texture@, r.dims, r.tiles) == self.animation_spec(animation),
    {
        let (dims, animation) = match animation {
            AnimationKind::Husky => (self.husky.out_size, &self.husky.animation),
            AnimationKind::Duck => (self.duck.out_size, &self.duck.animation),
            AnimationKind::Coin => (self.coin.out_size, &self.coin.animation),
            AnimationKind::Gem => (self.gem.out_size, &self.gem.animation),
            AnimationKind::IdleCat => (self.cat.out_size, &self.cat.idle),
        };
        AnimationData { dims, texture: animation.texture.0.as_str(), tiles: animation.tiles }
    }
}

} // verus!
