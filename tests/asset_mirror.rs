use husky::action::Action;
use husky::animator::Data;
use husky::asset::{self, Color, Error, FontFace, Helper, Loader};
use husky::data::{self, Animators, Dimension, Game};
use husky::game::{self, World};
use husky::game_play::{self, GamePlay, Running, TimeUp};
use husky::high_score::score_line;
use husky::hud::{self, Hud};
use husky::input::{HKey, Input, Keys};
use husky::menu::Menu;
use husky::player::{self, ButtonKind, Flip, Player};
use husky::player_select::{Button, PlayerSelect};
use husky::score::Score;
use husky::screen::{self, Screen};
use husky::text::{Pattern, Text};
use husky::time::Duration;

use std::rc::Rc;

#[derive(Clone, Debug, PartialEq)]
struct Tex(String);

struct FakeFont {
    size: u16,
}

impl FontFace for FakeFont {
    type Texture = Tex;

    fn measure(&self, text: &str) -> Result<Dimension, Error> {
        Ok(Dimension { x: text.len() as u32 * self.size as u32, y: self.size as u32 })
    }

    fn texturize(&self, text: &str, _color: Color) -> Result<Tex, Error> {
        Ok(Tex(text.to_string()))
    }
}

#[derive(Default)]
struct CountingLoader {
    textures: Vec<String>,
    fonts: Vec<(String, u16)>,
    fail_fonts: bool,
}

impl Loader for CountingLoader {
    type Texture = Tex;
    type Font = FakeFont;

    fn load_texture(&mut self, path: &str) -> Result<Tex, Error> {
        self.textures.push(path.to_string());
        Ok(Tex(path.to_string()))
    }

    fn load_font(&mut self, path: &str, size: u16) -> Result<Rc<FakeFont>, Error> {
        if self.fail_fonts {
            return Err(Error::ResourceLoadFailure(path.to_string()));
        }
        self.fonts.push((path.to_string(), size));
        Ok(Rc::new(FakeFont { size }))
    }

    fn high_scores(&mut self) -> Vec<Score> {
        vec![Score { points: 1234, name: "ana".to_string() }]
    }
}

fn tex(name: &str) -> data::Texture {
    data::Texture(name.to_string())
}

fn anim(name: &str, frames: u32) -> data::Animation {
    data::Animation { texture: tex(name), frames, tiles: Dimension { x: frames, y: 1 }, duration: 100 * frames as u64 }
}

fn dims(x: u32, y: u32) -> Dimension {
    Dimension { x, y }
}

fn game_data() -> Game {
    let player = |n: &str| data::Player {
        animation: anim(&format!("{}_walk.png", n), 4),
        idle_texture: tex(&format!("{}.png", n)),
        out_size: dims(32, 48),
    };
    let collectable = |n: &str| data::Collectable { animation: anim(n, 6), out_size: dims(16, 16), score: 10 };
    let image = |n: &str| data::Image { texture: tex(n), out_size: dims(20, 20) };
    Game {
        duck: player("duck"),
        husky: player("husky"),
        ground: data::Ground {
            center: tex("c.png"),
            left: tex("l.png"),
            right: tex("r.png"),
            top: tex("t.png"),
            top_left: tex("tl.png"),
            top_right: tex("tr.png"),
            out_size: dims(64, 64),
        },
        gem: collectable("gem.png"),
        coin: collectable("coin.png"),
        cat: data::Cat { idle: anim("cat_idle.png", 2), walking: anim("cat_walk.png", 4), out_size: dims(40, 30) },
        background: image("bg.png"),
        goal: image("goal.png"),
        heart: image("heart.png"),
        spike: image("spike.png"),
    }
}

fn helper() -> Helper<CountingLoader> {
    Helper::new(CountingLoader::default(), game_data())
}

fn animators() -> Animators {
    game_data().animators().unwrap()
}

fn input() -> Input {
    Input { down: Keys::none(), pressed: Keys::none() }
}

fn enter() -> Input {
    let mut i = input();
    i.pressed.enter = true;
    i
}

#[test]
fn font_paths() {
    assert_eq!(asset::Font::KenPixel.path(), "media/fonts/kenpixel_mini.ttf");
    assert_eq!(asset::Font::Joystix.path(), "media/fonts/joystix.monospace.ttf");
}

#[test]
fn helper_loads_from_sprite_dir_with_data_sizes() {
    let mut h = helper();
    let image = h.image(asset::Texture::Duck).unwrap();
    assert_eq!(image.texture, Tex("media/sprites/duck.png".to_string()));
    assert_eq!(image.dims, dims(32, 48));
    let sprite = h.sprite(asset::Animation::IdleCat).unwrap();
    assert_eq!(sprite.dims, dims(40, 30));
    assert_eq!(sprite.sheet.tiles, dims(2, 1));
    assert_eq!(sprite.sheet.texture, Tex("media/sprites/cat_idle.png".to_string()));
    assert_eq!(sprite.tile, 0);
    assert_eq!(h.loader.textures.len(), 2);
}

#[test]
fn game_data_animators() {
    let a = animators();
    assert_eq!(a.duck, Data::new(4, Duration::from_millis(100)));
    assert_eq!(a.cat_idle, Data::new(2, Duration::from_millis(100)));
    let t = game_data();
    assert_eq!(t.texture(asset::Texture::Heart).texture, "heart.png");
    assert_eq!(t.animation(asset::Animation::Gem).tiles, dims(6, 1));
}

#[test]
fn patterns_pad_with_zeros() {
    let p = Pattern { prefix: "Time: ", width: 3 };
    assert_eq!(p.render(7), "Time: 007");
    assert_eq!(p.render(1234), "Time: 1234");
    assert_eq!(hud::score_pattern().render(42), "Score: 00042");
    assert_eq!(Pattern { prefix: "", width: 0 }.render(0), "0");
    assert_eq!(Pattern { prefix: "", width: 0 }.render(u64::MAX), "18446744073709551615");
}

#[test]
fn score_lines_align() {
    assert_eq!(score_line(1234, "ana"), "001234        ana");
    assert_eq!(score_line(7, "abcdefgh"), "000007     abcdefgh");
}

#[test]
fn text_renders_again_only_on_change() {
    let font = Rc::new(FakeFont { size: 8 });
    let mut t: Text<Tex, FakeFont, Duration> =
        Text::load(Duration::from_millis(5_400), font, hud::timer_pattern()).unwrap();
    assert_eq!(t.texture, Tex("Time: 005".to_string()));
    t.update(Duration::from_millis(5_001)).unwrap();
    assert_eq!(t.texture, Tex("Time: 005".to_string()));
    assert_eq!(t.value, Duration::from_millis(5_400));
    t.update(Duration::from_millis(4_999)).unwrap();
    assert_eq!(t.texture, Tex("Time: 004".to_string()));
}

#[test]
fn hud_mirror_follows_countdown() {
    let mut h = helper();
    let hud = Hud::new(Duration::from_secs(12), 3);
    let a = hud::Assets::load(&hud, &mut h).unwrap();
    assert_eq!(a.timer.texture, Tex("Time: 012".to_string()));
    assert_eq!(a.score.texture, Tex("Score: 00003".to_string()));
    let a = a.next(&Hud::new(Duration::from_secs(9), 3)).unwrap();
    assert_eq!(a.timer.texture, Tex("Time: 009".to_string()));
    assert_eq!(h.loader.fonts.len(), 1);
}

#[test]
fn menu_mirror_reloads_for_player_select() {
    let mut h = helper();
    let world = World::new(animators());
    let assets = game::Assets::load(&world, &mut h).unwrap();
    assert!(matches!(assets.screen, screen::Assets::Menu(_)));
    let loaded = (h.loader.textures.len(), h.loader.fonts.len());

    let same = world.update(&input(), Duration::from_millis(33));
    let assets = assets.next(&same, &mut h).unwrap();
    assert_eq!((h.loader.textures.len(), h.loader.fonts.len()), loaded);

    let world = same.update(&enter(), Duration::from_millis(33));
    assert_eq!(world.screen, Screen::PlayerSelect(PlayerSelect::new(&animators())));
    let assets = assets.next(&world, &mut h).unwrap();
    assert!(matches!(assets.screen, screen::Assets::PlayerSelect(_)));
    assert!(h.loader.textures.len() > loaded.0);
    assert!(h.loader.fonts.len() > loaded.1);
}

#[test]
fn time_up_rebuild_loads_only_its_font() {
    let mut h = helper();
    let mut running = Running::new(ButtonKind::Duck, &animators());
    running.hud = Hud::new(Duration::from_millis(10), 0);
    let world = World { screen: Screen::GamePlay(GamePlay::Running(running)), animators: animators() };
    let assets = game::Assets::load(&world, &mut h).unwrap();
    let textures = h.loader.textures.len();
    let fonts = h.loader.fonts.len();

    let world = world.update(&input(), Duration::from_millis(33));
    assert_eq!(world.screen, Screen::GamePlay(GamePlay::TimeUp(TimeUp {})));
    let assets = assets.next(&world, &mut h).unwrap();
    match assets.screen {
        screen::Assets::GamePlay(game_play::Assets::TimeUp(t)) => {
            assert_eq!(t.alert.texture, Tex("TIME'S UP".to_string()));
        }
        _ => panic!("expected the time-up assets"),
    }
    assert_eq!(h.loader.textures.len(), textures);
    assert_eq!(h.loader.fonts.len(), fonts + 1);
    assert_eq!(h.loader.fonts[fonts].1, 48);
}

#[test]
fn time_up_cannot_be_loaded_cold() {
    let mut h = helper();
    let r = game_play::Assets::load(&GamePlay::TimeUp(TimeUp {}), &mut h);
    assert!(matches!(r, Err(Error::ConfigurationInconsistency)));
    assert!(h.loader.textures.is_empty());
}

#[test]
fn font_failure_aborts_load() {
    let mut h = Helper::new(CountingLoader { fail_fonts: true, ..CountingLoader::default() }, game_data());
    let r = screen::Assets::load(&Screen::new(), &mut h);
    assert!(matches!(r, Err(Error::ResourceLoadFailure(_))));
}

#[test]
fn high_score_mirror_has_a_line_per_score() {
    let mut h = helper();
    let world = World { screen: Screen::HighScore(husky::high_score::HighScore {}), animators: animators() };
    let assets = game::Assets::load(&world, &mut h).unwrap();
    match assets.screen {
        screen::Assets::HighScore(hs) => {
            assert_eq!(hs.scores.len(), 1);
            assert_eq!(hs.scores[0].texture, Tex("001234        ana".to_string()));
        }
        _ => panic!("expected the high-score assets"),
    }
}

#[test]
fn jump_keeps_flip_after_release() {
    let mut h = helper();
    let mut p = Player::new(ButtonKind::Husky, &animators());
    let mut assets = player::Assets::load(&p, &mut h).unwrap();
    assert_eq!(assets.flip, None);

    let mut walk_left = input();
    walk_left.down.left = true;
    p.update(&walk_left, Duration::from_millis(30));
    assets = assets.next(&p);
    assert_eq!(assets.flip, Some(Flip::Horizontal));
    assert!(matches!(assets.action, player::ActionAssets::Animated(_, _)));

    let mut jump_left = walk_left;
    jump_left.down.space = true;
    p.update(&jump_left, Duration::from_millis(30));
    assert_eq!(p.action, Action::Jump { direction: Some(HKey::Left), animator: animators().husky });
    assets = assets.next(&p);
    assert_eq!(assets.flip, Some(Flip::Horizontal));
    assert!(matches!(assets.action, player::ActionAssets::Idle(_, _)));

    let mut airborne = input();
    airborne.down.space = true;
    p.update(&airborne, Duration::from_millis(30));
    assert_eq!(p.action, Action::Jump { direction: None, animator: animators().husky });
    assets = assets.next(&p);
    assert_eq!(assets.flip, Some(Flip::Horizontal));

    let mut walk_right = input();
    walk_right.down.right = true;
    p.update(&walk_right, Duration::from_millis(30));
    assets = assets.next(&p);
    assert_eq!(assets.flip, None);
}

#[test]
fn walking_sprite_follows_frame() {
    let mut h = helper();
    let mut p = Player::new(ButtonKind::Duck, &animators());
    let mut assets = player::Assets::load(&p, &mut h).unwrap();
    let mut right = input();
    right.down.right = true;
    p.update(&right, Duration::from_millis(0));
    p.update(&right, Duration::from_millis(250));
    assets = assets.next(&p);
    match &assets.action {
        player::ActionAssets::Animated(s, pose) => {
            assert_eq!(s.tile, 2);
            assert_eq!(*pose, Tex("media/sprites/duck.png".to_string()));
        }
        _ => panic!("expected the walk"),
    }
    assert_eq!(h.loader.textures.len(), 2);
}

#[test]
fn menu_mirror_tracks_selection() {
    let mut h = helper();
    let m = Menu::default();
    let assets = husky::menu::Assets::load(&m, &mut h).unwrap();
    let mut down = input();
    down.pressed.down = true;
    let m = match m.update(&down) {
        husky::outcome::Outcome::Running(m) => m,
        _ => panic!("not chosen"),
    };
    let assets = assets.next(&m);
    assert_eq!(assets.gui.selected, husky::menu::Kind::HighScore);
    assert_eq!(assets.husky.dims, dims(64, 96));
}

#[test]
fn button_round_trip_keeps_size() {
    let sheet = husky::asset::TileSheet { texture: Tex("sheet".to_string()), tiles: dims(4, 1) };
    let image = husky::asset::Image { texture: Tex("pose".to_string()), dims: dims(64, 96) };
    let picker = husky::asset::Image { texture: Tex("heart".to_string()), dims: dims(20, 20) };
    let b: Button<Tex> = Button::Idle(image, sheet, picker);
    let walking = b.selected(3);
    match &walking {
        Button::Selected(s, pose, p) => {
            assert_eq!(s.tile, 3);
            assert_eq!(s.dims, dims(64, 96));
            assert_eq!(*pose, Tex("pose".to_string()));
            assert_eq!(p.texture, Tex("heart".to_string()));
        }
        Button::Idle(..) => panic!("expected the walk"),
    }
    match walking.deselected().deselected() {
        Button::Idle(i, s, p) => {
            assert_eq!(i.texture, Tex("pose".to_string()));
            assert_eq!(i.dims, dims(64, 96));
            assert_eq!(s.texture, Tex("sheet".to_string()));
            assert_eq!(p.dims, dims(20, 20));
        }
        Button::Selected(..) => panic!("expected the pose"),
    }
}

#[test]
fn high_score_mirror_is_kept() {
    let mut h = helper();
    let world = World { screen: Screen::HighScore(husky::high_score::HighScore {}), animators: animators() };
    let assets = game::Assets::load(&world, &mut h).unwrap();
    let loads = (h.loader.textures.len(), h.loader.fonts.len());
    let assets = assets.next(&world.update(&input(), Duration::from_millis(33)), &mut h).unwrap();
    assert_eq!((h.loader.textures.len(), h.loader.fonts.len()), loads);
    match assets.screen {
        screen::Assets::HighScore(hs) => assert_eq!(hs.title.texture, Tex("High Scores".to_string())),
        _ => panic!("expected the high-score assets"),
    }
}

#[test]
fn round_loads_player_at_data_size() {
    let mut h = helper();
    let p = Player::new(ButtonKind::Husky, &animators());
    let a = player::Assets::load(&p, &mut h).unwrap();
    match &a.action {
        player::ActionAssets::Idle(i, s) => {
            assert_eq!(i.dims, dims(32, 48));
            assert_eq!(s.tiles, dims(4, 1));
            assert_eq!(s.texture, Tex("media/sprites/husky_walk.png".to_string()));
        }
        _ => panic!("a fresh player is at rest"),
    }
}

#[test]
fn time_up_cannot_follow_a_menu_mirror() {
    let mut h = helper();
    let menu_world = World::new(animators());
    let assets = game::Assets::load(&menu_world, &mut h).unwrap();
    let world = World { screen: Screen::GamePlay(GamePlay::TimeUp(TimeUp {})), animators: animators() };
    assert!(matches!(assets.next(&world, &mut h), Err(Error::ConfigurationInconsistency)));
}
