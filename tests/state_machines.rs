use husky::action::Action;
use husky::animator::{Animator, Data};
use husky::data::{Animation, Animators, Dimension, Texture};
use husky::game::World;
use husky::game_play::{GamePlay, Running, TimeUp};
use husky::hud::Hud;
use husky::input::{HKey, Input, InputStateExt, Key, Keys};
use husky::menu::{self, Menu};
use husky::outcome::Outcome;
use husky::player::ButtonKind;
use husky::player_select::{PlayerSelect, Selected};
use husky::screen::{Quit, Screen};
use husky::time::Duration;

fn data(frames: u32, millis: u64) -> Data {
    Data::new(frames, Duration::from_millis(millis))
}

fn animators() -> Animators {
    Animators {
        duck: data(4, 100),
        husky: data(6, 50),
        gem: data(3, 120),
        cat_idle: data(2, 200),
        cat_walking: data(5, 80),
        coin: data(8, 60),
    }
}

fn input() -> Input {
    Input { down: Keys::none(), pressed: Keys::none() }
}

fn holding(left: bool, right: bool, space: bool) -> Input {
    let mut i = input();
    i.down.left = left;
    i.down.right = right;
    i.down.space = space;
    i
}

fn pressing(key: Key) -> Input {
    let mut i = input();
    match key {
        Key::Left => i.pressed.left = true,
        Key::Right => i.pressed.right = true,
        Key::Up => i.pressed.up = true,
        Key::Down => i.pressed.down = true,
        Key::Space => i.pressed.space = true,
        Key::Return => i.pressed.enter = true,
    }
    i
}

#[test]
fn frame_wraps_past_a_full_cycle() {
    let mut a = data(4, 100).start();
    assert_eq!(a.frame(), 0);
    a.animate(Duration::from_millis(250));
    assert_eq!(a.frame(), 2);
    a.animate(Duration::from_millis(800));
    // 1050 ms: tick 10, and 10 mod 4 = 2
    assert_eq!(a.frame(), 2);
    a.animate(Duration::from_millis(50));
    assert_eq!(a.frame(), 3);
    a.animate(Duration::from_millis(100));
    assert_eq!(a.frame(), 0);
}

#[test]
fn frame_stays_in_range_for_huge_elapsed() {
    let a = Animator { data: data(7, 3), elapsed: Duration::from_nanos(u64::MAX) };
    assert!(a.frame() < 7);
    let mut b = a;
    b.animate(Duration::from_secs(5));
    assert_eq!(b.elapsed.nanos, u64::MAX);
}

#[test]
fn stop_returns_configuration() {
    let d = data(3, 10);
    let mut a = d.start();
    a.animate(Duration::from_millis(25));
    assert_eq!(a.stop(), d);
}

#[test]
fn hkey_reads_one_arrow_only() {
    assert_eq!(holding(true, false, false).hkey(), Some(HKey::Left));
    assert_eq!(holding(false, true, false).hkey(), Some(HKey::Right));
    assert_eq!(holding(true, true, false).hkey(), None);
    assert_eq!(holding(false, false, false).hkey(), None);
}

#[test]
fn walk_to_walk_keeps_elapsed() {
    let start = Action::Idle { animator: data(4, 100) };
    let walking = start.update(&holding(false, true, false), Duration::from_millis(30));
    match walking {
        Action::Walk { direction, animator } => {
            assert_eq!(direction, HKey::Right);
            assert_eq!(animator.elapsed.nanos, 0);
        }
        _ => panic!("expected a walk"),
    }
    let still_walking = walking.update(&holding(false, true, false), Duration::from_millis(30));
    match still_walking {
        Action::Walk { animator, .. } => assert_eq!(animator.elapsed, Duration::from_millis(30)),
        _ => panic!("expected a walk"),
    }
    let turned = still_walking.update(&holding(true, false, false), Duration::from_millis(40));
    match turned {
        Action::Walk { direction, animator } => {
            assert_eq!(direction, HKey::Left);
            assert_eq!(animator.elapsed, Duration::from_millis(70));
        }
        _ => panic!("expected a walk"),
    }
}

#[test]
fn walk_from_jump_starts_at_zero() {
    let jump = Action::Jump { direction: Some(HKey::Left), animator: data(4, 100) };
    match jump.update(&holding(true, false, false), Duration::from_millis(500)) {
        Action::Walk { animator, .. } => assert_eq!(animator.elapsed.nanos, 0),
        _ => panic!("expected a walk"),
    }
}

#[test]
fn stopping_a_walk_rests() {
    let mut a = data(4, 100).start();
    a.animate(Duration::from_millis(120));
    let walk = Action::Walk { direction: HKey::Left, animator: a };
    assert_eq!(walk.update(&input(), Duration::from_millis(10)), Action::Idle { animator: data(4, 100) });
}

#[test]
fn jump_records_walk_direction() {
    let walk = Action::Walk { direction: HKey::Left, animator: data(4, 100).start() };
    let jump = walk.update(&holding(true, false, true), Duration::from_millis(10));
    assert_eq!(jump, Action::Jump { direction: Some(HKey::Left), animator: data(4, 100) });
    let airborne = jump.update(&holding(false, false, true), Duration::from_millis(10));
    assert_eq!(airborne, Action::Jump { direction: None, animator: data(4, 100) });
}

#[test]
fn hud_timer_underflow_quits() {
    let hud = Hud::new(Duration::from_secs(1), 5);
    assert!(hud.update(0, Duration::from_secs(2)).is_quit());
}

#[test]
fn hud_score_saturates_at_zero() {
    let hud = Hud::new(Duration::from_secs(30), 10);
    match hud.update(-15, Duration::from_millis(500)) {
        Outcome::Running(h) => {
            assert_eq!(h.score, 0);
            assert_eq!(h.timer(), Duration::from_millis(29_500));
        }
        Outcome::Quit(()) => panic!("the round is not over"),
    }
}

#[test]
fn hud_counts_down_to_exactly_zero() {
    let hud = Hud::new(Duration::from_secs(2), 3);
    match hud.update(4, Duration::from_secs(2)) {
        Outcome::Running(h) => {
            assert_eq!(h.score, 7);
            assert!(h.timer.is_zero());
        }
        Outcome::Quit(()) => panic!("zero is not below zero"),
    }
    assert_eq!(Hud::default().timer, Duration::from_secs(100));
    assert_eq!(Hud::default().score, 0);
}

#[test]
fn menu_toggles_and_chooses() {
    let m = Menu::default();
    let m = match m.update(&pressing(Key::Down)) {
        Outcome::Running(m) => m,
        Outcome::Quit(_) => panic!("nothing chosen yet"),
    };
    assert_eq!(m.gui.selected, menu::Kind::HighScore);
    let mut both = pressing(Key::Down);
    both.pressed.up = true;
    let m = match m.update(&both) {
        Outcome::Running(m) => m,
        Outcome::Quit(_) => panic!("nothing chosen yet"),
    };
    assert_eq!(m.gui.selected, menu::Kind::HighScore);
    assert_eq!(m.update(&pressing(Key::Return)), Outcome::Quit(menu::Kind::HighScore));
}

#[test]
fn menu_new_game_leads_to_player_select() {
    let world = World::new(animators());
    let world = world.update(&pressing(Key::Return), Duration::from_millis(33));
    assert_eq!(world.screen, Screen::PlayerSelect(PlayerSelect::new(&animators())));
}

#[test]
fn menu_high_score_and_back() {
    let world = World::new(animators());
    let world = world.update(&pressing(Key::Up), Duration::from_millis(33));
    let world = world.update(&pressing(Key::Return), Duration::from_millis(33));
    assert!(matches!(world.screen, Screen::HighScore(_)));
    let world = world.update(&input(), Duration::from_millis(33));
    assert!(matches!(world.screen, Screen::HighScore(_)));
    let world = world.update(&pressing(Key::Return), Duration::from_millis(33));
    assert_eq!(world.screen, Screen::new());
}

#[test]
fn picking_a_character_starts_a_round() {
    let ps = PlayerSelect::new(&animators());
    let ps = match ps.update(&pressing(Key::Right), Duration::from_millis(10)) {
        Outcome::Running(ps) => ps,
        Outcome::Quit(_) => panic!("not picked yet"),
    };
    assert_eq!(ps.gui.selected, Some(Selected::Duck(animators().duck.start())));
    let ps = match ps.update(&input(), Duration::from_millis(10)) {
        Outcome::Running(ps) => ps,
        Outcome::Quit(_) => panic!("not picked yet"),
    };
    let mut walked = animators().duck.start();
    walked.animate(Duration::from_millis(10));
    assert_eq!(ps.gui.selected, Some(Selected::Duck(walked)));
    let world = World { screen: Screen::PlayerSelect(ps), animators: animators() };
    let world = world.update(&pressing(Key::Return), Duration::from_millis(10));
    assert_eq!(world.screen, Screen::GamePlay(GamePlay::new(ButtonKind::Duck, &animators())));
    assert_eq!(ps.update(&pressing(Key::Return), Duration::from_millis(10)), Outcome::Quit(ButtonKind::Duck));
}

#[test]
fn return_without_highlight_does_nothing() {
    let ps = PlayerSelect::new(&animators());
    assert!(ps.update(&pressing(Key::Return), Duration::from_millis(10)).is_running());
}

#[test]
fn expired_round_turns_to_time_up() {
    let mut running = Running::new(ButtonKind::Husky, &animators());
    running.hud = Hud::new(Duration::from_millis(20), 0);
    let world = World { screen: Screen::GamePlay(GamePlay::Running(running)), animators: animators() };
    let world = world.update(&input(), Duration::from_millis(33));
    assert_eq!(world.screen, Screen::GamePlay(GamePlay::TimeUp(TimeUp {})));
    let world = world.update(&input(), Duration::from_millis(33));
    assert_eq!(world.screen, Screen::GamePlay(GamePlay::TimeUp(TimeUp {})));
    let world = world.update(&pressing(Key::Return), Duration::from_millis(33));
    assert_eq!(world.screen, Screen::new());
}

#[test]
fn screen_quit_signals() {
    let s = Screen::new();
    assert_eq!(s.update(&pressing(Key::Return), Duration::from_millis(1)), Outcome::Quit(Quit::Menu(menu::Kind::NewGame)));
    let gp = Screen::GamePlay(GamePlay::TimeUp(TimeUp {}));
    assert_eq!(gp.update(&pressing(Key::Return), Duration::from_millis(1)), Outcome::Quit(Quit::GamePlay));
}

#[test]
fn animation_config_splits_cycle() {
    let a = Animation {
        texture: Texture("coin.png".to_string()),
        frames: 4,
        tiles: Dimension { x: 4, y: 1 },
        duration: 400,
    };
    assert_eq!(a.animator(), Some(data(4, 100)));
    let none = Animation { frames: 0, ..a.clone() };
    assert_eq!(none.animator(), None);
    let too_short = Animation { frames: 5, duration: 4, ..a };
    assert_eq!(too_short.animator(), None);
}
