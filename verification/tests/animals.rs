use rand::rngs::StdRng;
use rand::SeedableRng;
use weathr::animation::bunny::{
    bunny_frames, render_anchor, Bunny, BunnyActivity, BunnyBounds, BunnySystem, BETWEEN_RUNS_MAX,
    BETWEEN_RUNS_MIN, HOP_FRAME_STEP, SPRITE_HEIGHT, SPRITE_WIDTH,
};
use weathr::animation::cat::{
    cat_sleep_frames, cat_walk_frames, outdoor_allowed, sleep_spot, AnchorBounds, CatActivity,
    CatDraws, CatMind, CatMotion, CatOrder, HouseBounds, RETURN_TIMEOUT, SLEEP_MAX, SLEEP_MIN, WALK_MAX,
    WALK_MIN,
};
use weathr::weather::WeatherConditions;
use weathr::animation::chickens::{
    chicken_frames, chicken_sprite_cells, chicken_top_row, chickens_active, max_x, second_start_x,
    ChickenGait,
};
use weathr::animation::sprite::{clipped_sprite_cells, mirror_char, Cell, SpriteKind};
use weathr::color::Color;
use weathr::scene::lawn_bounds;

fn test_bounds() -> BunnyBounds {
    BunnyBounds::from_lawn(lawn_bounds(80, 24, 17).unwrap()).unwrap()
}

fn x_of(bunny: &Bunny) -> f32 {
    bunny.x_half as f32 / 2.0
}

#[test]
fn bunny_frames_have_fixed_dimensions() {
    for frame in bunny_frames() {
        assert_eq!(frame.len(), SPRITE_HEIGHT as usize);
        for line in frame {
            assert_eq!(line.chars().count(), SPRITE_WIDTH as usize);
        }
    }
}

#[test]
fn bunny_mirroring_reverses_directional_symbols() {
    assert_eq!(mirror_char('/'), '\\');
    assert_eq!(mirror_char('\\'), '/');
    assert_eq!(mirror_char('>'), '<');
    assert_eq!(mirror_char('<'), '>');
    assert_eq!(mirror_char('('), ')');
    assert_eq!(mirror_char(')'), '(');
    assert_eq!(mirror_char('o'), 'o');

    let source = bunny_frames()[0][1];
    let mirrored: String = source.chars().rev().map(mirror_char).collect();
    assert_eq!(mirrored, "  <(o.o) ");
}

#[test]
fn bunny_hop_frame_changes_after_step_interval() {
    let bounds = test_bounds();
    let mut bunny = Bunny::new();
    bunny.initial_delay_selected = true;
    let mut rng = StdRng::seed_from_u64(7);
    bunny.advance(80, bounds, &mut rng);
    assert_eq!(bunny.activity, BunnyActivity::Hopping);
    assert_eq!(bunny.hop_frame, 0);

    for _ in 0..HOP_FRAME_STEP {
        bunny.advance(80, bounds, &mut rng);
    }
    assert_eq!(bunny.hop_frame, 1);
    assert_ne!(bunny_frames()[0], bunny_frames()[1]);
}

#[test]
fn bunny_spawns_at_edge_moves_and_despawns_after_crossing() {
    let bounds = test_bounds();
    let mut bunny = Bunny::new();
    let mut rng = StdRng::seed_from_u64(9);
    bunny.spawn(80, bounds, &mut rng);
    let direction = bunny.direction;
    let spawn_x = x_of(&bunny);
    assert_eq!(spawn_x, if direction > 0 { -9.0 } else { 80.0 });

    bunny.advance(80, bounds, &mut rng);
    assert!(bunny.activity == BunnyActivity::Hopping);
    assert_ne!(x_of(&bunny), spawn_x);

    for _ in 0..400 {
        if bunny.activity == BunnyActivity::Waiting {
            break;
        }
        bunny.advance(80, bounds, &mut rng);
    }
    assert_eq!(bunny.activity, BunnyActivity::Waiting);
    assert!(if direction > 0 {
        x_of(&bunny) >= 80.0
    } else {
        x_of(&bunny) <= -9.0
    });
    assert!(bunny.wait_timer >= BETWEEN_RUNS_MIN);
}

#[test]
fn tiny_lawn_has_no_render_anchor() {
    let mut bunny = Bunny::new();
    bunny.activity = BunnyActivity::Hopping;
    bunny.x_half = 0;
    bunny.y = 0;

    let narrow_lawn = lawn_bounds(8, 24, 17).unwrap();
    assert!(render_anchor(narrow_lawn, &bunny).is_none());

    let shallow_lawn = lawn_bounds(80, 4, 2).unwrap();
    assert!(render_anchor(shallow_lawn, &bunny).is_none());
}

#[test]
fn waiting_bunny_picks_a_short_first_delay_then_spawns() {
    let bounds = test_bounds();
    let mut bunny = Bunny::new();
    let mut rng = StdRng::seed_from_u64(3);
    bunny.advance(80, bounds, &mut rng);
    assert_eq!(bunny.activity, BunnyActivity::Waiting);
    assert!(bunny.initial_delay_selected);
    assert!((1..=45).contains(&bunny.wait_timer));
    let delay = bunny.wait_timer;
    for _ in 0..delay {
        bunny.advance(80, bounds, &mut rng);
    }
    assert_eq!(bunny.wait_timer, 0);
    assert_eq!(bunny.activity, BunnyActivity::Waiting);
    bunny.advance(80, bounds, &mut rng);
    assert_eq!(bunny.activity, BunnyActivity::Hopping);
    assert_eq!(bunny.y, 20);
}

#[test]
fn finished_run_waits_between_the_run_limits() {
    let mut rng = StdRng::seed_from_u64(11);
    for _ in 0..50 {
        let mut bunny = Bunny::new();
        bunny.activity = BunnyActivity::Hopping;
        bunny.finish_run(&mut rng);
        assert_eq!(bunny.activity, BunnyActivity::Waiting);
        assert!((BETWEEN_RUNS_MIN..=BETWEEN_RUNS_MAX).contains(&bunny.wait_timer));
    }
}

#[test]
fn coin_flip_spawns_bunnies_on_both_sides() {
    let mut rng = StdRng::seed_from_u64(5);
    let mut seen = [false, false];
    for _ in 0..64 {
        let mut bunny = Bunny::new();
        bunny.spawn(80, test_bounds(), &mut rng);
        if bunny.direction > 0 {
            assert_eq!(bunny.x_half, -18);
            seen[0] = true;
        } else {
            assert_eq!(bunny.x_half, 160);
            seen[1] = true;
        }
    }
    assert_eq!(seen, [true, true]);
}

#[test]
fn hopping_bunny_is_drawn_clipped_at_the_left_edge() {
    let mut system = BunnySystem::new(80, 24);
    system.bunny.activity = BunnyActivity::Hopping;
    system.bunny.x_half = -9;
    system.bunny.y = 20;
    let cells = system.cells(80, 24, 17);
    assert!(!cells.is_empty());
    assert!(cells.iter().all(|c| c.x < 80 && (20..23).contains(&c.y) && c.ch != ' '));
    // Anchor column is floor(-4.5) = -5: the sprite's column 5 lands on x = 0.
    assert!(cells.contains(&Cell { x: 0, y: 21, ch: ')', color: Color::Grey }));
    assert!(cells.contains(&Cell { x: 1, y: 21, ch: '>', color: Color::Yellow }));
    system.bunny.activity = BunnyActivity::Waiting;
    assert!(system.cells(80, 24, 17).is_empty());
    assert_eq!(system.id(), "bunny");
}

#[test]
fn left_facing_sprite_is_mirrored_and_clipped() {
    let frame = bunny_frames()[0];
    let right = clipped_sprite_cells(&frame, 0, 0, 1, 80, 24, SpriteKind::Bunny);
    let left = clipped_sprite_cells(&frame, 0, 0, -1, 80, 24, SpriteKind::Bunny);
    assert_eq!(right.len(), left.len());
    assert!(right.contains(&Cell { x: 6, y: 1, ch: '>', color: Color::Yellow }));
    assert!(left.contains(&Cell { x: 2, y: 1, ch: '<', color: Color::Yellow }));
    let off_bottom = clipped_sprite_cells(&frame, 0, 23, 1, 80, 24, SpriteKind::Bunny);
    assert!(off_bottom.iter().all(|c| c.y == 23));
    assert!(clipped_sprite_cells(&frame, 0, 0, 1, 0, 24, SpriteKind::Bunny).is_empty());
}

#[test]
fn cat_frames_have_fixed_dimensions() {
    for frames in [&cat_walk_frames()[..], &cat_sleep_frames()[..]] {
        for frame in frames {
            for line in frame {
                assert_eq!(line.chars().count(), weathr::animation::cat::SPRITE_WIDTH as usize);
            }
        }
    }
}

#[test]
fn cat_sleep_frames_keep_eyes_closed() {
    for frame in cat_sleep_frames() {
        assert!(frame[1].contains("-.-"));
        assert!(!frame[1].contains("o.o"));
    }
}

#[test]
fn cat_mirror_preserves_non_directional_symbols() {
    assert_eq!(mirror_char('/'), '\\');
    assert_eq!(mirror_char('o'), 'o');
    assert_eq!(mirror_char('^'), '^');
}

#[test]
fn cat_anchor_bounds_shrink_the_lawn_by_the_sprite() {
    let lawn = lawn_bounds(80, 24, 17).unwrap();
    let bounds = AnchorBounds::from_lawn(lawn).unwrap();
    assert_eq!(bounds, AnchorBounds { left: 0, right: 71, top: 17, bottom: 20 });
    assert!(AnchorBounds::from_lawn(lawn_bounds(8, 24, 17).unwrap()).is_none());
    assert_eq!(bounds.clamp_column(90), 71);
    assert_eq!(bounds.clamp_row(3), 17);
}

#[test]
fn cat_sleeps_right_of_a_narrow_house_and_left_of_a_wide_one() {
    let bounds = AnchorBounds::from_lawn(lawn_bounds(100, 24, 17).unwrap()).unwrap();
    let house = HouseBounds { left: 18, right: 81, bottom: 16 };
    assert_eq!(sleep_spot(bounds, house), (82, 17));
    let narrow = AnchorBounds::from_lawn(lawn_bounds(80, 24, 17).unwrap()).unwrap();
    let wide_house = HouseBounds { left: 8, right: 71, bottom: 16 };
    assert_eq!(sleep_spot(narrow, wide_house), (0, 17));
}

#[test]
fn chicken_frames_have_fixed_dimensions() {
    for frame in chicken_frames() {
        for line in frame {
            assert_eq!(line.chars().count(), weathr::animation::chickens::SPRITE_WIDTH as usize);
        }
    }
}

#[test]
fn chicken_mirror_changes_facing_symbols() {
    assert_eq!(mirror_char('>'), '<');
    assert_eq!(mirror_char('/'), '\\');
    assert_eq!(mirror_char('o'), 'o');
}

#[test]
fn chickens_walk_between_column_one_and_the_right_limit() {
    assert_eq!(max_x(80), 74);
    assert_eq!(max_x(4), 0);
    assert_eq!(second_start_x(80), 45);
    assert_eq!(second_start_x(20), 14);
    assert_eq!(second_start_x(3), 1);
    assert_eq!(chicken_top_row(17), 15);
}

#[test]
fn chicken_cells_mirror_the_beak_when_walking_left() {
    let frame = chicken_frames()[0];
    let right = chicken_sprite_cells(&frame, 10, 5, 1);
    assert!(right.contains(&Cell { x: 14, y: 6, ch: '>', color: Color::Yellow }));
    let left = chicken_sprite_cells(&frame, 10, 5, -1);
    assert!(left.contains(&Cell { x: 10, y: 6, ch: '<', color: Color::Yellow }));
    assert!(left.contains(&Cell { x: 12, y: 6, ch: 'o', color: Color::DarkGrey }));
}

fn cat_bounds() -> AnchorBounds {
    AnchorBounds::from_lawn(lawn_bounds(80, 24, 17).unwrap()).unwrap()
}

fn cat_frame(mind: &mut CatMind, outdoor: bool, outcome: bool, rng: &mut StdRng) -> (CatMotion, CatOrder, CatOrder) {
    let bounds = cat_bounds();
    let (motion, first) = mind.begin(outdoor, bounds, 0, rng);
    let second = mind.end(motion, outcome, outdoor, bounds, rng);
    (motion, first, second)
}

#[test]
fn sleeping_cat_counts_down_without_redeciding() {
    let mut mind = CatMind::new();
    let mut rng = StdRng::seed_from_u64(21);
    assert_eq!(mind.state, CatActivity::Sleeping);
    assert_eq!(mind.state_timer, SLEEP_MIN);
    let (motion, first, second) = cat_frame(&mut mind, true, false, &mut rng);
    assert_eq!((motion, first, second), (CatMotion::Rest, CatOrder::Keep, CatOrder::Keep));
    assert_eq!(mind.state, CatActivity::Sleeping);
    assert_eq!(mind.state_timer, SLEEP_MIN - 1);
    cat_frame(&mut mind, true, false, &mut rng);
    assert_eq!(mind.state, CatActivity::Sleeping);
    assert_eq!(mind.state_timer, SLEEP_MIN - 2);
    // At night the timer does not run.
    cat_frame(&mut mind, false, false, &mut rng);
    assert_eq!(mind.state_timer, SLEEP_MIN - 2);
}

#[test]
fn first_wake_always_wanders_to_a_spot_on_the_lawn() {
    let bounds = cat_bounds();
    let mut walk_times = Vec::new();
    for seed in 0..20 {
        let mut mind = CatMind::new();
        let mut rng = StdRng::seed_from_u64(seed);
        mind.state_timer = 0;
        let (motion, order) = mind.begin(true, bounds, 0, &mut rng);
        assert_eq!(motion, CatMotion::Rest);
        assert_eq!(mind.state, CatActivity::Wandering);
        assert!(mind.has_woken);
        assert!(WALK_MIN <= mind.state_timer && mind.state_timer <= WALK_MAX);
        walk_times.push(mind.state_timer);
        match order {
            CatOrder::WalkTo(x, y) => {
                assert!(bounds.left <= x && x <= bounds.right);
                assert!(bounds.top <= y && y <= bounds.bottom);
                assert_eq!(mind.direction, 1);
            }
            other => panic!("expected a walk, got {:?}", other),
        }
    }
    // The walking time is drawn, not fixed at either end of its range.
    assert!(walk_times.iter().any(|&t| t != WALK_MIN));
    assert!(walk_times.iter().any(|&t| t != WALK_MAX));
}

#[test]
fn later_wakes_stay_asleep_wander_or_hunt() {
    let bounds = cat_bounds();
    let mut seen_sleep = false;
    let mut seen_walk = false;
    for seed in 0..200 {
        let mut mind = CatMind::new();
        mind.has_woken = true;
        mind.state_timer = 0;
        let mut rng = StdRng::seed_from_u64(seed);
        let (_, order) = mind.begin(true, bounds, 0, &mut rng);
        match mind.state {
            CatActivity::Sleeping => {
                seen_sleep = true;
                assert!(SLEEP_MIN <= mind.state_timer && mind.state_timer <= SLEEP_MAX);
                assert_eq!(order, CatOrder::Keep);
            }
            CatActivity::Wandering => {
                seen_walk = true;
                assert!(matches!(order, CatOrder::WalkTo(..)));
            }
            CatActivity::Hunting => {
                assert_eq!(mind.state_timer, RETURN_TIMEOUT);
                assert!(mind.direction == 1 || mind.direction == -1);
            }
            CatActivity::Returning => panic!("a waking cat does not return"),
        }
    }
    assert!(seen_sleep && seen_walk);
}

#[test]
fn night_turns_a_hunting_cat_home_in_the_same_frame() {
    let bounds = cat_bounds();
    let mut mind = CatMind::new();
    mind.state = CatActivity::Hunting;
    mind.state_timer = 50;
    let mut rng = StdRng::seed_from_u64(2);
    let (motion, order) = mind.begin(false, bounds, 0, &mut rng);
    assert_eq!(mind.state, CatActivity::Returning);
    assert_eq!(mind.state_timer, RETURN_TIMEOUT);
    assert_eq!(motion, CatMotion::Walk);
    assert_eq!(order, CatOrder::HeadHome);
}

#[test]
fn run_ends_off_screen_and_walk_home_ends_asleep() {
    let bounds = cat_bounds();
    let mut mind = CatMind::new();
    mind.state = CatActivity::Hunting;
    mind.state_timer = RETURN_TIMEOUT;
    mind.direction = -1;
    let mut rng = StdRng::seed_from_u64(1);
    let (motion, order) = mind.begin(true, bounds, 0, &mut rng);
    assert_eq!((motion, order), (CatMotion::Run, CatOrder::Keep));
    assert_eq!(mind.end(CatMotion::Run, false, true, bounds, &mut rng), CatOrder::Keep);
    assert_eq!(mind.state, CatActivity::Hunting);
    assert_eq!(mind.state_timer, RETURN_TIMEOUT - 1);
    assert_eq!(mind.end(CatMotion::Run, true, true, bounds, &mut rng), CatOrder::HeadHome);
    assert_eq!(mind.state, CatActivity::Returning);
    let (motion, order) = mind.begin(true, bounds, 0, &mut rng);
    assert_eq!((motion, order), (CatMotion::Walk, CatOrder::Keep));
    assert_eq!(mind.end(CatMotion::Walk, true, true, bounds, &mut rng), CatOrder::LieDown);
    assert_eq!(mind.state, CatActivity::Sleeping);
    assert_eq!(mind.direction, 1);
    assert!(SLEEP_MIN <= mind.state_timer && mind.state_timer <= SLEEP_MAX);
}

#[test]
fn overdue_return_gets_a_new_window_instead_of_a_jump_home() {
    let bounds = cat_bounds();
    let mut mind = CatMind::new();
    mind.state = CatActivity::Returning;
    mind.state_timer = 1;
    let mut rng = StdRng::seed_from_u64(9);
    let (motion, order) = mind.begin(false, bounds, 0, &mut rng);
    assert_eq!((motion, order), (CatMotion::Walk, CatOrder::Keep));
    assert_eq!(mind.end(motion, false, false, bounds, &mut rng), CatOrder::Keep);
    assert_eq!(mind.state, CatActivity::Returning);
    assert_eq!(mind.state_timer, RETURN_TIMEOUT);
}

#[test]
fn cat_faces_its_target_and_cycles_its_poses() {
    let mut mind = CatMind::new();
    mind.face(-1);
    assert_eq!(mind.direction, -1);
    mind.face(0);
    assert_eq!(mind.direction, -1);
    mind.face(1);
    assert_eq!(mind.direction, 1);
    assert_eq!(mind.frame(), cat_sleep_frames()[0]);
    let bounds = cat_bounds();
    let mut rng = StdRng::seed_from_u64(4);
    for _ in 0..15 {
        mind.end(CatMotion::Rest, false, true, bounds, &mut rng);
    }
    assert_eq!(mind.frame_index, 1);
    assert_eq!(mind.frame_tick, 0);
    assert_eq!(mind.frame(), cat_sleep_frames()[1]);
    mind.state = CatActivity::Wandering;
    mind.frame_index = 6;
    assert_eq!(mind.frame(), cat_walk_frames()[2]);
}

#[test]
fn cat_goes_out_only_in_fair_daylight() {
    let mut conditions = WeatherConditions::default();
    assert!(outdoor_allowed(&conditions));
    conditions.is_foggy = true;
    assert!(outdoor_allowed(&conditions));
    conditions.is_raining = true;
    assert!(!outdoor_allowed(&conditions));
    conditions.is_raining = false;
    conditions.is_day = false;
    assert!(!outdoor_allowed(&conditions));
}

#[test]
fn chicken_gait_changes_pose_every_fourth_tick_and_wraps() {
    let mut gait = ChickenGait::new();
    for _ in 0..3 {
        gait.tick();
    }
    assert_eq!(gait, ChickenGait { frame_index: 0, frame_tick: 3 });
    gait.tick();
    assert_eq!(gait, ChickenGait { frame_index: 1, frame_tick: 0 });
    for _ in 0..12 {
        gait.tick();
    }
    assert_eq!(gait, ChickenGait { frame_index: 0, frame_tick: 0 });
}

#[test]
fn chickens_stay_in_at_night_and_in_bad_weather() {
    let mut conditions = WeatherConditions::default();
    assert!(chickens_active(&conditions));
    conditions.is_snowing = true;
    assert!(!chickens_active(&conditions));
    conditions.is_snowing = false;
    conditions.is_thunderstorm = true;
    assert!(!chickens_active(&conditions));
    conditions.is_thunderstorm = false;
    conditions.is_day = false;
    assert!(!chickens_active(&conditions));
}

fn draws(wake_roll: u8, hunt_roll: u8) -> CatDraws {
    CatDraws {
        wake_roll,
        hunt_roll,
        hunt_left: true,
        walk_time: 120,
        target_x: 30,
        target_y: 18,
        sleep_time: 300,
    }
}

#[test]
fn later_wakes_follow_the_wake_and_hunt_chances() {
    let mut asleep = CatMind::new();
    asleep.has_woken = true;
    asleep.state_timer = 0;
    // A roll of 32 or more keeps the cat asleep for a fresh sleeping time.
    let (m, motion, order) = CatMind::decide(asleep, true, 0, draws(32, 0));
    assert_eq!((m.state, m.state_timer, motion, order), (CatActivity::Sleeping, 300, CatMotion::Rest, CatOrder::Keep));
    // Below 32 it wakes; a hunt roll below 20 makes it hunt, leftwards here.
    let (m, _, order) = CatMind::decide(asleep, true, 0, draws(31, 19));
    assert_eq!((m.state, m.state_timer, m.direction, order), (CatActivity::Hunting, RETURN_TIMEOUT, -1, CatOrder::Keep));
    // Otherwise it wanders to the drawn spot for the drawn time.
    let (m, _, order) = CatMind::decide(asleep, true, 0, draws(0, 20));
    assert_eq!((m.state, m.state_timer, m.direction, order), (CatActivity::Wandering, 120, 1, CatOrder::WalkTo(30, 18)));
    // The first wake ignores both rolls.
    let mut first = asleep;
    first.has_woken = false;
    let (m, _, order) = CatMind::decide(first, true, 0, draws(99, 0));
    assert_eq!((m.state, m.has_woken, order), (CatActivity::Wandering, true, CatOrder::WalkTo(30, 18)));
}

#[test]
fn settling_a_frame_follows_the_outcome_and_draws() {
    let mut walking = CatMind::new();
    walking.state = CatActivity::Wandering;
    walking.state_timer = 10;
    let (m, order) = CatMind::settle(walking, CatMotion::Walk, false, true, draws(0, 0));
    assert_eq!((m.state, m.state_timer, m.frame_tick, order), (CatActivity::Wandering, 9, 1, CatOrder::Keep));
    let (m, order) = CatMind::settle(walking, CatMotion::Walk, true, true, draws(0, 50));
    assert_eq!((m.state, order), (CatActivity::Returning, CatOrder::HeadHome));
    let (m, order) = CatMind::settle(walking, CatMotion::Walk, true, true, draws(0, 5));
    assert_eq!((m.state, m.direction, order), (CatActivity::Hunting, -1, CatOrder::Keep));
    let mut home = CatMind::new();
    home.state = CatActivity::Returning;
    home.direction = -1;
    let (m, order) = CatMind::settle(home, CatMotion::Walk, true, true, draws(0, 0));
    assert_eq!((m.state, m.state_timer, m.direction, order), (CatActivity::Sleeping, 300, 1, CatOrder::LieDown));
}
