use biggun::config::Config;
use biggun::fish::{
    depth_within_floor, Direction, Fish, FishState, FishStats, Heading, Species, MAX_STRUGGLE,
    MIN_STRUGGLE,
};
use biggun::hook::{Controls, Hook};
use biggun::physics::{Position, Velocity};
use biggun::spawn::SpawnDraws;
use biggun::state::{GameState, CountdownTimer};
use biggun::timer::Timer;
use biggun::random::random_fraction;
use biggun::units::{lerp_u32, Inches, Ounces, FRAC_ONE};
use biggun::world::{is_escaped, FishEscapedEvent, World, FIRST_SPAWN_DELAY, HOOK_ID};

fn test_hook() -> Hook {
    Hook { speed: 35_000, reel_speed: 60_000, density: 10_000, hooked: false, catch_radius: 8_000 }
}

fn fish_with(stats: FishStats, species: Species) -> Fish {
    Fish { stats, species, state: FishState::default() }
}

fn base_fish() -> Fish {
    let species = Species::bass();
    fish_with(species.base_stats, species)
}

#[test]
fn pounds_and_ounces() {
    assert_eq!(Ounces::from_lbs_ozs(10, 5).0, 165);
    assert_eq!(Ounces(165).lbs_ozs(), (10, 5));
    assert_eq!(Ounces::from_lbs_ozs(6, 0).0, 96);
}

#[test]
fn feet_and_inches() {
    assert_eq!(Inches::from_ft_ins(2, 6).0, 30);
    assert_eq!(Inches(30).ft_ins(), (2, 6));
    assert_eq!(Inches::from_ft_ins(40, 0).0, 480);
}

#[test]
fn lerp_rounds_to_nearest() {
    assert_eq!(Inches(10).lerp(&Inches(29), FRAC_ONE / 2).0, 20);
    assert_eq!(Inches(10).lerp(&Inches(20), 250_000).0, 13);
    assert_eq!(Ounces(6).lerp(&Ounces(165), 100_000).0, 22);
    assert_eq!(Inches(20).lerp(&Inches(10), 250_000).0, 17);
    assert_eq!(lerp_u32(5000, 10000, 333_333), 6667);
}

#[test]
fn lerp_endpoints() {
    for (a, b) in [(0u32, 0u32), (0, 1), (3, 3), (10, 29), (30, 480), (7, u32::MAX)] {
        assert_eq!(Inches(a).lerp(&Inches(b), 0).0, a);
        assert_eq!(Inches(a).lerp(&Inches(b), FRAC_ONE).0, b);
        assert_eq!(Ounces(a).lerp(&Ounces(b), 0).0, a);
        assert_eq!(Ounces(a).lerp(&Ounces(b), FRAC_ONE).0, b);
    }
}

#[test]
fn rolled_stats_stay_within_species_bounds() {
    let species = Species::bass();
    for _ in 0..10_000 {
        let f = Fish::new(&species);
        let lo = species.base_stats;
        let hi = species.max_stats;
        assert!(lo.weight.0 <= f.stats.weight.0 && f.stats.weight.0 <= hi.weight.0);
        assert!(lo.length.0 <= f.stats.length.0 && f.stats.length.0 <= hi.length.0);
        assert!(lo.strength <= f.stats.strength && f.stats.strength <= hi.strength);
        assert!(lo.energy <= f.stats.energy && f.stats.energy <= hi.energy);
        assert!(lo.depth.0 <= f.stats.depth.0 && f.stats.depth.0 <= hi.depth.0);
        assert!(!f.state.hooked);
        assert_eq!(f.state.pulling, Direction::Neutral);
    }
}

#[test]
fn rolls_give_exact_stats() {
    let species = Species::bass();
    let f = Fish::from_rolls(&species, 0, FRAC_ONE, FRAC_ONE / 2, 0, FRAC_ONE, FRAC_ONE / 2);
    assert_eq!(f.stats.weight.0, 6);
    assert_eq!(f.stats.length.0, 29);
    assert_eq!(f.stats.strength, 7500);
    assert_eq!(f.stats.energy, 1000);
    assert_eq!(f.stats.depth.0, 480);
    assert_eq!(f.stats.heading, Heading::Left);
    let g = Fish::from_rolls(&species, 0, 0, 0, 0, 0, FRAC_ONE / 2 - 1);
    assert_eq!(g.stats.heading, Heading::Right);
}

#[test]
fn depth_rerolled_against_floor() {
    let species = Species::bass();
    assert_eq!(depth_within_floor(&species, Inches(200), 150, 0).0, 30);
    assert_eq!(depth_within_floor(&species, Inches(200), 150, FRAC_ONE / 2).0, 90);
    assert_eq!(depth_within_floor(&species, Inches(100), 150, FRAC_ONE / 2).0, 100);
    assert_eq!(depth_within_floor(&species, Inches(150), 150, 0).0, 150);
}

#[test]
fn derived_speed_bobbing_frequency() {
    let species = Species::bass();
    let mut stats = species.base_stats;
    assert_eq!(base_fish().get_speed(), 3000);
    assert_eq!(base_fish().get_bobbing(), 0);
    assert_eq!(base_fish().get_frequency(), 0);
    stats.strength = 7000;
    stats.energy = 1500;
    let f = fish_with(stats, species);
    assert_eq!(f.get_speed(), 3000 + 2000 * 3000 / 1000);
    assert_eq!(f.get_bobbing(), 5000);
    assert_eq!(f.get_frequency(), 300);
}

#[test]
fn score_is_base_plus_weight_times_length() {
    let mut species = Species::bass();
    species.base_score = 100;
    let mut stats = species.base_stats;
    stats.weight = Ounces(96);
    stats.length = Inches(10);
    let f = fish_with(stats, species);
    assert_eq!(f.get_score(), 1060);
}

#[test]
fn tug_of_war() {
    let mut species = Species::bass();
    species.strength_to_hook = 10_000;
    let mut stats = species.base_stats;
    stats.strength = 2_000;
    species.base_stats.strength = 2_000;
    let mut f = fish_with(stats, species);
    let hook = test_hook();
    f.state.pulling = Direction::Right;
    assert_eq!(f.get_hook_velocity(&hook, -5_000), 0);
    assert_eq!(f.get_hook_velocity(&hook, 5_000), 25_000);
    assert_eq!(f.get_hook_velocity(&hook, 0), 20_000);
    f.state.pulling = Direction::Left;
    assert_eq!(f.get_hook_velocity(&hook, -5_000), -25_000);
    assert_eq!(f.get_hook_velocity(&hook, 5_000), 0);
    assert_eq!(f.get_hook_velocity(&hook, 0), -20_000);
    f.state.pulling = Direction::Neutral;
    assert_eq!(f.get_hook_velocity(&hook, -5_000), -5_000);
    assert_eq!(f.get_hook_velocity(&hook, 7), 7);
}

#[test]
fn struggle_always_changes_direction() {
    for start in [Direction::Left, Direction::Neutral, Direction::Right] {
        let mut f = base_fish();
        f.state.pulling = start;
        for _ in 0..1000 {
            let before = f.state.pulling;
            f.struggle(10_000);
            assert_ne!(f.state.pulling, before);
            assert!(MIN_STRUGGLE <= f.state.timer.duration && f.state.timer.duration <= MAX_STRUGGLE);
        }
    }
}

#[test]
fn struggle_with_draws() {
    let mut f = base_fish();
    f.struggle_with(10, FRAC_ONE / 2, FRAC_ONE / 2);
    assert_eq!(f.state.pulling, Direction::Left);
    assert_eq!(f.state.timer.duration, 1000);
    assert_eq!(f.state.timer.elapsed, 10);
    f.struggle_with(10, 0, 0);
    assert_eq!(f.state.pulling, Direction::Left);
    assert_eq!(f.state.timer.elapsed, 20);
    let mut g = base_fish();
    g.struggle_with(0, 0, 0);
    assert_eq!(g.state.pulling, Direction::Right);
    assert_eq!(g.state.timer.duration, MIN_STRUGGLE);
    let mut h = base_fish();
    h.species.struggle_time = 60_000;
    h.struggle_with(0, FRAC_ONE - 1, 0);
    assert_eq!(h.state.timer.duration, MAX_STRUGGLE);
}

#[test]
fn bob_phase_wraps_per_cycle() {
    let species = Species::bass();
    let mut stats = species.base_stats;
    stats.energy = 1500;
    let mut f = fish_with(stats, species);
    f.state.age = 1000;
    assert_eq!(f.bob_phase(), 300_000);
    f.state.age = 5000;
    assert_eq!(f.bob_phase(), 500_000);
}

#[test]
fn timer_runs_once() {
    let mut t = Timer::new(100);
    assert!(!t.is_finished());
    t.tick(40);
    assert_eq!(t.remaining(), 60);
    t.tick(100);
    assert!(t.is_finished());
    assert_eq!(t.elapsed, 100);
    assert_eq!(t.remaining(), 0);
}

#[test]
fn countdown_shows_whole_seconds() {
    let mut c = CountdownTimer::new(60_000);
    assert_eq!(c.tick(500), 59);
    assert_eq!(c.tick(59_000), 0);
    c.reset_timer(3_000);
    assert_eq!(c.tick(0), 3);
}

#[test]
fn stage_fallback_before_start() {
    let config = Config::default();
    let mut state = GameState::default();
    for _ in 0..5 {
        let s = state.cur_stage(&config);
        assert!(std::ptr::eq(s, &config.sample_stage));
        state.next_stage();
    }
    state.started = true;
    state.stage = 0;
    assert!(std::ptr::eq(state.cur_stage(&config), &config.stages[0]));
}

#[test]
fn last_stage_repeats() {
    let mut config = Config::default();
    let mut second = config.stages[0].clone();
    second.max_fish = 9;
    config.stages.push(second);
    let mut state = GameState::default();
    state.started = true;
    assert_eq!(state.cur_stage(&config).max_fish, 5);
    state.next_stage();
    assert_eq!(state.cur_stage(&config).max_fish, 9);
    state.next_stage();
    assert_eq!(state.stage(), 2);
    assert_eq!(state.cur_stage(&config).max_fish, 9);
    state.next_stage();
    assert_eq!(state.cur_stage(&config).max_fish, 9);
}

#[test]
fn empty_stage_list_uses_sample() {
    let mut config = Config::default();
    config.stages.clear();
    let mut state = GameState::default();
    state.started = true;
    assert!(std::ptr::eq(state.cur_stage(&config), &config.sample_stage));
}

#[test]
fn reset_restores_initial_state() {
    let mut state = GameState::default();
    state.started = true;
    state.score = 42;
    state.fish_count = 3;
    state.next_stage();
    state.reset();
    assert_eq!(state, GameState::default());
    assert_eq!(state.stage(), 0);
}

#[test]
fn escape_boundary() {
    let gw = 180_000;
    assert!(!is_escaped(gw + 1_000, gw));
    assert!(is_escaped(gw + 1_010, gw));
    assert!(!is_escaped(-(gw + 1_000), gw));
    assert!(is_escaped(-(gw + 1_010), gw));
    assert!(!is_escaped(0, gw));
}

#[test]
fn hook_input_velocity() {
    let hook = test_hook();
    let keys = |left, right, reel| Controls { left, right, reel };
    let v = hook.input_velocity(keys(true, false, false), None, 0, 50_000, -100_000);
    assert_eq!(v, Velocity { x: -35_000, y: -10_000 });
    let v = hook.input_velocity(keys(true, true, true), None, 0, 50_000, -100_000);
    assert_eq!(v, Velocity { x: 0, y: 60_000 });
    let v = hook.input_velocity(keys(false, true, true), None, 50_000, 50_000, -100_000);
    assert_eq!(v, Velocity { x: 35_000, y: 0 });
    let v = hook.input_velocity(keys(false, false, false), None, -100_000, 50_000, -100_000);
    assert_eq!(v, Velocity { x: 0, y: 0 });
    let mut f = base_fish();
    f.state.pulling = Direction::Right;
    let v = hook.input_velocity(keys(false, true, true), Some(&f), 0, 50_000, -100_000);
    assert_eq!(v, Velocity { x: 35_000 + 10_250 * 5, y: 15_000 });
    let v = hook.input_velocity(keys(true, false, true), Some(&f), 0, 50_000, -100_000);
    assert_eq!(v, Velocity { x: 0, y: 15_000 });
    let v = hook.input_velocity(keys(false, false, true), Some(&f), 0, 50_000, -100_000);
    assert_eq!(v, Velocity { x: 10_250 * 5, y: 60_000 });
}

#[test]
fn reach_is_strict() {
    let a = Position { x: 0, y: 0 };
    assert!(a.within(&Position { x: 3, y: 4 }, 6));
    assert!(!a.within(&Position { x: 3, y: 4 }, 5));
    assert!(!a.within(&Position { x: i64::MAX, y: i64::MIN }, u32::MAX));
}

#[test]
fn movement_rounds_toward_zero() {
    let p = Position { x: 0, y: 10 };
    let q = p.moved(&Velocity { x: 1_500, y: -1_500 }, 1);
    assert_eq!(q, Position { x: 1, y: 9 });
    assert!(!p.can_move(&Velocity { x: i64::MAX, y: 0 }, 10_000));
}

fn started_world() -> (World, GameState, Config) {
    let config = Config::default();
    let mut state = GameState::default();
    let mut world = World::new(test_hook(), &state, &config);
    world.load_game(&mut state, &config);
    world.spawner.timer = Timer::new(0);
    (world, state, config)
}

#[test]
fn new_world_waits_before_first_spawn() {
    let config = Config::default();
    let mut state = GameState::default();
    let mut world = World::new(test_hook(), &state, &config);
    assert_eq!(world.spawner.timer, Timer { duration: FIRST_SPAWN_DELAY, elapsed: 0 });
    assert_eq!(FIRST_SPAWN_DELAY, 1000);
    assert_eq!(world.floor_y, config.water_level - 200_000);
    world.load_game(&mut state, &config);
    assert_eq!(world.handle_spawn(&mut state, &config, 600), None);
    assert_eq!(world.spawner.timer.elapsed, 600);
    assert_eq!(world.handle_spawn(&mut state, &config, 600), None);
    assert_eq!(world.spawner.timer.elapsed, 1000);
    assert_eq!(world.handle_spawn(&mut state, &config, 16), Some(HOOK_ID + 1));
    assert!(world.spawner.timer.duration >= 1000 && world.spawner.timer.duration < 6000);
    assert_eq!(world.spawner.timer.elapsed, 16);
}

#[test]
fn restart_puts_hook_back_at_start() {
    let (mut world, mut state, config) = started_world();
    world.hook.pos = Position { x: 12_000, y: -40_000 };
    world.hook.vel = Velocity { x: 35_000, y: -10_000 };
    world.game_over_screen(&mut state);
    world.load_game(&mut state, &config);
    assert!(state.started);
    assert_eq!(world.hook.pos, Position { x: 0, y: config.water_level });
    assert_eq!(world.hook.vel, Velocity { x: 0, y: 0 });
    assert!(!world.hook.hook.hooked);
}

#[test]
fn start_game_sets_up_stage() {
    let (world, state, config) = started_world();
    assert!(state.started);
    assert_eq!(world.floor_y, config.water_level - 150_000);
    assert_eq!(world.countdown.timer.duration, 60_000);
    assert_eq!(world.hook.pos, Position { x: 0, y: config.water_level });
    assert!(world.fish.is_empty());
}

fn spawn_draws() -> SpawnDraws {
    SpawnDraws {
        interval: FRAC_ONE / 2,
        species: 0,
        weight: 0,
        length: 0,
        strength: 0,
        energy: 0,
        depth: 0,
        heading: FRAC_ONE / 2,
        floor_depth: 0,
    }
}

#[test]
fn spawn_places_fish_at_edge() {
    let (mut world, mut state, config) = started_world();
    let id = world.handle_spawn_with(&mut state, &config, 0, spawn_draws());
    assert_eq!(id, Some(HOOK_ID + 1));
    assert_eq!(state.fish_count, 1);
    let b = world.fish[0];
    assert_eq!(b.pos, Position { x: 180_000, y: 50_000 - 30_000 });
    assert_eq!(b.vel, Velocity { x: -3_000, y: 0 });
    assert_eq!(world.spawner.timer.duration, 3_500);
    let again = world.handle_spawn_with(&mut state, &config, 1_000, spawn_draws());
    assert_eq!(again, None);
    assert_eq!(world.spawner.timer.elapsed, 1_000);
}

#[test]
fn spawn_respects_max_fish() {
    let (mut world, mut state, config) = started_world();
    for i in 0..5 {
        let r = world.handle_spawn_with(&mut state, &config, 10_000, spawn_draws());
        assert_eq!(r, Some(HOOK_ID + 1 + i));
    }
    assert_eq!(world.handle_spawn_with(&mut state, &config, 10_000, spawn_draws()), None);
    assert_eq!(state.fish_count, 5);
}

#[test]
fn spawn_rerolls_depth_below_floor() {
    let (mut world, mut state, config) = started_world();
    let mut draws = spawn_draws();
    draws.depth = FRAC_ONE - 1;
    draws.floor_depth = FRAC_ONE / 2;
    world.handle_spawn_with(&mut state, &config, 0, draws);
    assert_eq!(world.fish[0].fish.stats.depth.0, 90);
    let mut right = spawn_draws();
    right.heading = 0;
    world.spawner.timer = Timer::new(0);
    world.handle_spawn_with(&mut state, &config, 0, right);
    assert_eq!(world.fish[1].pos.x, -180_000);
    assert_eq!(world.fish[1].vel.x, 3_000);
}

#[test]
fn random_spawn() {
    let (mut world, mut state, config) = started_world();
    let r = world.handle_spawn(&mut state, &config, 0);
    assert_eq!(r, Some(HOOK_ID + 1));
    let f = world.fish[0].fish;
    assert!(f.stats.depth.0 <= 150);
}

#[test]
fn catch_and_extract() {
    let (mut world, mut state, config) = started_world();
    world.handle_spawn_with(&mut state, &config, 0, spawn_draws());
    world.hook.pos = Position { x: 180_000 - 5_000, y: 20_000 };
    assert_eq!(world.check_hook_fish_collision(), Some(0));
    assert!(world.hook.hook.hooked);
    assert!(world.fish[0].fish.state.hooked);
    assert_eq!(world.fish[0].vel, Velocity { x: 0, y: 0 });
    assert_eq!(world.check_hook_fish_collision(), None);

    world.hook.vel = Velocity { x: 0, y: 10_000 };
    world.apply_velocity(1_000);
    assert_eq!(world.fish[0].pos, world.hook.pos);
    assert_eq!(world.check_extraction(&mut state, &config), None);

    let points = world.fish[0].fish.get_score();
    world.hook.pos.y = config.water_level - 50;
    assert_eq!(world.check_extraction(&mut state, &config), Some(points));
    assert_eq!(state.score, points);
    assert_eq!(state.fish_count, 0);
    assert!(world.fish.is_empty());
    assert!(!world.hook.hook.hooked);
    assert_eq!(world.hook.pos, Position { x: 0, y: config.water_level });
}

#[test]
fn extraction_end_to_end() {
    let (mut world, mut state, config) = started_world();
    world.handle_spawn_with(&mut state, &config, 0, spawn_draws());
    let fish_pos = world.fish[0].pos;
    world.hook.pos = fish_pos;
    assert_eq!(world.check_hook_fish_collision(), Some(0));
    let points = world.fish[0].fish.get_score();
    assert_eq!(points, 100 + 6 * 10);
    world.hook.pos.y = config.water_level - 50;
    let before = state.score;
    assert_eq!(world.check_extraction(&mut state, &config), Some(points));
    assert_eq!(state.score, before + points);
    assert!(world.fish.is_empty());
    assert!(!world.hook.hook.hooked);
    assert_eq!(world.hook.pos, Position { x: 0, y: config.water_level });
}

#[test]
fn escaped_fish_are_removed() {
    let (mut world, mut state, config) = started_world();
    world.handle_spawn_with(&mut state, &config, 0, spawn_draws());
    world.spawner.timer = Timer::new(0);
    world.handle_spawn_with(&mut state, &config, 0, spawn_draws());
    world.fish[0].pos.x = -181_001;
    let escaped = world.update_fish(&config, 16);
    assert_eq!(escaped, vec![FishEscapedEvent { entity: world.fish[0].id }]);
    assert_eq!(world.fish[0].fish.state.age, 0);
    assert_eq!(world.fish[1].fish.state.age, 16);
    let id = escaped[0].entity;
    assert!(!world.on_fish_escape(&mut state, id));
    assert_eq!(world.fish.len(), 1);
    assert_eq!(state.fish_count, 1);
    assert!(!world.on_fish_escape(&mut state, 999));
    assert_eq!(world.fish.len(), 1);
}

#[test]
fn escape_of_hooked_fish_frees_hook() {
    let (mut world, mut state, config) = started_world();
    world.handle_spawn_with(&mut state, &config, 0, spawn_draws());
    world.hook.pos = world.fish[0].pos;
    world.check_hook_fish_collision();
    let id = world.fish[0].id;
    assert!(world.on_fish_escape(&mut state, id));
    assert!(!world.hook.hook.hooked);
    assert_eq!(state.fish_count, 0);
}

#[test]
fn hooked_fish_struggles_in_world() {
    let (mut world, mut state, config) = started_world();
    world.handle_spawn_with(&mut state, &config, 0, spawn_draws());
    world.hook.pos = world.fish[0].pos;
    world.check_hook_fish_collision();
    let before = world.fish[0].fish.state.pulling;
    world.struggle(16);
    assert_ne!(world.fish[0].fish.state.pulling, before);
    world.handle_input(Controls { left: false, right: false, reel: true }, &config);
    assert!(world.hook.vel.y > 0);
}

#[test]
fn countdown_expiry_ends_game() {
    let (mut world, mut state, config) = started_world();
    world.handle_spawn_with(&mut state, &config, 0, spawn_draws());
    assert!(!world.tick_countdown(&mut state, 30_000));
    assert!(state.started);
    assert!(world.tick_countdown(&mut state, 30_000));
    assert!(!state.started);
    assert_eq!(world.fish[0].vel, Velocity { x: 0, y: 0 });
    assert!(!world.tick_countdown(&mut state, 30_000));
}

#[test]
fn advancing_stage_clears_fish() {
    let (mut world, mut state, config) = started_world();
    world.handle_spawn_with(&mut state, &config, 0, spawn_draws());
    world.advance_stage(&mut state, &config);
    assert_eq!(state.stage(), 1);
    assert_eq!(state.fish_count, 0);
    assert!(world.fish.is_empty());
    assert_eq!(world.countdown.timer.duration, 60_000);
    assert_eq!(world.floor_y, config.water_level - 150_000);
}

#[test]
fn game_over_freezes_everything() {
    let (mut world, mut state, config) = started_world();
    world.handle_spawn_with(&mut state, &config, 0, spawn_draws());
    world.hook.vel = Velocity { x: 1, y: 2 };
    world.game_over_screen(&mut state);
    assert!(!state.started);
    assert_eq!(world.hook.vel, Velocity { x: 0, y: 0 });
    assert_eq!(world.fish[0].vel, Velocity { x: 0, y: 0 });
    assert_eq!(config.stages.len(), 1);
}

#[test]
fn new_fish_state_is_initial() {
    let s = FishState::default();
    assert!(!s.hooked);
    assert_eq!(s.age, 0);
    assert_eq!(s.pulling, Direction::Neutral);
    assert!(s.timer.is_finished());
    assert_eq!(Direction::Left.different(), (Direction::Neutral, Direction::Right));
    assert_eq!(Direction::Right.signum(), 1);
}

#[test]
fn random_draws_stay_below_one() {
    let mut seen_nonzero = false;
    for _ in 0..1000 {
        let w = random_fraction();
        assert!(w < FRAC_ONE);
        seen_nonzero |= w != 0;
    }
    assert!(seen_nonzero);
    let d = SpawnDraws::random();
    assert!(d.interval < FRAC_ONE && d.species < FRAC_ONE && d.floor_depth < FRAC_ONE);
}
