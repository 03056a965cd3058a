use runner::character::Character;
use runner::game::{
    dismiss_message, extract_save_data, handle_keys, new_game, on_game_over_action, on_map_action,
    on_menu_action, on_pause_action, on_skin_action, play, GameState, Key, KeyAction, Sound,
    WorldState, BASE_SPEED, MAX_SPEED,
};
use runner::geometry::{Point3, MAX_DISTANCE, UNIT};
use runner::level::{LevelGenerator, Obstacle, ObstacleType, FLOOR_LIFT};
use runner::progress::{score_for_distance, Maps, Progression, Skins};
use runner::ui::{GameOverAction, MapAction, MenuAction, PauseAction, SkinAction};

fn fresh() -> (GameState, Character, WorldState) {
    let mut state = GameState::Menu;
    let mut character = Character::new();
    let mut world = WorldState::new(0);
    new_game(&mut state, &mut character, &mut world, 0);
    world.level = LevelGenerator::with_seed(5);
    (state, character, world)
}

#[test]
fn speed_rises_each_second_until_cap() {
    let (_, _, mut world) = fresh();
    assert_eq!(world.z, 0);
    assert_eq!(world.speed, BASE_SPEED);
    let mut last = world.speed;
    let mut ticks = 0;
    while world.speed < MAX_SPEED {
        world.advance(1000);
        assert!(world.speed > last);
        last = world.speed;
        ticks += 1;
    }
    assert_eq!(ticks, 100);
    for _ in 0..10 {
        world.advance(1000);
        assert_eq!(world.speed, MAX_SPEED);
    }
}

#[test]
fn advance_scrolls_by_speed_times_time() {
    let (_, _, mut world) = fresh();
    world.advance(1000);
    assert_eq!(world.z, 20 * UNIT);
    assert_eq!(world.speed, 20_300_000);
    world.z = MAX_DISTANCE - 1;
    world.advance(1000);
    assert_eq!(world.z, MAX_DISTANCE);
}

#[test]
fn play_ticks_without_obstacles_keep_playing() {
    let (mut state, mut character, mut world) = fresh();
    for s in world.level.segments.iter_mut() {
        s.obstacles.clear();
    }
    play(&mut world, &mut character, &mut state, 100);
    assert!(matches!(state, GameState::Playing));
    assert_eq!(world.z, 2 * UNIT);
    assert!(world.level.next_z > world.z + 1000 * UNIT);
}

fn crash_at(z: i64, world: &mut WorldState) {
    world.z = z;
    world.level.update(z);
    world.level.segments[0].obstacles.push(Obstacle {
        position: Point3::new(0, FLOOR_LIFT, z),
        obstacle_type: ObstacleType::Cube,
    });
}

#[test]
fn collision_ends_run_and_records_high_score() {
    let (mut state, mut character, mut world) = fresh();
    world.progress.quest_progress.high_score = 1000;
    crash_at(12345 * UNIT, &mut world);
    play(&mut world, &mut character, &mut state, 0);
    assert!(matches!(state, GameState::GameOver));
    assert_eq!(world.progress.quest_progress.high_score, 1234);
    assert!(world.record);
    assert!(world.progress.unlocked_skins.arcane);
    assert_eq!(world.progress.quest_progress.deaths, 1);
}

#[test]
fn collision_below_high_score_is_no_record() {
    let (mut state, mut character, mut world) = fresh();
    world.progress.quest_progress.high_score = 5000;
    crash_at(12345 * UNIT, &mut world);
    play(&mut world, &mut character, &mut state, 0);
    assert!(matches!(state, GameState::GameOver));
    assert_eq!(world.progress.quest_progress.high_score, 5000);
    assert!(!world.record);
    assert!(!world.progress.unlocked_skins.arcane);
}

#[test]
fn jumping_clears_a_low_cube() {
    let (mut state, mut character, mut world) = fresh();
    crash_at(300 * UNIT, &mut world);
    character.jump();
    character.update(150);
    character.update(150);
    assert!(character.position.y > UNIT + FLOOR_LIFT);
    play(&mut world, &mut character, &mut state, 0);
    assert!(matches!(state, GameState::Playing));
}

#[test]
fn score_is_tenth_of_distance() {
    assert_eq!(score_for_distance(12345 * UNIT), 1234);
    assert_eq!(score_for_distance(9 * UNIT), 0);
    assert_eq!(score_for_distance(10 * UNIT), 1);
}

#[test]
fn message_from_skin_list_returns_there() {
    let mut state = GameState::SkinSelect;
    let mut previous = GameState::Menu;
    let mut world = WorldState::new(0);
    let sound = on_skin_action(
        SkinAction::ShowMessage("Die 100 times".to_string()),
        &mut state,
        &mut previous,
        &mut world,
    );
    assert_eq!(sound, None);
    assert!(matches!(&state, GameState::ShowMessage(m) if m == "Die 100 times"));
    dismiss_message(&mut state, &previous);
    assert!(matches!(state, GameState::SkinSelect));
}

#[test]
fn message_from_map_list_returns_there_by_key() {
    let mut state = GameState::MapSelect;
    let mut previous = GameState::Menu;
    let mut world = WorldState::new(0);
    let mut character = Character::new();
    on_map_action(MapAction::ShowMessage("reach 100m".to_string()), &mut state, &mut previous, &mut world);
    let out = handle_keys(Key::Escape, KeyAction::Press, &mut state, &mut character, &mut world, 0, &previous);
    assert!(!out.quit);
    assert!(matches!(state, GameState::MapSelect));
}

#[test]
fn selecting_map_and_skin() {
    let mut state = GameState::MapSelect;
    let mut previous = GameState::Menu;
    let mut world = WorldState::new(0);
    let s = on_map_action(MapAction::SelectMap(Maps::Cave), &mut state, &mut previous, &mut world);
    assert_eq!(s, Some(Sound::Button2));
    assert_eq!(world.current_map, Maps::Cave);
    let s = on_map_action(MapAction::SelectMap(Maps::Cave), &mut state, &mut previous, &mut world);
    assert_eq!(s, None);
    let s = on_map_action(MapAction::Back, &mut state, &mut previous, &mut world);
    assert_eq!(s, Some(Sound::Button1));
    assert!(matches!(state, GameState::Menu));
    let mut state = GameState::SkinSelect;
    on_skin_action(SkinAction::SelectSkin(Skins::Troll), &mut state, &mut previous, &mut world);
    assert_eq!(world.current_skin, Skins::Troll);
    assert!(matches!(state, GameState::SkinSelect));
}

#[test]
fn pause_and_resume_leave_paused_time_out_of_the_clock() {
    let (mut state, mut character, mut world) = fresh();
    world.last_frame_time = 1_000;
    character.move_down(true);
    handle_keys(Key::Escape, KeyAction::Press, &mut state, &mut character, &mut world, 1_000, &GameState::Menu);
    assert!(matches!(state, GameState::Paused));
    assert_eq!(world.pause_start_time, 1_000);
    assert!(!character.is_pressing_down);
    let out = handle_keys(Key::R, KeyAction::Press, &mut state, &mut character, &mut world, 6_000, &GameState::Menu);
    assert!(out.resume_music);
    assert_eq!(out.sound, Some(Sound::Button1));
    assert!(matches!(state, GameState::Playing));
    assert_eq!(world.total_pause_time, 5_000);
    assert_eq!(world.frame_delta(6_016), 16);
    assert_eq!(world.last_frame_time, 1_016);
}

#[test]
fn frame_delta_never_runs_backwards() {
    let mut world = WorldState::new(500);
    assert_eq!(world.frame_delta(400), 0);
    assert_eq!(world.last_frame_time, 400);
    assert_eq!(world.frame_delta(433), 33);
}

#[test]
fn keys_move_and_jump_while_playing() {
    let (mut state, mut character, mut world) = fresh();
    let prev = GameState::Menu;
    handle_keys(Key::A, KeyAction::Press, &mut state, &mut character, &mut world, 0, &prev);
    assert_eq!(character.lane, 1);
    handle_keys(Key::Right, KeyAction::Press, &mut state, &mut character, &mut world, 0, &prev);
    handle_keys(Key::D, KeyAction::Press, &mut state, &mut character, &mut world, 0, &prev);
    assert_eq!(character.lane, -1);
    handle_keys(Key::Left, KeyAction::Release, &mut state, &mut character, &mut world, 0, &prev);
    assert_eq!(character.lane, -1);
    handle_keys(Key::Down, KeyAction::Repeat, &mut state, &mut character, &mut world, 0, &prev);
    assert!(character.is_pressing_down);
    handle_keys(Key::S, KeyAction::Release, &mut state, &mut character, &mut world, 0, &prev);
    assert!(!character.is_pressing_down);
    handle_keys(Key::Space, KeyAction::Press, &mut state, &mut character, &mut world, 0, &prev);
    assert!(!character.is_grounded);
    assert_eq!(world.progress.quest_progress.jumps, 1);
    handle_keys(Key::W, KeyAction::Press, &mut state, &mut character, &mut world, 0, &prev);
    assert_eq!(world.progress.quest_progress.jumps, 2);
}

#[test]
fn menu_keys_start_or_quit() {
    let mut state = GameState::Menu;
    let mut character = Character::new();
    let mut world = WorldState::new(0);
    world.z = 77;
    let out = handle_keys(Key::Escape, KeyAction::Press, &mut state, &mut character, &mut world, 0, &GameState::Menu);
    assert!(out.quit);
    assert!(matches!(state, GameState::Menu));
    let out = handle_keys(Key::Enter, KeyAction::Press, &mut state, &mut character, &mut world, 250, &GameState::Menu);
    assert!(!out.quit);
    assert!(matches!(state, GameState::Playing));
    assert_eq!(world.z, 0);
    assert_eq!(world.last_frame_time, 250);
}

#[test]
fn game_over_keys_retry_or_leave() {
    let mut state = GameState::GameOver;
    let mut character = Character::new();
    let mut world = WorldState::new(0);
    world.record = true;
    handle_keys(Key::R, KeyAction::Press, &mut state, &mut character, &mut world, 0, &GameState::Menu);
    assert!(matches!(state, GameState::Playing));
    assert!(!world.record);
    let mut state = GameState::GameOver;
    handle_keys(Key::Q, KeyAction::Press, &mut state, &mut character, &mut world, 0, &GameState::Menu);
    assert!(matches!(state, GameState::Menu));
}

#[test]
fn screen_clicks_drive_transitions() {
    let mut state = GameState::Menu;
    let mut character = Character::new();
    let mut world = WorldState::new(0);
    assert!(!on_menu_action(MenuAction::SkinSelect, &mut state, &mut character, &mut world, 0));
    assert!(matches!(state, GameState::SkinSelect));
    assert!(on_menu_action(MenuAction::Quit, &mut state, &mut character, &mut world, 0));
    on_menu_action(MenuAction::Play, &mut state, &mut character, &mut world, 0);
    assert!(matches!(state, GameState::Playing));
    let mut state = GameState::Paused;
    world.pause_start_time = 100;
    assert_eq!(on_pause_action(PauseAction::Resume, &mut state, &mut world, 400), Some(Sound::Button1));
    assert!(matches!(state, GameState::Playing));
    assert_eq!(world.total_pause_time, 300);
    let mut state = GameState::Paused;
    on_pause_action(PauseAction::Quit, &mut state, &mut world, 400);
    assert!(matches!(state, GameState::Menu));
    let mut state = GameState::GameOver;
    on_game_over_action(GameOverAction::NewGame, &mut state, &mut character, &mut world, 0);
    assert!(matches!(state, GameState::Playing));
    let mut state = GameState::GameOver;
    on_game_over_action(GameOverAction::Quit, &mut state, &mut character, &mut world, 0);
    assert!(matches!(state, GameState::Menu));
}

#[test]
fn save_snapshot_round_trips() {
    let mut world = WorldState::new(0);
    world.current_map = Maps::Temple;
    world.current_skin = Skins::Arcane;
    world.progress.quest_progress.jumps = 12;
    world.progress.unlocked_maps.cave = true;
    let save = extract_save_data(&world);
    let mut other = WorldState::new(0);
    other.apply_save_data(&save);
    assert_eq!(other.current_map, Maps::Temple);
    assert_eq!(other.current_skin, Skins::Arcane);
    assert_eq!(other.progress, world.progress);
    assert_eq!(Progression::new(), WorldState::new(0).progress);
}
