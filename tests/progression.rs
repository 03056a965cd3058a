use runner::progress::{Maps, Progression};

#[test]
fn jumper_unlocks_on_five_hundredth_jump() {
    let mut p = Progression::new();
    for _ in 0..499 {
        p.on_jump();
    }
    assert_eq!(p.quest_progress.jumps, 499);
    assert!(!p.unlocked_skins.jumper);
    p.on_jump();
    assert_eq!(p.quest_progress.jumps, 500);
    assert!(p.unlocked_skins.jumper);
    p.on_jump();
    assert_eq!(p.quest_progress.jumps, 500);
    assert!(p.unlocked_skins.jumper);
}

#[test]
fn jump_counter_holds_at_its_largest_value() {
    let mut p = Progression::new();
    p.quest_progress.jumps = u32::MAX;
    p.on_jump();
    assert_eq!(p.quest_progress.jumps, u32::MAX);
    assert!(p.unlocked_skins.jumper);
}

#[test]
fn high_score_run_sets_record_and_arcane() {
    let mut p = Progression::new();
    p.quest_progress.high_score = 1000;
    let record = p.on_game_over(1234, Maps::Campus);
    assert!(record);
    assert_eq!(p.quest_progress.high_score, 1234);
    assert!(p.unlocked_skins.arcane);
    assert_eq!(p.quest_progress.deaths, 1);
}

#[test]
fn equal_score_is_not_a_record() {
    let mut p = Progression::new();
    p.quest_progress.high_score = 700;
    assert!(!p.on_game_over(700, Maps::Campus));
    assert_eq!(p.quest_progress.high_score, 700);
    assert!(p.on_game_over(701, Maps::Campus));
    assert!(!p.unlocked_skins.arcane);
}

#[test]
fn troll_unlocks_after_hundred_deaths() {
    let mut p = Progression::new();
    p.quest_progress.high_score = 10;
    for _ in 0..99 {
        p.on_game_over(0, Maps::Campus);
    }
    assert!(!p.unlocked_skins.troll);
    p.on_game_over(0, Maps::Campus);
    assert!(p.unlocked_skins.troll);
    assert_eq!(p.quest_progress.deaths, 100);
    p.on_game_over(0, Maps::Campus);
    assert_eq!(p.quest_progress.deaths, 100);
}

#[test]
fn fifteen_cave_games_unlock_temple() {
    let mut p = Progression::new();
    for _ in 0..14 {
        p.on_game_over(0, Maps::Cave);
    }
    assert!(!p.unlocked_maps.temple);
    p.on_game_over(0, Maps::Cave);
    assert!(p.unlocked_maps.temple);
    assert_eq!(p.quest_progress.cave_games, 15);
    p.on_game_over(0, Maps::Cave);
    assert_eq!(p.quest_progress.cave_games, 15);
}

#[test]
fn cave_scores_unlock_dirt_then_diamond() {
    let mut p = Progression::new();
    p.on_game_over(299, Maps::Cave);
    assert_eq!(p.quest_progress.cave_score, 299);
    assert!(!p.unlocked_skins.dirt);
    p.on_game_over(300, Maps::Cave);
    assert!(p.unlocked_skins.dirt);
    assert!(!p.unlocked_skins.diamond);
    p.on_game_over(500, Maps::Cave);
    assert!(p.unlocked_skins.diamond);
    assert_eq!(p.quest_progress.cave_score, 500);
    assert_eq!(p.quest_progress.temple_score, 0);
}

#[test]
fn big_first_cave_score_unlocks_both_cave_skins() {
    let mut p = Progression::new();
    p.on_game_over(650, Maps::Cave);
    assert!(p.unlocked_skins.dirt);
    assert!(p.unlocked_skins.diamond);
}

#[test]
fn temple_scores_unlock_stone_then_emerald() {
    let mut p = Progression::new();
    p.on_game_over(300, Maps::Temple);
    assert!(p.unlocked_skins.stone);
    assert!(!p.unlocked_skins.emerald);
    p.on_game_over(499, Maps::Temple);
    assert!(!p.unlocked_skins.emerald);
    p.on_game_over(500, Maps::Temple);
    assert!(p.unlocked_skins.emerald);
    assert_eq!(p.quest_progress.temple_score, 500);
    assert_eq!(p.quest_progress.cave_games, 0);
    assert!(!p.unlocked_skins.dirt);
}

#[test]
fn campus_runs_touch_no_map_counters() {
    let mut p = Progression::new();
    p.on_game_over(900, Maps::Campus);
    assert_eq!(p.quest_progress.cave_score, 0);
    assert_eq!(p.quest_progress.temple_score, 0);
    assert_eq!(p.quest_progress.cave_games, 0);
    assert!(!p.unlocked_skins.stone && !p.unlocked_skins.dirt);
}

#[test]
fn default_snapshot_has_only_starters() {
    let p = Progression::new();
    assert!(p.unlocked_maps.campus && !p.unlocked_maps.cave && !p.unlocked_maps.temple);
    assert!(p.unlocked_skins.red && !p.unlocked_skins.jumper && !p.unlocked_skins.arcane);
    assert_eq!(p.quest_progress.high_score, 0);
}
