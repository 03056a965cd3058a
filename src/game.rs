//! The game's state machine and the world it runs: a frame of play,
//! collisions, the pause clock and the transitions between screens.
use vstd::prelude::*;
use crate::geometry::{AABB, MAX_DISTANCE};
use crate::character::Character;
use crate::level::{LevelGenerator, LevelSegment, LOOKAHEAD, TRAILING_MARGIN};
use crate::progress::{
    Maps, Skins, Progression, UnlockedMaps, UnlockedSkins, QuestProgress, score_of,
    score_for_distance,
};
use crate::ui::{MenuAction, MapAction, SkinAction, PauseAction, GameOverAction};

verus! {

/// Scroll speed at the start of a run (20 m/s, in micrometres per second).
pub const BASE_SPEED: i64 = 20_000_000;

/// Largest scroll speed (50 m/s).
pub const MAX_SPEED: i64 = 50_000_000;

/// Gain of scroll speed per millisecond of play (0.3 m/s^2).
pub const SPEED_GAIN_PER_MS: i64 = 300;

/// The screen or phase the game is in.
#[derive(Debug)]
pub enum GameState {
    Menu,
    MapSelect,
    SkinSelect,
    ShowMessage(String),
    Playing,
    GameOver,
    Paused,
}

impl GameState {
    /// An equal copy of the state.
    pub fn duplicate(&self) -> (r: GameState)
        ensures
            r == *self,
    {
        match self {
            GameState::Menu => GameState::Menu,
            GameState::MapSelect => GameState::MapSelect,
            GameState::SkinSelect => GameState::SkinSelect,
            GameState::ShowMessage(msg) => GameState::ShowMessage(msg.clone()),
            GameState::Playing => GameState::Playing,
            GameState::GameOver => GameState::GameOver,
            GameState::Paused => GameState::Paused,
        }
    }
}

/// The context the state machine owns: the run, the clock bookkeeping,
/// the selections and the progression.
pub struct WorldState {
    /// Scroll speed, in micrometres per second.
    pub speed: i64,
    /// Distance travelled, in `1 / UNIT` metres.
    pub z: i64,
    /// The pause-adjusted clock at the last frame, in milliseconds.
    pub last_frame_time: u64,
    pub pause_start_time: u64,
    pub total_pause_time: u64,
    /// The run that just ended beat the high score.
    pub record: bool,
    pub current_skin: Skins,
    pub current_map: Maps,
    pub level: LevelGenerator,
    pub progress: Progression,
}

/// The distance after a frame of `ms` milliseconds at `speed`.
pub open spec fn advanced_z(z: int, speed: int, ms: int) -> int {
    if z + speed * ms > MAX_DISTANCE {
        MAX_DISTANCE as int
    } else {
        z + speed * ms
    }
}

/// The scroll speed after a frame of `ms` milliseconds.
pub open spec fn advanced_speed(speed: int, ms: int) -> int {
    if speed + SPEED_GAIN_PER_MS * ms > MAX_SPEED {
        MAX_SPEED as int
    } else {
        speed + SPEED_GAIN_PER_MS * ms
    }
}

/// Some obstacle of some held segment overlaps `player`.
pub open spec fn hits_any(player: AABB, segments: Seq<LevelSegment>) -> bool {
    exists|i: int, j: int|
        0 <= i < segments.len() && 0 <= j < segments[i].obstacles@.len()
            && player.overlaps(#[trigger] segments[i].obstacles@[j].aabb())
}

/// Tests `player` against every obstacle of every segment, stopping at
/// the first overlap.
pub fn find_collision(player: &AABB, segments: &Vec<LevelSegment>) -> (r: bool)
    requires
        forall|i: int| 0 <= i < segments@.len() ==> (#[trigger] segments@[i]).wf(),
    ensures
        r == hits_any(*player, segments@),
{
    let mut i: usize = 0;
    while i < segments.len()
        invariant
            i <= segments@.len(),
            forall|k: int| 0 <= k < segments@.len() ==> (#[trigger] segments@[k]).wf(),
            forall|k: int, j: int|
                0 <= k < i && 0 <= j < segments@[k].obstacles@.len()
                    ==> !player.overlaps(#[trigger] segments@[k].obstacles@[j].aabb()),
        decreases segments@.len() - i,
    {
        let obstacles = &segments[i].obstacles;
        let mut j: usize = 0;
        while j < obstacles.len()
            invariant
                i < segments@.len(),
                obstacles@ == segments@[i as int].obstacles@,
                segments@[i as int].wf(),
                j <= obstacles@.len(),
                forall|m: int| 0 <= m < j ==> !player.overlaps(#[trigger] obstacles@[m].aabb()),
            decreases obstacles@.len() - j,
        {
            let b = obstacles[j].get_aabb();
            if player.collides(&b) {
                return true;
            }
            j = j + 1;
        }
        i = i + 1;
    }
    false
}

impl WorldState {
    /// What every frame relies on: a sound track that starts at or
    /// before the player, and a distance and speed in range.
    pub open spec fn wf(self) -> bool {
        &&& self.level.wf()
        &&& self.level.start() <= self.z
        &&& 0 <= self.z <= MAX_DISTANCE
        &&& BASE_SPEED <= self.speed <= MAX_SPEED
    }

    /// A fresh world on the campus map with the red skin, the starting
    /// progression, and the clock read as `now_ms`.
    pub fn new(now_ms: u64) -> (r: WorldState)
        ensures
            r.wf(),
            r.speed == BASE_SPEED,
            r.z == 0,
            r.last_frame_time == now_ms,
            r.pause_start_time == 0,
            r.total_pause_time == 0,
            !r.record,
            r.current_skin == Skins::Red,
            r.current_map == Maps::Campus,
            r.progress == Progression::initial(),
    {
        WorldState {
            speed: BASE_SPEED,
            z: 0,
            last_frame_time: now_ms,
            pause_start_time: 0,
            total_pause_time: 0,
            record: false,
            current_skin: Skins::Red,
            current_map: Maps::Campus,
            level: LevelGenerator::new(),
            progress: Progression::new(),
        }
    }

    /// Scrolls the world on by a frame of `delta_ms` and speeds it up, up
    /// to the cap.
    pub fn advance(&mut self, delta_ms: u32)
        requires
            0 <= old(self).z <= MAX_DISTANCE,
            BASE_SPEED <= old(self).speed <= MAX_SPEED,
        ensures
            final(self).z == advanced_z(old(self).z as int, old(self).speed as int, delta_ms as int),
            final(self).speed == advanced_speed(old(self).speed as int, delta_ms as int),
            final(self).z >= old(self).z,
            final(self).speed >= old(self).speed,
            BASE_SPEED <= final(self).speed <= MAX_SPEED,
            0 <= final(self).z <= MAX_DISTANCE,
            *final(self) == (WorldState { z: final(self).z, speed: final(self).speed, ..*old(self) }),
    {
        let ms = delta_ms as i64;
        assert(self.speed * ms <= MAX_SPEED * 0x1_0000_0000) by (nonlinear_arith)
            requires 0 <= self.speed <= MAX_SPEED, 0 <= ms < 0x1_0000_0000;
        assert(self.speed * ms >= 0) by (nonlinear_arith)
            requires 0 <= self.speed, 0 <= ms;
        let step = self.speed * ms;
        if step > MAX_DISTANCE - self.z {
            self.z = MAX_DISTANCE;
        } else {
            self.z = self.z + step;
        }
        let gain = SPEED_GAIN_PER_MS * ms;
        if gain > MAX_SPEED - self.speed {
            self.speed = MAX_SPEED;
        } else {
            self.speed = self.speed + gain;
        }
    }

    /// Reads the frame clock: the time since the last frame, with paused
    /// time left out (zero if the clock went back).
    pub fn frame_delta(&mut self, now_ms: u64) -> (delta_ms: u32)
        ensures
            ({
                let adjusted = if now_ms >= old(self).total_pause_time {
                    now_ms - old(self).total_pause_time
                } else {
                    0
                };
                &&& final(self).last_frame_time == adjusted
                &&& adjusted >= old(self).last_frame_time ==> delta_ms == if adjusted
                    - old(self).last_frame_time > u32::MAX {
                    u32::MAX as int
                } else {
                    adjusted - old(self).last_frame_time
                }
                &&& adjusted < old(self).last_frame_time ==> delta_ms == 0
            }),
            *final(self) == (WorldState { last_frame_time: final(self).last_frame_time, ..*old(self) }),
    {
        let adjusted = if now_ms >= self.total_pause_time {
            now_ms - self.total_pause_time
        } else {
            0
        };
        let delta = if adjusted >= self.last_frame_time {
            adjusted - self.last_frame_time
        } else {
            0
        };
        self.last_frame_time = adjusted;
        if delta > u32::MAX as u64 {
            u32::MAX
        } else {
            delta as u32
        }
    }
}

/// Starts a run: a fresh character, track, distance and speed, the pause
/// clock cleared and the frame clock read as `now_ms`.
pub fn new_game(game_state: &mut GameState, character: &mut Character, world: &mut WorldState, now_ms: u64)
    ensures
        *final(game_state) == GameState::Playing,
        final(character).wf(),
        *final(character) == Character::new_spec(),
        final(world).wf(),
        final(world).z == 0,
        final(world).speed == BASE_SPEED,
        final(world).level.start() == 0,
        final(world).total_pause_time == 0,
        final(world).pause_start_time == 0,
        final(world).last_frame_time == now_ms,
        !final(world).record,
        final(world).progress == old(world).progress,
        final(world).current_map == old(world).current_map,
        final(world).current_skin == old(world).current_skin,
{
    world.z = 0;
    world.speed = BASE_SPEED;
    *character = Character::new();
    world.level = LevelGenerator::new();
    *game_state = GameState::Playing;
    world.total_pause_time = 0;
    world.pause_start_time = 0;
    world.last_frame_time = now_ms;
    world.record = false;
}

/// One frame of play: the character moves, the world scrolls and speeds
/// up, the track is extended and pruned, and the player's box is tested
/// against every obstacle. A hit ends the run and books it.
pub fn play(world: &mut WorldState, character: &mut Character, game_state: &mut GameState, delta_ms: u32)
    requires
        old(world).wf(),
        old(character).wf(),
    ensures
        final(world).wf(),
        final(character).wf(),
        *final(character) == old(character).stepped(delta_ms as nat),
        final(world).z == advanced_z(old(world).z as int, old(world).speed as int, delta_ms as int),
        final(world).speed == advanced_speed(old(world).speed as int, delta_ms as int),
        final(world).level.covers(final(world).z as int, final(world).z + LOOKAHEAD),
        forall|i: int| 0 <= i < final(world).level.segments@.len()
            ==> (#[trigger] final(world).level.segments@[i]).position > final(world).z - TRAILING_MARGIN,
        final(world).current_map == old(world).current_map,
        final(world).current_skin == old(world).current_skin,
        ({
            let hit = hits_any(
                final(character).aabb_at(final(world).z as int),
                final(world).level.segments@,
            );
            let booked = old(world).progress.after_game_over(
                score_of(final(world).z as int) as u32,
                old(world).current_map,
            );
            &&& hit ==> *final(game_state) == GameState::GameOver
            &&& hit ==> final(world).progress == booked.0
            &&& hit ==> final(world).record == (old(world).record || booked.1)
            &&& !hit ==> *final(game_state) == *old(game_state)
            &&& !hit ==> final(world).progress == old(world).progress
            &&& !hit ==> final(world).record == old(world).record
        }),
{
    character.update(delta_ms);
    world.advance(delta_ms);
    world.level.update(world.z);
    let player = character.get_aabb(world.z);
    if find_collision(&player, world.level.segments()) {
        let score = score_for_distance(world.z);
        let record = world.progress.on_game_over(score, world.current_map);
        if record {
            world.record = true;
        }
        *game_state = GameState::GameOver;
    }
}

/// The keys the game reacts to, already decoded from the device.
#[derive(Clone, Copy, Debug, PartialEq, Eq, Structural)]
pub enum Key {
    Escape,
    Q,
    Left,
    A,
    Right,
    D,
    Space,
    Up,
    W,
    Down,
    S,
    Enter,
    R,
    Other,
}

/// What happened to a key.
#[derive(Clone, Copy, Debug, PartialEq, Eq, Structural)]
pub enum KeyAction {
    Press,
    Repeat,
    Release,
}

/// The interface sounds.
#[derive(Clone, Copy, Debug, PartialEq, Eq, Structural)]
pub enum Sound {
    /// A button that navigates (back, quit, confirm).
    Button1,
    /// A button that changes a selection.
    Button2,
}

/// What the host is to do after a key: close the window, play a sound,
/// resume the music.
#[derive(Clone, Copy, Debug, PartialEq, Eq, Structural)]
pub struct KeyOutcome {
    pub quit: bool,
    pub sound: Option<Sound>,
    pub resume_music: bool,
}

/// Nothing for the host to do.
pub open spec fn quiet() -> KeyOutcome {
    KeyOutcome { quit: false, sound: Option::None, resume_music: false }
}

/// `b` plus `a`, held at the largest `u64`.
pub open spec fn add_capped(a: int, b: int) -> int {
    if a + b > u64::MAX {
        u64::MAX as int
    } else {
        a + b
    }
}

/// The time since `start`, or zero if the clock went back.
pub open spec fn elapsed(start: int, now: int) -> int {
    if now >= start {
        now - start
    } else {
        0
    }
}

/// Pauses the run at `now_ms` and releases the squat input.
pub fn pause(game_state: &mut GameState, character: &mut Character, world: &mut WorldState, now_ms: u64)
    requires
        old(character).wf(),
    ensures
        *final(game_state) == GameState::Paused,
        *final(character) == old(character).pressing_down(false),
        final(character).wf(),
        *final(world) == (WorldState { pause_start_time: now_ms, ..*old(world) }),
{
    *game_state = GameState::Paused;
    world.pause_start_time = now_ms;
    character.move_down(false);
}

/// Resumes the run at `now_ms`; the time spent paused joins the total
/// that the frame clock leaves out.
pub fn resume(game_state: &mut GameState, world: &mut WorldState, now_ms: u64)
    ensures
        *final(game_state) == GameState::Playing,
        *final(world) == (WorldState {
            total_pause_time: add_capped(
                old(world).total_pause_time as int,
                elapsed(old(world).pause_start_time as int, now_ms as int),
            ) as u64,
            ..*old(world)
        }),
{
    let paused = if now_ms >= world.pause_start_time {
        now_ms - world.pause_start_time
    } else {
        0
    };
    world.total_pause_time = if paused > u64::MAX - world.total_pause_time {
        u64::MAX
    } else {
        world.total_pause_time + paused
    };
    *game_state = GameState::Playing;
}

/// Closes the message and returns to the screen that opened it.
pub fn dismiss_message(game_state: &mut GameState, previous_state: &GameState)
    ensures
        *final(game_state) == *previous_state,
{
    *game_state = previous_state.duplicate();
}

/// Reacts to a key: moves, jumps and squats while playing, and the
/// keyboard shortcuts of the other screens.
pub fn handle_keys(
    key: Key,
    action: KeyAction,
    game_state: &mut GameState,
    character: &mut Character,
    world: &mut WorldState,
    now_ms: u64,
    previous_state: &GameState,
) -> (r: KeyOutcome)
    requires
        old(character).wf(),
    ensures
        final(character).wf(),
        ({
            let pressed = action == KeyAction::Press;
            let back = pressed && (key == Key::Escape || key == Key::Q);
            let go = pressed && (key == Key::Enter || key == Key::R);
            let c = *old(character);
            match *old(game_state) {
                GameState::Playing => if back {
                    &&& *final(game_state) == GameState::Paused
                    &&& *final(character) == c.pressing_down(false)
                    &&& *final(world) == (WorldState { pause_start_time: now_ms, ..*old(world) })
                    &&& r == quiet()
                } else {
                    &&& *final(game_state) == GameState::Playing
                    &&& r == quiet()
                    &&& (pressed && (key == Key::Left || key == Key::A)) ==> *final(character) == c.moved_left()
                        && *final(world) == *old(world)
                    &&& (pressed && (key == Key::Right || key == Key::D)) ==> *final(character) == c.moved_right()
                        && *final(world) == *old(world)
                    &&& (pressed && (key == Key::Space || key == Key::Up || key == Key::W))
                        ==> *final(character) == c.jumped()
                        && *final(world) == (WorldState { progress: old(world).progress.after_jump(), ..*old(world) })
                    &&& (key == Key::Down || key == Key::S) ==> *final(character) == c.pressing_down(
                        action != KeyAction::Release,
                    ) && *final(world) == *old(world)
                    &&& !(key == Key::Left || key == Key::A || key == Key::Right || key == Key::D
                        || key == Key::Space || key == Key::Up || key == Key::W || key == Key::Down
                        || key == Key::S) ==> *final(character) == c && *final(world) == *old(world)
                    &&& !pressed && !(key == Key::Down || key == Key::S) ==> *final(character) == c
                        && *final(world) == *old(world)
                },
                GameState::Menu => if pressed && key == Key::Escape {
                    &&& r == (KeyOutcome { quit: true, sound: Option::Some(Sound::Button1), resume_music: false })
                    &&& *final(game_state) == GameState::Menu
                    &&& *final(character) == c
                    &&& *final(world) == *old(world)
                } else if pressed && key == Key::Enter {
                    &&& r == (KeyOutcome { quit: false, sound: Option::Some(Sound::Button1), resume_music: false })
                    &&& *final(game_state) == GameState::Playing
                    &&& *final(character) == Character::new_spec()
                    &&& final(world).wf()
                    &&& final(world).z == 0
                    &&& final(world).progress == old(world).progress
                } else {
                    &&& r == quiet()
                    &&& *final(game_state) == GameState::Menu
                    &&& *final(character) == c
                    &&& *final(world) == *old(world)
                },
                GameState::MapSelect | GameState::SkinSelect => {
                    &&& *final(character) == c
                    &&& *final(world) == *old(world)
                    &&& pressed && key == Key::Escape ==> *final(game_state) == GameState::Menu
                        && r == (KeyOutcome { quit: false, sound: Option::Some(Sound::Button1), resume_music: false })
                    &&& !(pressed && key == Key::Escape) ==> *final(game_state) == *old(game_state) && r == quiet()
                },
                GameState::ShowMessage(_) => {
                    &&& *final(character) == c
                    &&& *final(world) == *old(world)
                    &&& r == quiet()
                    &&& pressed && key == Key::Escape ==> *final(game_state) == *previous_state
                    &&& !(pressed && key == Key::Escape) ==> *final(game_state) == *old(game_state)
                },
                GameState::Paused => {
                    &&& *final(character) == c
                    &&& back ==> *final(game_state) == GameState::Menu && *final(world) == *old(world)
                        && r == (KeyOutcome { quit: false, sound: Option::Some(Sound::Button1), resume_music: false })
                    &&& go ==> *final(game_state) == GameState::Playing
                        && r == (KeyOutcome { quit: false, sound: Option::Some(Sound::Button1), resume_music: true })
                        && *final(world) == (WorldState {
                            total_pause_time: add_capped(
                                old(world).total_pause_time as int,
                                elapsed(old(world).pause_start_time as int, now_ms as int),
                            ) as u64,
                            ..*old(world)
                        })
                    &&& !back && !go ==> *final(game_state) == GameState::Paused && *final(world) == *old(world)
                        && r == quiet()
                },
                GameState::GameOver => if back {
                    &&& r == (KeyOutcome { quit: false, sound: Option::Some(Sound::Button1), resume_music: false })
                    &&& *final(game_state) == GameState::Menu
                    &&& *final(character) == c
                    &&& *final(world) == *old(world)
                } else if go {
                    &&& r == (KeyOutcome { quit: false, sound: Option::Some(Sound::Button1), resume_music: false })
                    &&& *final(game_state) == GameState::Playing
                    &&& *final(character) == Character::new_spec()
                    &&& final(world).wf()
                    &&& final(world).z == 0
                    &&& final(world).progress == old(world).progress
                } else {
                    &&& r == quiet()
                    &&& *final(game_state) == GameState::GameOver
                    &&& *final(character) == c
                    &&& *final(world) == *old(world)
                },
            }
        }),
{
    let pressed = action == KeyAction::Press;
    let back = pressed && (key == Key::Escape || key == Key::Q);
    let go = pressed && (key == Key::Enter || key == Key::R);
    let click = KeyOutcome { quit: false, sound: Option::Some(Sound::Button1), resume_music: false };
    let none = KeyOutcome { quit: false, sound: Option::None, resume_music: false };
    match game_state {
        GameState::Playing => {
            if back {
                pause(game_state, character, world, now_ms);
            } else if pressed && (key == Key::Left || key == Key::A) {
                character.move_left();
            } else if pressed && (key == Key::Right || key == Key::D) {
                character.move_right();
            } else if pressed && (key == Key::Space || key == Key::Up || key == Key::W) {
                character.jump();
                world.progress.on_jump();
            } else if key == Key::Down || key == Key::S {
                character.move_down(action != KeyAction::Release);
            }
            none
        },
        GameState::Menu => {
            if pressed && key == Key::Escape {
                KeyOutcome { quit: true, sound: Option::Some(Sound::Button1), resume_music: false }
            } else if pressed && key == Key::Enter {
                new_game(game_state, character, world, now_ms);
                click
            } else {
                none
            }
        },
        GameState::MapSelect | GameState::SkinSelect => {
            if pressed && key == Key::Escape {
                *game_state = GameState::Menu;
                click
            } else {
                none
            }
        },
        GameState::ShowMessage(_) => {
            if pressed && key == Key::Escape {
                dismiss_message(game_state, previous_state);
            }
            none
        },
        GameState::Paused => {
            if back {
                *game_state = GameState::Menu;
                click
            } else if go {
                resume(game_state, world, now_ms);
                KeyOutcome { quit: false, sound: Option::Some(Sound::Button1), resume_music: true }
            } else {
                none
            }
        },
        GameState::GameOver => {
            if back {
                *game_state = GameState::Menu;
                click
            } else if go {
                new_game(game_state, character, world, now_ms);
                click
            } else {
                none
            }
        },
    }
}

/// Acts on a click of the main menu; returns whether the game is to quit.
pub fn on_menu_action(
    action: MenuAction,
    game_state: &mut GameState,
    character: &mut Character,
    world: &mut WorldState,
    now_ms: u64,
) -> (quit: bool)
    ensures
        quit == (action == MenuAction::Quit),
        action == MenuAction::Play ==> *final(game_state) == GameState::Playing
            && *final(character) == Character::new_spec() && final(world).wf()
            && final(world).z == 0 && final(world).progress == old(world).progress,
        action == MenuAction::MapSelect ==> *final(game_state) == GameState::MapSelect,
        action == MenuAction::SkinSelect ==> *final(game_state) == GameState::SkinSelect,
        action == MenuAction::Quit || action == MenuAction::NoAction ==> *final(game_state)
            == *old(game_state),
        action != MenuAction::Play ==> *final(character) == *old(character) && *final(world)
            == *old(world),
{
    match action {
        MenuAction::Play => {
            new_game(game_state, character, world, now_ms);
            false
        },
        MenuAction::MapSelect => {
            *game_state = GameState::MapSelect;
            false
        },
        MenuAction::SkinSelect => {
            *game_state = GameState::SkinSelect;
            false
        },
        MenuAction::Quit => true,
        MenuAction::NoAction => false,
    }
}

/// Acts on a click of the map list: picks a map, shows what unlocks a
/// locked one (remembering to come back here), or goes back to the menu.
/// Returns the sound to play.
pub fn on_map_action(
    action: MapAction,
    game_state: &mut GameState,
    previous_state: &mut GameState,
    world: &mut WorldState,
) -> (r: Option<Sound>)
    ensures
        match action {
            MapAction::SelectMap(m) => {
                &&& *final(world) == (WorldState { current_map: m, ..*old(world) })
                &&& *final(game_state) == *old(game_state)
                &&& *final(previous_state) == *old(previous_state)
                &&& r == if m != old(world).current_map {
                    Option::Some(Sound::Button2)
                } else {
                    Option::None
                }
            },
            MapAction::ShowMessage(msg) => {
                &&& *final(game_state) == GameState::ShowMessage(msg)
                &&& *final(previous_state) == GameState::MapSelect
                &&& *final(world) == *old(world)
                &&& r is None
            },
            MapAction::Back => {
                &&& *final(game_state) == GameState::Menu
                &&& *final(previous_state) == *old(previous_state)
                &&& *final(world) == *old(world)
                &&& r == Option::Some(Sound::Button1)
            },
            MapAction::NoAction => {
                &&& *final(game_state) == *old(game_state)
                &&& *final(previous_state) == *old(previous_state)
                &&& *final(world) == *old(world)
                &&& r is None
            },
        },
{
    match action {
        MapAction::SelectMap(m) => {
            let changed = m != world.current_map;
            world.current_map = m;
            if changed {
                Option::Some(Sound::Button2)
            } else {
                Option::None
            }
        },
        MapAction::ShowMessage(msg) => {
            *previous_state = GameState::MapSelect;
            *game_state = GameState::ShowMessage(msg);
            Option::None
        },
        MapAction::Back => {
            *game_state = GameState::Menu;
            Option::Some(Sound::Button1)
        },
        MapAction::NoAction => Option::None,
    }
}

/// Acts on a click of the skin list, as `on_map_action` does for maps.
pub fn on_skin_action(
    action: SkinAction,
    game_state: &mut GameState,
    previous_state: &mut GameState,
    world: &mut WorldState,
) -> (r: Option<Sound>)
    ensures
        match action {
            SkinAction::SelectSkin(s) => {
                &&& *final(world) == (WorldState { current_skin: s, ..*old(world) })
                &&& *final(game_state) == *old(game_state)
                &&& *final(previous_state) == *old(previous_state)
                &&& r == if s != old(world).current_skin {
                    Option::Some(Sound::Button2)
                } else {
                    Option::None
                }
            },
            SkinAction::ShowMessage(msg) => {
                &&& *final(game_state) == GameState::ShowMessage(msg)
                &&& *final(previous_state) == GameState::SkinSelect
                &&& *final(world) == *old(world)
                &&& r is None
            },
            SkinAction::Back => {
                &&& *final(game_state) == GameState::Menu
                &&& *final(previous_state) == *old(previous_state)
                &&& *final(world) == *old(world)
                &&& r == Option::Some(Sound::Button1)
            },
            SkinAction::NoAction => {
                &&& *final(game_state) == *old(game_state)
                &&& *final(previous_state) == *old(previous_state)
                &&& *final(world) == *old(world)
                &&& r is None
            },
        },
{
    match action {
        SkinAction::SelectSkin(s) => {
            let changed = s != world.current_skin;
            world.current_skin = s;
            if changed {
                Option::Some(Sound::Button2)
            } else {
                Option::None
            }
        },
        SkinAction::ShowMessage(msg) => {
            *previous_state = GameState::SkinSelect;
            *game_state = GameState::ShowMessage(msg);
            Option::None
        },
        SkinAction::Back => {
            *game_state = GameState::Menu;
            Option::Some(Sound::Button1)
        },
        SkinAction::NoAction => Option::None,
    }
}

/// Acts on a click of the pause screen; a button press plays a click.
pub fn on_pause_action(action: PauseAction, game_state: &mut GameState, world: &mut WorldState, now_ms: u64) -> (r: Option<Sound>)
    ensures
        action == PauseAction::Resume ==> *final(game_state) == GameState::Playing
            && *final(world) == (WorldState {
                total_pause_time: add_capped(
                    old(world).total_pause_time as int,
                    elapsed(old(world).pause_start_time as int, now_ms as int),
                ) as u64,
                ..*old(world)
            }),
        action == PauseAction::Quit ==> *final(game_state) == GameState::Menu && *final(world) == *old(world),
        action == PauseAction::NoAction ==> *final(game_state) == *old(game_state) && *final(world) == *old(world),
        r == if action == PauseAction::NoAction {
            Option::None
        } else {
            Option::Some(Sound::Button1)
        },
{
    match action {
        PauseAction::Resume => {
            resume(game_state, world, now_ms);
            Option::Some(Sound::Button1)
        },
        PauseAction::Quit => {
            *game_state = GameState::Menu;
            Option::Some(Sound::Button1)
        },
        PauseAction::NoAction => Option::None,
    }
}

/// Acts on a click of the game-over screen: retry or back to the menu.
pub fn on_game_over_action(
    action: GameOverAction,
    game_state: &mut GameState,
    character: &mut Character,
    world: &mut WorldState,
    now_ms: u64,
)
    ensures
        action == GameOverAction::NewGame ==> *final(game_state) == GameState::Playing
            && *final(character) == Character::new_spec() && final(world).wf()
            && final(world).z == 0 && final(world).progress == old(world).progress,
        action == GameOverAction::Quit ==> *final(game_state) == GameState::Menu,
        action == GameOverAction::NoAction ==> *final(game_state) == *old(game_state),
        action != GameOverAction::NewGame ==> *final(character) == *old(character) && *final(world)
            == *old(world),
{
    match action {
        GameOverAction::NewGame => new_game(game_state, character, world, now_ms),
        GameOverAction::Quit => *game_state = GameState::Menu,
        GameOverAction::NoAction => {},
    }
}

/// The snapshot handed to persistence: unlocks, counters and selections.
#[derive(Clone, Copy, Debug, PartialEq, Eq, Structural)]
pub struct SaveData {
    pub unlocked_maps: UnlockedMaps,
    pub unlocked_skins: UnlockedSkins,
    pub quest_progress: QuestProgress,
    pub current_skin: Skins,
    pub current_map: Maps,
}

/// Takes the persistent part of the world.
pub fn extract_save_data(world: &WorldState) -> (r: SaveData)
    ensures
        r == (SaveData {
            unlocked_maps: world.progress.unlocked_maps,
            unlocked_skins: world.progress.unlocked_skins,
            quest_progress: world.progress.quest_progress,
            current_skin: world.current_skin,
            current_map: world.current_map,
        }),
{
    SaveData {
        unlocked_maps: world.progress.unlocked_maps,
        unlocked_skins: world.progress.unlocked_skins,
        quest_progress: world.progress.quest_progress,
        current_skin: world.current_skin,
        current_map: world.current_map,
    }
}

impl WorldState {
    /// Restores a loaded snapshot.
    pub fn apply_save_data(&mut self, save: &SaveData)
        ensures
            *final(self) == (WorldState {
                progress: Progression {
                    unlocked_maps: save.unlocked_maps,
                    unlocked_skins: save.unlocked_skins,
                    quest_progress: save.quest_progress,
                },
                current_skin: save.current_skin,
                current_map: save.current_map,
                ..*old(self)
            }),
    {
        self.progress = Progression {
            unlocked_maps: save.unlocked_maps,
            unlocked_skins: save.unlocked_skins,
            quest_progress: save.quest_progress,
        };
        self.current_skin = save.current_skin;
        self.current_map = save.current_map;
    }
}

} // verus!
