//! Unlocks and quest counters, updated at the two trigger points of a
//! run: a jump input and the collision that ends it.
use vstd::prelude::*;

verus! {

/// Jump inputs that unlock the jumper skin.
pub const JUMPS_FOR_JUMPER: u32 = 500;

/// Deaths that unlock the troll skin.
pub const DEATHS_FOR_TROLL: u32 = 100;

/// Score that unlocks the arcane skin on any map.
pub const SCORE_FOR_ARCANE: u32 = 1000;

/// Games played in the cave that unlock the temple map.
pub const CAVE_GAMES_FOR_TEMPLE: u32 = 15;

/// Score on a gated map that unlocks its first skin (dirt or stone).
pub const MAP_SCORE_FIRST_SKIN: u32 = 300;

/// Score on a gated map that unlocks its second skin (diamond or emerald).
pub const MAP_SCORE_SECOND_SKIN: u32 = 500;

/// Distance (in `1 / UNIT` metres) that makes one point of score.
pub const DISTANCE_PER_POINT: i64 = 10_000_000_000;

/// The maps.
#[derive(Clone, Copy, Debug, PartialEq, Eq, Structural)]
pub enum Maps {
    Campus,
    Cave,
    Temple,
}

/// The character skins.
#[derive(Clone, Copy, Debug, PartialEq, Eq, Structural)]
pub enum Skins {
    Red,
    Jumper,
    Troll,
    Dirt,
    Stone,
    Diamond,
    Emerald,
    Arcane,
}

/// Which maps may be played.
#[derive(Clone, Copy, Debug, PartialEq, Eq, Structural)]
pub struct UnlockedMaps {
    pub campus: bool,
    pub cave: bool,
    pub temple: bool,
}

/// Which skins may be worn.
#[derive(Clone, Copy, Debug, PartialEq, Eq, Structural)]
pub struct UnlockedSkins {
    pub red: bool,
    pub jumper: bool,
    pub troll: bool,
    pub dirt: bool,
    pub stone: bool,
    pub diamond: bool,
    pub emerald: bool,
    pub arcane: bool,
}

/// The quest counters and best scores.
#[derive(Clone, Copy, Debug, PartialEq, Eq, Structural)]
pub struct QuestProgress {
    pub jumps: u32,
    pub deaths: u32,
    pub high_score: u32,
    pub cave_score: u32,
    pub temple_score: u32,
    pub cave_games: u32,
}

/// The progression tracker: unlock flags and quest counters.
#[derive(Clone, Copy, Debug, PartialEq, Eq, Structural)]
pub struct Progression {
    pub unlocked_maps: UnlockedMaps,
    pub unlocked_skins: UnlockedSkins,
    pub quest_progress: QuestProgress,
}

/// A counter one step on, held at its largest value.
pub open spec fn bump(c: u32) -> u32 {
    if c < u32::MAX {
        (c + 1) as u32
    } else {
        c
    }
}

fn bumped(c: u32) -> (r: u32)
    ensures
        r == bump(c),
{
    if c < u32::MAX {
        c + 1
    } else {
        c
    }
}

/// The score of a run that ended at distance `z`: one point per ten metres.
pub open spec fn score_of(z: int) -> int {
    z / DISTANCE_PER_POINT as int
}

/// The score of a run that ended at distance `z`.
pub fn score_for_distance(z: i64) -> (r: u32)
    requires
        0 <= z <= crate::geometry::MAX_DISTANCE,
    ensures
        r == score_of(z as int),
{
    (z / DISTANCE_PER_POINT) as u32
}

/// A death, counted towards the troll skin until it is unlocked.
pub open spec fn after_death(p: Progression) -> Progression {
    if p.unlocked_skins.troll {
        p
    } else {
        let deaths = bump(p.quest_progress.deaths);
        Progression {
            quest_progress: QuestProgress { deaths, ..p.quest_progress },
            unlocked_skins: UnlockedSkins { troll: deaths >= DEATHS_FOR_TROLL, ..p.unlocked_skins },
            ..p
        }
    }
}

/// A score that beats the high score replaces it (and is a record); a
/// high enough one unlocks the arcane skin.
pub open spec fn after_score(p: Progression, score: u32) -> (Progression, bool) {
    if score > p.quest_progress.high_score {
        (Progression {
            quest_progress: QuestProgress { high_score: score, ..p.quest_progress },
            unlocked_skins: UnlockedSkins {
                arcane: p.unlocked_skins.arcane || score >= SCORE_FOR_ARCANE,
                ..p.unlocked_skins
            },
            ..p
        }, true)
    } else {
        (p, false)
    }
}

/// A game in the cave counts towards the temple until it is unlocked; a
/// better cave score may unlock the dirt and diamond skins.
pub open spec fn after_cave_run(p: Progression, score: u32) -> Progression {
    let q = if p.unlocked_maps.temple {
        p
    } else {
        let games = bump(p.quest_progress.cave_games);
        Progression {
            quest_progress: QuestProgress { cave_games: games, ..p.quest_progress },
            unlocked_maps: UnlockedMaps { temple: games >= CAVE_GAMES_FOR_TEMPLE, ..p.unlocked_maps },
            ..p
        }
    };
    if score > q.quest_progress.cave_score {
        let s = q.unlocked_skins;
        Progression {
            quest_progress: QuestProgress { cave_score: score, ..q.quest_progress },
            unlocked_skins: if s.diamond {
                s
            } else {
                UnlockedSkins {
                    dirt: s.dirt || score >= MAP_SCORE_FIRST_SKIN,
                    diamond: score >= MAP_SCORE_SECOND_SKIN,
                    ..s
                }
            },
            ..q
        }
    } else {
        q
    }
}

/// A better temple score may unlock the stone and emerald skins.
pub open spec fn after_temple_run(p: Progression, score: u32) -> Progression {
    if score > p.quest_progress.temple_score {
        let s = p.unlocked_skins;
        Progression {
            quest_progress: QuestProgress { temple_score: score, ..p.quest_progress },
            unlocked_skins: if s.emerald {
                s
            } else {
                UnlockedSkins {
                    stone: s.stone || score >= MAP_SCORE_FIRST_SKIN,
                    emerald: score >= MAP_SCORE_SECOND_SKIN,
                    ..s
                }
            },
            ..p
        }
    } else {
        p
    }
}

/// The map-specific part of a game over.
pub open spec fn after_map_run(p: Progression, score: u32, map: Maps) -> Progression {
    match map {
        Maps::Cave => after_cave_run(p, score),
        Maps::Temple => after_temple_run(p, score),
        Maps::Campus => p,
    }
}

/// Every flag that is set in `p` is set in `q`.
pub open spec fn keeps_unlocks(p: Progression, q: Progression) -> bool {
    &&& p.unlocked_maps.campus ==> q.unlocked_maps.campus
    &&& p.unlocked_maps.cave ==> q.unlocked_maps.cave
    &&& p.unlocked_maps.temple ==> q.unlocked_maps.temple
    &&& p.unlocked_skins.red ==> q.unlocked_skins.red
    &&& p.unlocked_skins.jumper ==> q.unlocked_skins.jumper
    &&& p.unlocked_skins.troll ==> q.unlocked_skins.troll
    &&& p.unlocked_skins.dirt ==> q.unlocked_skins.dirt
    &&& p.unlocked_skins.stone ==> q.unlocked_skins.stone
    &&& p.unlocked_skins.diamond ==> q.unlocked_skins.diamond
    &&& p.unlocked_skins.emerald ==> q.unlocked_skins.emerald
    &&& p.unlocked_skins.arcane ==> q.unlocked_skins.arcane
}

/// No counter of `p` is larger in `q`.
pub open spec fn keeps_counts(p: Progression, q: Progression) -> bool {
    &&& p.quest_progress.jumps <= q.quest_progress.jumps
    &&& p.quest_progress.deaths <= q.quest_progress.deaths
    &&& p.quest_progress.high_score <= q.quest_progress.high_score
    &&& p.quest_progress.cave_score <= q.quest_progress.cave_score
    &&& p.quest_progress.temple_score <= q.quest_progress.temple_score
    &&& p.quest_progress.cave_games <= q.quest_progress.cave_games
}

impl Progression {
    /// The starting snapshot: the campus map and the red skin, nothing
    /// else unlocked, every counter at zero.
    pub open spec fn initial() -> Progression {
        Progression {
            unlocked_maps: UnlockedMaps { campus: true, cave: false, temple: false },
            unlocked_skins: UnlockedSkins {
                red: true,
                jumper: false,
                troll: false,
                dirt: false,
                stone: false,
                diamond: false,
                emerald: false,
                arcane: false,
            },
            quest_progress: QuestProgress {
                jumps: 0,
                deaths: 0,
                high_score: 0,
                cave_score: 0,
                temple_score: 0,
                cave_games: 0,
            },
        }
    }

    /// The starting snapshot: the campus map and the red skin, nothing
    /// else unlocked, every counter at zero.
    pub fn new() -> (r: Progression)
        ensures
            r == Progression::initial(),
    {
        Progression {
            unlocked_maps: UnlockedMaps { campus: true, cave: false, temple: false },
            unlocked_skins: UnlockedSkins {
                red: true,
                jumper: false,
                troll: false,
                dirt: false,
                stone: false,
                diamond: false,
                emerald: false,
                arcane: false,
            },
            quest_progress: QuestProgress {
                jumps: 0,
                deaths: 0,
                high_score: 0,
                cave_score: 0,
                temple_score: 0,
                cave_games: 0,
            },
        }
    }

    /// The progression after a jump input.
    pub open spec fn after_jump(self) -> Progression {
        if self.unlocked_skins.jumper {
            self
        } else {
            let jumps = bump(self.quest_progress.jumps);
            Progression {
                quest_progress: QuestProgress { jumps, ..self.quest_progress },
                unlocked_skins: UnlockedSkins {
                    jumper: jumps >= JUMPS_FOR_JUMPER,
                    ..self.unlocked_skins
                },
                ..self
            }
        }
    }

    /// The progression after a run that ended with `score` on `map`, and
    /// whether the score was a new record.
    pub open spec fn after_game_over(self, score: u32, map: Maps) -> (Progression, bool) {
        let (p, record) = after_score(after_death(self), score);
        (after_map_run(p, score, map), record)
    }

    /// Counts a player-initiated jump towards the jumper skin.
    pub fn on_jump(&mut self)
        ensures
            *final(self) == old(self).after_jump(),
    {
        if !self.unlocked_skins.jumper {
            let jumps = bumped(self.quest_progress.jumps);
            self.quest_progress.jumps = jumps;
            if jumps >= JUMPS_FOR_JUMPER {
                self.unlocked_skins.jumper = true;
            }
        }
    }

    fn count_death(&mut self)
        ensures
            *final(self) == after_death(*old(self)),
    {
        if !self.unlocked_skins.troll {
            let deaths = bumped(self.quest_progress.deaths);
            self.quest_progress.deaths = deaths;
            if deaths >= DEATHS_FOR_TROLL {
                self.unlocked_skins.troll = true;
            }
        }
    }

    fn count_score(&mut self, score: u32) -> (record: bool)
        ensures
            (*final(self), record) == after_score(*old(self), score),
    {
        if score > self.quest_progress.high_score {
            self.quest_progress.high_score = score;
            if !self.unlocked_skins.arcane && score >= SCORE_FOR_ARCANE {
                self.unlocked_skins.arcane = true;
            }
            true
        } else {
            false
        }
    }

    fn count_cave_run(&mut self, score: u32)
        ensures
            *final(self) == after_cave_run(*old(self), score),
    {
        if !self.unlocked_maps.temple {
            let games = bumped(self.quest_progress.cave_games);
            self.quest_progress.cave_games = games;
            if games >= CAVE_GAMES_FOR_TEMPLE {
                self.unlocked_maps.temple = true;
            }
        }
        if score > self.quest_progress.cave_score {
            self.quest_progress.cave_score = score;
            if !self.unlocked_skins.diamond {
                if !self.unlocked_skins.dirt && score >= MAP_SCORE_FIRST_SKIN {
                    self.unlocked_skins.dirt = true;
                }
                if score >= MAP_SCORE_SECOND_SKIN {
                    self.unlocked_skins.diamond = true;
                }
            }
        }
    }

    fn count_temple_run(&mut self, score: u32)
        ensures
            *final(self) == after_temple_run(*old(self), score),
    {
        if score > self.quest_progress.temple_score {
            self.quest_progress.temple_score = score;
            if !self.unlocked_skins.emerald {
                if !self.unlocked_skins.stone && score >= MAP_SCORE_FIRST_SKIN {
                    self.unlocked_skins.stone = true;
                }
                if score >= MAP_SCORE_SECOND_SKIN {
                    self.unlocked_skins.emerald = true;
                }
            }
        }
    }

    /// Books a run that ended by collision with `score` on `map`; returns
    /// whether the score beat the previous high score.
    pub fn on_game_over(&mut self, score: u32, map: Maps) -> (record: bool)
        ensures
            (*final(self), record) == old(self).after_game_over(score, map),
    {
        self.count_death();
        let record = self.count_score(score);
        match map {
            Maps::Cave => self.count_cave_run(score),
            Maps::Temple => self.count_temple_run(score),
            Maps::Campus => {},
        }
        record
    }
}

/// Unlocks are never taken back and counters never go down, whatever
/// sequence of jumps and game overs befalls the tracker.
pub proof fn lemma_progress_monotone(p: Progression, score: u32, map: Maps)
    ensures
        keeps_unlocks(p, p.after_jump()),
        keeps_counts(p, p.after_jump()),
        keeps_unlocks(p, p.after_game_over(score, map).0),
        keeps_counts(p, p.after_game_over(score, map).0),
{
}

/// The jumper skin unlocks on exactly the jump that brings the counter to
/// the threshold, and stays unlocked.
pub proof fn lemma_jumper_threshold(p: Progression)
    requires
        !p.unlocked_skins.jumper,
        p.quest_progress.jumps < u32::MAX,
    ensures
        p.after_jump().quest_progress.jumps == p.quest_progress.jumps + 1,
        p.after_jump().unlocked_skins.jumper <==> p.quest_progress.jumps + 1 >= JUMPS_FOR_JUMPER,
{
}

} // verus!
