//! Screen buttons and what a click on each screen means. Coordinates are
//! whole pixels with the origin at the bottom-left of the window.
use vstd::prelude::*;
use crate::progress::{Maps, Skins, UnlockedMaps, UnlockedSkins};


verus! {

/// Width of every screen button.
pub const BUTTON_WIDTH: i64 = 300;

/// Height of every screen button.
pub const BUTTON_HEIGHT: i64 = 80;

/// A clickable rectangle: `(x, y)` is its bottom-left corner.
#[derive(Clone, Copy, Debug, PartialEq, Eq, Structural)]
pub struct Button {
    pub x: i64,
    pub y: i64,
    pub width: i64,
    pub height: i64,
}

/// Largest coordinate a button may have, far beyond any window.
pub const MAX_COORD: i64 = 0x1_0000_0000_0000;

impl Button {
    /// A button placed from a window no larger than `u32` pixels.
    pub open spec fn wf(self) -> bool {
        &&& -MAX_COORD <= self.x <= MAX_COORD
        &&& -MAX_COORD <= self.y <= MAX_COORD
        &&& 0 <= self.width <= MAX_COORD
        &&& 0 <= self.height <= MAX_COORD
    }

    /// The point `(x, y)` lies on the button, edges included.
    pub open spec fn holds(self, x: int, y: int) -> bool {
        &&& self.x <= x <= self.x + self.width
        &&& self.y <= y <= self.y + self.height
    }

    /// A standard-size button with its bottom-left corner at `(x, y)`.
    pub fn at(x: i64, y: i64) -> (r: Button)
        ensures
            r == (Button { x, y, width: BUTTON_WIDTH, height: BUTTON_HEIGHT }),
    {
        Button { x, y, width: BUTTON_WIDTH, height: BUTTON_HEIGHT }
    }

    /// Whether the pointer at `(x, y)` is on the button.
    pub fn contains(&self, x: i64, y: i64) -> (r: bool)
        requires
            self.wf(),
        ensures
            r == self.holds(x as int, y as int),
    {
        x >= self.x && x <= self.x + self.width && y >= self.y && y
            <= self.y + self.height
    }
}

/// The first button, from index `i` on, that holds `(x, y)`.
pub open spec fn first_hit_from(bs: Seq<Button>, x: int, y: int, i: int) -> Option<int>
    decreases bs.len() - i,
{
    if i < 0 || i >= bs.len() {
        Option::None
    } else if bs[i].holds(x, y) {
        Option::Some(i)
    } else {
        first_hit_from(bs, x, y, i + 1)
    }
}

/// The first button of the list that holds `(x, y)`, if any.
pub open spec fn first_hit(bs: Seq<Button>, x: int, y: int) -> Option<int> {
    first_hit_from(bs, x, y, 0)
}

/// Every button of the list is well formed.
pub open spec fn all_wf(bs: Seq<Button>) -> bool {
    forall|i: int| 0 <= i < bs.len() ==> (#[trigger] bs[i]).wf()
}

/// Finds the first button under the pointer.
pub fn hit_index(buttons: &Vec<Button>, x: i64, y: i64) -> (r: Option<usize>)
    requires
        all_wf(buttons@),
    ensures
        r matches Option::Some(i) ==> first_hit(buttons@, x as int, y as int) == Option::Some(i as int),
        r is None ==> first_hit(buttons@, x as int, y as int) is None,
{
    let mut i: usize = 0;
    while i < buttons.len()
        invariant
            i <= buttons@.len(),
            all_wf(buttons@),
            first_hit(buttons@, x as int, y as int) == first_hit_from(buttons@, x as int, y as int, i as int),
        decreases buttons@.len() - i,
    {
        if buttons[i].contains(x, y) {
            return Option::Some(i);
        }
        i = i + 1;
    }
    Option::None
}

/// Half of a window dimension, in pixels.
fn half(d: u32) -> (r: i64)
    ensures
        r == d as int / 2,
{
    (d / 2) as i64
}

/// What a click on the main menu asks for.
#[derive(Clone, Copy, Debug, PartialEq, Eq, Structural)]
pub enum MenuAction {
    Play,
    Quit,
    MapSelect,
    SkinSelect,
    NoAction,
}

/// The main menu: play, maps, skins and quit, stacked in the middle.
pub struct Menu {
    pub buttons: Vec<Button>,
}

impl Menu {
    /// Four buttons stacked a hundred pixels apart around the centre.
    pub open spec fn layout(screen_width: u32, screen_height: u32) -> Seq<Button> {
        let x = screen_width as int / 2 - 150;
        let y = screen_height as int / 2;
        seq![
            Button { x: x as i64, y: (y + 50) as i64, width: BUTTON_WIDTH, height: BUTTON_HEIGHT },
            Button { x: x as i64, y: (y - 50) as i64, width: BUTTON_WIDTH, height: BUTTON_HEIGHT },
            Button { x: x as i64, y: (y - 150) as i64, width: BUTTON_WIDTH, height: BUTTON_HEIGHT },
            Button { x: x as i64, y: (y - 250) as i64, width: BUTTON_WIDTH, height: BUTTON_HEIGHT },
        ]
    }

    /// The menu laid out for a window of the given size.
    pub fn new(screen_width: u32, screen_height: u32) -> (r: Menu)
        ensures
            r.buttons@ == Self::layout(screen_width, screen_height),
            all_wf(r.buttons@),
    {
        let x = half(screen_width) - 150;
        let y = half(screen_height);
        let buttons = vec![
            Button::at(x, y + 50),
            Button::at(x, y - 50),
            Button::at(x, y - 150),
            Button::at(x, y - 250),
        ];
        assert(buttons@ =~= Self::layout(screen_width, screen_height));
        Menu { buttons }
    }

    /// Play, maps, skins, quit, from top to bottom.
    pub open spec fn action_for(hit: Option<int>) -> MenuAction {
        match hit {
            Option::Some(i) => if i == 0 {
                MenuAction::Play
            } else if i == 1 {
                MenuAction::MapSelect
            } else if i == 2 {
                MenuAction::SkinSelect
            } else if i == 3 {
                MenuAction::Quit
            } else {
                MenuAction::NoAction
            },
            Option::None => MenuAction::NoAction,
        }
    }

    /// The action of the button under the pointer.
    pub fn handle_click(&self, mouse_x: i64, mouse_y: i64) -> (r: MenuAction)
        requires
            all_wf(self.buttons@),
        ensures
            r == Self::action_for(first_hit(self.buttons@, mouse_x as int, mouse_y as int)),
    {
        match hit_index(&self.buttons, mouse_x, mouse_y) {
            Option::Some(0) => MenuAction::Play,
            Option::Some(1) => MenuAction::MapSelect,
            Option::Some(2) => MenuAction::SkinSelect,
            Option::Some(3) => MenuAction::Quit,
            _ => MenuAction::NoAction,
        }
    }
}

/// The two buttons of the pause and game-over screens: the upper one
/// goes on, the lower one quits.
pub open spec fn two_button_layout(screen_width: u32, screen_height: u32) -> Seq<Button> {
    let x = screen_width as int / 2 - 150;
    let y = screen_height as int / 2;
    seq![
        Button { x: x as i64, y: y as i64, width: BUTTON_WIDTH, height: BUTTON_HEIGHT },
        Button { x: x as i64, y: (y - 130) as i64, width: BUTTON_WIDTH, height: BUTTON_HEIGHT },
    ]
}

fn two_buttons(screen_width: u32, screen_height: u32) -> (r: Vec<Button>)
    ensures
        r@ == two_button_layout(screen_width, screen_height),
        all_wf(r@),
{
    let x = half(screen_width) - 150;
    let y = half(screen_height);
    let buttons = vec![Button::at(x, y), Button::at(x, y - 130)];
    assert(buttons@ =~= two_button_layout(screen_width, screen_height));
    buttons
}

/// What a click on the pause screen asks for.
#[derive(Clone, Copy, Debug, PartialEq, Eq, Structural)]
pub enum PauseAction {
    Resume,
    Quit,
    NoAction,
}

/// The pause screen: resume above quit.
pub struct Pause {
    pub buttons: Vec<Button>,
}

impl Pause {
    /// The pause screen laid out for a window of the given size.
    pub fn new(screen_width: u32, screen_height: u32) -> (r: Pause)
        ensures
            r.buttons@ == two_button_layout(screen_width, screen_height),
            all_wf(r.buttons@),
    {
        Pause { buttons: two_buttons(screen_width, screen_height) }
    }

    /// Resume above, quit below.
    pub open spec fn action_for(hit: Option<int>) -> PauseAction {
        match hit {
            Option::Some(i) => if i == 0 {
                PauseAction::Resume
            } else if i == 1 {
                PauseAction::Quit
            } else {
                PauseAction::NoAction
            },
            Option::None => PauseAction::NoAction,
        }
    }

    /// The action of the button under the pointer.
    pub fn handle_click(&self, mouse_x: i64, mouse_y: i64) -> (r: PauseAction)
        requires
            all_wf(self.buttons@),
        ensures
            r == Self::action_for(first_hit(self.buttons@, mouse_x as int, mouse_y as int)),
    {
        match hit_index(&self.buttons, mouse_x, mouse_y) {
            Option::Some(0) => PauseAction::Resume,
            Option::Some(1) => PauseAction::Quit,
            _ => PauseAction::NoAction,
        }
    }
}

/// What a click on the game-over screen asks for.
#[derive(Clone, Copy, Debug, PartialEq, Eq, Structural)]
pub enum GameOverAction {
    NewGame,
    Quit,
    NoAction,
}

/// The game-over screen: retry above quit.
pub struct GameOver {
    pub buttons: Vec<Button>,
}

impl GameOver {
    /// The game-over screen laid out for a window of the given size.
    pub fn new(screen_width: u32, screen_height: u32) -> (r: GameOver)
        ensures
            r.buttons@ == two_button_layout(screen_width, screen_height),
            all_wf(r.buttons@),
    {
        GameOver { buttons: two_buttons(screen_width, screen_height) }
    }

    /// Retry above, quit below.
    pub open spec fn action_for(hit: Option<int>) -> GameOverAction {
        match hit {
            Option::Some(i) => if i == 0 {
                GameOverAction::NewGame
            } else if i == 1 {
                GameOverAction::Quit
            } else {
                GameOverAction::NoAction
            },
            Option::None => GameOverAction::NoAction,
        }
    }

    /// The action of the button under the pointer.
    pub fn handle_click(&self, mouse_x: i64, mouse_y: i64) -> (r: GameOverAction)
        requires
            all_wf(self.buttons@),
        ensures
            r == Self::action_for(first_hit(self.buttons@, mouse_x as int, mouse_y as int)),
    {
        match hit_index(&self.buttons, mouse_x, mouse_y) {
            Option::Some(0) => GameOverAction::NewGame,
            Option::Some(1) => GameOverAction::Quit,
            _ => GameOverAction::NoAction,
        }
    }
}

/// A list entry: the item it picks (none for the back button), whether it
/// may be picked, and what unlocks it.
#[derive(Debug)]
pub struct MapButton {
    pub id: Option<Maps>,
    pub unlocked: bool,
    pub unlock_requirement: String,
}

/// What a click on the map list asks for.
#[derive(Debug)]
pub enum MapAction {
    SelectMap(Maps),
    ShowMessage(String),
    Back,
    NoAction,
}

/// The map list: campus, cave and temple, then back.
pub struct MapSelect {
    pub buttons: Vec<Button>,
    pub entries: Vec<MapButton>,
}

fn entry<T>(id: Option<T>, unlocked: bool, unlock_requirement: &str) -> (r: (Option<T>, bool, String))
    ensures
        r.0 == id,
        r.1 == unlocked,
        r.2@ == unlock_requirement@,
{
    (id, unlocked, unlock_requirement.to_owned())
}

impl MapSelect {
    /// The map on the `i`-th entry.
    pub open spec fn map_at(i: int) -> Option<Maps> {
        if i == 0 {
            Option::Some(Maps::Campus)
        } else if i == 1 {
            Option::Some(Maps::Cave)
        } else if i == 2 {
            Option::Some(Maps::Temple)
        } else {
            Option::None
        }
    }

    /// One entry per button; the last is the back button, never locked.
    pub open spec fn wf(self) -> bool {
        &&& all_wf(self.buttons@)
        &&& self.buttons@.len() == 4
        &&& self.entries@.len() == 4
        &&& forall|i: int| 0 <= i < 4 ==> (#[trigger] self.entries@[i]).id == Self::map_at(i)
        &&& self.entries@[3].unlocked
    }

    /// The map list laid out for a window of the given size, with each
    /// map locked or not as `unlocked_maps` says.
    pub fn new(screen_width: u32, screen_height: u32, unlocked_maps: &UnlockedMaps) -> (r: MapSelect)
        ensures
            r.wf(),
            r.buttons@ == Menu::layout(screen_width, screen_height).take(3).push(
                Button { x: (screen_width / 2 - 150) as i64, y: 50, width: BUTTON_WIDTH, height: BUTTON_HEIGHT },
            ),
            r.entries@[0].unlocked == unlocked_maps.campus,
            r.entries@[1].unlocked == unlocked_maps.cave,
            r.entries@[2].unlocked == unlocked_maps.temple,
            r.entries@[0].unlock_requirement@ == ""@,
            r.entries@[1].unlock_requirement@ == "reach 100m"@,
            r.entries@[2].unlock_requirement@ == "Play 15 games in cave"@,
    {
        let buttons = Menu::new(screen_width, screen_height).buttons;
        let buttons = vec![buttons[0], buttons[1], buttons[2], Button::at(half(screen_width) - 150, 50)];
        let (a, b, c) = entry(Option::Some(Maps::Campus), unlocked_maps.campus, "");
        let e0 = MapButton { id: a, unlocked: b, unlock_requirement: c };
        let (a, b, c) = entry(Option::Some(Maps::Cave), unlocked_maps.cave, "reach 100m");
        let e1 = MapButton { id: a, unlocked: b, unlock_requirement: c };
        let (a, b, c) = entry(Option::Some(Maps::Temple), unlocked_maps.temple, "Play 15 games in cave");
        let e2 = MapButton { id: a, unlocked: b, unlock_requirement: c };
        let (a, b, c) = entry(Option::None, true, "");
        let e3 = MapButton { id: a, unlocked: b, unlock_requirement: c };
        let entries = vec![e0, e1, e2, e3];
        let r = MapSelect { buttons, entries };
        assert(r.buttons@ =~= Menu::layout(screen_width, screen_height).take(3).push(
            Button { x: (screen_width / 2 - 150) as i64, y: 50, width: BUTTON_WIDTH, height: BUTTON_HEIGHT },
        ));
        assert forall|i: int| 0 <= i < 4 implies (#[trigger] r.entries@[i]).id == Self::map_at(i) by {}
        r
    }

    /// A locked entry shows what unlocks it; an unlocked one picks its map;
    /// the last goes back.
    pub open spec fn action_for(self, hit: Option<int>) -> MapAction {
        match hit {
            Option::Some(i) => if !self.entries@[i].unlocked {
                MapAction::ShowMessage(self.entries@[i].unlock_requirement)
            } else if i < 3 {
                MapAction::SelectMap(Self::map_at(i)->Some_0)
            } else {
                MapAction::Back
            },
            Option::None => MapAction::NoAction,
        }
    }

    /// The action of the entry under the pointer.
    pub fn handle_click(&self, mouse_x: i64, mouse_y: i64) -> (r: MapAction)
        requires
            self.wf(),
        ensures
            r == self.action_for(first_hit(self.buttons@, mouse_x as int, mouse_y as int)),
    {
        match hit_index(&self.buttons, mouse_x, mouse_y) {
            Option::Some(i) => {
                proof {
                    lemma_first_hit_in_range(self.buttons@, mouse_x as int, mouse_y as int, 0);
                }
                let e = &self.entries[i];
                if !e.unlocked {
                    MapAction::ShowMessage(e.unlock_requirement.clone())
                } else if i == 0 {
                    MapAction::SelectMap(Maps::Campus)
                } else if i == 1 {
                    MapAction::SelectMap(Maps::Cave)
                } else if i == 2 {
                    MapAction::SelectMap(Maps::Temple)
                } else {
                    MapAction::Back
                }
            },
            Option::None => MapAction::NoAction,
        }
    }
}

/// A hit found from index `i` on lies in the list, at or after `i`.
pub proof fn lemma_first_hit_in_range(bs: Seq<Button>, x: int, y: int, i: int)
    requires
        0 <= i,
    ensures
        first_hit_from(bs, x, y, i) matches Option::Some(j) ==> i <= j < bs.len(),
    decreases bs.len() - i,
{
    if i < bs.len() && !bs[i].holds(x, y) {
        lemma_first_hit_in_range(bs, x, y, i + 1);
    }
}

/// What a click on the skin list asks for.
#[derive(Debug)]
pub enum SkinAction {
    SelectSkin(Skins),
    ShowMessage(String),
    Back,
    NoAction,
}

/// A skin-list entry: the skin it picks (none for the back button),
/// whether it may be picked, and what unlocks it.
#[derive(Debug)]
pub struct SkinButton {
    pub id: Option<Skins>,
    pub unlocked: bool,
    pub unlock_requirement: String,
}

/// The skin list: a grid of three columns, then back at the bottom.
pub struct SkinSelect {
    pub buttons: Vec<Button>,
    pub entries: Vec<SkinButton>,
}

/// Where the grid puts the `index`-th button; index nine is the bottom
/// centre, kept for the back button.
pub open spec fn grid_position(index: int, screen_width: u32, screen_height: u32) -> (int, int) {
    if index == 9 {
        (screen_width as int / 2 - 150, 50)
    } else {
        (
            screen_width as int / 2 - 470 + (index % 3) * 320,
            screen_height as int / 2 + 50 - (index / 3) * 100,
        )
    }
}

impl SkinSelect {
    /// The skin on the `i`-th entry.
    pub open spec fn skin_at(i: int) -> Option<Skins> {
        if i == 0 {
            Option::Some(Skins::Red)
        } else if i == 1 {
            Option::Some(Skins::Jumper)
        } else if i == 2 {
            Option::Some(Skins::Troll)
        } else if i == 3 {
            Option::Some(Skins::Dirt)
        } else if i == 4 {
            Option::Some(Skins::Stone)
        } else if i == 5 {
            Option::Some(Skins::Diamond)
        } else if i == 6 {
            Option::Some(Skins::Emerald)
        } else if i == 7 {
            Option::Some(Skins::Arcane)
        } else {
            Option::None
        }
    }

    /// Bottom-left corner of the `index`-th button of the grid.
    pub fn button_position(index: usize, screen_width: u32, screen_height: u32) -> (r: (i64, i64))
        requires
            index <= 9,
        ensures
            r.0 == grid_position(index as int, screen_width, screen_height).0,
            r.1 == grid_position(index as int, screen_width, screen_height).1,
    {
        if index == 9 {
            (half(screen_width) - 150, 50)
        } else {
            let row = (index / 3) as i64;
            let col = (index % 3) as i64;
            (half(screen_width) - 470 + col * 320, half(screen_height) + 50 - row * 100)
        }
    }

    /// One entry per button; the last is the back button, never locked.
    pub open spec fn wf(self) -> bool {
        &&& all_wf(self.buttons@)
        &&& self.buttons@.len() == 9
        &&& self.entries@.len() == 9
        &&& forall|i: int| 0 <= i < 9 ==> (#[trigger] self.entries@[i]).id == Self::skin_at(i)
        &&& self.entries@[8].unlocked
    }

    /// The skin list laid out for a window of the given size; the red
    /// skin is always available.
    pub fn new(screen_width: u32, screen_height: u32, unlocked_skins: &UnlockedSkins) -> (r: SkinSelect)
        ensures
            r.wf(),
            forall|i: int| 0 <= i < 8 ==> {
                let p = grid_position(i, screen_width, screen_height);
                (#[trigger] r.buttons@[i]).x == p.0 && r.buttons@[i].y == p.1
            },
            r.buttons@[8].x == grid_position(9, screen_width, screen_height).0,
            r.buttons@[8].y == grid_position(9, screen_width, screen_height).1,
            r.entries@[0].unlocked,
            r.entries@[1].unlocked == unlocked_skins.jumper,
            r.entries@[2].unlocked == unlocked_skins.troll,
            r.entries@[3].unlocked == unlocked_skins.dirt,
            r.entries@[4].unlocked == unlocked_skins.stone,
            r.entries@[5].unlocked == unlocked_skins.diamond,
            r.entries@[6].unlocked == unlocked_skins.emerald,
            r.entries@[7].unlocked == unlocked_skins.arcane,
            r.entries@[1].unlock_requirement@ == "Jump 500 times"@,
            r.entries@[2].unlock_requirement@ == "Die 100 times"@,
            r.entries@[3].unlock_requirement@ == "Reach 300m in cave"@,
            r.entries@[4].unlock_requirement@ == "Reach 300m in temple"@,
            r.entries@[5].unlock_requirement@ == "Reach 500m in cave"@,
            r.entries@[6].unlock_requirement@ == "Reach 500m in temple"@,
            r.entries@[7].unlock_requirement@ == "Reach 1000m in any map"@,
    {
        let mut buttons: Vec<Button> = Vec::new();
        let mut i: usize = 0;
        while i < 9
            invariant
                i <= 9,
                buttons@.len() == i,
                all_wf(buttons@),
                forall|j: int| 0 <= j < i ==> {
                    let p = grid_position(if j == 8 { 9 } else { j }, screen_width, screen_height);
                    (#[trigger] buttons@[j]).x == p.0 && buttons@[j].y == p.1
                },
            decreases 9 - i,
        {
            let index = if i == 8 { 9 } else { i };
            let (x, y) = Self::button_position(index, screen_width, screen_height);
            buttons.push(Button::at(x, y));
            i = i + 1;
        }
        let (a, b, c) = entry(Option::Some(Skins::Red), true, "");
        let e0 = SkinButton { id: a, unlocked: b, unlock_requirement: c };
        let (a, b, c) = entry(Option::Some(Skins::Jumper), unlocked_skins.jumper, "Jump 500 times");
        let e1 = SkinButton { id: a, unlocked: b, unlock_requirement: c };
        let (a, b, c) = entry(Option::Some(Skins::Troll), unlocked_skins.troll, "Die 100 times");
        let e2 = SkinButton { id: a, unlocked: b, unlock_requirement: c };
        let (a, b, c) = entry(Option::Some(Skins::Dirt), unlocked_skins.dirt, "Reach 300m in cave");
        let e3 = SkinButton { id: a, unlocked: b, unlock_requirement: c };
        let (a, b, c) = entry(Option::Some(Skins::Stone), unlocked_skins.stone, "Reach 300m in temple");
        let e4 = SkinButton { id: a, unlocked: b, unlock_requirement: c };
        let (a, b, c) = entry(Option::Some(Skins::Diamond), unlocked_skins.diamond, "Reach 500m in cave");
        let e5 = SkinButton { id: a, unlocked: b, unlock_requirement: c };
        let (a, b, c) = entry(Option::Some(Skins::Emerald), unlocked_skins.emerald, "Reach 500m in temple");
        let e6 = SkinButton { id: a, unlocked: b, unlock_requirement: c };
        let (a, b, c) = entry(Option::Some(Skins::Arcane), unlocked_skins.arcane, "Reach 1000m in any map");
        let e7 = SkinButton { id: a, unlocked: b, unlock_requirement: c };
        let (a, b, c) = entry(Option::None, true, "");
        let e8 = SkinButton { id: a, unlocked: b, unlock_requirement: c };
        let entries = vec![e0, e1, e2, e3, e4, e5, e6, e7, e8];
        let r = SkinSelect { buttons, entries };
        assert forall|i: int| 0 <= i < 9 implies (#[trigger] r.entries@[i]).id == Self::skin_at(i) by {}
        assert forall|i: int| 0 <= i < 8 implies {
            let p = grid_position(i, screen_width, screen_height);
            (#[trigger] r.buttons@[i]).x == p.0 && r.buttons@[i].y == p.1
        } by {}
        assert(r.buttons@[8].x == grid_position(9, screen_width, screen_height).0);
        r
    }

    /// A locked entry shows what unlocks it; an unlocked one picks its
    /// skin; the last goes back.
    pub open spec fn action_for(self, hit: Option<int>) -> SkinAction {
        match hit {
            Option::Some(i) => if !self.entries@[i].unlocked {
                SkinAction::ShowMessage(self.entries@[i].unlock_requirement)
            } else if i < 8 {
                SkinAction::SelectSkin(Self::skin_at(i)->Some_0)
            } else {
                SkinAction::Back
            },
            Option::None => SkinAction::NoAction,
        }
    }

    /// The action of the entry under the pointer.
    pub fn handle_click(&self, mouse_x: i64, mouse_y: i64) -> (r: SkinAction)
        requires
            self.wf(),
        ensures
            r == self.action_for(first_hit(self.buttons@, mouse_x as int, mouse_y as int)),
    {
        match hit_index(&self.buttons, mouse_x, mouse_y) {
            Option::Some(i) => {
                proof {
                    lemma_first_hit_in_range(self.buttons@, mouse_x as int, mouse_y as int, 0);
                }
                let e = &self.entries[i];
                if !e.unlocked {
                    SkinAction::ShowMessage(e.unlock_requirement.clone())
                } else if i < 8 {
                    let skin = match e.id {
                        Option::Some(s) => s,
                        Option::None => Skins::Red,
                    };
                    SkinAction::SelectSkin(skin)
                } else {
                    SkinAction::Back
                }
            },
            Option::None => SkinAction::NoAction,
        }
    }
}

} // verus!
