//! The main menu: its fixed items, and cursor moves that skip disabled items.
use vstd::prelude::*;

verus! {

/// The number of items on the main menu.
pub const MENU_LEN: usize = 5;

#[derive(Debug, Clone, Copy, PartialEq, Eq, Structural)]
pub enum MainItem {
    TasteProfiles,
    DisplayProfiles,
    Build,
    Prune,
    Exit,
}

/// The menu item at position `i`, top first.
pub open spec fn item_at(i: int) -> MainItem {
    if i == 0 {
        MainItem::TasteProfiles
    } else if i == 1 {
        MainItem::DisplayProfiles
    } else if i == 2 {
        MainItem::Build
    } else if i == 3 {
        MainItem::Prune
    } else {
        MainItem::Exit
    }
}

pub open spec fn label_text(m: MainItem) -> Seq<char> {
    match m {
        MainItem::TasteProfiles => "Taste Profiles"@,
        MainItem::DisplayProfiles => "Display Profiles"@,
        MainItem::Build => "Build"@,
        MainItem::Prune => "Prune"@,
        MainItem::Exit => "Exit"@,
    }
}

pub open spec fn description_text(m: MainItem) -> Seq<char> {
    match m {
        MainItem::TasteProfiles => "Manage your art taste profiles (subjects, styles, periods)"@,
        MainItem::DisplayProfiles => "Manage your display profiles (resolution, aspect ratio, frame)"@,
        MainItem::Build => "Build a wallpaper gallery by picking a taste + display profile"@,
        MainItem::Prune => "Remove old images based on retention limits (coming soon)"@,
        MainItem::Exit => "Exit artgg"@,
    }
}

impl MainItem {
    /// Only pruning is not available yet.
    pub open spec fn disabled(self) -> bool {
        self is Prune
    }

    pub fn at(i: usize) -> (r: MainItem)
        requires
            i < MENU_LEN,
        ensures
            r == item_at(i as int),
    {
        if i == 0 {
            MainItem::TasteProfiles
        } else if i == 1 {
            MainItem::DisplayProfiles
        } else if i == 2 {
            MainItem::Build
        } else if i == 3 {
            MainItem::Prune
        } else {
            MainItem::Exit
        }
    }

    /// Every item, top first.
    pub fn all() -> (r: Vec<MainItem>)
        ensures
            r@.len() == MENU_LEN,
            forall|i: int| 0 <= i < MENU_LEN ==> r@[i] == item_at(i),
    {
        let mut r: Vec<MainItem> = Vec::new();
        let mut i: usize = 0;
        while i < MENU_LEN
            invariant
                i <= MENU_LEN,
                r@.len() == i,
                forall|j: int| 0 <= j < i ==> r@[j] == item_at(j),
            decreases MENU_LEN - i,
        {
            r.push(MainItem::at(i));
            i = i + 1;
        }
        r
    }

    pub fn label(&self) -> (r: &'static str)
        ensures
            r@ == label_text(*self),
    {
        match self {
            MainItem::TasteProfiles => "Taste Profiles",
            MainItem::DisplayProfiles => "Display Profiles",
            MainItem::Build => "Build",
            MainItem::Prune => "Prune",
            MainItem::Exit => "Exit",
        }
    }

    pub fn description(&self) -> (r: &'static str)
        ensures
            r@ == description_text(*self),
    {
        match self {
            MainItem::TasteProfiles => "Manage your art taste profiles (subjects, styles, periods)",
            MainItem::DisplayProfiles => "Manage your display profiles (resolution, aspect ratio, frame)",
            MainItem::Build => "Build a wallpaper gallery by picking a taste + display profile",
            MainItem::Prune => "Remove old images based on retention limits (coming soon)",
            MainItem::Exit => "Exit artgg",
        }
    }

    pub fn is_disabled(&self) -> (r: bool)
        ensures
            r == self.disabled(),
    {
        match self {
            MainItem::Prune => true,
            _ => false,
        }
    }
}

/// The position above `i`, wrapping from the top to the bottom.
pub open spec fn above(i: int) -> int {
    if i <= 0 {
        MENU_LEN - 1
    } else {
        i - 1
    }
}

/// The position below `i`, wrapping from the bottom to the top.
pub open spec fn below(i: int) -> int {
    if i >= MENU_LEN - 1 {
        0
    } else {
        i + 1
    }
}

/// From `i`, the first enabled position met going up, looking at most `fuel`
/// positions past `i`.
pub open spec fn enabled_upward(i: int, fuel: nat) -> int
    decreases fuel,
{
    if fuel == 0 || !item_at(i).disabled() {
        i
    } else {
        enabled_upward(above(i), (fuel - 1) as nat)
    }
}

/// From `i`, the first enabled position met going down, looking at most
/// `fuel` positions past `i`.
pub open spec fn enabled_downward(i: int, fuel: nat) -> int
    decreases fuel,
{
    if fuel == 0 || !item_at(i).disabled() {
        i
    } else {
        enabled_downward(below(i), (fuel - 1) as nat)
    }
}

/// Where the cursor goes on a move up: the nearest enabled item above,
/// wrapping round.
pub open spec fn menu_up(i: int) -> int {
    enabled_upward(above(i), MENU_LEN as nat)
}

/// Where the cursor goes on a move down: the nearest enabled item below,
/// wrapping round.
pub open spec fn menu_down(i: int) -> int {
    enabled_downward(below(i), MENU_LEN as nat)
}

proof fn lemma_menu_moves(i: int)
    requires
        0 <= i < MENU_LEN,
    ensures
        0 <= menu_up(i) < MENU_LEN,
        !item_at(menu_up(i)).disabled(),
        0 <= menu_down(i) < MENU_LEN,
        !item_at(menu_down(i)).disabled(),
{
    reveal_with_fuel(enabled_upward, 2);
    reveal_with_fuel(enabled_downward, 2);
}

pub fn move_up(i: usize) -> (r: usize)
    requires
        i < MENU_LEN,
    ensures
        r == menu_up(i as int),
        r < MENU_LEN,
        !item_at(r as int).disabled(),
{
    proof {
        lemma_menu_moves(i as int);
    }
    let mut idx: usize = if i == 0 {
        MENU_LEN - 1
    } else {
        i - 1
    };
    let ghost mut fuel: nat = MENU_LEN as nat;
    while MainItem::at(idx).is_disabled()
        invariant
            idx < MENU_LEN,
            enabled_upward(idx as int, fuel) == menu_up(i as int),
            fuel == MENU_LEN || !item_at(idx as int).disabled(),
        decreases fuel,
    {
        proof {
            fuel = (fuel - 1) as nat;
        }
        if idx == 0 {
            idx = MENU_LEN - 1;
        } else {
            idx = idx - 1;
        }
        proof {
            reveal_with_fuel(enabled_upward, 2);
        }
    }
    idx
}

pub fn move_down(i: usize) -> (r: usize)
    requires
        i < MENU_LEN,
    ensures
        r == menu_down(i as int),
        r < MENU_LEN,
        !item_at(r as int).disabled(),
{
    proof {
        lemma_menu_moves(i as int);
    }
    let mut idx: usize = (i + 1) % MENU_LEN;
    let ghost mut fuel: nat = MENU_LEN as nat;
    while MainItem::at(idx).is_disabled()
        invariant
            idx < MENU_LEN,
            enabled_downward(idx as int, fuel) == menu_down(i as int),
            fuel == MENU_LEN || !item_at(idx as int).disabled(),
        decreases fuel,
    {
        proof {
            fuel = (fuel - 1) as nat;
        }
        idx = (idx + 1) % MENU_LEN;
        proof {
            reveal_with_fuel(enabled_downward, 2);
        }
    }
    idx
}

/// The cursor after a run of moves, `true` for down and `false` for up.
pub open spec fn menu_after(i: int, moves: Seq<bool>) -> int
    decreases moves.len(),
{
    if moves.len() == 0 {
        i
    } else {
        let j = menu_after(i, moves.drop_last());
        if moves.last() {
            menu_down(j)
        } else {
            menu_up(j)
        }
    }
}

/// However the cursor moves up and down, wrapping at either end, it stays on
/// the menu and, once it has moved, rests on an enabled item.
pub proof fn lemma_menu_never_disabled(i: int, moves: Seq<bool>)
    requires
        0 <= i < MENU_LEN,
    ensures
        0 <= menu_after(i, moves) < MENU_LEN,
        moves.len() > 0 ==> !item_at(menu_after(i, moves)).disabled(),
    decreases moves.len(),
{
    if moves.len() > 0 {
        lemma_menu_never_disabled(i, moves.drop_last());
        lemma_menu_moves(menu_after(i, moves.drop_last()));
    }
}

} // verus!
