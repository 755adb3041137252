//! The state table: one slot for each player and the fields of the match.
//!
//! Every field is an atomic of its own. A setter is one store, or a few stores
//! one after the other; nothing locks, nothing waits, and no two fields change
//! in one step. The table never grows: the slots exist from the start, and a
//! slot index outside of them finds no slot.
//!
//! The fields are memory shared with other threads. What a snapshot shows is
//! what each field held when it was read, each for itself; the contracts say of
//! it what holds whatever the fields held. What a slot or a table was made
//! with is fixed for good, and the constructors state it: see
//! [`Player::initial`] and [`Info::initial`].

use vstd::prelude::*;
use std::sync::atomic::AtomicBool;
use std::sync::atomic::AtomicU32;
use std::sync::atomic::Ordering;
use crate::atomic_name::{lemma_absent_round_trip, read, read_text, written, AtomicName};
use crate::buffer::is_name;
use crate::game::{has_arena_id_len, is_arena_id, is_match_active, match_active, remaining_reading, results_known, stocks_after_death, stocks_left, REMAINING_UNKNOWN};

verus! {

/// Slots of the table.
pub const MAX_PLAYERS: usize = 8;

/// What the game reports of a fighter when it enters, is hit or comes back.
#[derive(Clone, Copy, Debug, PartialEq, Eq)]
pub struct PlayerState {
    pub character: u32,
    /// The damage, a 32-bit float, as its bit pattern.
    pub damage_bits: u32,
    pub stocks: u32,
    pub self_destructs: u32,
    pub is_cpu: bool,
    pub skin: u32,
}

/// One player's fields as a snapshot shows them.
#[derive(Debug, PartialEq, Eq)]
pub struct PlayerSnapshot {
    pub character: u32,
    /// The damage, a 32-bit float, as its bit pattern.
    pub damage_bits: u32,
    pub stocks: u32,
    pub self_destructs: u32,
    pub is_cpu: bool,
    pub skin: u32,
    pub name: Option<String>,
    pub hero_menu_open: bool,
    pub hero_menu_selection: u32,
    pub hero_menu_selected: bool,
}

/// The whole table as read at one tick.
#[derive(Debug, PartialEq, Eq)]
pub struct InfoSnapshot {
    pub stage: u32,
    /// The frames left in the match, `REMAINING_UNKNOWN` while none runs.
    pub remaining_frames: i64,
    pub is_match: bool,
    pub is_results_screen: bool,
    pub current_menu: u32,
    pub arena_id: Option<String>,
    /// The slots in order of their index.
    pub players: Vec<PlayerSnapshot>,
}

/// `text` is absent or a name.
pub open spec fn is_optional_name(text: Option<String>) -> bool {
    text matches Some(t) ==> is_name(t@)
}

impl InfoSnapshot {
    /// The remaining time reads as unknown exactly while no match runs, and
    /// as a frame count, which is not negative, while one does.
    pub open spec fn timer_consistent(&self) -> bool {
        &&& !self.is_match ==> self.remaining_frames == REMAINING_UNKNOWN
        &&& self.is_match ==> 0 <= self.remaining_frames <= u32::MAX
    }

    /// The snapshot has every slot, a consistent timer, and texts that are names.
    pub open spec fn well_formed(&self) -> bool {
        &&& self.players@.len() == MAX_PLAYERS
        &&& self.timer_consistent()
        &&& is_optional_name(self.arena_id)
        &&& forall|i: int| 0 <= i < self.players@.len() ==> is_optional_name(self.players@[i].name)
    }
}

/// What a slot was made with: the value of each field, the name as the four
/// words of its cell.
pub struct PlayerSeed {
    pub character: u32,
    pub damage_bits: u32,
    pub stocks: u32,
    pub self_destructs: u32,
    pub is_cpu: bool,
    pub skin: u32,
    pub name: Seq<u64>,
    pub hero_menu_open: bool,
    pub hero_menu_selection: u32,
    pub hero_menu_selected: bool,
}

/// What a table was made with: the value of each field, the arena identifier
/// as the four words of its cell, and the slots in order of their index.
pub struct InfoSeed {
    pub stage: u32,
    pub remaining_frames: u32,
    pub is_match: bool,
    pub is_results_screen: bool,
    pub current_menu: u32,
    pub arena_id: Seq<u64>,
    pub players: Seq<PlayerSeed>,
}

/// A slot as it is at the start: every number zero, every flag down, no name.
pub open spec fn fresh_player() -> PlayerSeed {
    PlayerSeed {
        character: 0,
        damage_bits: 0,
        stocks: 0,
        self_destructs: 0,
        is_cpu: false,
        skin: 0,
        name: written(None),
        hero_menu_open: false,
        hero_menu_selection: 0,
        hero_menu_selected: false,
    }
}

/// A table as it is at the start: every number zero, every flag down, no
/// arena identifier, and every slot fresh.
pub open spec fn fresh_info() -> InfoSeed {
    InfoSeed {
        stage: 0,
        remaining_frames: 0,
        is_match: false,
        is_results_screen: false,
        current_menu: 0,
        arena_id: written(None),
        players: Seq::new(MAX_PLAYERS as nat, |slot: int| fresh_player()),
    }
}

/// Read from what it was made with, a fresh slot has no name and a fresh
/// table has no arena identifier, as a buffer and as a text.
pub proof fn lemma_fresh_is_absent()
    ensures
        read(fresh_player().name) is None,
        read_text(fresh_player().name) is None,
        read(fresh_info().arena_id) is None,
        read_text(fresh_info().arena_id) is None,
        fresh_info().players.len() == MAX_PLAYERS,
{
    lemma_absent_round_trip();
}

/// A number that many threads set and read, with the value it was made with.
struct Count {
    cell: AtomicU32,
    made_with: Ghost<u32>,
}

impl Count {
    /// The value that the number was made with.
    closed spec fn initial(&self) -> u32 {
        self.made_with@
    }

    /// A number that starts as `value`.
    fn new(value: u32) -> (r: Self)
        ensures
            r.initial() == value,
    {
        Count { cell: AtomicU32::new(value), made_with: Ghost(value) }
    }
}

/// A flag that many threads set and read, with the value it was made with.
struct Flag {
    cell: AtomicBool,
    made_with: Ghost<bool>,
}

impl Flag {
    /// The value that the flag was made with.
    closed spec fn initial(&self) -> bool {
        self.made_with@
    }

    /// A flag that starts as `value`.
    fn new(value: bool) -> (r: Self)
        ensures
            r.initial() == value,
    {
        Flag { cell: AtomicBool::new(value), made_with: Ghost(value) }
    }
}

/// One player's live fields.
pub struct Player {
    character: Count,
    damage: Count,
    stocks: Count,
    self_destructs: Count,
    is_cpu: Flag,
    skin: Count,
    name: AtomicName,
    hero_menu_open: Flag,
    hero_menu_selection: Count,
    hero_menu_selected: Flag,
}

impl Player {
    /// What the slot was made with. Setters do not change it: it says what
    /// the fields held first, not what they hold now.
    pub closed spec fn initial(&self) -> PlayerSeed {
        PlayerSeed {
            character: self.character.initial(),
            damage_bits: self.damage.initial(),
            stocks: self.stocks.initial(),
            self_destructs: self.self_destructs.initial(),
            is_cpu: self.is_cpu.initial(),
            skin: self.skin.initial(),
            name: self.name.initial(),
            hero_menu_open: self.hero_menu_open.initial(),
            hero_menu_selection: self.hero_menu_selection.initial(),
            hero_menu_selected: self.hero_menu_selected.initial(),
        }
    }

    /// A slot with every field zero and no name.
    pub fn new() -> (r: Self)
        ensures
            r.initial() == fresh_player(),
    {
        Player {
            character: Count::new(0),
            damage: Count::new(0),
            stocks: Count::new(0),
            self_destructs: Count::new(0),
            is_cpu: Flag::new(false),
            skin: Count::new(0),
            name: AtomicName::new(None),
            hero_menu_open: Flag::new(false),
            hero_menu_selection: Count::new(0),
            hero_menu_selected: Flag::new(false),
        }
    }

    pub fn set_character(&self, character: u32) {
        self.character.cell.store(character, Ordering::SeqCst);
    }

    /// Sets the damage, given as the bit pattern of a 32-bit float.
    pub fn set_damage(&self, damage_bits: u32) {
        self.damage.cell.store(damage_bits, Ordering::SeqCst);
    }

    pub fn set_stocks(&self, stocks: u32) {
        self.stocks.cell.store(stocks, Ordering::SeqCst);
    }

    pub fn set_self_destructs(&self, self_destructs: u32) {
        self.self_destructs.cell.store(self_destructs, Ordering::SeqCst);
    }

    pub fn set_cpu(&self, is_cpu: bool) {
        self.is_cpu.cell.store(is_cpu, Ordering::SeqCst);
    }

    pub fn set_skin(&self, skin: u32) {
        self.skin.cell.store(skin, Ordering::SeqCst);
    }

    /// Sets the name to the first sixteen code units of a text, or clears it.
    pub fn set_name(&self, name: Option<&str>) {
        self.name.store_str(name, Ordering::SeqCst);
    }

    pub fn set_menu_open(&self, open: bool) {
        self.hero_menu_open.cell.store(open, Ordering::SeqCst);
    }

    pub fn set_menu_selection(&self, index: u32) {
        self.hero_menu_selection.cell.store(index, Ordering::SeqCst);
    }

    pub fn set_menu_selected(&self, selected: bool) {
        self.hero_menu_selected.cell.store(selected, Ordering::SeqCst);
    }

    /// Takes over what the game reports of the fighter, and its tag as the
    /// name. While fighters are entered (`in_fight`) the command menu is
    /// closed first.
    pub fn set_state(&self, state: &PlayerState, tag: &str, in_fight: bool) {
        if in_fight {
            self.set_menu_selected(false);
            self.set_menu_open(false);
        }
        self.set_character(state.character);
        self.set_damage(state.damage_bits);
        self.set_stocks(state.stocks);
        self.set_self_destructs(state.self_destructs);
        self.set_cpu(state.is_cpu);
        self.set_skin(state.skin);
        self.set_name(Some(tag));
    }

    /// Records the death of a fighter that had `stocks` stocks, and returns
    /// the count now recorded: one fewer, none where it had none.
    pub fn record_death(&self, stocks: u32) -> (left: u32)
        ensures
            left == stocks_left(stocks),
    {
        let left = stocks_after_death(stocks);
        self.set_stocks(left);
        left
    }

    /// Records the fighter picked on the character select screen.
    pub fn select_fighter(&self, character: u32, skin: u32) {
        self.set_character(character);
        self.set_skin(skin);
    }

    /// The command menu opens, with its first entry selected.
    pub fn open_menu(&self) {
        self.set_menu_open(true);
        self.set_menu_selection(0);
    }

    /// The selection of the command menu moves to `index`.
    pub fn move_menu(&self, index: u32) {
        self.set_menu_selection(index);
    }

    /// The entry `index` of the command menu is chosen.
    pub fn decide_menu(&self, index: u32) {
        self.set_menu_selection(index);
        self.set_menu_selected(true);
    }

    /// The command menu closes.
    pub fn close_menu(&self) {
        self.set_menu_selected(false);
        self.set_menu_open(false);
    }

    /// Every field, each read once.
    pub fn snapshot(&self) -> (r: PlayerSnapshot)
        ensures
            is_optional_name(r.name),
    {
        PlayerSnapshot {
            character: self.character.cell.load(Ordering::SeqCst),
            damage_bits: self.damage.cell.load(Ordering::SeqCst),
            stocks: self.stocks.cell.load(Ordering::SeqCst),
            self_destructs: self.self_destructs.cell.load(Ordering::SeqCst),
            is_cpu: self.is_cpu.cell.load(Ordering::SeqCst),
            skin: self.skin.cell.load(Ordering::SeqCst),
            name: self.name.load_string(Ordering::SeqCst),
            hero_menu_open: self.hero_menu_open.cell.load(Ordering::SeqCst),
            hero_menu_selection: self.hero_menu_selection.cell.load(Ordering::SeqCst),
            hero_menu_selected: self.hero_menu_selected.cell.load(Ordering::SeqCst),
        }
    }
}

/// The table: the fields of the match and one slot for each player.
pub struct Info {
    stage: Count,
    remaining_frames: Count,
    is_match: Flag,
    is_results_screen: Flag,
    current_menu: Count,
    arena_id: AtomicName,
    players: [Player; 8],
}

impl Info {
    /// What the table was made with. Setters do not change it: it says what
    /// the fields held first, not what they hold now.
    pub closed spec fn initial(&self) -> InfoSeed {
        InfoSeed {
            stage: self.stage.initial(),
            remaining_frames: self.remaining_frames.initial(),
            is_match: self.is_match.initial(),
            is_results_screen: self.is_results_screen.initial(),
            current_menu: self.current_menu.initial(),
            arena_id: self.arena_id.initial(),
            players: Seq::new(MAX_PLAYERS as nat, |slot: int| self.players@[slot].initial()),
        }
    }

    /// A table with every field zero and every text absent.
    pub fn new() -> (r: Self)
        ensures
            r.initial() == fresh_info(),
    {
        let r = Info {
            stage: Count::new(0),
            remaining_frames: Count::new(0),
            is_match: Flag::new(false),
            is_results_screen: Flag::new(false),
            current_menu: Count::new(0),
            arena_id: AtomicName::new(None),
            players: [
                Player::new(),
                Player::new(),
                Player::new(),
                Player::new(),
                Player::new(),
                Player::new(),
                Player::new(),
                Player::new(),
            ],
        };
        assert(r.initial().players =~= fresh_info().players);
        r
    }

    /// The slots in order of their index.
    pub closed spec fn slots(&self) -> Seq<Player> {
        self.players@
    }

    /// The slot with index `slot`; none where the table has no such slot.
    pub fn player(&self, slot: usize) -> (r: Option<&Player>)
        ensures
            r is Some <==> slot < MAX_PLAYERS,
            r matches Some(p) ==> *p == self.slots()[slot as int],
    {
        if slot < MAX_PLAYERS {
            Some(&self.players[slot])
        } else {
            None
        }
    }

    pub fn set_stage(&self, stage: u32) {
        self.stage.cell.store(stage, Ordering::SeqCst);
    }

    pub fn set_menu(&self, menu: u32) {
        self.current_menu.cell.store(menu, Ordering::SeqCst);
    }

    pub fn set_results_screen(&self, shown: bool) {
        self.is_results_screen.cell.store(shown, Ordering::SeqCst);
    }

    /// Sets the frames left in the match.
    pub fn set_remaining_frames(&self, frames: u32) {
        self.remaining_frames.cell.store(frames, Ordering::SeqCst);
    }

    pub fn set_match(&self, is_match: bool) {
        self.is_match.cell.store(is_match, Ordering::SeqCst);
    }

    /// Sets the arena identifier to the first sixteen code units of a text, or
    /// clears it.
    pub fn set_arena_id(&self, id: Option<&str>) {
        self.arena_id.store_str(id, Ordering::SeqCst);
    }

    /// Takes `id` as the arena identifier where it has the length of one, and
    /// says whether it did.
    pub fn join_arena(&self, id: &str) -> (taken: bool)
        ensures
            taken == has_arena_id_len(id),
    {
        let taken = is_arena_id(id);
        if taken {
            self.set_arena_id(Some(id));
        }
        taken
    }

    /// The arena closes: the identifier is cleared.
    pub fn leave_arena(&self) {
        self.set_arena_id(None);
    }

    /// A stage has been picked, so the results screen is over.
    pub fn stage_selected(&self) {
        self.set_results_screen(false);
    }

    /// Takes over what the game reports of the match at a tick, and returns
    /// whether a match runs. The frames left are kept only while one does; the
    /// word on the results screen only while fighters are shown outside the
    /// controls screen.
    pub fn refresh_match(&self, entry_count: i32, result_mode: bool, menu: u32, frames: u32) -> (active: bool)
        ensures
            active == is_match_active(entry_count, result_mode, menu),
    {
        let active = match_active(entry_count, result_mode, menu);
        if active {
            self.set_remaining_frames(frames);
        } else {
            self.set_remaining_frames(0);
        }
        self.set_match(active);
        self.set_menu(menu);
        if results_known(entry_count, menu) {
            self.set_results_screen(result_mode);
        }
        active
    }

    /// The whole table, every field read once. The fields are read one after
    /// the other, so the snapshot may show fields from before a concurrent
    /// update beside fields from after it. The remaining time is derived from
    /// the match flag as read, and so never contradicts it.
    pub fn snapshot(&self) -> (r: InfoSnapshot)
        ensures
            r.well_formed(),
    {
        let is_match = self.is_match.cell.load(Ordering::SeqCst);
        let frames = self.remaining_frames.cell.load(Ordering::SeqCst);
        let mut players: Vec<PlayerSnapshot> = Vec::new();
        let mut slot: usize = 0;
        while slot < MAX_PLAYERS
            invariant
                slot <= MAX_PLAYERS,
                players@.len() == slot,
                forall|i: int| 0 <= i < players@.len() ==> is_optional_name(players@[i].name),
            decreases MAX_PLAYERS - slot,
        {
            players.push(self.players[slot].snapshot());
            slot += 1;
        }
        InfoSnapshot {
            stage: self.stage.cell.load(Ordering::SeqCst),
            remaining_frames: remaining_reading(is_match, frames),
            is_match,
            is_results_screen: self.is_results_screen.cell.load(Ordering::SeqCst),
            current_menu: self.current_menu.cell.load(Ordering::SeqCst),
            arena_id: self.arena_id.load_string(Ordering::SeqCst),
            players,
        }
    }
}

} // verus!
