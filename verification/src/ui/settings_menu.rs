use vstd::prelude::*;

use crate::game_state::GameState;
use crate::keyboard::{
    any_just_pressed, just_pressed_has, KeyboardBindings, BINDINGS, KEY_DOWN, KEY_ESCAPE, KEY_LEFT,
    KEY_RETURN, KEY_RIGHT, KEY_UP,
};

verus! {

/// Number of items of the settings menu: one per key binding.
pub const SETTINGS_MENU_ITEMS: usize = BINDINGS;

/// The settings menu, with the index of its highlighted item.
#[derive(Clone, Copy, Debug)]
pub struct SettingsMenu(pub usize);

/// Whether the settings menu waits for an item to be chosen or for the key to
/// bind to the chosen item.
#[derive(Clone, Copy, Debug, PartialEq, Eq, Structural)]
pub enum SettingsState {
    SelectItem,
    BindKey,
}

impl Default for SettingsState {
    fn default() -> (s: SettingsState)
        ensures
            s == SettingsState::SelectItem,
    {
        SettingsState::SelectItem
    }
}

/// The keys that keep their meaning whatever the bindings, and cannot be bound.
pub open spec fn permanent(key: u32) -> bool {
    key == KEY_UP || key == KEY_DOWN || key == KEY_LEFT || key == KEY_RIGHT || key == KEY_ESCAPE
}

/// Whether `key` is one of the keys that cannot be bound.
pub fn is_permanent(key: u32) -> (b: bool)
    ensures
        b == permanent(key),
        b <==> set![KEY_UP, KEY_DOWN, KEY_LEFT, KEY_RIGHT, KEY_ESCAPE].contains(key),
{
    key == KEY_UP || key == KEY_DOWN || key == KEY_LEFT || key == KEY_RIGHT || key == KEY_ESCAPE
}

/// The keys that cannot be bound are the four arrows and escape, which keep
/// their meaning whatever the bindings, and no other key.
pub proof fn law_permanent_keys_are_the_arrows_and_escape(key: u32)
    ensures
        permanent(key) <==> set![KEY_UP, KEY_DOWN, KEY_LEFT, KEY_RIGHT, KEY_ESCAPE].contains(key),
{
}

/// The first index, from `from` on and other than `slot`, at which `b` holds
/// `key`; -1 when there is none.
pub open spec fn other_slot(b: Seq<u32>, slot: int, key: u32, from: int) -> int
    decreases b.len() - from,
{
    if from >= b.len() || from < 0 {
        -1
    } else if from != slot && b[from] == key {
        from
    } else {
        other_slot(b, slot, key, from + 1)
    }
}

/// The bindings once `key` is bound to `slot`: the first other slot that held
/// `key`, if any, takes the key that `slot` held.
pub open spec fn rebound(b: Seq<u32>, slot: int, key: u32) -> Seq<u32> {
    let other = other_slot(b, slot, key, 0);
    if other >= 0 {
        b.update(other, b[slot]).update(slot, key)
    } else {
        b.update(slot, key)
    }
}

/// No key is bound twice.
pub open spec fn distinct_bindings(b: Seq<u32>) -> bool {
    forall|x: int, y: int| 0 <= x < b.len() && 0 <= y < b.len() && x != y ==> b[x] != b[y]
}

/// Facts on `other_slot`: it is -1 or an index at or after `from`, other than
/// `slot`, that holds `key`, and no earlier such index holds it.
pub proof fn lemma_other_slot(b: Seq<u32>, slot: int, key: u32, from: int)
    requires
        0 <= from <= b.len(),
    ensures
        other_slot(b, slot, key, from) == -1 || (from <= other_slot(b, slot, key, from) < b.len()
            && other_slot(b, slot, key, from) != slot && b[other_slot(b, slot, key, from)] == key),
        other_slot(b, slot, key, from) == -1 ==> forall|x: int| from <= x < b.len() && x != slot ==> b[x] != key,
    decreases b.len() - from,
{
    if from < b.len() {
        lemma_other_slot(b, slot, key, from + 1);
    }
}

/// Binding a key never binds a key twice: if no key was bound twice before,
/// none is after, and the chosen slot holds the new key.
pub proof fn law_rebind_keeps_bindings_distinct(b: Seq<u32>, slot: int, key: u32)
    requires
        0 <= slot < b.len(),
        distinct_bindings(b),
    ensures
        distinct_bindings(rebound(b, slot, key)),
        rebound(b, slot, key)[slot] == key,
        rebound(b, slot, key).len() == b.len(),
{
    lemma_other_slot(b, slot, key, 0);
    let r = rebound(b, slot, key);
    let other = other_slot(b, slot, key, 0);
    assert forall|x: int, y: int| 0 <= x < r.len() && 0 <= y < r.len() && x != y implies r[x] != r[y] by {
        if other >= 0 {
            assert(b[other] == key);
        }
    }
}

impl SettingsMenu {
    /// The key shown beside item `k`: its binding, or none (an underscore)
    /// while a key is awaited for it.
    pub fn item_key(&self, state: SettingsState, bindings: &KeyboardBindings, k: usize) -> (key: Option<u32>)
        requires
            k < SETTINGS_MENU_ITEMS,
        ensures
            key == (if state == SettingsState::BindKey && k == self.0 {
                None
            } else {
                Some(bindings.0@[k as int])
            }),
    {
        match state {
            SettingsState::BindKey => if k == self.0 {
                None
            } else {
                Some(bindings.0[k])
            },
            SettingsState::SelectItem => Some(bindings.0[k]),
        }
    }

    /// One frame of the settings menu. Escape leaves it, for the main menu
    /// when there is one and for the pause menu otherwise. Then, while an item
    /// is to be chosen, up (or the accelerate key) moves the highlight up
    /// unless it is at the top, or else down (or the decelerate key) moves it
    /// down unless it is at the bottom, or else return (or the fire key)
    /// chooses the highlighted item; while a key is awaited, the key `pressed`
    /// first this frame, unless it is one of the permanent keys, is bound to
    /// the chosen item (the item that held it gets the chosen item's former
    /// key) and the menu goes back to choosing.
    pub fn update(
        &mut self,
        state: &mut SettingsState,
        bindings: &mut KeyboardBindings,
        just_pressed: &Vec<u32>,
        pressed: Option<u32>,
        main_menu_present: bool,
    ) -> (leave: Option<GameState>)
        requires
            old(self).0 < SETTINGS_MENU_ITEMS,
        ensures
            final(self).0 < SETTINGS_MENU_ITEMS,
            *old(state) == SettingsState::BindKey && (pressed matches Some(key)
                && set![KEY_UP, KEY_DOWN, KEY_LEFT, KEY_RIGHT, KEY_ESCAPE].contains(key))
                ==> final(bindings).0@ == old(bindings).0@ && *final(state) == SettingsState::BindKey,
            leave == (if just_pressed@.contains(KEY_ESCAPE) {
                Some(if main_menu_present { GameState::MainMenu } else { GameState::Paused })
            } else {
                None
            }),
            ({
                let k = just_pressed@;
                let b = old(bindings).0@;
                let i = old(self).0 as int;
                let up = k.contains(KEY_UP) || k.contains(b[0]);
                let down = k.contains(KEY_DOWN) || k.contains(b[1]);
                let select = k.contains(KEY_RETURN) || k.contains(b[4]);
                match *old(state) {
                    SettingsState::SelectItem => {
                        &&& final(bindings).0@ == b
                        &&& if up && i > 0 {
                            final(self).0 == i - 1 && *final(state) == SettingsState::SelectItem
                        } else if down && i < SETTINGS_MENU_ITEMS - 1 {
                            final(self).0 == i + 1 && *final(state) == SettingsState::SelectItem
                        } else if select {
                            final(self).0 == i && *final(state) == SettingsState::BindKey
                        } else {
                            final(self).0 == i && *final(state) == SettingsState::SelectItem
                        }
                    },
                    SettingsState::BindKey => {
                        &&& final(self).0 == i
                        &&& match pressed {
                            Some(key) if !permanent(key) => {
                                &&& final(bindings).0@ == rebound(b, i, key)
                                &&& *final(state) == SettingsState::SelectItem
                            },
                            _ => {
                                &&& final(bindings).0@ == b
                                &&& *final(state) == SettingsState::BindKey
                            },
                        }
                    },
                }
            }),
    {
        let leave = if just_pressed_has(just_pressed, KEY_ESCAPE) {
            Some(if main_menu_present { GameState::MainMenu } else { GameState::Paused })
        } else {
            None
        };
        match *state {
            SettingsState::SelectItem => {
                if any_just_pressed(just_pressed, KEY_UP, bindings.accelerate()) && self.0 > 0 {
                    self.0 = self.0 - 1;
                } else if any_just_pressed(just_pressed, KEY_DOWN, bindings.decelerate())
                    && self.0 < SETTINGS_MENU_ITEMS - 1 {
                    self.0 = self.0 + 1;
                } else if any_just_pressed(just_pressed, KEY_RETURN, bindings.fire()) {
                    *state = SettingsState::BindKey;
                }
            },
            SettingsState::BindKey => {
                if let Some(key) = pressed {
                    if !is_permanent(key) {
                        bind_key(bindings, self.0, key);
                        *state = SettingsState::SelectItem;
                    }
                }
            },
        }
        leave
    }
}

/// Binds `key` to `slot`; the first other slot that held `key` takes the key
/// that `slot` held.
pub fn bind_key(bindings: &mut KeyboardBindings, slot: usize, key: u32)
    requires
        slot < BINDINGS,
    ensures
        final(bindings).0@ == rebound(old(bindings).0@, slot as int, key),
{
    let ghost b = old(bindings).0@;
    let mut i: usize = 0;
    let mut found = false;
    while i < BINDINGS && !found
        invariant
            i <= BINDINGS,
            slot < BINDINGS,
            bindings.0@ == b,
            b.len() == BINDINGS,
            !found ==> other_slot(b, slot as int, key, 0) == other_slot(b, slot as int, key, i as int),
            found ==> i < BINDINGS && other_slot(b, slot as int, key, 0) == i,
        decreases BINDINGS - i + (if found { 0int } else { 1int }),
    {
        if i != slot && bindings.0[i] == key {
            found = true;
        } else {
            i = i + 1;
        }
    }
    if found {
        bindings.0[i] = bindings.0[slot];
    }
    bindings.0[slot] = key;
    proof {
        lemma_other_slot(b, slot as int, key, 0);
        assert(bindings.0@ =~= rebound(b, slot as int, key));
    }
}

} // verus!
