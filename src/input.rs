//! The input tracker: which keys are held down, and how the pointer moved.

use std::collections::HashSet;
use vstd::prelude::*;

verus! {

/// Whether a key went down or came up.
#[derive(Debug, Clone, Copy, PartialEq, Eq, Structural)]
pub enum KeyState {
    Pressed,
    Released,
}

/// A key going down or coming up. `code` identifies the physical key, and
/// is `None` for a key that the platform could not identify.
#[derive(Debug, Clone, Copy, PartialEq, Eq, Structural)]
pub struct KeyEvent {
    pub code: Option<u32>,
    pub state: KeyState,
}

/// The pointer's move between two successive positions.
#[derive(Debug, Clone, Copy, PartialEq, Eq)]
pub struct CursorChange<P> {
    pub from: P,
    pub to: P,
}

/// What an [`InputState`] holds, as mathematical values.
pub struct InputModel<P> {
    /// The keys held down.
    pub pressed: Set<u32>,
    /// The latest pointer position, once there is one.
    pub cursor: Option<P>,
    /// The pointer's latest move, once two positions have been seen.
    pub change: Option<CursorChange<P>>,
}

impl<P> InputModel<P> {
    /// Nothing held down, no pointer position seen.
    pub open spec fn initial() -> Self {
        InputModel { pressed: Set::empty(), cursor: None, change: None }
    }

    /// The keys held down after `event`.
    pub open spec fn keys_after(pressed: Set<u32>, event: KeyEvent) -> Set<u32> {
        match event.code {
            None => pressed,
            Some(k) => match event.state {
                KeyState::Pressed => pressed.insert(k),
                KeyState::Released => pressed.remove(k),
            },
        }
    }

    /// The state after `event`: only the set of held keys changes.
    pub open spec fn after_key(self, event: KeyEvent) -> Self {
        InputModel { pressed: Self::keys_after(self.pressed, event), ..self }
    }

    /// The state after the pointer moved to `position`: the position is
    /// recorded, and the move from the previous position, where there was
    /// one, replaces the latest move.
    pub open spec fn after_cursor(self, position: P) -> Self {
        InputModel {
            cursor: Some(position),
            change: match self.cursor {
                None => self.change,
                Some(prev) => Some(CursorChange { from: prev, to: position }),
            },
            ..self
        }
    }
}

/// Keys held down and pointer motion, fed by input events one at a time.
/// `P` is the type of a pointer position.
#[derive(Debug)]
pub struct InputState<P> {
    pressed: HashSet<u32>,
    cursor_pos: Option<P>,
    cursor_change: Option<CursorChange<P>>,
}

impl<P> View for InputState<P> {
    type V = InputModel<P>;

    closed spec fn view(&self) -> InputModel<P> {
        InputModel { pressed: self.pressed@, cursor: self.cursor_pos, change: self.cursor_change }
    }
}

impl<P: Copy> InputState<P> {
    pub fn new() -> (r: Self)
        ensures
            r@ == InputModel::<P>::initial(),
    {
        Self { pressed: HashSet::new(), cursor_pos: None, cursor_change: None }
    }

    /// Adds a pressed key to the held keys, or removes a released one.
    /// An event for an unidentified key changes nothing.
    pub fn update_key(&mut self, event: &KeyEvent)
        ensures
            final(self)@ == old(self)@.after_key(*event),
    {
        let key = match event.code {
            Some(k) => k,
            None => {
                return ;
            },
        };
        match event.state {
            KeyState::Pressed => {
                self.pressed.insert(key);
            },
            KeyState::Released => {
                self.pressed.remove(&key);
            },
        }
    }

    pub fn is_key_pressed(&self, key: u32) -> (r: bool)
        ensures
            r == self@.pressed.contains(key),
    {
        self.pressed.contains(&key)
    }

    /// Records a new pointer position.
    pub fn update_cursor(&mut self, position: P)
        ensures
            final(self)@ == old(self)@.after_cursor(position),
    {
        let prev = self.cursor_pos;
        self.cursor_pos = Some(position);
        if let Some(prev) = prev {
            self.cursor_change = Some(CursorChange { from: prev, to: position });
        }
    }

    /// The pointer's latest move. It stays until the pointer moves again.
    pub fn cursor_change(&self) -> (r: Option<CursorChange<P>>)
        ensures
            r == self@.change,
    {
        self.cursor_change
    }

    /// The pointer's latest move, which is then forgotten: a caller that
    /// polls once per frame sees each move once.
    pub fn take_cursor_change(&mut self) -> (r: Option<CursorChange<P>>)
        ensures
            r == old(self)@.change,
            final(self)@ == (InputModel { change: None, ..old(self)@ }),
    {
        self.cursor_change.take()
    }
}

impl<P: Copy> Default for InputState<P> {
    fn default() -> (r: Self)
        ensures
            r@ == InputModel::<P>::initial(),
    {
        Self::new()
    }
}

/// Pressing a key that is already held leaves the held keys as they are; so
/// pressing a key twice with no release between adds it once.
pub proof fn lemma_press_held_key<P>(m: InputModel<P>, key: u32)
    requires
        m.pressed.contains(key),
    ensures
        m.after_key(KeyEvent { code: Some(key), state: KeyState::Pressed }) == m,
{
    assert(m.pressed.insert(key) =~= m.pressed);
}

/// Pressing the same key twice in a row has the effect of pressing it once;
/// a key not held before is added, and the set grows by one.
pub proof fn lemma_press_twice<P>(m: InputModel<P>, key: u32)
    requires
        m.pressed.finite(),
    ensures
        ({
            let press = KeyEvent { code: Some(key), state: KeyState::Pressed };
            &&& m.after_key(press).after_key(press) == m.after_key(press)
            &&& m.after_key(press).pressed.contains(key)
            &&& !m.pressed.contains(key) ==> m.after_key(press).pressed.len() == m.pressed.len()
                + 1
        }),
{
    let press = KeyEvent { code: Some(key), state: KeyState::Pressed };
    lemma_press_held_key(m.after_key(press), key);
}

/// Releasing a key that is not held leaves the held keys as they are.
pub proof fn lemma_release_unheld_key<P>(m: InputModel<P>, key: u32)
    requires
        !m.pressed.contains(key),
    ensures
        m.after_key(KeyEvent { code: Some(key), state: KeyState::Released }) == m,
{
    assert(m.pressed.remove(key) =~= m.pressed);
}

/// From a fresh state, the first pointer position gives no move; the second
/// gives the move from the first to the second.
pub proof fn lemma_first_moves<P>(first: P, second: P)
    ensures
        InputModel::<P>::initial().after_cursor(first).change is None,
        InputModel::<P>::initial().after_cursor(first).after_cursor(second).change == Some(
            CursorChange { from: first, to: second },
        ),
{
}

} // verus!
