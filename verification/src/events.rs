//! The per-frame input snapshot: a quit signal and a transition state for
//! each tracked key. The snapshot is rebuilt in full once per tick from
//! the backend's raw event stream and is read-only to views during the
//! frame.

use vstd::prelude::*;

verus! {

/// Transition state of one tracked key for the current frame. Movement
/// keys read the continuous `Held` state; action keys react to the
/// one-frame `Pressed` and `Released` states.
#[derive(Clone, Copy, Debug, PartialEq, Eq, Structural)]
pub enum KeyState {
    /// Up, and was up on the previous frame too.
    Idle,
    /// Went down this frame.
    Pressed,
    /// Down, and was already down on the previous frame.
    Held,
    /// Went up this frame.
    Released,
}

impl KeyState {
    /// The key is currently down.
    pub open spec fn spec_is_down(self) -> bool {
        self is Pressed || self is Held
    }

    /// The state after one tick in which the backend reported a key-down
    /// event (`down_event`) and/or a key-up event (`up_event`) for this
    /// key. A release reported in the same tick as a press wins, so a
    /// tap shorter than one frame is still observed as `Released`.
    pub open spec fn spec_next(self, down_event: bool, up_event: bool) -> KeyState {
        if up_event {
            KeyState::Released
        } else if down_event || self.spec_is_down() {
            if self.spec_is_down() {
                KeyState::Held
            } else {
                KeyState::Pressed
            }
        } else {
            KeyState::Idle
        }
    }

    /// Whether the key is currently down.
    pub fn is_down(self) -> (r: bool)
        ensures
            r == self.spec_is_down(),
    {
        matches!(self, KeyState::Pressed | KeyState::Held)
    }

    /// Whether the key went down on this very frame.
    pub fn is_just_pressed(self) -> (r: bool)
        ensures
            r == (self is Pressed),
    {
        matches!(self, KeyState::Pressed)
    }

    /// Advances this key's state by the events of one tick.
    pub fn next_state(self, down_event: bool, up_event: bool) -> (r: KeyState)
        ensures
            r == self.spec_next(down_event, up_event),
    {
        if up_event {
            KeyState::Released
        } else if self.is_down() {
            KeyState::Held
        } else if down_event {
            KeyState::Pressed
        } else {
            KeyState::Idle
        }
    }
}

/// The digest of one tick's input: whether quitting was requested, and
/// the state of every tracked key, in a fixed order chosen by the caller.
pub struct Events {
    /// The backend asked the application to quit. Once observed it stays
    /// set for the life of the snapshot holder.
    pub quit: bool,
    /// One state per tracked key.
    pub keys: Vec<KeyState>,
}

impl Events {
    /// A fresh snapshot: no quit request, every key idle.
    pub fn new(key_count: usize) -> (e: Events)
        ensures
            !e.quit,
            e.keys@.len() == key_count,
            forall|i: int| 0 <= i < key_count ==> e.keys@[i] is Idle,
    {
        let mut keys: Vec<KeyState> = Vec::new();
        let mut i: usize = 0;
        while i < key_count
            invariant
                i <= key_count,
                keys@.len() == i,
                forall|j: int| 0 <= j < i ==> keys@[j] is Idle,
            decreases key_count - i,
        {
            keys.push(KeyState::Idle);
            i = i + 1;
        }
        Events { quit: false, keys }
    }

    /// Rebuilds the snapshot from one tick's raw events: `downs[k]` and
    /// `ups[k]` say whether a key-down or key-up event arrived for key
    /// `k`; `quit_event` says whether a quit request arrived. Every key
    /// advances by its own events; the quit flag is sticky.
    pub fn pump(&mut self, quit_event: bool, downs: &Vec<bool>, ups: &Vec<bool>)
        requires
            downs@.len() == old(self).keys@.len(),
            ups@.len() == old(self).keys@.len(),
        ensures
            final(self).quit == (old(self).quit || quit_event),
            final(self).keys@.len() == old(self).keys@.len(),
            forall|k: int|
                0 <= k < old(self).keys@.len() ==> final(self).keys@[k] == old(
                    self,
                ).keys@[k].spec_next(downs@[k], ups@[k]),
    {
        let n = self.keys.len();
        let mut i: usize = 0;
        while i < n
            invariant
                i <= n,
                n == old(self).keys@.len(),
                downs@.len() == n,
                ups@.len() == n,
                self.keys@.len() == n,
                self.quit == old(self).quit,
                forall|k: int|
                    0 <= k < i ==> self.keys@[k] == old(self).keys@[k].spec_next(
                        downs@[k],
                        ups@[k],
                    ),
                forall|k: int| i <= k < n ==> self.keys@[k] == old(self).keys@[k],
            decreases n - i,
        {
            let next = self.keys[i].next_state(downs[i], ups[i]);
            self.keys[i] = next;
            i = i + 1;
        }
        self.quit = self.quit || quit_event;
    }
}

} // verus!
