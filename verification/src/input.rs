use std::collections::HashSet;
use vstd::prelude::*;

verus! {

broadcast use vstd::std_specs::hash::group_hash_axioms;

/// What happened to a key: it went down or came up.
#[derive(Clone, Copy, PartialEq, Eq, Structural, Debug)]
pub enum KeyState {
    Pressed,
    Released,
}

/// The abstract state of the keyboard: keys held down, keys that went
/// down this frame, keys that came up this frame.
pub struct KeyboardView {
    pub held: Set<u32>,
    pub pressed: Set<u32>,
    pub released: Set<u32>,
}

impl KeyboardView {
    /// The state after one key event.
    pub open spec fn after_event(self, key: u32, state: KeyState) -> KeyboardView {
        match state {
            KeyState::Pressed => KeyboardView {
                held: self.held.insert(key),
                pressed: if self.held.contains(key) {
                    self.pressed
                } else {
                    self.pressed.insert(key)
                },
                released: self.released,
            },
            KeyState::Released => KeyboardView {
                held: self.held.remove(key),
                pressed: self.pressed,
                released: self.released.insert(key),
            },
        }
    }

    /// The state after the frame ends: the per-frame sets are emptied.
    pub open spec fn after_end_frame(self) -> KeyboardView {
        KeyboardView { held: self.held, pressed: Set::empty(), released: Set::empty() }
    }

    /// Every key reported as just pressed is still held, or came up
    /// again later in the same frame.
    pub open spec fn consistent(self) -> bool {
        forall|k: u32| #[trigger] self.pressed.contains(k) ==> self.held.contains(k)
            || self.released.contains(k)
    }
}

/// Keyboard state over key codes, updated from key events and reset
/// at the end of every frame.
pub struct KeyboardState {
    held: HashSet<u32>,
    pressed: HashSet<u32>,
    released: HashSet<u32>,
}

impl View for KeyboardState {
    type V = KeyboardView;

    closed spec fn view(&self) -> KeyboardView {
        KeyboardView { held: self.held@, pressed: self.pressed@, released: self.released@ }
    }
}

impl Default for KeyboardState {
    /// No key held, pressed or released.
    fn default() -> (s: Self)
        ensures
            s@.held == Set::<u32>::empty(),
            s@.pressed == Set::<u32>::empty(),
            s@.released == Set::<u32>::empty(),
    {
        KeyboardState::new()
    }
}

impl KeyboardState {
    /// No key held, pressed or released.
    pub fn new() -> (s: Self)
        ensures
            s@.held == Set::<u32>::empty(),
            s@.pressed == Set::<u32>::empty(),
            s@.released == Set::<u32>::empty(),
    {
        KeyboardState { held: HashSet::new(), pressed: HashSet::new(), released: HashSet::new() }
    }

    /// Records one key event. A press of a key that is already held
    /// (key repeat) does not count as a new press.
    pub fn process(&mut self, key: u32, state: KeyState)
        ensures
            final(self)@ == old(self)@.after_event(key, state),
    {
        match state {
            KeyState::Pressed => {
                if !self.held.contains(&key) {
                    self.pressed.insert(key);
                }
                self.held.insert(key);
            },
            KeyState::Released => {
                self.held.remove(&key);
                self.released.insert(key);
            },
        }
    }

    /// Forgets the keys pressed and released during the frame.
    pub fn end_frame(&mut self)
        ensures
            final(self)@ == old(self)@.after_end_frame(),
    {
        self.pressed.clear();
        self.released.clear();
    }

    /// Whether the key is held down.
    pub fn is_down(&self, key: u32) -> (b: bool)
        ensures
            b == self@.held.contains(key),
    {
        self.held.contains(&key)
    }

    /// Whether the key went down during the current frame.
    pub fn is_pressed(&self, key: u32) -> (b: bool)
        ensures
            b == self@.pressed.contains(key),
    {
        self.pressed.contains(&key)
    }

    /// Whether the key came up during the current frame.
    pub fn is_released(&self, key: u32) -> (b: bool)
        ensures
            b == self@.released.contains(key),
    {
        self.released.contains(&key)
    }
}

/// A key that goes down is held afterwards.
pub proof fn law_press_holds(v: KeyboardView, key: u32)
    ensures
        v.after_event(key, KeyState::Pressed).held.contains(key),
{
}

/// A key that comes up is no longer held and is reported as released
/// for the rest of the frame.
pub proof fn law_release_clears(v: KeyboardView, key: u32)
    ensures
        !v.after_event(key, KeyState::Released).held.contains(key),
        v.after_event(key, KeyState::Released).released.contains(key),
{
}

/// A key that was up and goes down is reported as pressed; a key that
/// was already held (key repeat) leaves the pressed keys as they were.
pub proof fn law_press_reported_once(v: KeyboardView, key: u32)
    ensures
        !v.held.contains(key) ==> v.after_event(key, KeyState::Pressed).pressed.contains(key),
        v.held.contains(key) ==> v.after_event(key, KeyState::Pressed).pressed == v.pressed,
{
}

/// A release never reports a key as just pressed, and a press never
/// reports one as just released: each event touches only its own
/// per-frame set. A press of a key that was up adds exactly that key to
/// the pressed keys.
pub proof fn law_events_touch_own_set(v: KeyboardView, key: u32)
    ensures
        v.after_event(key, KeyState::Released).pressed == v.pressed,
        v.after_event(key, KeyState::Pressed).released == v.released,
        !v.pressed.contains(key) ==> !v.after_event(key, KeyState::Released).pressed.contains(key),
        !v.held.contains(key) ==> v.after_event(key, KeyState::Pressed).pressed == v.pressed.insert(key),
        v.after_event(key, KeyState::Released).released == v.released.insert(key),
        v.after_event(key, KeyState::Released).held == v.held.remove(key),
        v.after_event(key, KeyState::Pressed).held == v.held.insert(key),
{
}

/// A key pressed in one frame and released in the next is, in that
/// next frame, released and up but not just pressed; if it is pressed
/// again later in that frame it is just pressed and held again.
pub proof fn law_press_then_release_next_frame(v: KeyboardView, key: u32)
    ensures
        ({
            let w = v.after_event(key, KeyState::Pressed).after_end_frame().after_event(key, KeyState::Released);
            &&& !w.pressed.contains(key)
            &&& w.released.contains(key)
            &&& !w.held.contains(key)
            &&& w.after_event(key, KeyState::Pressed).pressed.contains(key)
            &&& w.after_event(key, KeyState::Pressed).held.contains(key)
        }),
{
}

/// An event on one key changes nothing about any other key.
pub proof fn law_other_keys_unaffected(v: KeyboardView, key: u32, other: u32, state: KeyState)
    requires
        key != other,
    ensures
        v.after_event(key, state).held.contains(other) == v.held.contains(other),
        v.after_event(key, state).pressed.contains(other) == v.pressed.contains(other),
        v.after_event(key, state).released.contains(other) == v.released.contains(other),
{
}

/// Ending a frame keeps the held keys, forgets the per-frame events,
/// and ending it twice is the same as ending it once.
pub proof fn law_end_frame(v: KeyboardView)
    ensures
        v.after_end_frame().held == v.held,
        v.after_end_frame().pressed.is_empty(),
        v.after_end_frame().released.is_empty(),
        v.after_end_frame().after_end_frame() == v.after_end_frame(),
{
}

/// The fresh state is consistent, and every event and every end of
/// frame keeps the state consistent: a key reported as just pressed is
/// held, or came up again in the same frame.
pub proof fn law_consistency_preserved(v: KeyboardView, key: u32, state: KeyState)
    requires
        v.consistent(),
    ensures
        v.after_event(key, state).consistent(),
        v.after_end_frame().consistent(),
        (KeyboardView {
            held: Set::empty(),
            pressed: Set::empty(),
            released: Set::empty(),
        }).consistent(),
{
}

} // verus!
