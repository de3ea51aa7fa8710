//! Hotkey edge detection for the raw-input and X11 backends.
use vstd::prelude::*;
use crate::shortcut::{HotkeySpec, Modifiers};

verus! {

/// An edge of the trigger key.
#[derive(Clone, Copy, Debug, PartialEq, Eq, Structural)]
pub enum HotkeyEdge {
    Pressed,
    Released,
}

/// Linux input key codes of the modifier keys.
pub const KEY_LEFTCTRL: u16 = 29;
pub const KEY_RIGHTCTRL: u16 = 97;
pub const KEY_LEFTALT: u16 = 56;
pub const KEY_RIGHTALT: u16 = 100;
pub const KEY_LEFTSHIFT: u16 = 42;
pub const KEY_RIGHTSHIFT: u16 = 54;
pub const KEY_LEFTMETA: u16 = 125;
pub const KEY_RIGHTMETA: u16 = 126;

/// Which physical modifier keys are down, left and right variants apart.
#[derive(Clone, Copy, Debug, PartialEq, Eq, Structural)]
pub struct HeldModifiers {
    pub left_ctrl: bool,
    pub right_ctrl: bool,
    pub left_alt: bool,
    pub right_alt: bool,
    pub left_shift: bool,
    pub right_shift: bool,
    pub left_meta: bool,
    pub right_meta: bool,
}

pub open spec fn nothing_held() -> HeldModifiers {
    HeldModifiers {
        left_ctrl: false,
        right_ctrl: false,
        left_alt: false,
        right_alt: false,
        left_shift: false,
        right_shift: false,
        left_meta: false,
        right_meta: false,
    }
}

/// The held set after one key event: value 1 presses, 0 releases, others change nothing.
pub open spec fn held_after(h: HeldModifiers, key: u16, value: i32) -> HeldModifiers {
    if value != 0 && value != 1 {
        h
    } else {
        let down = value == 1;
        if key == KEY_LEFTCTRL {
            HeldModifiers { left_ctrl: down, ..h }
        } else if key == KEY_RIGHTCTRL {
            HeldModifiers { right_ctrl: down, ..h }
        } else if key == KEY_LEFTALT {
            HeldModifiers { left_alt: down, ..h }
        } else if key == KEY_RIGHTALT {
            HeldModifiers { right_alt: down, ..h }
        } else if key == KEY_LEFTSHIFT {
            HeldModifiers { left_shift: down, ..h }
        } else if key == KEY_RIGHTSHIFT {
            HeldModifiers { right_shift: down, ..h }
        } else if key == KEY_LEFTMETA {
            HeldModifiers { left_meta: down, ..h }
        } else if key == KEY_RIGHTMETA {
            HeldModifiers { right_meta: down, ..h }
        } else {
            h
        }
    }
}

/// Every required class has at least one of its keys down.
pub open spec fn satisfied(required: Modifiers, h: HeldModifiers) -> bool {
    &&& required.ctrl ==> (h.left_ctrl || h.right_ctrl)
    &&& required.alt ==> (h.left_alt || h.right_alt)
    &&& required.shift ==> (h.left_shift || h.right_shift)
    &&& required.meta ==> (h.left_meta || h.right_meta)
}

impl HeldModifiers {
    pub fn new() -> (r: HeldModifiers)
        ensures
            r == nothing_held(),
    {
        HeldModifiers {
            left_ctrl: false,
            right_ctrl: false,
            left_alt: false,
            right_alt: false,
            left_shift: false,
            right_shift: false,
            left_meta: false,
            right_meta: false,
        }
    }

    /// Records one key event in the held set.
    pub fn update(&mut self, key: u16, value: i32)
        ensures
            *final(self) == held_after(*old(self), key, value),
    {
        if value != 0 && value != 1 {
            return;
        }
        let down = value == 1;
        if key == KEY_LEFTCTRL {
            self.left_ctrl = down;
        } else if key == KEY_RIGHTCTRL {
            self.right_ctrl = down;
        } else if key == KEY_LEFTALT {
            self.left_alt = down;
        } else if key == KEY_RIGHTALT {
            self.right_alt = down;
        } else if key == KEY_LEFTSHIFT {
            self.left_shift = down;
        } else if key == KEY_RIGHTSHIFT {
            self.right_shift = down;
        } else if key == KEY_LEFTMETA {
            self.left_meta = down;
        } else if key == KEY_RIGHTMETA {
            self.right_meta = down;
        }
    }

    /// Whether every modifier class that `required` names is held.
    pub fn satisfies(&self, required: Modifiers) -> (r: bool)
        ensures
            r == satisfied(required, *self),
    {
        if required.ctrl && !(self.left_ctrl || self.right_ctrl) {
            return false;
        }
        if required.alt && !(self.left_alt || self.right_alt) {
            return false;
        }
        if required.shift && !(self.left_shift || self.right_shift) {
            return false;
        }
        if required.meta && !(self.left_meta || self.right_meta) {
            return false;
        }
        true
    }
}

/// Edge detector of the raw-input backend, fed with the key events of every keyboard.
#[derive(Clone, Copy, Debug, PartialEq, Eq, Structural)]
pub struct KeyTracker {
    pub spec: HotkeySpec,
    pub held: HeldModifiers,
    pub pressed: bool,
}

/// The tracker and the emitted edge after one key event. A press of the
/// trigger latches only while the required modifiers are held; a release
/// of the latched trigger always unlatches, whatever the modifiers.
pub open spec fn track(t: KeyTracker, key: u16, value: i32) -> (KeyTracker, Option<HotkeyEdge>) {
    let held = held_after(t.held, key, value);
    let t1 = KeyTracker { held, ..t };
    if key != t.spec.key {
        (t1, None)
    } else if value == 1 && !t.pressed && satisfied(t.spec.modifiers, held) {
        (KeyTracker { pressed: true, ..t1 }, Some(HotkeyEdge::Pressed))
    } else if value == 0 && t.pressed {
        (KeyTracker { pressed: false, ..t1 }, Some(HotkeyEdge::Released))
    } else {
        (t1, None)
    }
}

/// What the raw-input listener feeds the tracker.
#[derive(Clone, Copy, Debug, PartialEq, Eq, Structural)]
pub enum TrackerInput {
    /// A key event: value 1 down, 0 up, 2 auto-repeat.
    Key(u16, i32),
    /// A keyboard appeared or vanished.
    DevicesChanged,
}

/// A device change forgets the held modifiers and keeps the latch, so the
/// next release of the trigger still emits the matching `Released`.
pub open spec fn track_input(t: KeyTracker, i: TrackerInput) -> (KeyTracker, Option<HotkeyEdge>) {
    match i {
        TrackerInput::Key(k, v) => track(t, k, v),
        TrackerInput::DevicesChanged => (KeyTracker { held: nothing_held(), ..t }, None),
    }
}

/// Runs the tracker over a sequence of inputs; returns the final tracker and
/// the edges in the order they were emitted.
pub open spec fn track_all(t: KeyTracker, events: Seq<TrackerInput>) -> (KeyTracker, Seq<HotkeyEdge>)
    decreases events.len(),
{
    if events.len() == 0 {
        (t, Seq::<HotkeyEdge>::empty())
    } else {
        let (t0, e0) = track_all(t, events.drop_last());
        let (t1, e) = track_input(t0, events.last());
        match e {
            Some(edge) => (t1, e0.push(edge)),
            None => (t1, e0),
        }
    }
}

/// Edges alternate, starting with the one that leaves the state `pressed`.
pub open spec fn alternating(edges: Seq<HotkeyEdge>, pressed: bool) -> bool {
    forall|i: int|
        0 <= i < edges.len() ==> #[trigger] edges[i] == (if (i % 2 == 0) == pressed {
            HotkeyEdge::Released
        } else {
            HotkeyEdge::Pressed
        })
}

impl KeyTracker {
    pub fn new(spec: HotkeySpec) -> (r: KeyTracker)
        ensures
            r.spec == spec,
            r.held == nothing_held(),
            !r.pressed,
    {
        KeyTracker { spec, held: HeldModifiers::new(), pressed: false }
    }

    /// Feeds one key event (value 1 down, 0 up, 2 auto-repeat).
    pub fn on_key(&mut self, key: u16, value: i32) -> (r: Option<HotkeyEdge>)
        ensures
            (*final(self), r) == track(*old(self), key, value),
    {
        self.held.update(key, value);
        if key != self.spec.key {
            return None;
        }
        if value == 1 && !self.pressed && self.held.satisfies(self.spec.modifiers) {
            self.pressed = true;
            Some(HotkeyEdge::Pressed)
        } else if value == 0 && self.pressed {
            self.pressed = false;
            Some(HotkeyEdge::Released)
        } else {
            None
        }
    }

    /// A keyboard appeared or vanished: forget the held modifiers, which may
    /// belong to a removed device. The latch stays, so a pending `Pressed`
    /// is matched by the next release of the trigger on any keyboard.
    pub fn on_devices_changed(&mut self)
        ensures
            (*final(self), None::<HotkeyEdge>) == track_input(*old(self), TrackerInput::DevicesChanged),
    {
        self.held = HeldModifiers::new();
    }

    /// Feeds one input of the listener.
    pub fn on_input(&mut self, input: TrackerInput) -> (r: Option<HotkeyEdge>)
        ensures
            (*final(self), r) == track_input(*old(self), input),
    {
        match input {
            TrackerInput::Key(k, v) => self.on_key(k, v),
            TrackerInput::DevicesChanged => {
                self.on_devices_changed();
                None
            },
        }
    }
}

/// An auto-repeat event (value 2) never emits an edge and never changes the latch.
pub proof fn lemma_repeat_never_toggles(t: KeyTracker, key: u16)
    ensures
        track(t, key, 2).1 == None::<HotkeyEdge>,
        track(t, key, 2).0 == t,
{
}

/// Over any run of key events and device changes the emitted edges
/// alternate: a `Pressed` edge is always followed by its `Released` before
/// the next `Pressed`, and the latch is set exactly when the last edge was
/// `Pressed`.
pub proof fn lemma_edges_alternate(t: KeyTracker, events: Seq<TrackerInput>)
    ensures
        alternating(track_all(t, events).1, t.pressed),
        track_all(t, events).0.spec == t.spec,
        track_all(t, events).0.pressed == (if track_all(t, events).1.len() == 0 {
            t.pressed
        } else {
            track_all(t, events).1.last() == HotkeyEdge::Pressed
        }),
    decreases events.len(),
{
    if events.len() > 0 {
        lemma_edges_alternate(t, events.drop_last());
        let (t0, e0) = track_all(t, events.drop_last());
        let (t1, e) = track_input(t0, events.last());
        if let Some(edge) = e {
            let n = e0.len() as int;
            let all = e0.push(edge);
            assert forall|i: int| 0 <= i < all.len() implies #[trigger] all[i] == (if (i % 2 == 0) == t.pressed {
                HotkeyEdge::Released
            } else {
                HotkeyEdge::Pressed
            }) by {
                if i < n {
                    assert(all[i] == e0[i]);
                } else if n > 0 {
                    assert(e0[n - 1] == e0.last());
                }
            }
        }
    }
}

/// While the trigger is latched, its release emits the matching `Released`,
/// whatever modifiers are still held and whatever devices came or went
/// since the press.
pub proof fn lemma_release_follows_press(t: KeyTracker, between: Seq<TrackerInput>)
    requires
        t.pressed,
        forall|i: int| 0 <= i < between.len() ==> match #[trigger] between[i] {
            TrackerInput::Key(k, v) => k != t.spec.key,
            TrackerInput::DevicesChanged => true,
        },
    ensures
        track_all(t, between).0.pressed,
        track_all(t, between).1.len() == 0,
        track(track_all(t, between).0, t.spec.key, 0).1 == Some(HotkeyEdge::Released),
        !track(track_all(t, between).0, t.spec.key, 0).0.pressed,
    decreases between.len(),
{
    if between.len() > 0 {
        let pre = between.drop_last();
        assert forall|i: int| 0 <= i < pre.len() implies match #[trigger] pre[i] {
            TrackerInput::Key(k, v) => k != t.spec.key,
            TrackerInput::DevicesChanged => true,
        } by {
            assert(pre[i] == between[i]);
        }
        lemma_release_follows_press(t, pre);
        assert(between.last() == between[between.len() - 1]);
    }
    assert(track_all(t, between).0.spec == t.spec) by {
        lemma_edges_alternate(t, between);
    }
}

} // verus!
