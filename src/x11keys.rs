//! X11 grab masks, keycode lookup and the grab-side edge detector.
use vstd::prelude::*;
use crate::hotkey::HotkeyEdge;
use crate::shortcut::Modifiers;

verus! {

/// Core modifier mask bits of the X protocol.
pub const MASK_SHIFT: u16 = 1;
pub const MASK_LOCK: u16 = 2;
pub const MASK_CONTROL: u16 = 4;
pub const MASK_M1: u16 = 8;
pub const MASK_M2: u16 = 16;
pub const MASK_M3: u16 = 32;
pub const MASK_M4: u16 = 64;
pub const MASK_M5: u16 = 128;

/// The mask bit of modifier row `i` of the server's modifier map.
pub open spec fn mask_for(i: int) -> u16 {
    if i == 0 {
        MASK_SHIFT
    } else if i == 1 {
        MASK_LOCK
    } else if i == 2 {
        MASK_CONTROL
    } else if i == 3 {
        MASK_M1
    } else if i == 4 {
        MASK_M2
    } else if i == 5 {
        MASK_M3
    } else if i == 6 {
        MASK_M4
    } else if i == 7 {
        MASK_M5
    } else {
        0
    }
}

pub fn mask_for_index(i: usize) -> (r: u16)
    ensures
        r == mask_for(i as int),
{
    match i {
        0 => MASK_SHIFT,
        1 => MASK_LOCK,
        2 => MASK_CONTROL,
        3 => MASK_M1,
        4 => MASK_M2,
        5 => MASK_M3,
        6 => MASK_M4,
        7 => MASK_M5,
        _ => 0,
    }
}

/// Masks of the modifier classes as the current layout binds them.
#[derive(Clone, Copy, Debug, PartialEq, Eq, Structural)]
pub struct ModifierMap {
    pub alt: u16,
    pub meta: u16,
    pub num: u16,
    pub lock: u16,
}

/// Row `r` of the modifier map holds keycode `c`.
pub open spec fn row_holds(mods: Seq<u8>, per: int, r: int, c: u8) -> bool {
    exists|j: int| r * per <= j < r * per + per && #[trigger] mods[j] == c
}

/// The mask of the last row holding `code`, or `default` when none does.
pub open spec fn mask_of_code(mods: Seq<u8>, per: int, code: Option<u8>, rows: int, default: u16) -> u16
    decreases rows,
{
    if rows <= 0 {
        default
    } else {
        let prev = mask_of_code(mods, per, code, rows - 1, default);
        match code {
            Some(c) => if c != 0 && row_holds(mods, per, rows - 1, c) {
                mask_for(rows - 1)
            } else {
                prev
            },
            None => prev,
        }
    }
}

fn row_has(mods: &Vec<u8>, start: usize, per: usize, c: u8) -> (r: bool)
    requires
        start + per <= mods@.len(),
    ensures
        r == exists|j: int| start <= j < start + per && #[trigger] mods@[j] == c,
{
    let len = mods.len();
    let end = start + per;
    let mut j: usize = start;
    while j < end
        invariant
            end == start + per,
            start <= j <= end,
            end <= mods@.len(),
            forall|k: int| start <= k < j ==> #[trigger] mods@[k] != c,
        decreases start + per - j,
    {
        if mods[j] == c {
            return true;
        }
        j = j + 1;
    }
    false
}

impl ModifierMap {
    /// Derives the Alt, Meta and NumLock masks from the server's modifier map
    /// (eight rows of `per` keycodes) and the keycodes bound to those keys.
    pub fn from_mapping(per: usize, mods: &Vec<u8>, alt_code: Option<u8>, meta_code: Option<u8>, num_code: Option<u8>) -> (r: ModifierMap)
        requires
            mods@.len() >= 8 * per,
        ensures
            r.alt == mask_of_code(mods@, per as int, alt_code, 8, MASK_M1),
            r.meta == mask_of_code(mods@, per as int, meta_code, 8, MASK_M4),
            r.num == mask_of_code(mods@, per as int, num_code, 8, 0),
            r.lock == MASK_LOCK,
    {
        let len = mods.len();
    let mut alt = MASK_M1;
        let mut meta = MASK_M4;
        let mut num: u16 = 0;
        let mut i: usize = 0;
        let mut start: usize = 0;
        while i < 8
            invariant
                i <= 8,
                i < 8 ==> start == i * per,
                len == mods@.len(),
                mods@.len() >= 8 * per,
                alt == mask_of_code(mods@, per as int, alt_code, i as int, MASK_M1),
                meta == mask_of_code(mods@, per as int, meta_code, i as int, MASK_M4),
                num == mask_of_code(mods@, per as int, num_code, i as int, 0),
            decreases 8 - i,
        {
            assert(start + per <= mods@.len()) by (nonlinear_arith)
                requires start == i * per, i < 8, mods@.len() >= 8 * per;
            assert((i + 1) * per == start + per) by (nonlinear_arith)
                requires start == i * per;
            assert((i + 1) * per <= mods@.len()) by (nonlinear_arith)
                requires i < 8, mods@.len() >= 8 * per;
            if let Some(c) = alt_code {
                if c != 0 && row_has(mods, start, per, c) {
                    alt = mask_for_index(i);
                }
            }
            if let Some(c) = meta_code {
                if c != 0 && row_has(mods, start, per, c) {
                    meta = mask_for_index(i);
                }
            }
            if let Some(c) = num_code {
                if c != 0 && row_has(mods, start, per, c) {
                    num = mask_for_index(i);
                }
            }
            i = i + 1;
            if i < 8 {
                start = start + per;
            }
        }
        ModifierMap { alt, meta, num, lock: MASK_LOCK }
    }

    /// The lock-state masks that each grab is installed with.
    pub open spec fn variants(self) -> Seq<u16> {
        let base = seq![0u16];
        let a = if self.lock != 0 { base.push(self.lock) } else { base };
        let b = if self.num != 0 { a.push(self.num) } else { a };
        if self.lock != 0 && self.num != 0 { b.push(self.lock | self.num) } else { b }
    }

    pub fn lock_variants(&self) -> (r: Vec<u16>)
        ensures
            r@ == self.variants(),
    {
        let mut out: Vec<u16> = vec![0u16];
        if self.lock != 0 {
            out.push(self.lock);
        }
        if self.num != 0 {
            out.push(self.num);
        }
        if self.lock != 0 && self.num != 0 {
            out.push(self.lock | self.num);
        }
        assert(out@ =~= self.variants());
        out
    }

    /// The modifier mask that a shortcut's modifiers require.
    pub open spec fn required_spec(self, m: Modifiers) -> u16 {
        (if m.shift { MASK_SHIFT } else { 0u16 }) | (if m.ctrl { MASK_CONTROL } else { 0u16 }) | (if m.alt {
            self.alt
        } else {
            0u16
        }) | (if m.meta { self.meta } else { 0u16 })
    }

    pub fn required_mask(&self, m: Modifiers) -> (r: u16)
        ensures
            r == self.required_spec(m),
    {
        let s: u16 = if m.shift { MASK_SHIFT } else { 0 };
        let c: u16 = if m.ctrl { MASK_CONTROL } else { 0 };
        let a: u16 = if m.alt { self.alt } else { 0 };
        let me: u16 = if m.meta { self.meta } else { 0 };
        s | c | a | me
    }

    /// The masks that the trigger key is grabbed with: the required mask
    /// combined with each lock variant.
    pub fn grab_masks(&self, required: u16) -> (r: Vec<u16>)
        ensures
            r@.len() == self.variants().len(),
            forall|i: int| 0 <= i < r@.len() ==> #[trigger] r@[i] == (required | self.variants()[i]),
    {
        let v = self.lock_variants();
        let mut out: Vec<u16> = Vec::new();
        let mut i: usize = 0;
        while i < v.len()
            invariant
                v@ == self.variants(),
                i <= v@.len(),
                out@.len() == i,
                forall|k: int| 0 <= k < i ==> #[trigger] out@[k] == (required | v@[k]),
            decreases v@.len() - i,
        {
            out.push(required | v[i]);
            i = i + 1;
        }
        out
    }
}

/// Whether an event's modifier state carries every required bit.
pub open spec fn state_matches(state: u16, required: u16) -> bool {
    state & required == required
}

/// The lock states that a user can be in: none, CapsLock, NumLock or both.
pub open spec fn lock_state(m: ModifierMap, l: u16) -> bool {
    l == 0 || l == m.lock || (m.num != 0 && (l == m.num || l == (m.lock | m.num)))
}

/// Whatever the CapsLock and NumLock state, pressing the shortcut with exactly
/// its modifiers held gives a state that one of the grabs covers and that the
/// event check accepts.
pub proof fn lemma_lock_state_still_fires(m: ModifierMap, required: u16, l: u16)
    requires
        m.lock == MASK_LOCK,
        lock_state(m, l),
    ensures
        exists|i: int| 0 <= i < m.variants().len() && (required | #[trigger] m.variants()[i]) == (required | l),
        state_matches(required | l, required),
{
    let v = m.variants();
    if l == 0 {
        assert(v[0] == 0u16);
    } else if l == m.lock {
        assert(v[1] == m.lock);
    } else if l == m.num {
        assert(v[2] == m.num);
    } else {
        assert(v[3] == (m.lock | m.num));
    }
    assert((required | l) & required == required) by (bit_vector);
}

/// The first keysym entry equal to `k` lies at index `j`.
pub open spec fn first_at(keysyms: Seq<u32>, k: u32, j: int) -> bool {
    &&& 0 <= j < keysyms.len()
    &&& keysyms[j] == k
    &&& forall|i: int| 0 <= i < j ==> keysyms[i] != k
}

/// Finds the keycode whose row of the keyboard mapping holds `keysym`: the
/// mapping lists `per` keysyms for each keycode from `min` to `max`.
pub fn keycode_for_keysym(min: u8, max: u8, per: usize, keysyms: &Vec<u32>, keysym: u32) -> (r: Option<u8>)
    ensures
        r.is_some() <==> (max >= min && per > 0 && exists|j: int|
            first_at(keysyms@, keysym, j) && j < (max - min + 1) * per),
        r.is_some() ==> exists|j: int| first_at(keysyms@, keysym, j) && r.unwrap() == min + j / (per as int),
{
    if max < min || per == 0 {
        return None;
    }
    let count: usize = (max - min) as usize + 1;
    let n = keysyms.len();
    let mut j: usize = 0;
    while j < n
        invariant
            n == keysyms@.len(),
            j <= n,
            per > 0,
            max >= min,
            count == max - min + 1,
            forall|i: int| 0 <= i < j ==> keysyms@[i] != keysym,
        decreases n - j,
    {
        if keysyms[j] == keysym {
            let row = j / per;
            if row < count {
                assert(first_at(keysyms@, keysym, j as int));
                assert(j < (max - min + 1) * per) by (nonlinear_arith)
                    requires row == j as int / per as int, row < count, count == max - min + 1, per > 0;
                assert(row as int == j as int / per as int);
                assert(min + row <= 255) by (nonlinear_arith)
                    requires row < count, count == max - min + 1, max <= 255;
                return Some(min + row as u8);
            }
            assert(j as int >= (max - min + 1) * per) by (nonlinear_arith)
                requires row == j as int / per as int, row >= count, count == max - min + 1, per > 0;
            assert forall|jj: int| first_at(keysyms@, keysym, jj) implies jj >= (max - min + 1) * per by {
                if jj > j {
                    assert(keysyms@[j as int] == keysym);
                }
            }
            return None;
        }
        j = j + 1;
    }
    None
}

/// The keycode of the first keysym in `keysyms` that the mapping binds.
pub fn keycode_for_any_keysym(min: u8, max: u8, per: usize, mapping: &Vec<u32>, keysyms: &Vec<u32>) -> (r: Option<u8>)
    ensures
        r.is_some() <==> exists|k: int| 0 <= k < keysyms@.len() && #[trigger] bound(min, max, per, mapping@, keysyms@[k]),
        r.is_some() ==> exists|k: int| 0 <= k < keysyms@.len() && #[trigger] bound(min, max, per, mapping@, keysyms@[k])
            && (forall|m: int| 0 <= m < k ==> !bound(min, max, per, mapping@, #[trigger] keysyms@[m]))
            && exists|j: int| first_at(mapping@, keysyms@[k], j) && r.unwrap() == min + j / (per as int),
{
    let mut k: usize = 0;
    while k < keysyms.len()
        invariant
            k <= keysyms@.len(),
            forall|m: int| 0 <= m < k ==> !bound(min, max, per, mapping@, #[trigger] keysyms@[m]),
        decreases keysyms@.len() - k,
    {
        match keycode_for_keysym(min, max, per, mapping, keysyms[k]) {
            Some(c) => {
                assert(bound(min, max, per, mapping@, keysyms@[k as int]));
                return Some(c);
            },
            None => {},
        }
        k = k + 1;
    }
    None
}

/// The mapping binds `keysym` to some keycode between `min` and `max`.
pub open spec fn bound(min: u8, max: u8, per: usize, mapping: Seq<u32>, keysym: u32) -> bool {
    max >= min && per > 0 && exists|j: int| first_at(mapping, keysym, j) && j < (max - min + 1) * per
}

/// Edge detector of the X11 backend: the grab delivers press and release
/// events of the trigger keycode.
#[derive(Clone, Copy, Debug, PartialEq, Eq, Structural)]
pub struct GrabTracker {
    pub keycode: u8,
    pub required: u16,
    pub pressed: bool,
}

impl GrabTracker {
    pub fn new(keycode: u8, required: u16) -> (r: GrabTracker)
        ensures
            r == (GrabTracker { keycode, required, pressed: false }),
    {
        GrabTracker { keycode, required, pressed: false }
    }

    pub fn on_press(&mut self, keycode: u8, state: u16) -> (r: Option<HotkeyEdge>)
        ensures
            final(self).keycode == old(self).keycode,
            final(self).required == old(self).required,
            (keycode == old(self).keycode && state_matches(state, old(self).required) && !old(self).pressed) ==> (
                r == Some(HotkeyEdge::Pressed) && final(self).pressed),
            !(keycode == old(self).keycode && state_matches(state, old(self).required) && !old(self).pressed) ==> (
                r == None::<HotkeyEdge> && final(self).pressed == old(self).pressed),
    {
        if keycode == self.keycode && (state & self.required) == self.required && !self.pressed {
            self.pressed = true;
            return Some(HotkeyEdge::Pressed);
        }
        None
    }

    pub fn on_release(&mut self, keycode: u8) -> (r: Option<HotkeyEdge>)
        ensures
            final(self).keycode == old(self).keycode,
            final(self).required == old(self).required,
            (keycode == old(self).keycode && old(self).pressed) ==> (r == Some(HotkeyEdge::Released)
                && !final(self).pressed),
            !(keycode == old(self).keycode && old(self).pressed) ==> (r == None::<HotkeyEdge>
                && final(self).pressed == old(self).pressed),
    {
        if keycode == self.keycode && self.pressed {
            self.pressed = false;
            return Some(HotkeyEdge::Released);
        }
        None
    }
}

} // verus!
