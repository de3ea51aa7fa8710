//! Shortcut strings: `(Modifier '+')* Key`, split, trimmed and mapped to key codes.
use vstd::prelude::*;
use crate::text::{chars_eq_str, split_on, trim_str, trimmed, upper, upper_char};

verus! {

/// Required modifier classes of a shortcut.
#[derive(Clone, Copy, Debug, PartialEq, Eq, Structural)]
pub struct Modifiers {
    pub ctrl: bool,
    pub alt: bool,
    pub shift: bool,
    pub meta: bool,
}

/// Why a shortcut string was refused.
#[derive(Clone, Copy, Debug, PartialEq, Eq, Structural)]
pub enum ShortcutError {
    /// Nothing but separators and blanks.
    Empty,
    /// The key segment is blank.
    MissingKey,
    /// The key segment names no supported key.
    UnsupportedKey,
}

/// A parsed shortcut for the raw-input backend: a Linux input key code and
/// the modifier classes that must be held.
#[derive(Clone, Copy, Debug, PartialEq, Eq, Structural)]
pub struct HotkeySpec {
    pub key: u16,
    pub modifiers: Modifiers,
}

/// The trimmed segments that are not empty.
pub open spec fn kept(segs: Seq<Seq<char>>) -> Seq<Seq<char>>
    decreases segs.len(),
{
    if segs.len() == 0 {
        Seq::<Seq<char>>::empty()
    } else {
        let p = kept(segs.drop_last());
        if trimmed(segs.last()).len() > 0 {
            p.push(trimmed(segs.last()))
        } else {
            p
        }
    }
}

/// The parts of a shortcut string.
pub open spec fn shortcut_parts(s: Seq<char>) -> Seq<Seq<char>> {
    kept(split_on(s, '+'))
}

/// Splits a shortcut string on `+`, trims each segment and drops blank ones.
pub fn split_shortcut<'a>(input: &'a str) -> (r: Vec<&'a str>)
    ensures
        r@.map_values(|p: &str| p@) == shortcut_parts(input@),
{
    let n = input.unicode_len();
    let mut out: Vec<&'a str> = Vec::new();
    let mut start: usize = 0;
    let mut i: usize = 0;
    let ghost mut done: Seq<Seq<char>> = Seq::empty();
    proof {
        assert(input@.subrange(0, 0) =~= Seq::<char>::empty());
        assert(split_on(input@.subrange(0, 0), '+') =~= done.push(input@.subrange(0, 0)));
        assert(out@.map_values(|p: &str| p@) =~= kept(done));
    }
    while i < n
        invariant
            n == input@.len(),
            start <= i <= n,
            split_on(input@.subrange(0, i as int), '+') == done.push(input@.subrange(start as int, i as int)),
            out@.map_values(|p: &str| p@) == kept(done),
        decreases n - i,
    {
        let c = input.get_char(i);
        let ghost pre = input@.subrange(0, i as int);
        let ghost next = input@.subrange(0, i + 1);
        assert(next.drop_last() =~= pre);
        assert(next.last() == c);
        if c == '+' {
            let seg = trim_str(input.substring_char(start, i));
            proof {
                assert(kept(done.push(input@.subrange(start as int, i as int))).len() >= 0);
                assert(done.push(input@.subrange(start as int, i as int)).drop_last() =~= done);
            }
            if seg.unicode_len() > 0 {
                out.push(seg);
            }
            proof {
                done = done.push(input@.subrange(start as int, i as int));
                assert(out@.map_values(|p: &str| p@) =~= kept(done));
            }
            start = i + 1;
            assert(input@.subrange(start as int, i + 1) =~= Seq::<char>::empty());
        } else {
            let ghost cur = input@.subrange(start as int, i as int);
            assert(input@.subrange(start as int, i + 1) =~= cur.push(c));
            assert(split_on(next, '+') =~= done.push(input@.subrange(start as int, i + 1)));
        }
        i = i + 1;
    }
    let seg = trim_str(input.substring_char(start, n));
    proof {
        assert(input@.subrange(0, n as int) =~= input@);
        assert(done.push(input@.subrange(start as int, n as int)).drop_last() =~= done);
    }
    if seg.unicode_len() > 0 {
        out.push(seg);
    }
    proof {
        assert(out@.map_values(|p: &str| p@) =~= kept(done.push(input@.subrange(start as int, n as int))));
    }
    out
}

/// Keysyms of X11's `keysymdef.h` that the shortcut table uses.
pub const XK_SHIFT_L: u32 = 0xffe1;
pub const XK_SHIFT_R: u32 = 0xffe2;
pub const XK_CONTROL_L: u32 = 0xffe3;
pub const XK_CONTROL_R: u32 = 0xffe4;
pub const XK_META_L: u32 = 0xffe7;
pub const XK_META_R: u32 = 0xffe8;
pub const XK_ALT_L: u32 = 0xffe9;
pub const XK_ALT_R: u32 = 0xffea;
pub const XK_SUPER_L: u32 = 0xffeb;
pub const XK_SUPER_R: u32 = 0xffec;
pub const XK_MODE_SWITCH: u32 = 0xff7e;
pub const XK_NUM_LOCK: u32 = 0xff7f;
pub const XK_ISO_LEVEL3_SHIFT: u32 = 0xfe03;
pub const XK_F1: u32 = 0xffbe;

/// A name with blanks removed and ASCII letters in upper case.
pub open spec fn norm(s: Seq<char>) -> Seq<char>
    decreases s.len(),
{
    if s.len() == 0 {
        Seq::<char>::empty()
    } else if s.last() == ' ' {
        norm(s.drop_last())
    } else {
        norm(s.drop_last()).push(upper(s.last()))
    }
}

/// Removes blanks and upper-cases ASCII letters.
pub fn normalize(s: &str) -> (r: Vec<char>)
    ensures
        r@ == norm(s@),
{
    let n = s.unicode_len();
    let mut out: Vec<char> = Vec::new();
    let mut i: usize = 0;
    while i < n
        invariant
            n == s@.len(),
            i <= n,
            out@ == norm(s@.subrange(0, i as int)),
        decreases n - i,
    {
        let c = s.get_char(i);
        assert(s@.subrange(0, i + 1).drop_last() =~= s@.subrange(0, i as int));
        if c != ' ' {
            out.push(upper_char(c));
        }
        i = i + 1;
    }
    assert(s@.subrange(0, n as int) =~= s@);
    out
}

pub open spec fn no_modifiers() -> Modifiers {
    Modifiers { ctrl: false, alt: false, shift: false, meta: false }
}

/// The effect of one normalized modifier word; unknown words are ignored.
pub open spec fn apply_modifier(m: Modifiers, w: Seq<char>) -> Modifiers {
    if w == "CTRL"@ || w == "CONTROL"@ {
        Modifiers { ctrl: true, ..m }
    } else if w == "ALT"@ {
        Modifiers { alt: true, ..m }
    } else if w == "SHIFT"@ {
        Modifiers { shift: true, ..m }
    } else if w == "META"@ || w == "SUPER"@ || w == "COMMAND"@ || w == "LOGO"@ {
        Modifiers { meta: true, ..m }
    } else {
        m
    }
}

/// The modifiers that a sequence of modifier parts requires.
pub open spec fn modifiers_of(words: Seq<Seq<char>>) -> Modifiers
    decreases words.len(),
{
    if words.len() == 0 {
        no_modifiers()
    } else {
        apply_modifier(modifiers_of(words.drop_last()), norm(words.last()))
    }
}

fn apply_modifier_exec(m: Modifiers, w: &str) -> (r: Modifiers)
    ensures
        r == apply_modifier(m, norm(w@)),
{
    let n = normalize(w);
    if chars_eq_str(&n, "CTRL") || chars_eq_str(&n, "CONTROL") {
        Modifiers { ctrl: true, ..m }
    } else if chars_eq_str(&n, "ALT") {
        Modifiers { alt: true, ..m }
    } else if chars_eq_str(&n, "SHIFT") {
        Modifiers { shift: true, ..m }
    } else if chars_eq_str(&n, "META") || chars_eq_str(&n, "SUPER") || chars_eq_str(&n, "COMMAND")
        || chars_eq_str(&n, "LOGO") {
        Modifiers { meta: true, ..m }
    } else {
        m
    }
}

pub open spec fn is_digit(c: char) -> bool {
    '0' <= c && c <= '9'
}

/// The decimal value of a run of digits.
pub open spec fn digits_value(d: Seq<char>) -> nat
    decreases d.len(),
{
    if d.len() == 0 {
        0
    } else {
        digits_value(d.drop_last()) * 10 + ((d.last() as u32) - 48) as nat
    }
}

/// The key code of function key `F<v>`.
pub open spec fn function_key_code(v: nat) -> u16 {
    if v <= 10 {
        (58 + v) as u16
    } else if v == 11 {
        87
    } else if v == 12 {
        88
    } else {
        (170 + v) as u16
    }
}

/// Whether `n` reads `F` followed by digits whose value is between 1 and 24.
pub open spec fn is_function_key(n: Seq<char>) -> bool {
    let d = n.subrange(1, n.len() as int);
    &&& n.len() >= 2
    &&& n[0] == 'F'
    &&& forall|i: int| 0 <= i < d.len() ==> is_digit(#[trigger] d[i])
    &&& 1 <= digits_value(d) <= 24
}

/// The key code that a normalized key name denotes, if any.
pub open spec fn key_code(n: Seq<char>) -> Option<u16> {
    if named_key_code(n).is_some() {
        named_key_code(n)
    } else if is_function_key(n) {
        Some(function_key_code(digits_value(n.subrange(1, n.len() as int))))
    } else if n.len() == 1 {
        char_key_code(n[0])
    } else {
        None
    }
}

proof fn lemma_digits_monotone(d: Seq<char>)
    requires
        d.len() > 0,
    ensures
        digits_value(d) >= digits_value(d.drop_last()),
{
}

/// Reads `F<digits>` as a function key number between 1 and 24.
fn function_key_number(n: &Vec<char>) -> (r: Option<u32>)
    ensures
        r.is_some() == is_function_key(n@),
        r.is_some() ==> r.unwrap() as nat == digits_value(n@.subrange(1, n@.len() as int)),
{
    let len = n.len();
    if len < 2 || n[0] != 'F' {
        return None;
    }
    let ghost d = n@.subrange(1, len as int);
    let mut acc: u32 = 0;
    let mut i: usize = 1;
    while i < len
        invariant
            len == n@.len(),
            len >= 2,
            1 <= i <= len,
            d == n@.subrange(1, len as int),
            forall|j: int| 0 <= j < i - 1 ==> is_digit(#[trigger] d[j]),
            acc <= 100 ==> acc as nat == digits_value(d.subrange(0, i - 1)),
            acc > 100 ==> digits_value(d.subrange(0, i - 1)) > 100,
            acc <= 1009,
        decreases len - i,
    {
        let c = n[i];
        if !('0' <= c && c <= '9') {
            assert(!is_digit(d[i - 1]));
            return None;
        }
        let ghost pre = d.subrange(0, i - 1);
        let ghost next = d.subrange(0, i as int);
        assert(next.drop_last() =~= pre);
        assert(next.last() == c);
        if acc <= 100 {
            acc = acc * 10 + ((c as u32) - 48);
        } else {
            proof {
                lemma_digits_monotone(next);
            }
        }
        i = i + 1;
    }
    assert(d.subrange(0, len - 1) =~= d);
    if 1 <= acc && acc <= 24 {
        Some(acc)
    } else {
        None
    }
}

fn function_key_code_exec(v: u32) -> (r: u16)
    requires
        1 <= v <= 24,
    ensures
        r == function_key_code(v as nat),
{
    if v <= 10 {
        (58 + v) as u16
    } else if v == 11 {
        87
    } else if v == 12 {
        88
    } else {
        (170 + v) as u16
    }
}

fn key_code_exec(n: &Vec<char>) -> (r: Option<u16>)
    ensures
        r == key_code(n@),
{
    let named = lookup_named_key(n);
    if named.is_some() {
        return named;
    }
    match function_key_number(n) {
        Some(v) => {
            return Some(function_key_code_exec(v));
        },
        None => {},
    }
    if n.len() == 1 {
        lookup_char_key(n[0])
    } else {
        None
    }
}

/// The outcome of reading one key segment.
pub open spec fn parse_key_spec(s: Seq<char>) -> Result<u16, ShortcutError> {
    let t = trimmed(s);
    if t.len() == 0 {
        Err(ShortcutError::MissingKey)
    } else {
        match key_code(norm(t)) {
            Some(k) => Ok(k),
            None => Err(ShortcutError::UnsupportedKey),
        }
    }
}

/// Maps one key segment (case-insensitive, blanks ignored) to its key code.
pub fn parse_key(key: &str) -> (r: Result<u16, ShortcutError>)
    ensures
        r == parse_key_spec(key@),
{
    let t = trim_str(key);
    if t.unicode_len() == 0 {
        return Err(ShortcutError::MissingKey);
    }
    let n = normalize(t);
    match key_code_exec(&n) {
        Some(k) => Ok(k),
        None => Err(ShortcutError::UnsupportedKey),
    }
}

/// The modifier parts and the key part of a shortcut, when there are parts.
pub open spec fn modifier_parts(parts: Seq<Seq<char>>) -> Seq<Seq<char>> {
    parts.drop_last()
}

/// Reads the modifiers of a list of parts (all but the last).
fn modifiers_of_parts(parts: &Vec<&str>) -> (r: Modifiers)
    requires
        parts@.len() >= 1,
    ensures
        r == modifiers_of(modifier_parts(parts@.map_values(|p: &str| p@))),
{
    let ghost views = parts@.map_values(|p: &str| p@);
    let last = parts.len() - 1;
    let mut m = Modifiers { ctrl: false, alt: false, shift: false, meta: false };
    let mut i: usize = 0;
    while i < last
        invariant
            last == parts@.len() - 1,
            i <= last,
            views == parts@.map_values(|p: &str| p@),
            m == modifiers_of(views.subrange(0, i as int)),
        decreases last - i,
    {
        assert(views.subrange(0, i + 1).drop_last() =~= views.subrange(0, i as int));
        m = apply_modifier_exec(m, parts[i]);
        i = i + 1;
    }
    assert(views.subrange(0, last as int) =~= views.drop_last());
    m
}

/// The outcome of reading a whole shortcut for the raw-input backend.
pub open spec fn parse_hotkey_spec(s: Seq<char>) -> Result<HotkeySpec, ShortcutError> {
    let parts = shortcut_parts(s);
    if parts.len() == 0 {
        Err(ShortcutError::Empty)
    } else {
        match parse_key_spec(parts.last()) {
            Ok(k) => Ok(HotkeySpec { key: k, modifiers: modifiers_of(parts.drop_last()) }),
            Err(e) => Err(e),
        }
    }
}

/// Parses a shortcut such as `Ctrl+Space` or `RightAlt`.
pub fn parse_hotkey(input: &str) -> (r: Result<HotkeySpec, ShortcutError>)
    ensures
        r == parse_hotkey_spec(input@),
{
    let parts = split_shortcut(input);
    if parts.len() == 0 {
        return Err(ShortcutError::Empty);
    }
    let modifiers = modifiers_of_parts(&parts);
    let key_part = parts[parts.len() - 1];
    assert(key_part@ == parts@.map_values(|p: &str| p@).last());
    match parse_key(key_part) {
        Ok(key) => Ok(HotkeySpec { key, modifiers }),
        Err(e) => Err(e),
    }
}

/// The keysyms tried, in order, for a key segment on X11.
pub open spec fn keysyms_spec(s: Seq<char>) -> Result<Seq<u32>, ShortcutError> {
    let t = trimmed(s);
    let n = norm(t);
    if t.len() == 0 {
        Err(ShortcutError::MissingKey)
    } else if named_keysyms(n).is_some() {
        Ok(named_keysyms(n).unwrap())
    } else if is_function_key(n) {
        Ok(seq![(XK_F1 + digits_value(n.subrange(1, n.len() as int)) - 1) as u32])
    } else if n.len() == 1 && (('A' <= n[0] && n[0] <= 'Z') || is_digit(n[0])) {
        Ok(seq![n[0] as u32])
    } else {
        Err(ShortcutError::UnsupportedKey)
    }
}

/// The X11 keysyms to look up for a key segment, tried in order.
pub fn keysym_candidates(key: &str) -> (r: Result<Vec<u32>, ShortcutError>)
    ensures
        r.is_ok() == keysyms_spec(key@).is_ok(),
        r.is_ok() ==> r.unwrap()@ == keysyms_spec(key@).unwrap(),
        r.is_err() ==> keysyms_spec(key@) == Err::<Seq<u32>, ShortcutError>(r->Err_0),
{
    let t = trim_str(key);
    if t.unicode_len() == 0 {
        return Err(ShortcutError::MissingKey);
    }
    let n = normalize(t);
    match lookup_named_keysyms(&n) {
        Some(v) => {
            return Ok(v);
        },
        None => {},
    }
    match function_key_number(&n) {
        Some(v) => {
            let out: Vec<u32> = vec![XK_F1 + v - 1];
            assert(out@ =~= seq![(XK_F1 + v - 1) as u32]);
            return Ok(out);
        },
        None => {},
    }
    if n.len() == 1 {
        let c = n[0];
        if ('A' <= c && c <= 'Z') || ('0' <= c && c <= '9') {
            let out: Vec<u32> = vec![c as u32];
            assert(out@ =~= seq![c as u32]);
            return Ok(out);
        }
    }
    Err(ShortcutError::UnsupportedKey)
}

/// Reads the modifier parts and the key part of a shortcut for the X11 backend.
pub fn split_x11_hotkey<'a>(input: &'a str) -> (r: Result<(Modifiers, &'a str), ShortcutError>)
    ensures
        shortcut_parts(input@).len() == 0 <==> r == Err::<(Modifiers, &'a str), ShortcutError>(ShortcutError::Empty),
        r.is_ok() ==> r.unwrap().0 == modifiers_of(shortcut_parts(input@).drop_last())
            && r.unwrap().1@ == shortcut_parts(input@).last(),
{
    let parts = split_shortcut(input);
    if parts.len() == 0 {
        return Err(ShortcutError::Empty);
    }
    let modifiers = modifiers_of_parts(&parts);
    let key_part = parts[parts.len() - 1];
    assert(key_part@ == parts@.map_values(|p: &str| p@).last());
    Ok((modifiers, key_part))
}

/// The key code that a normalized name in the fixed table denotes.
pub open spec fn named_key_code(n: Seq<char>) -> Option<u16> {
    if n == "SPACE"@ {
        Some(57u16)
    } else if n == "ENTER"@ || n == "RETURN"@ {
        Some(28u16)
    } else if n == "ESC"@ || n == "ESCAPE"@ {
        Some(1u16)
    } else if n == "ARROWUP"@ || n == "UP"@ {
        Some(103u16)
    } else if n == "ARROWDOWN"@ || n == "DOWN"@ {
        Some(108u16)
    } else if n == "ARROWLEFT"@ || n == "LEFT"@ {
        Some(105u16)
    } else if n == "ARROWRIGHT"@ || n == "RIGHT"@ {
        Some(106u16)
    } else if n == "TAB"@ {
        Some(15u16)
    } else if n == "BACKSPACE"@ {
        Some(14u16)
    } else if n == "RIGHTALT"@ || n == "ALTRIGHT"@ {
        Some(100u16)
    } else if n == "LEFTALT"@ || n == "ALTLEFT"@ {
        Some(56u16)
    } else if n == "RIGHTCTRL"@ || n == "CTRLRIGHT"@ || n == "CONTROLRIGHT"@ {
        Some(97u16)
    } else if n == "LEFTCTRL"@ || n == "CTRLLEFT"@ || n == "CONTROLLEFT"@ {
        Some(29u16)
    } else if n == "RIGHTSHIFT"@ || n == "SHIFTRIGHT"@ {
        Some(54u16)
    } else if n == "LEFTSHIFT"@ || n == "SHIFTLEFT"@ {
        Some(42u16)
    } else if n == "RIGHTMETA"@ || n == "METARIGHT"@ || n == "SUPERRIGHT"@ {
        Some(126u16)
    } else if n == "LEFTMETA"@ || n == "METALEFT"@ || n == "SUPERLEFT"@ {
        Some(125u16)
    } else if n == "SCROLLLOCK"@ {
        Some(70u16)
    } else if n == "PAUSE"@ {
        Some(119u16)
    } else if n == "CAPSLOCK"@ {
        Some(58u16)
    } else if n == "NUMLOCK"@ {
        Some(69u16)
    } else if n == "INSERT"@ {
        Some(110u16)
    } else if n == "HOME"@ {
        Some(102u16)
    } else if n == "END"@ {
        Some(107u16)
    } else if n == "PAGEUP"@ {
        Some(104u16)
    } else if n == "PAGEDOWN"@ {
        Some(109u16)
    } else if n == "DELETE"@ {
        Some(111u16)
    } else {
        None
    }
}

fn lookup_named_key(n: &Vec<char>) -> (r: Option<u16>)
    ensures
        r == named_key_code(n@),
{
    if chars_eq_str(n, "SPACE") {
        return Some(57);
    }
    if chars_eq_str(n, "ENTER") || chars_eq_str(n, "RETURN") {
        return Some(28);
    }
    if chars_eq_str(n, "ESC") || chars_eq_str(n, "ESCAPE") {
        return Some(1);
    }
    if chars_eq_str(n, "ARROWUP") || chars_eq_str(n, "UP") {
        return Some(103);
    }
    if chars_eq_str(n, "ARROWDOWN") || chars_eq_str(n, "DOWN") {
        return Some(108);
    }
    if chars_eq_str(n, "ARROWLEFT") || chars_eq_str(n, "LEFT") {
        return Some(105);
    }
    if chars_eq_str(n, "ARROWRIGHT") || chars_eq_str(n, "RIGHT") {
        return Some(106);
    }
    if chars_eq_str(n, "TAB") {
        return Some(15);
    }
    if chars_eq_str(n, "BACKSPACE") {
        return Some(14);
    }
    if chars_eq_str(n, "RIGHTALT") || chars_eq_str(n, "ALTRIGHT") {
        return Some(100);
    }
    if chars_eq_str(n, "LEFTALT") || chars_eq_str(n, "ALTLEFT") {
        return Some(56);
    }
    if chars_eq_str(n, "RIGHTCTRL") || chars_eq_str(n, "CTRLRIGHT") || chars_eq_str(n, "CONTROLRIGHT") {
        return Some(97);
    }
    if chars_eq_str(n, "LEFTCTRL") || chars_eq_str(n, "CTRLLEFT") || chars_eq_str(n, "CONTROLLEFT") {
        return Some(29);
    }
    if chars_eq_str(n, "RIGHTSHIFT") || chars_eq_str(n, "SHIFTRIGHT") {
        return Some(54);
    }
    if chars_eq_str(n, "LEFTSHIFT") || chars_eq_str(n, "SHIFTLEFT") {
        return Some(42);
    }
    if chars_eq_str(n, "RIGHTMETA") || chars_eq_str(n, "METARIGHT") || chars_eq_str(n, "SUPERRIGHT") {
        return Some(126);
    }
    if chars_eq_str(n, "LEFTMETA") || chars_eq_str(n, "METALEFT") || chars_eq_str(n, "SUPERLEFT") {
        return Some(125);
    }
    if chars_eq_str(n, "SCROLLLOCK") {
        return Some(70);
    }
    if chars_eq_str(n, "PAUSE") {
        return Some(119);
    }
    if chars_eq_str(n, "CAPSLOCK") {
        return Some(58);
    }
    if chars_eq_str(n, "NUMLOCK") {
        return Some(69);
    }
    if chars_eq_str(n, "INSERT") {
        return Some(110);
    }
    if chars_eq_str(n, "HOME") {
        return Some(102);
    }
    if chars_eq_str(n, "END") {
        return Some(107);
    }
    if chars_eq_str(n, "PAGEUP") {
        return Some(104);
    }
    if chars_eq_str(n, "PAGEDOWN") {
        return Some(109);
    }
    if chars_eq_str(n, "DELETE") {
        return Some(111);
    }
    None
}

/// The key code of a single upper-case letter or digit.
pub open spec fn char_key_code(c: char) -> Option<u16> {
    match c {
        'A' => Some(30u16),
        'B' => Some(48u16),
        'C' => Some(46u16),
        'D' => Some(32u16),
        'E' => Some(18u16),
        'F' => Some(33u16),
        'G' => Some(34u16),
        'H' => Some(35u16),
        'I' => Some(23u16),
        'J' => Some(36u16),
        'K' => Some(37u16),
        'L' => Some(38u16),
        'M' => Some(50u16),
        'N' => Some(49u16),
        'O' => Some(24u16),
        'P' => Some(25u16),
        'Q' => Some(16u16),
        'R' => Some(19u16),
        'S' => Some(31u16),
        'T' => Some(20u16),
        'U' => Some(22u16),
        'V' => Some(47u16),
        'W' => Some(17u16),
        'X' => Some(45u16),
        'Y' => Some(21u16),
        'Z' => Some(44u16),
        '1' => Some(2u16),
        '2' => Some(3u16),
        '3' => Some(4u16),
        '4' => Some(5u16),
        '5' => Some(6u16),
        '6' => Some(7u16),
        '7' => Some(8u16),
        '8' => Some(9u16),
        '9' => Some(10u16),
        '0' => Some(11u16),
        _ => None,
    }
}

fn lookup_char_key(c: char) -> (r: Option<u16>)
    ensures
        r == char_key_code(c),
{
    match c {
        'A' => Some(30),
        'B' => Some(48),
        'C' => Some(46),
        'D' => Some(32),
        'E' => Some(18),
        'F' => Some(33),
        'G' => Some(34),
        'H' => Some(35),
        'I' => Some(23),
        'J' => Some(36),
        'K' => Some(37),
        'L' => Some(38),
        'M' => Some(50),
        'N' => Some(49),
        'O' => Some(24),
        'P' => Some(25),
        'Q' => Some(16),
        'R' => Some(19),
        'S' => Some(31),
        'T' => Some(20),
        'U' => Some(22),
        'V' => Some(47),
        'W' => Some(17),
        'X' => Some(45),
        'Y' => Some(21),
        'Z' => Some(44),
        '1' => Some(2),
        '2' => Some(3),
        '3' => Some(4),
        '4' => Some(5),
        '5' => Some(6),
        '6' => Some(7),
        '7' => Some(8),
        '8' => Some(9),
        '9' => Some(10),
        '0' => Some(11),
        _ => None,
    }
}

/// The keysyms tried, in order, for a normalized name of the X11 table.
pub open spec fn named_keysyms(n: Seq<char>) -> Option<Seq<u32>> {
    if n == "SPACE"@ {
        Some(seq![0x0020])
    } else if n == "ENTER"@ || n == "RETURN"@ {
        Some(seq![0xff0d])
    } else if n == "ESC"@ || n == "ESCAPE"@ {
        Some(seq![0xff1b])
    } else if n == "TAB"@ {
        Some(seq![0xff09])
    } else if n == "RIGHTALT"@ || n == "ALTRIGHT"@ {
        Some(seq![XK_ALT_R, XK_ISO_LEVEL3_SHIFT, XK_MODE_SWITCH])
    } else if n == "LEFTALT"@ || n == "ALTLEFT"@ {
        Some(seq![XK_ALT_L])
    } else if n == "RIGHTCTRL"@ || n == "CTRLRIGHT"@ || n == "CONTROLRIGHT"@ {
        Some(seq![XK_CONTROL_R])
    } else if n == "LEFTCTRL"@ || n == "CTRLLEFT"@ || n == "CONTROLLEFT"@ {
        Some(seq![XK_CONTROL_L])
    } else if n == "RIGHTSHIFT"@ || n == "SHIFTRIGHT"@ {
        Some(seq![XK_SHIFT_R])
    } else if n == "LEFTSHIFT"@ || n == "SHIFTLEFT"@ {
        Some(seq![XK_SHIFT_L])
    } else if n == "RIGHTMETA"@ || n == "METARIGHT"@ || n == "SUPERRIGHT"@ {
        Some(seq![XK_SUPER_R, XK_META_R])
    } else if n == "LEFTMETA"@ || n == "METALEFT"@ || n == "SUPERLEFT"@ {
        Some(seq![XK_SUPER_L, XK_META_L])
    } else {
        None
    }
}

fn lookup_named_keysyms(n: &Vec<char>) -> (r: Option<Vec<u32>>)
    ensures
        r.is_some() == named_keysyms(n@).is_some(),
        r.is_some() ==> r.unwrap()@ == named_keysyms(n@).unwrap(),
{
    if chars_eq_str(n, "SPACE") {
        let v: Vec<u32> = vec![0x0020];
        assert(v@ =~= seq![0x0020]);
        return Some(v);
    }
    if chars_eq_str(n, "ENTER") || chars_eq_str(n, "RETURN") {
        let v: Vec<u32> = vec![0xff0d];
        assert(v@ =~= seq![0xff0d]);
        return Some(v);
    }
    if chars_eq_str(n, "ESC") || chars_eq_str(n, "ESCAPE") {
        let v: Vec<u32> = vec![0xff1b];
        assert(v@ =~= seq![0xff1b]);
        return Some(v);
    }
    if chars_eq_str(n, "TAB") {
        let v: Vec<u32> = vec![0xff09];
        assert(v@ =~= seq![0xff09]);
        return Some(v);
    }
    if chars_eq_str(n, "RIGHTALT") || chars_eq_str(n, "ALTRIGHT") {
        let v: Vec<u32> = vec![XK_ALT_R, XK_ISO_LEVEL3_SHIFT, XK_MODE_SWITCH];
        assert(v@ =~= seq![XK_ALT_R, XK_ISO_LEVEL3_SHIFT, XK_MODE_SWITCH]);
        return Some(v);
    }
    if chars_eq_str(n, "LEFTALT") || chars_eq_str(n, "ALTLEFT") {
        let v: Vec<u32> = vec![XK_ALT_L];
        assert(v@ =~= seq![XK_ALT_L]);
        return Some(v);
    }
    if chars_eq_str(n, "RIGHTCTRL") || chars_eq_str(n, "CTRLRIGHT") || chars_eq_str(n, "CONTROLRIGHT") {
        let v: Vec<u32> = vec![XK_CONTROL_R];
        assert(v@ =~= seq![XK_CONTROL_R]);
        return Some(v);
    }
    if chars_eq_str(n, "LEFTCTRL") || chars_eq_str(n, "CTRLLEFT") || chars_eq_str(n, "CONTROLLEFT") {
        let v: Vec<u32> = vec![XK_CONTROL_L];
        assert(v@ =~= seq![XK_CONTROL_L]);
        return Some(v);
    }
    if chars_eq_str(n, "RIGHTSHIFT") || chars_eq_str(n, "SHIFTRIGHT") {
        let v: Vec<u32> = vec![XK_SHIFT_R];
        assert(v@ =~= seq![XK_SHIFT_R]);
        return Some(v);
    }
    if chars_eq_str(n, "LEFTSHIFT") || chars_eq_str(n, "SHIFTLEFT") {
        let v: Vec<u32> = vec![XK_SHIFT_L];
        assert(v@ =~= seq![XK_SHIFT_L]);
        return Some(v);
    }
    if chars_eq_str(n, "RIGHTMETA") || chars_eq_str(n, "METARIGHT") || chars_eq_str(n, "SUPERRIGHT") {
        let v: Vec<u32> = vec![XK_SUPER_R, XK_META_R];
        assert(v@ =~= seq![XK_SUPER_R, XK_META_R]);
        return Some(v);
    }
    if chars_eq_str(n, "LEFTMETA") || chars_eq_str(n, "METALEFT") || chars_eq_str(n, "SUPERLEFT") {
        let v: Vec<u32> = vec![XK_SUPER_L, XK_META_L];
        assert(v@ =~= seq![XK_SUPER_L, XK_META_L]);
        return Some(v);
    }
    None
}

} // verus!
