//! The textual key-binding syntax: modifier prefixes (`ctrl-`, `alt-`,
//! `shift-`) joined by `-`, applied left to right and parsed
//! case-insensitively, followed by a named key or a single character. A bare
//! character is upper-cased only when a shift modifier is explicitly present.
//! Unrecognized tokens are rejected.
//!
//! The grammar is stated over the UTF-8 bytes of the input; every named token
//! is ASCII, so a non-ASCII input can only be rejected.

use vstd::prelude::*;
use vstd::seq_lib::*;
use vstd::string::StringSliceAdditionalSpecFns;

use crate::action::Action;
use crate::action::ActionV;
use crate::keys::KeyCode;
use crate::keys::KeyEvent;
use crate::keys::KeyMods;

verus! {

/// An unrecognized key description.
#[derive(Clone, Copy, Debug, PartialEq, Eq, Structural)]
pub struct ParseError;

/// ASCII lower-casing of one byte, as `u8::to_ascii_lowercase` does it
/// (65..=90 are `A`..=`Z`).
pub open spec fn lower_byte(b: u8) -> u8 {
    if 65 <= b && b <= 90 {
        (b + 32) as u8
    } else {
        b
    }
}

/// ASCII upper-casing of one byte, as `u8::to_ascii_uppercase` does it
/// (97..=122 are `a`..=`z`).
pub open spec fn upper_byte(b: u8) -> u8 {
    if 97 <= b && b <= 122 {
        (b - 32) as u8
    } else {
        b
    }
}

/// ASCII lower-casing of a byte string.
pub open spec fn lower_bytes(s: Seq<u8>) -> Seq<u8> {
    s.map_values(|b: u8| lower_byte(b))
}

pub open spec fn ctrl_prefix() -> Seq<u8> {
    seq![99u8, 116, 114, 108, 45]  // "ctrl-"
}

pub open spec fn alt_prefix() -> Seq<u8> {
    seq![97u8, 108, 116, 45]  // "alt-"
}

pub open spec fn shift_prefix() -> Seq<u8> {
    seq![115u8, 104, 105, 102, 116, 45]  // "shift-"
}

/// Strips leading modifier prefixes, accumulating them into `m`; returns the
/// remaining bytes and the collected modifiers.
pub open spec fn strip_modifiers(s: Seq<u8>, m: KeyMods) -> (Seq<u8>, KeyMods)
    decreases s.len(),
{
    if ctrl_prefix().is_prefix_of(s) {
        strip_modifiers(s.skip(5), KeyMods { ctrl: true, ..m })
    } else if alt_prefix().is_prefix_of(s) {
        strip_modifiers(s.skip(4), KeyMods { alt: true, ..m })
    } else if shift_prefix().is_prefix_of(s) {
        strip_modifiers(s.skip(6), KeyMods { shift: true, ..m })
    } else {
        (s, m)
    }
}

/// The named-key table, over lower-cased bytes. The flag says whether the
/// token forces the shift modifier (`backtab` does).
pub open spec fn named_key(t: Seq<u8>) -> Option<(KeyCode, bool)> {
    if t == seq![101u8, 115, 99] {  // "esc"
        Some((KeyCode::Esc, false))
    } else if t == seq![101u8, 110, 116, 101, 114] {  // "enter"
        Some((KeyCode::Enter, false))
    } else if t == seq![108u8, 101, 102, 116] {  // "left"
        Some((KeyCode::Left, false))
    } else if t == seq![114u8, 105, 103, 104, 116] {  // "right"
        Some((KeyCode::Right, false))
    } else if t == seq![117u8, 112] {  // "up"
        Some((KeyCode::Up, false))
    } else if t == seq![100u8, 111, 119, 110] {  // "down"
        Some((KeyCode::Down, false))
    } else if t == seq![104u8, 111, 109, 101] {  // "home"
        Some((KeyCode::Home, false))
    } else if t == seq![101u8, 110, 100] {  // "end"
        Some((KeyCode::End, false))
    } else if t == seq![112u8, 97, 103, 101, 117, 112] {  // "pageup"
        Some((KeyCode::PageUp, false))
    } else if t == seq![112u8, 97, 103, 101, 100, 111, 119, 110] {  // "pagedown"
        Some((KeyCode::PageDown, false))
    } else if t == seq![98u8, 97, 99, 107, 116, 97, 98] {  // "backtab"
        Some((KeyCode::BackTab, true))
    } else if t == seq![98u8, 97, 99, 107, 115, 112, 97, 99, 101] {  // "backspace"
        Some((KeyCode::Backspace, false))
    } else if t == seq![100u8, 101, 108, 101, 116, 101] {  // "delete"
        Some((KeyCode::Delete, false))
    } else if t == seq![105u8, 110, 115, 101, 114, 116] {  // "insert"
        Some((KeyCode::Insert, false))
    } else if t == seq![102u8, 49] {  // "f1"
        Some((KeyCode::F(1), false))
    } else if t == seq![102u8, 50] {  // "f2"
        Some((KeyCode::F(2), false))
    } else if t == seq![102u8, 51] {  // "f3"
        Some((KeyCode::F(3), false))
    } else if t == seq![102u8, 52] {  // "f4"
        Some((KeyCode::F(4), false))
    } else if t == seq![102u8, 53] {  // "f5"
        Some((KeyCode::F(5), false))
    } else if t == seq![102u8, 54] {  // "f6"
        Some((KeyCode::F(6), false))
    } else if t == seq![102u8, 55] {  // "f7"
        Some((KeyCode::F(7), false))
    } else if t == seq![102u8, 56] {  // "f8"
        Some((KeyCode::F(8), false))
    } else if t == seq![102u8, 57] {  // "f9"
        Some((KeyCode::F(9), false))
    } else if t == seq![102u8, 49, 48] {  // "f10"
        Some((KeyCode::F(10), false))
    } else if t == seq![102u8, 49, 49] {  // "f11"
        Some((KeyCode::F(11), false))
    } else if t == seq![102u8, 49, 50] {  // "f12"
        Some((KeyCode::F(12), false))
    } else if t == seq![115u8, 112, 97, 99, 101] {  // "space"
        Some((KeyCode::Char(' '), false))
    } else if t == seq![104u8, 121, 112, 104, 101, 110] {  // "hyphen"
        Some((KeyCode::Char('-'), false))
    } else if t == seq![109u8, 105, 110, 117, 115] {  // "minus"
        Some((KeyCode::Char('-'), false))
    } else if t == seq![116u8, 97, 98] {  // "tab"
        Some((KeyCode::Tab, false))
    } else {
        None
    }
}

/// What remains after the modifier prefixes: a named key, or a single ASCII
/// character, upper-cased when shift is among the modifiers.
pub open spec fn parse_tail(t: Seq<u8>, m: KeyMods) -> Option<KeyEvent> {
    match named_key(t) {
        Some(code_shift) => Some(
            KeyEvent {
                code: code_shift.0,
                mods: KeyMods { shift: m.shift || code_shift.1, ..m },
            },
        ),
        None => {
            if t.len() == 1 && t[0] < 128 {
                Some(
                    KeyEvent {
                        code: KeyCode::Char(
                            (if m.shift {
                                upper_byte(t[0])
                            } else {
                                t[0]
                            }) as char,
                        ),
                        mods: m,
                    },
                )
            } else {
                None
            }
        },
    }
}

/// The whole grammar: lower-case, strip modifiers, parse the tail.
pub open spec fn parse_key_bytes(s: Seq<u8>) -> Option<KeyEvent> {
    let stripped = strip_modifiers(
        lower_bytes(s),
        KeyMods { ctrl: false, alt: false, shift: false },
    );
    parse_tail(stripped.0, stripped.1)
}

/// ASCII lower-casing, byte by byte.
fn to_lower_bytes(s: &[u8]) -> (r: Vec<u8>)
    ensures
        r@ == lower_bytes(s@),
{
    let mut r: Vec<u8> = Vec::new();
    let mut i: usize = 0;
    while i < s.len()
        invariant
            i <= s@.len(),
            r@ == lower_bytes(s@.take(i as int)),
        decreases s@.len() - i,
    {
        let b = s[i];
        if 65 <= b && b <= 90 {
            r.push(b + 32);
        } else {
            r.push(b);
        }
        i = i + 1;
        proof {
            assert(r@ =~= lower_bytes(s@.take(i as int)));
        }
    }
    proof {
        assert(s@.take(s@.len() as int) =~= s@);
    }
    r
}

/// Whether `pat` occurs in `s` at position `i`.
fn starts_with_at(s: &[u8], i: usize, pat: &[u8]) -> (r: bool)
    requires
        i <= s@.len(),
    ensures
        r == pat@.is_prefix_of(s@.skip(i as int)),
{
    if s.len() - i < pat.len() {
        return false;
    }
    let slen: usize = s.len();
    let mut j: usize = 0;
    while j < pat.len()
        invariant
            j <= pat@.len(),
            i + pat@.len() <= s@.len(),
            s@.len() == slen,
            forall|k: int| 0 <= k < j ==> s@[i + k] == pat@[k],
        decreases pat@.len() - j,
    {
        if s[i + j] != pat[j] {
            assert(!pat@.is_prefix_of(s@.skip(i as int)));
            return false;
        }
        j = j + 1;
    }
    assert(pat@.is_prefix_of(s@.skip(i as int)));
    true
}

/// Whether the bytes of `s` from position `start` on are exactly `pat`.
fn tail_is(s: &[u8], start: usize, pat: &Vec<u8>) -> (r: bool)
    requires
        start <= s@.len(),
    ensures
        r == (s@.skip(start as int) == pat@),
{
    if s.len() - start != pat.len() {
        proof {
            assert(s@.skip(start as int).len() != pat@.len());
        }
        return false;
    }
    let r = starts_with_at(s, start, pat.as_slice());
    proof {
        if pat@.is_prefix_of(s@.skip(start as int)) {
            assert(s@.skip(start as int) =~= pat@);
        }
    }
    r
}

/// Strips the recognised modifier prefixes from the front of `s`, left to
/// right; returns the position where the key token starts and the collected
/// modifiers.
pub fn extract_modifiers(s: &[u8]) -> (r: (usize, KeyMods))
    ensures
        r.0 <= s@.len(),
        (s@.skip(r.0 as int), r.1) == strip_modifiers(
            s@,
            KeyMods { ctrl: false, alt: false, shift: false },
        ),
{
    let ctrl_pat: Vec<u8> = vec![99u8, 116, 114, 108, 45];  // "ctrl-"
    let alt_pat: Vec<u8> = vec![97u8, 108, 116, 45];  // "alt-"
    let shift_pat: Vec<u8> = vec![115u8, 104, 105, 102, 116, 45];  // "shift-"
    proof {
        assert(ctrl_pat@ =~= ctrl_prefix());
        assert(alt_pat@ =~= alt_prefix());
        assert(shift_pat@ =~= shift_prefix());
    }
    let slen: usize = s.len();
    let mut i: usize = 0;
    let mut m = KeyMods { ctrl: false, alt: false, shift: false };
    proof {
        assert(s@.skip(0) =~= s@);
    }
    loop
        invariant
            i <= s@.len(),
            s@.len() == slen,
            ctrl_pat@ == ctrl_prefix(),
            alt_pat@ == alt_prefix(),
            shift_pat@ == shift_prefix(),
            strip_modifiers(s@.skip(i as int), m) == strip_modifiers(
                s@,
                KeyMods { ctrl: false, alt: false, shift: false },
            ),
        decreases s@.len() - i,
    {
        if starts_with_at(s, i, ctrl_pat.as_slice()) {
            proof {
                assert(s@.skip(i as int).skip(5) =~= s@.skip(i as int + 5));
            }
            m = KeyMods { ctrl: true, ..m };
            i = i + 5;
        } else if starts_with_at(s, i, alt_pat.as_slice()) {
            proof {
                assert(s@.skip(i as int).skip(4) =~= s@.skip(i as int + 4));
            }
            m = KeyMods { alt: true, ..m };
            i = i + 4;
        } else if starts_with_at(s, i, shift_pat.as_slice()) {
            proof {
                assert(s@.skip(i as int).skip(6) =~= s@.skip(i as int + 6));
            }
            m = KeyMods { shift: true, ..m };
            i = i + 6;
        } else {
            return (i, m);
        }
    }
}

/// Looks the tail up in the named-key table.
fn lookup_named(s: &[u8], start: usize) -> (r: Option<(KeyCode, bool)>)
    requires
        start <= s@.len(),
    ensures
        r == named_key(s@.skip(start as int)),
{
    let pat: Vec<u8> = vec![101u8, 115, 99];  // "esc"
    proof { assert(pat@ =~= seq![101u8, 115, 99]); }
    if tail_is(s, start, &pat) {
        return Some((KeyCode::Esc, false));
    }
    let pat: Vec<u8> = vec![101u8, 110, 116, 101, 114];  // "enter"
    proof { assert(pat@ =~= seq![101u8, 110, 116, 101, 114]); }
    if tail_is(s, start, &pat) {
        return Some((KeyCode::Enter, false));
    }
    let pat: Vec<u8> = vec![108u8, 101, 102, 116];  // "left"
    proof { assert(pat@ =~= seq![108u8, 101, 102, 116]); }
    if tail_is(s, start, &pat) {
        return Some((KeyCode::Left, false));
    }
    let pat: Vec<u8> = vec![114u8, 105, 103, 104, 116];  // "right"
    proof { assert(pat@ =~= seq![114u8, 105, 103, 104, 116]); }
    if tail_is(s, start, &pat) {
        return Some((KeyCode::Right, false));
    }
    let pat: Vec<u8> = vec![117u8, 112];  // "up"
    proof { assert(pat@ =~= seq![117u8, 112]); }
    if tail_is(s, start, &pat) {
        return Some((KeyCode::Up, false));
    }
    let pat: Vec<u8> = vec![100u8, 111, 119, 110];  // "down"
    proof { assert(pat@ =~= seq![100u8, 111, 119, 110]); }
    if tail_is(s, start, &pat) {
        return Some((KeyCode::Down, false));
    }
    let pat: Vec<u8> = vec![104u8, 111, 109, 101];  // "home"
    proof { assert(pat@ =~= seq![104u8, 111, 109, 101]); }
    if tail_is(s, start, &pat) {
        return Some((KeyCode::Home, false));
    }
    let pat: Vec<u8> = vec![101u8, 110, 100];  // "end"
    proof { assert(pat@ =~= seq![101u8, 110, 100]); }
    if tail_is(s, start, &pat) {
        return Some((KeyCode::End, false));
    }
    let pat: Vec<u8> = vec![112u8, 97, 103, 101, 117, 112];  // "pageup"
    proof { assert(pat@ =~= seq![112u8, 97, 103, 101, 117, 112]); }
    if tail_is(s, start, &pat) {
        return Some((KeyCode::PageUp, false));
    }
    let pat: Vec<u8> = vec![112u8, 97, 103, 101, 100, 111, 119, 110];  // "pagedown"
    proof { assert(pat@ =~= seq![112u8, 97, 103, 101, 100, 111, 119, 110]); }
    if tail_is(s, start, &pat) {
        return Some((KeyCode::PageDown, false));
    }
    let pat: Vec<u8> = vec![98u8, 97, 99, 107, 116, 97, 98];  // "backtab"
    proof { assert(pat@ =~= seq![98u8, 97, 99, 107, 116, 97, 98]); }
    if tail_is(s, start, &pat) {
        return Some((KeyCode::BackTab, true));
    }
    let pat: Vec<u8> = vec![98u8, 97, 99, 107, 115, 112, 97, 99, 101];  // "backspace"
    proof { assert(pat@ =~= seq![98u8, 97, 99, 107, 115, 112, 97, 99, 101]); }
    if tail_is(s, start, &pat) {
        return Some((KeyCode::Backspace, false));
    }
    let pat: Vec<u8> = vec![100u8, 101, 108, 101, 116, 101];  // "delete"
    proof { assert(pat@ =~= seq![100u8, 101, 108, 101, 116, 101]); }
    if tail_is(s, start, &pat) {
        return Some((KeyCode::Delete, false));
    }
    let pat: Vec<u8> = vec![105u8, 110, 115, 101, 114, 116];  // "insert"
    proof { assert(pat@ =~= seq![105u8, 110, 115, 101, 114, 116]); }
    if tail_is(s, start, &pat) {
        return Some((KeyCode::Insert, false));
    }
    let pat: Vec<u8> = vec![102u8, 49];  // "f1"
    proof { assert(pat@ =~= seq![102u8, 49]); }
    if tail_is(s, start, &pat) {
        return Some((KeyCode::F(1), false));
    }
    let pat: Vec<u8> = vec![102u8, 50];  // "f2"
    proof { assert(pat@ =~= seq![102u8, 50]); }
    if tail_is(s, start, &pat) {
        return Some((KeyCode::F(2), false));
    }
    let pat: Vec<u8> = vec![102u8, 51];  // "f3"
    proof { assert(pat@ =~= seq![102u8, 51]); }
    if tail_is(s, start, &pat) {
        return Some((KeyCode::F(3), false));
    }
    let pat: Vec<u8> = vec![102u8, 52];  // "f4"
    proof { assert(pat@ =~= seq![102u8, 52]); }
    if tail_is(s, start, &pat) {
        return Some((KeyCode::F(4), false));
    }
    let pat: Vec<u8> = vec![102u8, 53];  // "f5"
    proof { assert(pat@ =~= seq![102u8, 53]); }
    if tail_is(s, start, &pat) {
        return Some((KeyCode::F(5), false));
    }
    let pat: Vec<u8> = vec![102u8, 54];  // "f6"
    proof { assert(pat@ =~= seq![102u8, 54]); }
    if tail_is(s, start, &pat) {
        return Some((KeyCode::F(6), false));
    }
    let pat: Vec<u8> = vec![102u8, 55];  // "f7"
    proof { assert(pat@ =~= seq![102u8, 55]); }
    if tail_is(s, start, &pat) {
        return Some((KeyCode::F(7), false));
    }
    let pat: Vec<u8> = vec![102u8, 56];  // "f8"
    proof { assert(pat@ =~= seq![102u8, 56]); }
    if tail_is(s, start, &pat) {
        return Some((KeyCode::F(8), false));
    }
    let pat: Vec<u8> = vec![102u8, 57];  // "f9"
    proof { assert(pat@ =~= seq![102u8, 57]); }
    if tail_is(s, start, &pat) {
        return Some((KeyCode::F(9), false));
    }
    let pat: Vec<u8> = vec![102u8, 49, 48];  // "f10"
    proof { assert(pat@ =~= seq![102u8, 49, 48]); }
    if tail_is(s, start, &pat) {
        return Some((KeyCode::F(10), false));
    }
    let pat: Vec<u8> = vec![102u8, 49, 49];  // "f11"
    proof { assert(pat@ =~= seq![102u8, 49, 49]); }
    if tail_is(s, start, &pat) {
        return Some((KeyCode::F(11), false));
    }
    let pat: Vec<u8> = vec![102u8, 49, 50];  // "f12"
    proof { assert(pat@ =~= seq![102u8, 49, 50]); }
    if tail_is(s, start, &pat) {
        return Some((KeyCode::F(12), false));
    }
    let pat: Vec<u8> = vec![115u8, 112, 97, 99, 101];  // "space"
    proof { assert(pat@ =~= seq![115u8, 112, 97, 99, 101]); }
    if tail_is(s, start, &pat) {
        return Some((KeyCode::Char(' '), false));
    }
    let pat: Vec<u8> = vec![104u8, 121, 112, 104, 101, 110];  // "hyphen"
    proof { assert(pat@ =~= seq![104u8, 121, 112, 104, 101, 110]); }
    if tail_is(s, start, &pat) {
        return Some((KeyCode::Char('-'), false));
    }
    let pat: Vec<u8> = vec![109u8, 105, 110, 117, 115];  // "minus"
    proof { assert(pat@ =~= seq![109u8, 105, 110, 117, 115]); }
    if tail_is(s, start, &pat) {
        return Some((KeyCode::Char('-'), false));
    }
    let pat: Vec<u8> = vec![116u8, 97, 98];  // "tab"
    proof { assert(pat@ =~= seq![116u8, 97, 98]); }
    if tail_is(s, start, &pat) {
        return Some((KeyCode::Tab, false));
    }
    None
}

/// Parses the key token that remains at `start`, combining it with the
/// already-extracted modifiers. A bare character is upper-cased only when
/// shift is among the modifiers.
pub fn parse_key_code_with_modifiers(s: &[u8], start: usize, m: KeyMods) -> (r: Result<
    KeyEvent,
    ParseError,
>)
    requires
        start <= s@.len(),
    ensures
        match r {
            Ok(k) => parse_tail(s@.skip(start as int), m) == Some(k),
            Err(_) => parse_tail(s@.skip(start as int), m) is None,
        },
{
    match lookup_named(s, start) {
        Some(code_shift) => Ok(
            KeyEvent { code: code_shift.0, mods: KeyMods { shift: m.shift || code_shift.1, ..m } },
        ),
        None => {
            if s.len() - start == 1 {
                let b = s[start];
                if b < 128 {
                    let c: u8 = if m.shift {
                        if 97 <= b && b <= 122 {
                            b - 32
                        } else {
                            b
                        }
                    } else {
                        b
                    };
                    Ok(KeyEvent { code: KeyCode::Char(c as char), mods: m })
                } else {
                    Err(ParseError)
                }
            } else {
                Err(ParseError)
            }
        },
    }
}

/// Parses a textual key description such as `ctrl-alt-a` or `shift-esc`.
/// The result is pinned by `parse_key_bytes` over the UTF-8 bytes of the
/// input: `Ok` exactly on the descriptions the grammar accepts.
pub fn parse_key_event(raw: &str) -> (r: Result<KeyEvent, ParseError>)
    ensures
        match r {
            Ok(k) => parse_key_bytes(raw.spec_bytes()) == Some(k),
            Err(_) => parse_key_bytes(raw.spec_bytes()) is None,
        },
{
    let bytes = raw.as_bytes();
    let lowered = to_lower_bytes(bytes);
    let sm = extract_modifiers(lowered.as_slice());
    parse_key_code_with_modifiers(lowered.as_slice(), sm.0, sm.1)
}


/// The key-binding table: key event to action, last insertion winning, as a
/// hash map filled from the configuration would behave.
pub struct KeyMap {
    entries: Vec<(KeyEvent, Action)>,
}

/// The map described by a list of bindings, later entries overriding earlier
/// ones.
pub open spec fn map_of_entries(s: Seq<(KeyEvent, ActionV)>) -> Map<KeyEvent, ActionV>
    decreases s.len(),
{
    if s.len() == 0 {
        Map::empty()
    } else {
        map_of_entries(s.drop_last()).insert(s.last().0, s.last().1)
    }
}

impl View for KeyMap {
    type V = Map<KeyEvent, ActionV>;

    closed spec fn view(&self) -> Map<KeyEvent, ActionV> {
        map_of_entries(self.entries@.map_values(|p: (KeyEvent, Action)| (p.0, p.1@)))
    }
}

impl KeyMap {
    /// An empty table.
    pub fn new() -> (r: KeyMap)
        ensures
            r@ == Map::<KeyEvent, ActionV>::empty(),
    {
        let r = KeyMap { entries: Vec::new() };
        proof {
            assert(r.entries@.map_values(|p: (KeyEvent, Action)| (p.0, p.1@)) =~= Seq::empty());
        }
        r
    }

    /// Binds `key` to `action`, overriding any earlier binding of `key`.
    pub fn insert(&mut self, key: KeyEvent, action: Action)
        ensures
            final(self)@ == old(self)@.insert(key, action@),
    {
        let ghost before = self.entries@.map_values(|p: (KeyEvent, Action)| (p.0, p.1@));
        self.entries.push((key, action));
        proof {
            let after = self.entries@.map_values(|p: (KeyEvent, Action)| (p.0, p.1@));
            assert(after.drop_last() =~= before);
            assert(after.last() == (key, action@));
        }
    }

    /// Looks a key up; `Some` exactly when the table binds it, with the bound
    /// action.
    pub fn get(&self, key: &KeyEvent) -> (r: Option<Action>)
        ensures
            match r {
                Some(a) => self@.contains_key(*key) && a@ == self@[*key],
                None => !self@.contains_key(*key),
            },
    {
        let ghost full = self.entries@.map_values(|p: (KeyEvent, Action)| (p.0, p.1@));
        let mut j: usize = self.entries.len();
        proof {
            assert(full.take(j as int) =~= full);
        }
        while j > 0
            invariant
                j <= self.entries@.len(),
                full == self.entries@.map_values(|p: (KeyEvent, Action)| (p.0, p.1@)),
                self@ == map_of_entries(full),
                map_of_entries(full).contains_key(*key) == map_of_entries(
                    full.take(j as int),
                ).contains_key(*key),
                map_of_entries(full).contains_key(*key) ==> map_of_entries(full)[*key]
                    == map_of_entries(full.take(j as int))[*key],
            decreases j,
        {
            j = j - 1;
            let p = &self.entries[j];
            proof {
                assert(full.take(j as int + 1).drop_last() =~= full.take(j as int));
                assert(full.take(j as int + 1).last() == full[j as int]);
            }
            if p.0 == *key {
                let a = p.1.clone();
                return Some(a);
            }
        }
        proof {
            assert(full.take(0) =~= Seq::empty());
        }
        None
    }
}


/// Where the application keeps its data and configuration; filled in by the
/// host environment.
#[derive(Clone, Debug, PartialEq, Eq)]
pub struct AppConfig {
    pub data_dir: String,
    pub config_dir: String,
    pub config: String,
}

impl AppConfig {
    /// Paths as the host environment resolved them.
    pub fn new(data_dir: String, config_dir: String, config: String) -> (r: AppConfig)
        ensures
            r.data_dir@ == data_dir@,
            r.config_dir@ == config_dir@,
            r.config@ == config@,
    {
        AppConfig { data_dir, config_dir, config }
    }
}

/// The application's configuration: the paths and the key-binding table.
/// Reading and parsing the configuration file happens outside; this is what
/// the loop consumes.
pub struct Config {
    pub config: AppConfig,
    pub keymap: KeyMap,
}

impl Config {
    /// A configuration from its two parts.
    pub fn new(config: AppConfig, keymap: KeyMap) -> (r: Config)
        ensures
            r.keymap@ == keymap@,
            r.config == config,
    {
        Config { config, keymap }
    }
}

} // verus!
