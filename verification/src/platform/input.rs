//! Keyboard events as the Windows backend sends them: virtual-key codes,
//! the flags and scan codes of key events, the order of a combination, UTF-16
//! text events, and the keys to release after a partial write. The system
//! calls themselves are made outside the library.

use vstd::prelude::*;

use crate::model::key::Key;

verus! {

/// `KEYEVENTF_EXTENDEDKEY`: the scan code is preceded by the 0xE0 prefix.
pub const KEYEVENTF_EXTENDEDKEY: u32 = 0x0001;

/// `KEYEVENTF_KEYUP`: the key is being released.
pub const KEYEVENTF_KEYUP: u32 = 0x0002;

/// `KEYEVENTF_UNICODE`: the scan code field carries a UTF-16 code unit.
pub const KEYEVENTF_UNICODE: u32 = 0x0004;

/// `KEYEVENTF_SCANCODE`: the scan code identifies the key.
pub const KEYEVENTF_SCANCODE: u32 = 0x0008;

/// The virtual-key code of Enter (`VK_RETURN`).
pub const VK_RETURN: u16 = 0x0D;

/// The physical scan code of the main Enter key.
pub const ENTER_SCAN_CODE: u16 = 0x1C;

/// One keyboard event: virtual key, scan code and flags.
#[derive(Debug, Clone, Copy, PartialEq, Eq, Structural)]
pub struct KeyEvent {
    pub vk: u16,
    pub scan: u16,
    pub flags: u32,
}

/// A keyboard event with the given virtual key, scan code and flags.
pub fn keyboard_input(vk: u16, scan: u16, flags: u32) -> (e: KeyEvent)
    ensures
        e == (KeyEvent { vk, scan, flags }),
{
    KeyEvent { vk, scan, flags }
}

/// The ASCII letter `c` in upper case, when `c` is an ASCII letter.
pub open spec fn ascii_upper_letter(c: char) -> Option<u16> {
    if 'a' <= c && c <= 'z' {
        Some((c as u32 - 32) as u16)
    } else if 'A' <= c && c <= 'Z' {
        Some(c as u32 as u16)
    } else {
        None
    }
}

/// The virtual-key code of a key: fixed codes for named keys, the upper-case
/// letter for an ASCII letter, `'0'..'9'` for the digits 0 to 9, `VK_F1`
/// onwards for F1 to F12; none for anything else.
pub open spec fn vk_of(key: Key) -> Option<u16> {
    match key {
        Key::Enter => Some(0x0Du16),
        Key::Escape => Some(0x1Bu16),
        Key::Tab => Some(0x09u16),
        Key::Space => Some(0x20u16),
        Key::Backspace => Some(0x08u16),
        Key::Delete => Some(0x2Eu16),
        Key::Home => Some(0x24u16),
        Key::End => Some(0x23u16),
        Key::PageUp => Some(0x21u16),
        Key::PageDown => Some(0x22u16),
        Key::Up => Some(0x26u16),
        Key::Down => Some(0x28u16),
        Key::Left => Some(0x25u16),
        Key::Right => Some(0x27u16),
        Key::Ctrl => Some(0x11u16),
        Key::Shift => Some(0x10u16),
        Key::Alt => Some(0x12u16),
        Key::Letter(c) => ascii_upper_letter(c),
        Key::Digit(d) => if d <= 9 {
            Some((0x30 + d) as u16)
        } else {
            None
        },
        Key::Function(n) => if 1 <= n && n <= 12 {
            Some((0x6F + n) as u16)
        } else {
            None
        },
    }
}

/// Distinct keys press distinct virtual keys: two keys with the same code
/// are the same key, or the same ASCII letter in either case.
pub proof fn virtual_keys_are_distinct(k1: Key, k2: Key)
    requires
        vk_of(k1) is Some,
        vk_of(k1) == vk_of(k2),
    ensures
        k1 == k2 || (k1 matches Key::Letter(a) && k2 matches Key::Letter(b) && ascii_upper_letter(a)
            == ascii_upper_letter(b)),
{
}

/// The keys of the Win32 header's navigation block, in its order: Page Up
/// (`VK_PRIOR`), Page Down, End, Home, Left, Up, Right, Down (`VK_DOWN`).
pub open spec fn navigation_block() -> Seq<Key> {
    seq![Key::PageUp, Key::PageDown, Key::End, Key::Home, Key::Left, Key::Up, Key::Right, Key::Down]
}

/// The layout of the Win32 virtual-key codes: the navigation block takes the
/// consecutive codes `VK_PRIOR` (0x21) to `VK_DOWN` (0x28) in header order;
/// Shift, Control and Alt take `VK_SHIFT` (0x10) to `VK_MENU` (0x12);
/// Backspace, Tab, Enter, Escape and Space take the codes of the ASCII
/// characters they stand for; Delete is `VK_DELETE` (0x2E); a letter takes
/// the code of its upper-case ASCII letter whatever its case; the digits
/// 0 to 9 take the codes of `'0'` to `'9'`; F1 to F12 take the consecutive
/// codes from `VK_F1` (0x70).
pub proof fn virtual_key_layout()
    ensures
        forall|i: int| 0 <= i < 8 ==> vk_of(#[trigger] navigation_block()[i]) == Some((0x21 + i) as u16),
        vk_of(Key::Shift) == Some(0x10u16) && vk_of(Key::Ctrl) == Some(0x11u16) && vk_of(Key::Alt)
            == Some(0x12u16),
        vk_of(Key::Backspace) == Some('\u{8}' as u16),
        vk_of(Key::Tab) == Some('\t' as u16),
        vk_of(Key::Enter) == Some('\r' as u16),
        vk_of(Key::Escape) == Some('\u{1b}' as u16),
        vk_of(Key::Space) == Some(' ' as u16),
        vk_of(Key::Delete) == Some(0x2Eu16),
        forall|c: char|
            'a' <= c <= 'z' ==> #[trigger] vk_of(Key::Letter(c)) == vk_of(Key::Letter(((c as u32) - 32) as char))
                && vk_of(Key::Letter(c)) == Some(((c as u32) - 32) as u16),
        forall|d: u8| d <= 9 ==> #[trigger] vk_of(Key::Digit(d)) == Some((('0' as u32) + d) as u16),
        forall|n: u8| 1 <= n <= 12 ==> #[trigger] vk_of(Key::Function(n)) == Some((0x70 + n - 1) as u16),
{
    assert(navigation_block()[0] == Key::PageUp);
    assert(navigation_block()[1] == Key::PageDown);
    assert(navigation_block()[2] == Key::End);
    assert(navigation_block()[3] == Key::Home);
    assert(navigation_block()[4] == Key::Left);
    assert(navigation_block()[5] == Key::Up);
    assert(navigation_block()[6] == Key::Right);
    assert(navigation_block()[7] == Key::Down);
}

/// Virtual-key code for a key; `None` for keys that have no fixed code.
pub fn virtual_key(key: &Key) -> (r: Option<u16>)
    ensures
        r == vk_of(*key),
{
    match key {
        Key::Enter => Some(0x0D),
        Key::Escape => Some(0x1B),
        Key::Tab => Some(0x09),
        Key::Space => Some(0x20),
        Key::Backspace => Some(0x08),
        Key::Delete => Some(0x2E),
        Key::Home => Some(0x24),
        Key::End => Some(0x23),
        Key::PageUp => Some(0x21),
        Key::PageDown => Some(0x22),
        Key::Up => Some(0x26),
        Key::Down => Some(0x28),
        Key::Left => Some(0x25),
        Key::Right => Some(0x27),
        Key::Ctrl => Some(0x11),
        Key::Shift => Some(0x10),
        Key::Alt => Some(0x12),
        Key::Letter(c) => {
            let code = *c as u32;
            if 97 <= code && code <= 122 {
                Some((code - 32) as u16)
            } else if 65 <= code && code <= 90 {
                Some(code as u16)
            } else {
                None
            }
        },
        Key::Digit(d) => {
            if *d <= 9 {
                Some(0x30u16 + *d as u16)
            } else {
                None
            }
        },
        Key::Function(n) => {
            if 1 <= *n && *n <= 12 {
                Some(0x6Fu16 + *n as u16)
            } else {
                None
            }
        },
    }
}

/// The navigation keys (Page Up/Down, End, Home, arrows) and Delete, which
/// are extended keys.
pub open spec fn is_extended(vk: u16) -> bool {
    (0x21 <= vk && vk <= 0x28) || vk == 0x2E
}

/// The flags of a key event: key-up when releasing, the extended flag for
/// navigation keys, and the scan-code flag for Enter.
pub open spec fn event_flags(vk: u16, up: bool) -> u32 {
    (if up {
        KEYEVENTF_KEYUP
    } else {
        0u32
    }) | (if is_extended(vk) {
        KEYEVENTF_EXTENDEDKEY
    } else {
        0u32
    }) | (if vk == VK_RETURN {
        KEYEVENTF_SCANCODE
    } else {
        0u32
    })
}

/// The event pressing (`up == false`) or releasing a virtual key. The main
/// Enter key is sent by its physical scan code, never as a text newline;
/// every other key carries `layout_scan`, the scan code the current keyboard
/// layout gives for it.
pub fn key_event(vk: u16, up: bool, layout_scan: u16) -> (e: KeyEvent)
    ensures
        e.vk == vk,
        e.scan == (if vk == VK_RETURN {
            ENTER_SCAN_CODE
        } else {
            layout_scan
        }),
        e.flags == event_flags(vk, up),
{
    let release: u32 = if up {
        KEYEVENTF_KEYUP
    } else {
        0
    };
    let extended: u32 = if (0x21 <= vk && vk <= 0x28) || vk == 0x2E {
        KEYEVENTF_EXTENDEDKEY
    } else {
        0
    };
    let by_scan: u32 = if vk == VK_RETURN {
        KEYEVENTF_SCANCODE
    } else {
        0
    };
    let scan = if vk == VK_RETURN {
        ENTER_SCAN_CODE
    } else {
        layout_scan
    };
    keyboard_input(vk, scan, release | extended | by_scan)
}

// ---------------------------------------------------------------------------
// Combinations
// ---------------------------------------------------------------------------

/// The order in which a combination's keys go down: the modifiers first, then
/// the other keys, each group in the given order.
pub open spec fn press_order(keys: Seq<Key>) -> Seq<Key> {
    keys.filter(|k: Key| k.modifier_of() is Some) + keys.filter(|k: Key| k.modifier_of() is None)
}

/// The presses and releases of a combination: every key goes down in press
/// order, then everything is released in the reverse order (Ctrl+C
/// releases C before Ctrl).
pub open spec fn combination_strokes(keys: Seq<Key>) -> Seq<(Key, bool)> {
    press_order(keys).map_values(|k: Key| (k, false)) + press_order(keys).reverse().map_values(
        |k: Key| (k, true),
    )
}

/// The keys of `keys` with (`want_modifier`) or without a modifier role, in order.
fn keys_where(keys: &[Key], want_modifier: bool) -> (r: Vec<Key>)
    ensures
        want_modifier ==> r@ == keys@.filter(|k: Key| k.modifier_of() is Some),
        !want_modifier ==> r@ == keys@.filter(|k: Key| k.modifier_of() is None),
{
    let mut r: Vec<Key> = Vec::new();
    let mut i: usize = 0;
    while i < keys.len()
        invariant
            i <= keys.len(),
            want_modifier ==> r@ == keys@.take(i as int).filter(|k: Key| k.modifier_of() is Some),
            !want_modifier ==> r@ == keys@.take(i as int).filter(
                |k: Key| k.modifier_of() is None,
            ),
        decreases keys.len() - i,
    {
        proof {
            reveal(Seq::filter);
            assert(keys@.take(i + 1).drop_last() =~= keys@.take(i as int));
        }
        let k = keys[i];
        if k.as_modifier().is_some() == want_modifier {
            r.push(k);
        }
        i = i + 1;
    }
    proof {
        assert(keys@.take(keys.len() as int) =~= keys@);
    }
    r
}

/// The presses and releases of a combination, in the order they are sent.
pub fn combination_sequence(keys: &[Key]) -> (r: Vec<(Key, bool)>)
    ensures
        r@ == combination_strokes(keys@),
{
    let mut pressed = keys_where(keys, true);
    let mut others = keys_where(keys, false);
    pressed.append(&mut others);
    let ghost order = pressed@;
    assert(order == press_order(keys@));
    let mut r: Vec<(Key, bool)> = Vec::new();
    let mut i: usize = 0;
    while i < pressed.len()
        invariant
            i <= pressed.len(),
            pressed@ == order,
            r@ == order.take(i as int).map_values(|k: Key| (k, false)),
        decreases pressed.len() - i,
    {
        r.push((pressed[i], false));
        i = i + 1;
        proof {
            assert(order.take(i as int).map_values(|k: Key| (k, false)) =~= order.take(
                (i - 1) as int,
            ).map_values(|k: Key| (k, false)).push((order[i - 1], false)));
        }
    }
    let ghost downs = r@;
    let n = pressed.len();
    let mut j: usize = n;
    while j > 0
        invariant
            j <= n,
            n == order.len(),
            pressed@ == order,
            r@ == downs + order.subrange(j as int, n as int).reverse().map_values(
                |k: Key| (k, true),
            ),
        decreases j,
    {
        j = j - 1;
        r.push((pressed[j], true));
        proof {
            assert(order.subrange(j as int, n as int).reverse().map_values(|k: Key| (k, true))
                =~= order.subrange((j + 1) as int, n as int).reverse().map_values(
                |k: Key| (k, true),
            ).push((order[j as int], true)));
        }
    }
    proof {
        assert(order.take(n as int) =~= order);
        assert(order.subrange(0, n as int) =~= order);
    }
    r
}

/// The events of a combination, or `None` when one of its keys has no
/// virtual-key code. Each event is the virtual key and whether it is a release.
pub fn combination_keys(keys: &[Key]) -> (r: Option<Vec<(u16, bool)>>)
    ensures
        match r {
            Some(v) => v@.len() == combination_strokes(keys@).len() && forall|i: int|
                0 <= i < v@.len() ==> {
                    let (k, up) = #[trigger] combination_strokes(keys@)[i];
                    vk_of(k) == Some(v@[i].0) && v@[i].1 == up
                },
            None => exists|i: int|
                0 <= i < combination_strokes(keys@).len() && vk_of(
                    #[trigger] combination_strokes(keys@)[i].0,
                ) is None,
        },
{
    let strokes = combination_sequence(keys);
    let mut out: Vec<(u16, bool)> = Vec::new();
    let mut i: usize = 0;
    while i < strokes.len()
        invariant
            i <= strokes.len(),
            strokes@ == combination_strokes(keys@),
            out@.len() == i,
            forall|j: int|
                0 <= j < i ==> {
                    let (k, up) = #[trigger] strokes@[j];
                    vk_of(k) == Some(out@[j].0) && out@[j].1 == up
                },
        decreases strokes.len() - i,
    {
        let (k, up) = strokes[i];
        match virtual_key(&k) {
            Some(vk) => out.push((vk, up)),
            None => {
                proof {
                    assert(vk_of(strokes@[i as int].0) is None);
                }
                return None;
            },
        }
        i = i + 1;
    }
    Some(out)
}

// ---------------------------------------------------------------------------
// Text
// ---------------------------------------------------------------------------

/// The UTF-16 code units of a character: one unit inside the Basic
/// Multilingual Plane, a surrogate pair outside it.
pub open spec fn utf16_units(c: char) -> Seq<u16> {
    let v = c as u32;
    if v < 0x10000 {
        seq![v as u16]
    } else {
        seq![(0xD800 + (v - 0x10000) / 0x400) as u16, (0xDC00 + (v - 0x10000) % 0x400) as u16]
    }
}

/// The events typing one character: a Unicode press and release for each of
/// its UTF-16 code units.
pub open spec fn unicode_strokes(c: char) -> Seq<KeyEvent> {
    let units = utf16_units(c);
    if units.len() == 1 {
        seq![
            KeyEvent { vk: 0, scan: units[0], flags: KEYEVENTF_UNICODE },
            KeyEvent { vk: 0, scan: units[0], flags: KEYEVENTF_UNICODE | KEYEVENTF_KEYUP },
        ]
    } else {
        seq![
            KeyEvent { vk: 0, scan: units[0], flags: KEYEVENTF_UNICODE },
            KeyEvent { vk: 0, scan: units[0], flags: KEYEVENTF_UNICODE | KEYEVENTF_KEYUP },
            KeyEvent { vk: 0, scan: units[1], flags: KEYEVENTF_UNICODE },
            KeyEvent { vk: 0, scan: units[1], flags: KEYEVENTF_UNICODE | KEYEVENTF_KEYUP },
        ]
    }
}

/// The events typing one character. Text is sent one character per batch,
/// so the focus is checked throughout long text and a surrogate pair stays
/// in one batch.
pub fn unicode_events(c: char) -> (r: Vec<KeyEvent>)
    ensures
        r@ == unicode_strokes(c),
{
    let v = c as u32;
    let mut r: Vec<KeyEvent> = Vec::new();
    if v < 0x10000 {
        let unit = v as u16;
        r.push(keyboard_input(0, unit, KEYEVENTF_UNICODE));
        r.push(keyboard_input(0, unit, KEYEVENTF_UNICODE | KEYEVENTF_KEYUP));
    } else {
        let w = v - 0x10000;
        let high = (0xD800 + w / 0x400) as u16;
        let low = (0xDC00 + w % 0x400) as u16;
        r.push(keyboard_input(0, high, KEYEVENTF_UNICODE));
        r.push(keyboard_input(0, high, KEYEVENTF_UNICODE | KEYEVENTF_KEYUP));
        r.push(keyboard_input(0, low, KEYEVENTF_UNICODE));
        r.push(keyboard_input(0, low, KEYEVENTF_UNICODE | KEYEVENTF_KEYUP));
    }
    proof {
        assert(r@ =~= unicode_strokes(c));
    }
    r
}

// ---------------------------------------------------------------------------
// Partial writes
// ---------------------------------------------------------------------------

/// The event releases a key.
pub open spec fn is_release(e: KeyEvent) -> bool {
    e.flags & KEYEVENTF_KEYUP != 0
}

/// `held` without the presses of the key that `e` releases (same virtual
/// key and scan code).
pub open spec fn release_key(held: Seq<KeyEvent>, e: KeyEvent) -> Seq<KeyEvent> {
    held.filter(|d: KeyEvent| d.vk != e.vk || d.scan != e.scan)
}

/// The presses still held down after `events` were sent, in press order:
/// a press is held until a later release of the same key.
pub open spec fn held_after(events: Seq<KeyEvent>) -> Seq<KeyEvent>
    decreases events.len(),
{
    if events.len() == 0 {
        Seq::empty()
    } else {
        let held = held_after(events.drop_last());
        let e = events.last();
        if is_release(e) {
            release_key(held, e)
        } else {
            held.push(e)
        }
    }
}

/// The releases of held presses: the last pressed is released first.
pub open spec fn releases_for(held: Seq<KeyEvent>) -> Seq<KeyEvent> {
    held.reverse().map_values(
        |k: KeyEvent| KeyEvent { vk: k.vk, scan: k.scan, flags: k.flags | KEYEVENTF_KEYUP },
    )
}

/// The number of events of a batch that the system accepted, capped by the
/// batch's length.
pub open spec fn accepted(len: nat, sent: nat) -> nat {
    if sent < len {
        sent
    } else {
        len
    }
}

fn without_key(held: &Vec<KeyEvent>, e: KeyEvent) -> (r: Vec<KeyEvent>)
    ensures
        r@ == release_key(held@, e),
{
    let mut r: Vec<KeyEvent> = Vec::new();
    let mut i: usize = 0;
    while i < held.len()
        invariant
            i <= held.len(),
            r@ == release_key(held@.take(i as int), e),
        decreases held.len() - i,
    {
        proof {
            reveal(Seq::filter);
            assert(held@.take(i + 1).drop_last() =~= held@.take(i as int));
        }
        let d = held[i];
        if d.vk != e.vk || d.scan != e.scan {
            r.push(d);
        }
        i = i + 1;
    }
    proof {
        assert(held@.take(held.len() as int) =~= held@);
    }
    r
}

/// After a short write (the system accepted only the first `sent` events of
/// a batch), the releases for the keys this batch pressed and did not yet
/// release, last pressed first. Keys the user holds are never released.
pub fn pending_releases(inputs: &[KeyEvent], sent: usize) -> (r: Vec<KeyEvent>)
    ensures
        r@ == releases_for(held_after(inputs@.take(accepted(inputs@.len(), sent as nat) as int))),
{
    let n = if sent < inputs.len() {
        sent
    } else {
        inputs.len()
    };
    let mut held: Vec<KeyEvent> = Vec::new();
    let mut i: usize = 0;
    while i < n
        invariant
            i <= n,
            n <= inputs@.len(),
            held@ == held_after(inputs@.take(i as int)),
        decreases n - i,
    {
        let e = inputs[i];
        proof {
            assert(inputs@.take(i + 1).drop_last() =~= inputs@.take(i as int));
        }
        if e.flags & KEYEVENTF_KEYUP != 0 {
            held = without_key(&held, e);
        } else {
            held.push(e);
        }
        i = i + 1;
    }
    let ghost kept = held@;
    let mut out: Vec<KeyEvent> = Vec::new();
    let m = held.len();
    let mut k: usize = m;
    while k > 0
        invariant
            k <= m,
            m == kept.len(),
            held@ == kept,
            out@ == releases_for(kept.subrange(k as int, m as int)),
        decreases k,
    {
        k = k - 1;
        let h = held[k];
        out.push(keyboard_input(h.vk, h.scan, h.flags | KEYEVENTF_KEYUP));
        proof {
            assert(releases_for(kept.subrange(k as int, m as int)) =~= releases_for(
                kept.subrange((k + 1) as int, m as int),
            ).push(KeyEvent { vk: h.vk, scan: h.scan, flags: h.flags | KEYEVENTF_KEYUP }));
        }
    }
    proof {
        assert(kept.subrange(0, m as int) =~= kept);
    }
    out
}

} // verus!
