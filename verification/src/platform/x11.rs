//! The X11 backend's rules: key names for `xdotool`, the session check and
//! the held-modifier check. The X server and `xdotool` are reached outside
//! the library; these functions decide on what they report.

use vstd::prelude::*;

use crate::error::{AppError, AppResult};
use crate::model::key::Key;
use crate::text::{decimal, eq_ignore_ascii_case, eq_ignore_ascii_case_spec, format_u64, join2, owned, string_from_chars};

verus! {

/// The `xdotool` name of a key.
pub open spec fn x11_key_name(key: Key) -> Seq<char> {
    match key {
        Key::Enter => "Return"@,
        Key::Escape => "Escape"@,
        Key::Tab => "Tab"@,
        Key::Space => "space"@,
        Key::Backspace => "BackSpace"@,
        Key::Delete => "Delete"@,
        Key::Home => "Home"@,
        Key::End => "End"@,
        Key::PageUp => "Prior"@,
        Key::PageDown => "Next"@,
        Key::Up => "Up"@,
        Key::Down => "Down"@,
        Key::Left => "Left"@,
        Key::Right => "Right"@,
        Key::Ctrl => "ctrl"@,
        Key::Shift => "shift"@,
        Key::Alt => "alt"@,
        Key::Letter(c) => seq![c],
        Key::Digit(d) => decimal(d as nat),
        Key::Function(n) => "F"@ + decimal(n as nat),
    }
}

/// Distinct named keys have distinct `xdotool` names, and none of those
/// names is a single character, so none is taken for a letter either.
pub proof fn x11_names_are_distinct(k1: Key, k2: Key)
    requires
        k1.is_named(),
        k2.is_named(),
        x11_key_name(k1) == x11_key_name(k2),
    ensures
        k1 == k2,
        x11_key_name(k1).len() > 1,
{
    reveal_strlit("Return");
    reveal_strlit("Escape");
    reveal_strlit("Tab");
    reveal_strlit("space");
    reveal_strlit("BackSpace");
    reveal_strlit("Delete");
    reveal_strlit("Home");
    reveal_strlit("End");
    reveal_strlit("Prior");
    reveal_strlit("Next");
    reveal_strlit("Up");
    reveal_strlit("Down");
    reveal_strlit("Left");
    reveal_strlit("Right");
    reveal_strlit("ctrl");
    reveal_strlit("shift");
    reveal_strlit("alt");
    let a = x11_key_name(k1);
    let b = x11_key_name(k2);
    assert(a.len() == b.len() && a[0] == b[0] && a[a.len() - 1] == b[b.len() - 1]);
    if a.len() > 2 {
        assert(a[1] == b[1] && a[2] == b[2]);
    }
}

/// The names are the X keysym names of `X11/keysymdef.h` for the keys
/// (`XK_Return`, `XK_Escape`, `XK_Tab`, `XK_space`, `XK_BackSpace`,
/// `XK_Delete`, `XK_Home`, `XK_End`, `XK_Prior`, `XK_Next`, `XK_Up`,
/// `XK_Down`, `XK_Left`, `XK_Right`): Delete is forward delete, not
/// BackSpace; Page Up and Page Down are Prior and Next; the arrows name
/// their own direction. Modifiers use xdotool's aliases, letters name
/// themselves, digits their decimal text and function keys `F` and their
/// number.
pub proof fn x11_names_are_keysym_names()
    ensures
        x11_key_name(Key::Enter) == "Return"@ && x11_key_name(Key::Escape) == "Escape"@
            && x11_key_name(Key::Tab) == "Tab"@ && x11_key_name(Key::Space) == "space"@,
        x11_key_name(Key::Backspace) == "BackSpace"@ && x11_key_name(Key::Delete) == "Delete"@,
        x11_key_name(Key::Home) == "Home"@ && x11_key_name(Key::End) == "End"@,
        x11_key_name(Key::PageUp) == "Prior"@ && x11_key_name(Key::PageDown) == "Next"@,
        x11_key_name(Key::Up) == "Up"@ && x11_key_name(Key::Down) == "Down"@ && x11_key_name(
            Key::Left,
        ) == "Left"@ && x11_key_name(Key::Right) == "Right"@,
        x11_key_name(Key::Ctrl) == "ctrl"@ && x11_key_name(Key::Shift) == "shift"@ && x11_key_name(
            Key::Alt,
        ) == "alt"@,
        forall|c: char| #[trigger] x11_key_name(Key::Letter(c)) == seq![c],
        forall|d: u8| #[trigger] x11_key_name(Key::Digit(d)) == decimal(d as nat),
        forall|n: u8| #[trigger] x11_key_name(Key::Function(n)) == "F"@ + decimal(n as nat),
{
}

/// The `xdotool` name of a key.
pub fn key_name(key: &Key) -> (r: String)
    ensures
        r@ == x11_key_name(*key),
{
    match key {
        Key::Enter => owned("Return"),
        Key::Escape => owned("Escape"),
        Key::Tab => owned("Tab"),
        Key::Space => owned("space"),
        Key::Backspace => owned("BackSpace"),
        Key::Delete => owned("Delete"),
        Key::Home => owned("Home"),
        Key::End => owned("End"),
        Key::PageUp => owned("Prior"),
        Key::PageDown => owned("Next"),
        Key::Up => owned("Up"),
        Key::Down => owned("Down"),
        Key::Left => owned("Left"),
        Key::Right => owned("Right"),
        Key::Ctrl => owned("ctrl"),
        Key::Shift => owned("shift"),
        Key::Alt => owned("alt"),
        Key::Letter(c) => {
            let v = vec![*c];
            proof {
                assert(v@ =~= seq![*c]);
            }
            string_from_chars(v.as_slice())
        },
        Key::Digit(d) => format_u64(*d as u64),
        Key::Function(n) => join2("F", format_u64(*n as u64).as_str()),
    }
}

/// The names of keys joined with `+`, as `xdotool key` takes a combination.
pub open spec fn joined_key_names(keys: Seq<Key>) -> Seq<char>
    decreases keys.len(),
{
    if keys.len() == 0 {
        Seq::empty()
    } else if keys.len() == 1 {
        x11_key_name(keys[0])
    } else {
        joined_key_names(keys.drop_last()) + "+"@ + x11_key_name(keys.last())
    }
}

/// A combination as one `xdotool key` argument, such as `ctrl+c`.
pub fn combination_name(keys: &[Key]) -> (r: String)
    ensures
        r@ == joined_key_names(keys@),
{
    let mut out = String::new();
    let mut i: usize = 0;
    while i < keys.len()
        invariant
            i <= keys.len(),
            out@ == joined_key_names(keys@.take(i as int)),
        decreases keys.len() - i,
    {
        proof {
            assert(keys@.take(i + 1).drop_last() =~= keys@.take(i as int));
        }
        if i > 0 {
            out.append("+");
        }
        let name = key_name(&keys[i]);
        out.append(name.as_str());
        i = i + 1;
        proof {
            if i == 1 {
                assert(out@ =~= x11_key_name(keys@[0]));
            }
        }
    }
    proof {
        assert(keys@.take(keys.len() as int) =~= keys@);
    }
    out
}

/// `r` is an unavailable-automation error with the message `m`.
pub open spec fn unavailable(r: AppResult<()>, m: Seq<char>) -> bool {
    r matches Err(AppError::AutomationUnavailable(s)) && s@ == m
}

/// Whether a session can be automated through X11: a Wayland session (its
/// display variable set, or its session type `wayland` in any case) is
/// refused, since its foreground cannot be verified across native Wayland
/// clients; so is a session without an X11 display.
pub open spec fn session_allows(
    wayland_display: bool,
    session_type: Option<Seq<char>>,
    display: bool,
    r: AppResult<()>,
) -> bool {
    if wayland_display || (session_type matches Some(t) && eq_ignore_ascii_case_spec(
        t,
        "wayland"@,
    )) {
        unavailable(r, "Wayland is not supported; log into an X11/Xorg desktop session"@)
    } else if !display {
        unavailable(r, "an active X11 desktop is required"@)
    } else {
        r is Ok
    }
}

/// Check the session from its environment: whether `WAYLAND_DISPLAY` is set,
/// the value of `XDG_SESSION_TYPE` (when set and valid Unicode) and whether
/// `DISPLAY` is set.
pub fn check_session(wayland_display: bool, session_type: Option<String>, display: bool) -> (r:
    AppResult<()>)
    ensures
        session_allows(
            wayland_display,
            match session_type {
                Some(t) => Some(t@),
                None => None,
            },
            display,
            r,
        ),
{
    let wayland_type = match &session_type {
        Some(t) => eq_ignore_ascii_case(t.as_str(), "wayland"),
        None => false,
    };
    if wayland_display || wayland_type {
        return Err(
            AppError::AutomationUnavailable(
                owned("Wayland is not supported; log into an X11/Xorg desktop session"),
            ),
        );
    }
    if !display {
        return Err(AppError::AutomationUnavailable(owned("an active X11 desktop is required")));
    }
    Ok(())
}

/// A keysym of Shift, Control, Meta, Alt, Super or Hyper (left or right).
pub open spec fn is_modifier_keysym(s: u32) -> bool {
    (0xffe1 <= s && s <= 0xffe4) || (0xffe7 <= s && s <= 0xffee)
}

/// Key `code` is down in the keymap `pressed` (one bit per keycode).
pub open spec fn key_down(pressed: Seq<u8>, code: int) -> bool {
    pressed[code / 8] & (1u8 << ((code % 8) as u8)) != 0
}

/// Some key that is down carries a modifier keysym. The keyboard mapping
/// lists `per_keycode` keysyms for each keycode from `min_keycode` on.
pub open spec fn modifier_down(pressed: Seq<u8>, keysyms: Seq<u32>, per_keycode: nat, min_keycode: nat) -> bool {
    exists|k: int|
        0 <= k < keysyms.len() && is_modifier_keysym(#[trigger] keysyms[k]) && key_down(
            pressed,
            k / (per_keycode as int) + min_keycode,
        )
}

/// The keymap covers every keycode of the mapping.
pub open spec fn keymap_covers(pressed: Seq<u8>, keysyms_len: nat, per_keycode: nat, min_keycode: nat) -> bool {
    per_keycode > 0 ==> (keysyms_len == 0 || (keysyms_len - 1) / (per_keycode as int) + min_keycode
        < 8 * pressed.len())
}

/// Refuse to send input while a modifier is held, since Enter would turn
/// into a shortcut: from the keymap (`pressed`) and keyboard mapping
/// (`keysyms`, `per_keycode` per keycode from `min_keycode`) the X server
/// reports. An empty mapping, or one with keycodes beyond the keymap, is an
/// error of its own.
pub fn check_modifiers(pressed: &[u8], keysyms: &[u32], per_keycode: u8, min_keycode: u8) -> (r:
    AppResult<()>)
    ensures
        per_keycode == 0 ==> unavailable(r, "empty X11 keyboard mapping"@),
        per_keycode > 0 && !keymap_covers(
            pressed@,
            keysyms@.len(),
            per_keycode as nat,
            min_keycode as nat,
        ) ==> unavailable(r, "X11 keyboard mapping exceeds the keymap"@),
        per_keycode > 0 && keymap_covers(pressed@, keysyms@.len(), per_keycode as nat, min_keycode as nat)
            && modifier_down(
            pressed@,
            keysyms@,
            per_keycode as nat,
            min_keycode as nat,
        ) ==> r == Err::<(), AppError>(AppError::ModifierKeyHeld),
        per_keycode > 0 && keymap_covers(pressed@, keysyms@.len(), per_keycode as nat, min_keycode as nat)
            && !modifier_down(
            pressed@,
            keysyms@,
            per_keycode as nat,
            min_keycode as nat,
        ) ==> r is Ok,
{
    if per_keycode == 0 {
        return Err(AppError::AutomationUnavailable(owned("empty X11 keyboard mapping")));
    }
    if keysyms.len() > 0 {
        let last: u128 = ((keysyms.len() - 1) / (per_keycode as usize)) as u128 + min_keycode as u128;
        if last >= 8 * (pressed.len() as u128) {
            return Err(
                AppError::AutomationUnavailable(owned("X11 keyboard mapping exceeds the keymap")),
            );
        }
    }
    let per = per_keycode as usize;
    let mut k: usize = 0;
    while k < keysyms.len()
        invariant
            k <= keysyms.len(),
            per == per_keycode,
            per > 0,
            keymap_covers(pressed@, keysyms@.len(), per_keycode as nat, min_keycode as nat),
            forall|j: int|
                0 <= j < k ==> !(is_modifier_keysym(#[trigger] keysyms@[j]) && key_down(
                    pressed@,
                    j / (per as int) + min_keycode,
                )),
        decreases keysyms.len() - k,
    {
        proof {
            vstd::arithmetic::div_mod::lemma_div_is_ordered(
                k as int,
                keysyms@.len() - 1,
                per as int,
            );
        }
        let code: u128 = (k / per) as u128 + min_keycode as u128;
        let s = keysyms[k];
        if ((0xffe1 <= s && s <= 0xffe4) || (0xffe7 <= s && s <= 0xffee)) && pressed[(code / 8) as usize]
            & (1u8 << ((code % 8) as u8)) != 0 {
            return Err(AppError::ModifierKeyHeld);
        }
        k = k + 1;
    }
    Ok(())
}

} // verus!
