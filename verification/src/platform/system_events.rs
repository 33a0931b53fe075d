//! The macOS backend's rules: hardware key codes, how keys and combinations
//! are described to the System Events script, how text is cut into calls,
//! and what the script's replies mean. The script runs outside the library.

use vstd::prelude::*;

use crate::error::{AppError, AppResult};
use crate::model::key::{Key, Modifier};
use crate::text::{decimal, format_u64, owned, str_eq, string_from_chars};

verus! {

/// The hardware key code of a key that System Events presses by code.
pub open spec fn mac_code(key: Key) -> Option<u16> {
    match key {
        Key::Enter => Some(36u16),
        Key::Tab => Some(48u16),
        Key::Space => Some(49u16),
        Key::Backspace => Some(51u16),
        Key::Escape => Some(53u16),
        Key::Delete => Some(117u16),
        Key::Home => Some(115u16),
        Key::End => Some(119u16),
        Key::PageUp => Some(116u16),
        Key::PageDown => Some(121u16),
        Key::Left => Some(123u16),
        Key::Right => Some(124u16),
        Key::Down => Some(125u16),
        Key::Up => Some(126u16),
        Key::Function(n) => if 1 <= n && n <= 12 {
            Some(function_code(n as int))
        } else {
            None
        },
        _ => None,
    }
}

/// The hardware codes of F1 to F12.
pub open spec fn function_code(n: int) -> u16 {
    if n == 1 {
        122
    } else if n == 2 {
        120
    } else if n == 3 {
        99
    } else if n == 4 {
        118
    } else if n == 5 {
        96
    } else if n == 6 {
        97
    } else if n == 7 {
        98
    } else if n == 8 {
        100
    } else if n == 9 {
        101
    } else if n == 10 {
        109
    } else if n == 11 {
        103
    } else {
        111
    }
}

/// Distinct keys press distinct hardware keys: two keys with the same code
/// are the same key.
pub proof fn mac_codes_are_distinct(k1: Key, k2: Key)
    requires
        mac_code(k1) is Some,
        mac_code(k1) == mac_code(k2),
    ensures
        k1 == k2,
{
    if let Key::Function(a) = k1 {
        if let Key::Function(b) = k2 {
            assert(1 <= a <= 12 && 1 <= b <= 12);
            assert(a == b);
        }
    }
}

/// The arrow keys in the order of their hardware codes: Left, Right, Down,
/// Up.
pub open spec fn arrow_block() -> Seq<Key> {
    seq![Key::Left, Key::Right, Key::Down, Key::Up]
}

/// The layout of the macOS hardware key codes (`kVK_*` of Events.h): the
/// arrows take the consecutive codes `kVK_LeftArrow` (123) to `kVK_UpArrow`
/// (126) in the order Left, Right, Down, Up; Home, Page Up and Forward
/// Delete take the consecutive codes 115 to 117, End is 119 and Page Down
/// 121; Return is 36, Tab 48, Space 49, Delete (backspace) 51 and Escape 53;
/// F1 to F12 take `kVK_F1` to `kVK_F12` (122, 120, 99, 118, 96, 97, 98,
/// 100, 101, 109, 103, 111); keys without a hardware code (letters, digits,
/// modifiers, function keys past F12) have none.
pub proof fn mac_code_layout()
    ensures
        forall|i: int| 0 <= i < 4 ==> mac_code(#[trigger] arrow_block()[i]) == Some((123 + i) as u16),
        mac_code(Key::Home) == Some(115u16) && mac_code(Key::PageUp) == Some(116u16) && mac_code(
            Key::Delete,
        ) == Some(117u16),
        mac_code(Key::End) == Some(119u16) && mac_code(Key::PageDown) == Some(121u16),
        mac_code(Key::Enter) == Some(36u16) && mac_code(Key::Tab) == Some(48u16) && mac_code(
            Key::Space,
        ) == Some(49u16),
        mac_code(Key::Backspace) == Some(51u16) && mac_code(Key::Escape) == Some(53u16),
        forall|k: Key| (k is Letter || k is Digit || k is Ctrl || k is Shift || k is Alt) ==> #[trigger] mac_code(k) is None,
        forall|n: u8| n > 12 ==> #[trigger] mac_code(Key::Function(n)) is None,
        forall|n: u8|
            1 <= n <= 12 ==> #[trigger] mac_code(Key::Function(n)) == Some(
                seq![122u16, 120u16, 99u16, 118u16, 96u16, 97u16, 98u16, 100u16, 101u16, 109u16, 103u16, 111u16][n - 1],
            ),
{
    assert(arrow_block()[0] == Key::Left);
    assert(arrow_block()[1] == Key::Right);
    assert(arrow_block()[2] == Key::Down);
    assert(arrow_block()[3] == Key::Up);
}

/// The message of a key without a hardware code.
pub open spec fn no_code_message() -> Seq<char> {
    "key has no macOS hardware code"@
}

/// The hardware key code of a key; an error for keys that have none.
pub fn key_code(key: &Key) -> (r: AppResult<u16>)
    ensures
        match mac_code(*key) {
            Some(c) => r == Ok::<u16, AppError>(c),
            None => r matches Err(AppError::InvalidAction(m)) && m@ == no_code_message(),
        },
{
    match key {
        Key::Enter => Ok(36),
        Key::Tab => Ok(48),
        Key::Space => Ok(49),
        Key::Backspace => Ok(51),
        Key::Escape => Ok(53),
        Key::Delete => Ok(117),
        Key::Home => Ok(115),
        Key::End => Ok(119),
        Key::PageUp => Ok(116),
        Key::PageDown => Ok(121),
        Key::Left => Ok(123),
        Key::Right => Ok(124),
        Key::Down => Ok(125),
        Key::Up => Ok(126),
        Key::Function(n) if 1 <= *n && *n <= 12 => {
            let table: [u16; 12] = [122, 120, 99, 118, 96, 97, 98, 100, 101, 109, 103, 111];
            let i = (*n - 1) as usize;
            proof {
                assert(table@ =~= seq![122u16, 120, 99, 118, 96, 97, 98, 100, 101, 109, 103, 111]);
            }
            Ok(table[i])
        },
        _ => Err(AppError::InvalidAction(owned("key has no macOS hardware code"))),
    }
}

/// How a key is pressed through System Events: letters and digits as the
/// text they type, other keys by hardware code.
#[derive(Debug, PartialEq, Eq)]
pub enum KeyValue {
    Text(String),
    Code(u16),
}

/// What a key is pressed as.
pub open spec fn key_value_allows(key: Key, r: AppResult<KeyValue>) -> bool {
    match key {
        Key::Letter(c) => r matches Ok(KeyValue::Text(t)) && t@ == seq![c],
        Key::Digit(d) => r matches Ok(KeyValue::Text(t)) && t@ == decimal(d as nat),
        _ => match mac_code(key) {
            Some(c) => r == Ok::<KeyValue, AppError>(KeyValue::Code(c)),
            None => r matches Err(AppError::InvalidAction(m)) && m@ == no_code_message(),
        },
    }
}

/// The way a key is pressed.
pub fn key_value(key: &Key) -> (r: AppResult<KeyValue>)
    ensures
        key_value_allows(*key, r),
{
    match key {
        Key::Letter(c) => {
            let v = vec![*c];
            proof {
                assert(v@ =~= seq![*c]);
            }
            Ok(KeyValue::Text(string_from_chars(v.as_slice())))
        },
        Key::Digit(d) => Ok(KeyValue::Text(format_u64(*d as u64))),
        _ => match key_code(key) {
            Ok(c) => Ok(KeyValue::Code(c)),
            Err(e) => Err(e),
        },
    }
}

/// The System Events name of a modifier: Control, Shift, and Option for Alt.
pub open spec fn modifier_name(m: Modifier) -> Seq<char> {
    match m {
        Modifier::Ctrl => "control down"@,
        Modifier::Shift => "shift down"@,
        Modifier::Alt => "option down"@,
    }
}

/// The modifier names of the modifier keys among `keys`, in order.
pub open spec fn modifier_names(keys: Seq<Key>) -> Seq<Seq<char>>
    decreases keys.len(),
{
    if keys.len() == 0 {
        Seq::empty()
    } else {
        let rest = modifier_names(keys.drop_last());
        match keys.last().modifier_of() {
            Some(m) => rest.push(modifier_name(m)),
            None => rest,
        }
    }
}

/// The keys of `keys` that are not modifiers, in order.
pub open spec fn ordinary_keys(keys: Seq<Key>) -> Seq<Key> {
    keys.filter(|k: Key| k.modifier_of() is None)
}

/// The message of a combination without exactly one ordinary key.
pub open spec fn one_key_message() -> Seq<char> {
    "macOS combinations require exactly one non-modifier key"@
}

/// What a combination is pressed as: System Events holds modifiers around
/// one ordinary key, so a combination needs exactly one key that is not a
/// modifier.
pub open spec fn combination_allows(keys: Seq<Key>, r: AppResult<(Vec<String>, KeyValue)>) -> bool {
    if ordinary_keys(keys).len() != 1 {
        r matches Err(AppError::InvalidAction(m)) && m@ == one_key_message()
    } else {
        match r {
            Ok((names, value)) => names.deep_view() == modifier_names(keys) && key_value_allows(
                ordinary_keys(keys)[0],
                Ok(value),
            ),
            Err(e) => key_value_allows(ordinary_keys(keys)[0], Err(e)),
        }
    }
}

/// A combination as the modifier names and the one ordinary key to press.
pub fn combination_value(keys: &[Key]) -> (r: AppResult<(Vec<String>, KeyValue)>)
    ensures
        combination_allows(keys@, r),
{
    let mut names: Vec<String> = Vec::new();
    let mut others: Vec<Key> = Vec::new();
    let mut i: usize = 0;
    while i < keys.len()
        invariant
            i <= keys.len(),
            names.deep_view() == modifier_names(keys@.take(i as int)),
            others@ == ordinary_keys(keys@.take(i as int)),
        decreases keys.len() - i,
    {
        proof {
            reveal(Seq::filter);
            assert(keys@.take(i + 1).drop_last() =~= keys@.take(i as int));
        }
        let k = keys[i];
        match k.as_modifier() {
            Some(Modifier::Ctrl) => names.push(owned("control down")),
            Some(Modifier::Shift) => names.push(owned("shift down")),
            Some(Modifier::Alt) => names.push(owned("option down")),
            None => others.push(k),
        }
        proof {
            assert(names.deep_view() =~= modifier_names(keys@.take(i + 1)));
        }
        i = i + 1;
    }
    proof {
        assert(keys@.take(keys.len() as int) =~= keys@);
    }
    if others.len() != 1 {
        return Err(
            AppError::InvalidAction(
                owned("macOS combinations require exactly one non-modifier key"),
            ),
        );
    }
    match key_value(&others[0]) {
        Ok(v) => Ok((names, v)),
        Err(e) => Err(e),
    }
}

/// What a reply of the System Events script means: three replies report a
/// refusal; any other reply is the result.
pub open spec fn reply_allows(reply: Seq<char>, r: AppResult<String>) -> bool {
    if reply == "LOST_FOCUS"@ {
        r == Err::<String, AppError>(AppError::TargetLostFocus)
    } else if reply == "AMBIGUOUS"@ {
        r == Err::<String, AppError>(AppError::TargetAmbiguous)
    } else if reply == "MODIFIER_HELD"@ {
        r == Err::<String, AppError>(AppError::ModifierKeyHeld)
    } else {
        r matches Ok(s) && s@ == reply
    }
}

/// Interpret a reply of the System Events script.
pub fn script_reply(reply: String) -> (r: AppResult<String>)
    ensures
        reply_allows(reply@, r),
{
    if str_eq(reply.as_str(), "LOST_FOCUS") {
        return Err(AppError::TargetLostFocus);
    }
    if str_eq(reply.as_str(), "AMBIGUOUS") {
        return Err(AppError::TargetAmbiguous);
    }
    if str_eq(reply.as_str(), "MODIFIER_HELD") {
        return Err(AppError::ModifierKeyHeld);
    }
    Ok(reply)
}

/// The pieces text is typed in: consecutive runs of 32 characters, the last
/// one shorter when the length is not a multiple of 32.
pub open spec fn chunks_of(text: Seq<char>) -> Seq<Seq<char>>
    decreases text.len(),
{
    if text.len() == 0 {
        Seq::empty()
    } else if text.len() <= 32 {
        seq![text]
    } else {
        seq![text.take(32)] + chunks_of(text.skip(32))
    }
}

/// Cut text into the pieces that are typed with one script call each.
pub fn text_chunks(text: &str) -> (r: Vec<String>)
    ensures
        r.deep_view() == chunks_of(text@),
{
    let chars = crate::text::chars_of(text);
    let mut out: Vec<String> = Vec::new();
    let mut start: usize = 0;
    let n = chars.len();
    proof {
        assert(chars@.skip(0) =~= chars@);
        assert(out.deep_view() + chunks_of(chars@) =~= chunks_of(chars@));
    }
    while start < n
        invariant
            start <= n,
            n == chars@.len(),
            chars@ == text@,
            out.deep_view() + chunks_of(chars@.skip(start as int)) == chunks_of(chars@),
        decreases n - start,
    {
        let end = if n - start > 32 {
            start + 32
        } else {
            n
        };
        let piece = string_from_chars(&chars.as_slice()[start..end]);
        proof {
            let rest = chars@.skip(start as int);
            assert(chars@.subrange(start as int, end as int) =~= if rest.len() <= 32 {
                rest
            } else {
                rest.take(32)
            });
            assert(chars@.skip(end as int) =~= if rest.len() <= 32 {
                rest.skip(rest.len() as int)
            } else {
                rest.skip(32)
            });
            assert(rest.skip(rest.len() as int) =~= Seq::<char>::empty());
        }
        let ghost before = out.deep_view();
        out.push(piece);
        proof {
            assert(out.deep_view() =~= before.push(piece@));
            let rest = chars@.skip(start as int);
            if rest.len() > 32 {
                assert(chunks_of(rest) == seq![rest.take(32)] + chunks_of(rest.skip(32)));
                assert(before.push(piece@) + chunks_of(chars@.skip(end as int)) =~= before
                    + chunks_of(rest));
            } else {
                assert(chunks_of(chars@.skip(end as int)) =~= Seq::<Seq<char>>::empty());
                assert(before.push(piece@) + chunks_of(chars@.skip(end as int)) =~= before
                    + chunks_of(rest));
            }
        }
        start = end;
    }
    proof {
        assert(chars@.skip(n as int) =~= Seq::<char>::empty());
        assert(out.deep_view() + Seq::<Seq<char>>::empty() =~= out.deep_view());
        assert(chars@.skip(0) =~= chars@);
    }
    out
}

} // verus!
