use agent_pulse::error::AppError;
use agent_pulse::model::key::Key;
use agent_pulse::platform::input::{
    combination_keys, combination_sequence, key_event, pending_releases, unicode_events,
    virtual_key, KeyEvent, KEYEVENTF_EXTENDEDKEY, KEYEVENTF_KEYUP, KEYEVENTF_SCANCODE,
    KEYEVENTF_UNICODE,
};
use agent_pulse::platform::system_events::{
    combination_value, key_code, key_value, script_reply, text_chunks, KeyValue,
};
use agent_pulse::platform::windows::{activation_precheck, activation_wait_ms, candidate_for};
use agent_pulse::platform::x11::{check_modifiers, check_session, combination_name, key_name};

// --- Windows keyboard events ---

#[test]
fn key_vk_mapping_is_complete() {
    let keys = [
        Key::Enter,
        Key::Escape,
        Key::Tab,
        Key::Space,
        Key::Backspace,
        Key::Delete,
        Key::Home,
        Key::End,
        Key::PageUp,
        Key::PageDown,
        Key::Up,
        Key::Down,
        Key::Left,
        Key::Right,
        Key::Ctrl,
        Key::Shift,
        Key::Alt,
    ];
    for k in &keys {
        assert!(virtual_key(k).is_some(), "{k:?} must map to a VK");
    }
    for i in 0..26u8 {
        assert_eq!(virtual_key(&Key::Letter((b'a' + i) as char)), Some(u16::from(b'A' + i)));
    }
    for d in 0..=9u8 {
        assert_eq!(virtual_key(&Key::Digit(d)), Some(u16::from(b'0' + d)));
    }
    for n in 1..=12u8 {
        assert_eq!(virtual_key(&Key::Function(n)), Some(0x6F + u16::from(n)));
    }
    assert!(virtual_key(&Key::Letter('!')).is_none());
    assert!(virtual_key(&Key::Function(13)).is_none());
}

#[test]
fn enter_is_physical_return_and_navigation_keys_are_extended() {
    let down = key_event(0x0D, false, 0x55);
    let up = key_event(0x0D, true, 0x55);
    assert_eq!(down.scan, 0x1C);
    assert_eq!(down.flags, KEYEVENTF_SCANCODE);
    assert_eq!(up.flags, KEYEVENTF_SCANCODE | KEYEVENTF_KEYUP);
    assert_eq!(key_event(0x25, false, 0x4B).flags, KEYEVENTF_EXTENDEDKEY);
    assert_eq!(key_event(0x41, true, 0x1E), KeyEvent { vk: 0x41, scan: 0x1E, flags: KEYEVENTF_KEYUP });
}

#[test]
fn partial_combination_releases_only_unpaired_injected_keys() {
    let inputs = [
        key_event(0x11, false, 0x1D),
        key_event(0x43, false, 0x2E),
        key_event(0x43, true, 0x2E),
        key_event(0x11, true, 0x1D),
    ];
    let releases = pending_releases(&inputs, 3);
    assert_eq!(releases.len(), 1);
    assert_eq!(releases[0].vk, 0x11);
    assert!(releases[0].flags & KEYEVENTF_KEYUP != 0);
    assert!(pending_releases(&inputs, 0).is_empty());
    assert!(pending_releases(&inputs, 4).is_empty());
}

#[test]
fn releases_go_in_reverse_press_order() {
    let inputs = [key_event(0x11, false, 0x1D), key_event(0x10, false, 0x2A), key_event(0x43, false, 0x2E)];
    let releases = pending_releases(&inputs, 99);
    let order: Vec<u16> = releases.iter().map(|e| e.vk).collect();
    assert_eq!(order, vec![0x43, 0x10, 0x11]);
}

#[test]
fn combination_presses_modifiers_first_and_releases_in_reverse() {
    let seq = combination_sequence(&[Key::Letter('c'), Key::Ctrl]);
    assert_eq!(
        seq,
        vec![
            (Key::Ctrl, false),
            (Key::Letter('c'), false),
            (Key::Letter('c'), true),
            (Key::Ctrl, true),
        ]
    );
    assert_eq!(
        combination_keys(&[Key::Ctrl, Key::Letter('c')]),
        Some(vec![(0x11, false), (0x43, false), (0x43, true), (0x11, true)])
    );
    assert_eq!(combination_keys(&[Key::Ctrl, Key::Function(20)]), None);
    assert!(combination_sequence(&[]).is_empty());
}

#[test]
fn unicode_text_uses_utf16_units() {
    let a = unicode_events('a');
    assert_eq!(
        a,
        vec![
            KeyEvent { vk: 0, scan: 0x61, flags: KEYEVENTF_UNICODE },
            KeyEvent { vk: 0, scan: 0x61, flags: KEYEVENTF_UNICODE | KEYEVENTF_KEYUP },
        ]
    );
    let emoji = unicode_events('😀');
    let units: Vec<u16> = emoji.iter().map(|e| e.scan).collect();
    let mut expected = [0u16; 2];
    '😀'.encode_utf16(&mut expected);
    assert_eq!(units, vec![expected[0], expected[0], expected[1], expected[1]]);
}

// --- X11 ---

#[test]
fn xdotool_key_names() {
    assert_eq!(key_name(&Key::Enter), "Return");
    assert_eq!(key_name(&Key::PageUp), "Prior");
    assert_eq!(key_name(&Key::Letter('c')), "c");
    assert_eq!(key_name(&Key::Digit(7)), "7");
    assert_eq!(key_name(&Key::Function(11)), "F11");
    assert_eq!(combination_name(&[Key::Ctrl, Key::Shift, Key::Letter('t')]), "ctrl+shift+t");
    assert_eq!(combination_name(&[]), "");
}

#[test]
fn wayland_and_missing_display_are_refused() {
    let wayland = AppError::AutomationUnavailable(
        "Wayland is not supported; log into an X11/Xorg desktop session".into(),
    );
    assert_eq!(check_session(true, None, true), Err(wayland.clone()));
    assert_eq!(check_session(false, Some("WAYLAND".into()), true), Err(wayland));
    assert_eq!(
        check_session(false, Some("x11".into()), false),
        Err(AppError::AutomationUnavailable("an active X11 desktop is required".into()))
    );
    assert_eq!(check_session(false, Some("x11".into()), true), Ok(()));
}

#[test]
fn held_modifier_is_detected_from_the_keymap() {
    // Keycodes 8.. with two keysyms each; keycode 50 carries Shift_L.
    let min: u8 = 8;
    let mut keysyms = vec![0u32; 2 * 248];
    keysyms[2 * (50 - 8)] = 0xffe1;
    let mut pressed = vec![0u8; 32];
    assert_eq!(check_modifiers(&pressed, &keysyms, 2, min), Ok(()));
    pressed[50 / 8] |= 1 << (50 % 8);
    assert_eq!(check_modifiers(&pressed, &keysyms, 2, min), Err(AppError::ModifierKeyHeld));
    assert_eq!(
        check_modifiers(&pressed, &keysyms, 0, min),
        Err(AppError::AutomationUnavailable("empty X11 keyboard mapping".into()))
    );
    assert_eq!(
        check_modifiers(&pressed[..4], &keysyms, 2, min),
        Err(AppError::AutomationUnavailable("X11 keyboard mapping exceeds the keymap".into()))
    );
}

// --- macOS System Events ---

#[test]
fn mac_key_codes() {
    assert_eq!(key_code(&Key::Enter), Ok(36));
    assert_eq!(key_code(&Key::Function(1)), Ok(122));
    assert_eq!(key_code(&Key::Function(12)), Ok(111));
    assert_eq!(
        key_code(&Key::Function(13)),
        Err(AppError::InvalidAction("key has no macOS hardware code".into()))
    );
    assert_eq!(key_value(&Key::Letter('x')), Ok(KeyValue::Text("x".into())));
    assert_eq!(key_value(&Key::Digit(4)), Ok(KeyValue::Text("4".into())));
    assert_eq!(key_value(&Key::Up), Ok(KeyValue::Code(126)));
}

#[test]
fn mac_combinations_take_one_ordinary_key() {
    assert_eq!(
        combination_value(&[Key::Ctrl, Key::Alt, Key::Letter('k')]),
        Ok((vec!["control down".to_string(), "option down".to_string()], KeyValue::Text("k".into())))
    );
    let refused = AppError::InvalidAction("macOS combinations require exactly one non-modifier key".into());
    assert_eq!(combination_value(&[Key::Ctrl, Key::Shift]), Err(refused.clone()));
    assert_eq!(combination_value(&[Key::Letter('a'), Key::Letter('b')]), Err(refused));
}

#[test]
fn mac_script_replies() {
    assert_eq!(script_reply("LOST_FOCUS".into()), Err(AppError::TargetLostFocus));
    assert_eq!(script_reply("AMBIGUOUS".into()), Err(AppError::TargetAmbiguous));
    assert_eq!(script_reply("MODIFIER_HELD".into()), Err(AppError::ModifierKeyHeld));
    assert_eq!(script_reply("true".into()), Ok("true".to_string()));
}

#[test]
fn mac_text_is_typed_in_pieces_of_32() {
    let text: String = "abcdefghij".repeat(7);
    let pieces = text_chunks(&text);
    assert_eq!(pieces.len(), 3);
    assert_eq!(pieces[0].chars().count(), 32);
    assert_eq!(pieces[2].chars().count(), 6);
    assert_eq!(pieces.concat(), text);
    assert!(text_chunks("").is_empty());
}

// --- Windows window snapshots ---

#[test]
fn window_snapshot_takes_the_image_file_name() {
    let c = candidate_for(
        42,
        5,
        "Codex".into(),
        18244,
        Some(r"C:\Program Files\WindowsApps\WindowsTerminal.exe".into()),
    )
    .expect("candidate");
    assert_eq!(c.process_name, "WindowsTerminal.exe");
    assert!(c.is_visible);
    assert_eq!(c.hwnd, 42);
    let unnamed = candidate_for(7, 3, "abc".into(), 9, None).expect("candidate");
    assert_eq!(unnamed.process_name, "");
    assert!(candidate_for(1, 0, String::new(), 9, None).is_none());
    assert!(candidate_for(1, 3, "abc".into(), 0, None).is_none());
}

#[test]
fn activation_checks_and_backoff() {
    assert_eq!(activation_precheck(false, true), Err(AppError::TargetNotFound));
    assert_eq!(activation_precheck(true, false), Err(AppError::TargetNotVisible));
    assert_eq!(activation_precheck(true, true), Ok(()));
    let waits: Vec<Option<u64>> = (0..6).map(activation_wait_ms).collect();
    assert_eq!(waits, vec![Some(50), Some(100), Some(150), Some(200), Some(250), None]);
}
