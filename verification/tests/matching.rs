use agent_pulse::error::AppError;
use agent_pulse::model::target::{TitleMatchMode, WindowCandidate, WindowTarget};
use agent_pulse::platform::matching::{image_file_name, resolve_target};

fn candidate(hwnd: u64, title: &str, pid: u32, process: &str) -> WindowCandidate {
    WindowCandidate {
        hwnd,
        title: title.into(),
        process_id: pid,
        process_name: process.into(),
        executable_path: None,
        is_visible: true,
    }
}

fn target(title: &str, mode: TitleMatchMode, process: Option<&str>) -> WindowTarget {
    WindowTarget {
        process_name: process.map(Into::into),
        title: Some(title.into()),
        title_match_mode: mode,
        ..Default::default()
    }
}

#[test]
fn exact_title_matches_single() {
    let candidates = vec![
        candidate(1, "Settings", 10, "explorer.exe"),
        candidate(2, "Codex — rust-reality", 11, "WindowsTerminal.exe"),
    ];
    let t = target("Codex — rust-reality", TitleMatchMode::Exact, None);
    let hit = resolve_target(&candidates, &t).expect("resolve");
    assert_eq!(hit.hwnd, 2);
}

#[test]
fn exact_title_is_case_sensitive() {
    let candidates = vec![candidate(1, "CODEX", 10, "wt.exe"), candidate(2, "codex", 10, "wt.exe")];
    let t = target("codex", TitleMatchMode::Exact, None);
    assert_eq!(resolve_target(&candidates, &t).expect("resolve").hwnd, 2);
}

#[test]
fn contains_title_is_case_insensitive() {
    let candidates = vec![candidate(7, "Windows Terminal — CODEX", 5, "wt.exe")];
    let t = target("codex", TitleMatchMode::Contains, None);
    assert_eq!(resolve_target(&candidates, &t).expect("resolve").hwnd, 7);
}

#[test]
fn regex_title_matches() {
    let candidates = vec![
        candidate(1, "build #1234 — done", 9, "ci.exe"),
        candidate(2, "Unrelated", 8, "other.exe"),
    ];
    let t = target(r"build #\d+ — done", TitleMatchMode::Regex, None);
    assert_eq!(resolve_target(&candidates, &t).expect("resolve").hwnd, 1);
}

#[test]
fn invalid_regex_is_structured_error() {
    let candidates = vec![candidate(1, "x", 1, "a.exe")];
    let t = target("([unclosed", TitleMatchMode::Regex, None);
    assert!(matches!(resolve_target(&candidates, &t), Err(AppError::InvalidTitleRegex(_))));
}

#[test]
fn process_name_filters_candidates() {
    let candidates = vec![
        candidate(1, "Terminal", 10, "cmd.exe"),
        candidate(2, "Terminal", 11, "WindowsTerminal.exe"),
    ];
    let t = target("Terminal", TitleMatchMode::Exact, Some("WindowsTerminal.exe"));
    assert_eq!(resolve_target(&candidates, &t).expect("resolve").hwnd, 2);
}

#[test]
fn process_id_filters_candidates() {
    let candidates = vec![
        candidate(1, "Terminal", 10, "WindowsTerminal.exe"),
        candidate(2, "Terminal", 11, "WindowsTerminal.exe"),
    ];
    let mut t = target("Terminal", TitleMatchMode::Exact, None);
    t.process_id = Some(11);
    assert_eq!(resolve_target(&candidates, &t).expect("resolve").hwnd, 2);
}

#[test]
fn zero_matches_is_target_not_found() {
    let candidates = vec![candidate(1, "Other", 1, "a.exe")];
    let t = target("Codex", TitleMatchMode::Contains, None);
    assert!(matches!(resolve_target(&candidates, &t), Err(AppError::TargetNotFound)));
}

#[test]
fn multiple_matches_is_target_ambiguous() {
    let candidates = vec![
        candidate(1, "Codex — alpha", 10, "wt.exe"),
        candidate(2, "Codex — beta", 11, "wt.exe"),
    ];
    let t = target("Codex", TitleMatchMode::Contains, None);
    match resolve_target(&candidates, &t) {
        Err(AppError::TargetAmbiguous) => {}
        other => panic!("expected ambiguity, got {other:?}"),
    }
}

#[test]
fn any_mode_ignores_title() {
    let candidates = vec![candidate(3, "anything at all", 10, "wt.exe")];
    let t = target("Codex", TitleMatchMode::Any, Some("wt.exe"));
    assert_eq!(resolve_target(&candidates, &t).expect("resolve").hwnd, 3);
}

#[test]
fn same_title_and_process_is_ambiguous_even_one_process() {
    let candidates = vec![candidate(1, "Codex", 10, "wt.exe"), candidate(2, "Codex", 10, "wt.exe")];
    let t = target("Codex", TitleMatchMode::Exact, Some("wt.exe"));
    assert!(matches!(resolve_target(&candidates, &t), Err(AppError::TargetAmbiguous)));
}

#[test]
fn image_file_name_takes_the_last_component() {
    assert_eq!(image_file_name(r"C:\Program Files\WindowsApps\wt.exe"), "wt.exe");
    assert_eq!(image_file_name("/usr/bin/xterm"), "xterm");
    assert_eq!(image_file_name("plain.exe"), "plain.exe");
    assert_eq!(image_file_name("dir/"), "");
}
