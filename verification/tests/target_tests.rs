use dogkbd::target::{display_name, find_window, lowered_match};

fn windows() -> Vec<(String, String)> {
    vec![
        ("Notepad".to_string(), "notepad.exe".to_string()),
        ("Prompt - Tea-Leaves".to_string(), "WindowsTerminal.exe".to_string()),
        ("Build output".to_string(), "Trophy_Factory.exe".to_string()),
    ]
}

#[test]
fn find_window_ignores_case_in_title() {
    assert_eq!(find_window(&windows(), "tea-leaves"), Some(1));
    assert_eq!(find_window(&windows(), "TEA-LEAVES"), Some(1));
}

#[test]
fn find_window_matches_process_name() {
    assert_eq!(find_window(&windows(), "trophy_factory"), Some(2));
}

#[test]
fn find_window_takes_first_match() {
    // "e" occurs in every window; the first one wins.
    assert_eq!(find_window(&windows(), "E"), Some(0));
}

#[test]
fn find_window_none_when_nothing_matches() {
    assert_eq!(find_window(&windows(), "godot"), None);
    assert_eq!(find_window(&Vec::new(), ""), None);
}

#[test]
fn lowered_match_on_title_or_process() {
    assert!(lowered_match("prompt - tea-leaves", "windowsterminal.exe", "tea-leaves"));
    assert!(lowered_match("build output", "trophy_factory.exe", "trophy"));
    assert!(!lowered_match("notepad", "notepad.exe", "trophy"));
    assert!(lowered_match("anything", "", ""));
    assert!(!lowered_match("ab", "cd", "abc"));
}

#[test]
fn display_name_forms() {
    assert_eq!(display_name("", "proc.exe"), "proc.exe");
    assert_eq!(display_name("Short", "p"), "Short - p");
    let fifty = "x".repeat(50);
    assert_eq!(display_name(&fifty, "p"), format!("{} - p", fifty));
    let long = "y".repeat(51);
    assert_eq!(display_name(&long, "p"), format!("{}... - p", "y".repeat(47)));
    // Non-ASCII: byte 47 falls after 'a' and 23 two-byte characters.
    let wide = format!("a{}", "é".repeat(30));
    assert_eq!(display_name(&wide, "p"), format!("a{}... - p", "é".repeat(23)));
}
