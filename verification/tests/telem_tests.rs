use dogkbd::telem::{cap_text, TELEM_TEXT_CAP};
use dogkbd::text::{count_nonblank_lines, decimal_string};

#[test]
fn cap_text_truncates_on_boundary() {
    let long = "é".repeat(500);
    let capped = cap_text(&long);
    assert!(capped.len() <= TELEM_TEXT_CAP + 4);
    assert!(capped.ends_with('…'));
    assert_eq!(cap_text("hi"), "hi");
}

#[test]
fn cap_text_exact_cut() {
    // 600 two-byte chars would be 1200 bytes; the cut keeps 300 of them.
    let long = "é".repeat(600);
    let capped = cap_text(&long);
    assert_eq!(capped, format!("{}…", "é".repeat(300)));

    // An odd budget backs off to the previous boundary.
    let odd = format!("a{}", "é".repeat(600));
    let capped = cap_text(&odd);
    assert_eq!(capped, format!("a{}…", "é".repeat(299)));
    assert_eq!(capped.len(), 1 + 598 + 3);
}

#[test]
fn cap_text_keeps_text_that_fits() {
    let exact = "x".repeat(TELEM_TEXT_CAP);
    assert_eq!(cap_text(&exact), exact);
    let over = "x".repeat(TELEM_TEXT_CAP + 1);
    assert_eq!(cap_text(&over), format!("{}…", "x".repeat(TELEM_TEXT_CAP)));
    assert_eq!(cap_text(""), "");
}

#[test]
fn count_existing_prompt_lines() {
    assert_eq!(count_nonblank_lines("{\"a\":1}\n{\"a\":2}\n{\"a\":3}\n\n"), 3);
    assert_eq!(count_nonblank_lines(""), 0);
    assert_eq!(count_nonblank_lines("  \n\t\r\n x"), 1);
    assert_eq!(count_nonblank_lines("a\r\nb"), 2);
    assert_eq!(count_nonblank_lines("\u{3000}\n"), 0);
}

#[test]
fn decimal_rendering() {
    assert_eq!(decimal_string(0), "0");
    assert_eq!(decimal_string(43707), "43707");
    assert_eq!(decimal_string(u64::MAX), u64::MAX.to_string());
}
