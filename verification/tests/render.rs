use ferris_fetch::banner::LINES;
use ferris_fetch::render::{beside, render, screen, FERRIS_ART, GAP};
use ferris_fetch::facts::{HostFacts, ToolFacts};

fn plain() {
    colored::control::set_override(false);
}

fn lines(count: usize) -> Vec<String> {
    (0..count).map(|i| format!("line {}", i)).collect()
}

#[test]
fn art_has_a_row_for_each_line_of_the_banner() {
    assert_eq!(FERRIS_ART.len(), 15);
    assert_eq!(FERRIS_ART.len(), LINES);
    for row in FERRIS_ART {
        assert_eq!(row.chars().count(), 46);
    }
}

#[test]
fn beside_puts_the_gap_between() {
    assert_eq!(GAP, "   ");
    assert_eq!(beside("art", "info"), "art   info");
    assert_eq!(beside("", ""), "   ");
}

#[test]
fn plain_mode_leaves_the_lines_alone() {
    plain();
    assert_eq!(render(false, &lines(15)), lines(15));
    assert_eq!(render(false, &lines(40)), lines(40));
    assert_eq!(render(false, &[]), Vec::<String>::new());
}

#[test]
fn art_mode_sets_each_line_beside_its_row() {
    plain();
    let info = lines(15);
    let out = render(true, &info);
    assert_eq!(out.len(), 15);
    for i in 0..15 {
        assert_eq!(out[i], format!("{}   {}", FERRIS_ART[i], info[i]));
    }
}

#[test]
fn art_mode_stops_with_the_shorter() {
    plain();
    assert_eq!(render(true, &lines(15)).len(), 15);
    assert_eq!(render(true, &lines(16)).len(), 15);
    assert_eq!(render(true, &lines(17)).len(), 15);
    assert_eq!(render(true, &lines(100)).len(), 15);
    assert_eq!(render(true, &lines(14)).len(), 14);
    assert_eq!(render(true, &lines(3)).len(), 3);
    assert_eq!(render(true, &[]).len(), 0);
}

#[test]
fn art_mode_keeps_empty_lines() {
    plain();
    let out = render(true, &[String::new()]);
    assert_eq!(out, vec![format!("{}   ", FERRIS_ART[0])]);
}

fn alice() -> HostFacts {
    HostFacts::new(
        Some("alice".to_string()),
        Some("box".to_string()),
        "Ubuntu 22.04".to_string(),
        Some("6.2.0".to_string()),
        "Intel(R) Core(TM)".to_string(),
        16_000_000_000,
        4_000_000_000,
    )
}

fn toolchain() -> ToolFacts {
    ToolFacts::new(
        Some(b"rustc 1.75.0".to_vec()),
        None,
        Some(b"cargo 1.75.0".to_vec()),
        Some(b"a v1:\n    a\nb v2:\n    b\nc v3:\n    c\n".to_vec()),
    )
}

#[test]
fn screen_with_the_flag_is_the_banner_alone() {
    plain();
    let args = vec!["prog".to_string(), "-s".to_string()];
    let out = screen(&args, &alice(), &toolchain());
    assert_eq!(out.len(), 15);
    assert_eq!(out[1], "alice@box");
    assert_eq!(out[4], " rustup: not present");
    assert_eq!(out[6], " crates: 3");
    assert_eq!(out[10], "    ram: 4.0 GB » 16.0 GB");
}

#[test]
fn screen_without_the_flag_has_the_art() {
    plain();
    let args = vec!["prog".to_string()];
    let out = screen(&args, &alice(), &toolchain());
    assert_eq!(out.len(), 15);
    assert_eq!(out[0], format!("{}   ", FERRIS_ART[0]));
    assert_eq!(out[1], format!("{}   alice@box", FERRIS_ART[1]));
    assert_eq!(out[3], format!("{}     rustc: 1.75.0", FERRIS_ART[3]));
    assert_eq!(out[14], format!("{}   ", FERRIS_ART[14]));
}
