use ferris_fetch::packages::{count_packages, count_top_level};

fn listing(text: &str) -> Option<Vec<u8>> {
    Some(text.as_bytes().to_vec())
}

fn by_std(text: &str) -> usize {
    text.lines().filter(|line| !line.starts_with("    ")).count()
}

#[test]
fn failing_command_counts_nothing() {
    assert_eq!(count_packages(None), 0);
}

#[test]
fn listing_that_is_not_text_counts_nothing() {
    assert_eq!(count_packages(Some(vec![b'a', b'\n', 0xff, b'\n'])), 0);
}

#[test]
fn lines_without_indent_are_counted() {
    let text = "cargo-edit v0.12.2:\n    cargo-add\n    cargo-rm\nripgrep v14.0.3:\n    rg\nbat v0.24.0:\n    bat\n";
    assert_eq!(count_packages(listing(text)), 3);
}

#[test]
fn empty_listing_counts_nothing() {
    assert_eq!(count_packages(listing("")), 0);
}

#[test]
fn only_indented_lines_count_nothing() {
    assert_eq!(count_packages(listing("    a\n    b\n      c\n")), 0);
}

#[test]
fn indent_must_be_four_spaces() {
    assert_eq!(count_packages(listing("   three\n")), 1);
    assert_eq!(count_packages(listing("    four\n")), 0);
    assert_eq!(count_packages(listing("     five\n")), 0);
    assert_eq!(count_packages(listing("\t\t\t\ttabs\n")), 1);
    assert_eq!(count_packages(listing("  \t word\n")), 1);
    assert_eq!(count_packages(listing("    ")), 0);
    assert_eq!(count_packages(listing("   ")), 1);
    assert_eq!(count_packages(listing("\u{a0}\u{a0}\u{a0}\u{a0}x\n")), 1);
}

#[test]
fn last_line_needs_no_line_feed() {
    assert_eq!(count_packages(listing("a\nb")), 2);
    assert_eq!(count_packages(listing("a\nb\n")), 2);
    assert_eq!(count_packages(listing("a\n    b")), 1);
}

#[test]
fn empty_lines_are_lines() {
    assert_eq!(count_packages(listing("\n")), 1);
    assert_eq!(count_packages(listing("\n\n")), 2);
    assert_eq!(count_packages(listing("a\n\nb\n")), 3);
}

#[test]
fn count_agrees_with_the_lines_of_std() {
    let texts = [
        "",
        "\n",
        "\r\n",
        "\r",
        "a",
        "a\r\nb\r\n",
        "    \r\n",
        "   \r\n",
        "    a\r\n  b\r\n",
        "a\n    b\n\n    \n   c\nd",
        "    x\n    y\n",
        "\n    \n\n",
        "päckchen v1:\n    päck\n",
        "   \n    \n     \n",
    ];
    for text in texts {
        assert_eq!(count_top_level(text), by_std(text), "{:?}", text);
        assert_eq!(count_packages(listing(text)), by_std(text), "{:?}", text);
    }
}

fn sample(seed: &mut u64, alphabet: &[char], longest: usize) -> String {
    let mut text = String::new();
    *seed = seed.wrapping_mul(6364136223846793005).wrapping_add(1442695040888963407);
    let len = (*seed >> 33) as usize % (longest + 1);
    for _ in 0..len {
        *seed = seed.wrapping_mul(6364136223846793005).wrapping_add(1442695040888963407);
        text.push(alphabet[(*seed >> 33) as usize % alphabet.len()]);
    }
    text
}

#[test]
fn count_agrees_with_the_lines_of_std_on_many_texts() {
    let alphabet = [' ', ' ', ' ', ' ', ' ', '\n', '\n', '\r', 'a', 'ü', '\t'];
    let mut seed = 11;
    for _ in 0..3000 {
        let text = sample(&mut seed, &alphabet, 24);
        assert_eq!(count_top_level(&text), by_std(&text), "{:?}", text);
    }
}
