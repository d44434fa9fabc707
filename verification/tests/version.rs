use ferris_fetch::version::{extract_version, second_token, NOT_PRESENT};

fn output(text: &str) -> Option<Vec<u8>> {
    Some(text.as_bytes().to_vec())
}

#[test]
fn missing_executable_gives_the_sentinel() {
    assert_eq!(extract_version(None), "not present");
    assert_eq!(NOT_PRESENT, "not present");
}

#[test]
fn two_fields_give_the_second() {
    assert_eq!(extract_version(output("rustc 1.75.0")), "1.75.0");
}

#[test]
fn real_outputs_give_their_version() {
    assert_eq!(
        extract_version(output("rustc 1.75.0 (82e1608df 2023-12-21)\n")),
        "1.75.0"
    );
    assert_eq!(
        extract_version(output("cargo 1.75.0 (1d8b05cdd 2023-11-20)\n")),
        "1.75.0"
    );
    assert_eq!(
        extract_version(output("rustup 1.26.0 (5af9b9484 2023-04-05)\ninfo: more\n")),
        "1.26.0"
    );
}

#[test]
fn no_token_gives_the_sentinel() {
    assert_eq!(extract_version(output("")), "not present");
    assert_eq!(extract_version(output("   \n\t ")), "not present");
}

#[test]
fn one_token_gives_the_sentinel() {
    assert_eq!(extract_version(output("rustc")), "not present");
    assert_eq!(extract_version(output("  rustc\n")), "not present");
}

#[test]
fn output_that_is_not_text_gives_the_sentinel() {
    assert_eq!(extract_version(Some(vec![0xff, 0xfe, b' ', b'1'])), "not present");
    assert_eq!(extract_version(Some(vec![b'a', b' ', 0xc3])), "not present");
    assert_eq!(extract_version(Some(vec![0xed, 0xa0, 0x80, b' ', b'1'])), "not present");
}

#[test]
fn every_kind_of_whitespace_separates() {
    assert_eq!(extract_version(output("tool\t2.0")), "2.0");
    assert_eq!(extract_version(output("tool\n3.0")), "3.0");
    assert_eq!(extract_version(output("tool \r\n 4.0 rest")), "4.0");
    assert_eq!(extract_version(output("tool\u{a0}5.0")), "5.0");
    assert_eq!(extract_version(output("tool\u{3000}6.0\u{2003}x")), "6.0");
    assert_eq!(extract_version(output("\u{85}tool\u{2028}7.0")), "7.0");
}

#[test]
fn characters_that_are_no_whitespace_do_not_separate() {
    assert_eq!(extract_version(output("tool\u{200b}1.0")), "not present");
    assert_eq!(extract_version(output("tool\u{180e}1.0 x")), "x");
    assert_eq!(extract_version(output("a\u{0}b c")), "c");
}

#[test]
fn tokens_beyond_ascii_are_kept_whole() {
    assert_eq!(extract_version(output("werkzeug número-ünï")), "número-ünï");
    assert_eq!(extract_version(output("工具 版本一 之后")), "版本一");
}

#[test]
fn second_token_is_there_from_two_tokens_on() {
    assert_eq!(second_token(""), None);
    assert_eq!(second_token("one"), None);
    assert_eq!(second_token("one two"), Some("two".to_string()));
    assert_eq!(second_token(" one  two three "), Some("two".to_string()));
}

fn by_std(bytes: &[u8]) -> String {
    String::from_utf8(bytes.to_vec())
        .ok()
        .and_then(|text| text.split_whitespace().nth(1).map(|word| word.to_string()))
        .unwrap_or_else(|| "not present".to_string())
}

#[test]
fn version_agrees_with_std_on_many_outputs() {
    let alphabet: [u8; 12] = [b'a', b'1', b'.', b' ', b' ', b'\n', b'\t', 0xc3, 0xa9, 0xe2, 0x80, 0x83];
    let mut seed: u64 = 3;
    for _ in 0..3000 {
        let mut bytes = Vec::new();
        seed = seed.wrapping_mul(6364136223846793005).wrapping_add(1442695040888963407);
        let len = (seed >> 33) as usize % 10;
        for _ in 0..len {
            seed = seed.wrapping_mul(6364136223846793005).wrapping_add(1442695040888963407);
            bytes.push(alphabet[(seed >> 33) as usize % alphabet.len()]);
        }
        assert_eq!(extract_version(Some(bytes.clone())), by_std(&bytes), "{:?}", bytes);
    }
}
