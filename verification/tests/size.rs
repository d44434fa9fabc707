use ferris_fetch::size::{memory_text, usage_text, USE_ARROW, WHOLE_DECIMALS};

#[test]
fn usage_joins_with_the_arrow() {
    assert_eq!(usage_text("1 B", "2 B"), "1 B » 2 B");
    assert_eq!(usage_text("", ""), " » ");
    assert_eq!(USE_ARROW, " » ");
}

#[test]
fn whole_sizes_show_one_decimal() {
    assert_eq!(WHOLE_DECIMALS, 1);
    assert_eq!(memory_text(4_000_000_000, 16_000_000_000), "4.0 GB » 16.0 GB");
    assert_eq!(memory_text(0, 1_000), "0.0 B » 1.0 kB");
}

#[test]
fn sizes_are_in_powers_of_a_thousand() {
    assert_eq!(memory_text(999, 1_000_000), "999.0 B » 1.0 MB");
    assert_eq!(memory_text(1_024, 1_048_576), "1.02 kB » 1.05 MB");
    assert_eq!(memory_text(4_512_345_678, 17_179_869_184), "4.51 GB » 17.18 GB");
}

#[test]
fn largest_size_is_written() {
    assert_eq!(memory_text(u64::MAX, u64::MAX), "18.45 EB » 18.45 EB");
}
