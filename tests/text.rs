use feynman::text::{create_mastery_bar, same_chars, split_tags, truncate};

#[test]
fn truncate_short_string() {
    assert_eq!(truncate("hello", 10), "hello");
}

#[test]
fn truncate_exact_length() {
    assert_eq!(truncate("hello", 5), "hello");
}

#[test]
fn truncate_long_string() {
    assert_eq!(truncate("hello world", 8), "hello...");
}

#[test]
fn truncate_empty_string() {
    assert_eq!(truncate("", 10), "");
}

#[test]
fn truncate_minimum_length() {
    assert_eq!(truncate("hello", 4), "h...");
}

#[test]
fn truncate_counts_bytes() {
    assert_eq!(truncate("héllo wörld", 8), "héll...");
    assert_eq!(truncate("éé", 3), "...");
    assert_eq!(truncate("éé", 4), "éé");
    assert_eq!(truncate("abcdef", 3), "...");
    assert_eq!(truncate("abcdef", 1), "...");
}

#[test]
fn truncate_cuts_back_to_a_character_boundary() {
    assert_eq!(truncate("aébc", 4), "a...");
    assert_eq!(truncate("éabc", 4), "...");
    assert_eq!(truncate("éabcd", 5), "é...");
}

#[test]
fn same_chars_compares_whole_strings() {
    assert!(same_chars("abc", "abc"));
    assert!(!same_chars("abc", "abd"));
    assert!(!same_chars("abc", "ab"));
    assert!(same_chars("", ""));
}

#[test]
fn mastery_bar_has_five_cells() {
    assert_eq!(create_mastery_bar(0), "\u{2591}\u{2591}\u{2591}\u{2591}\u{2591}");
    assert_eq!(create_mastery_bar(2), "\u{2588}\u{2588}\u{2591}\u{2591}\u{2591}");
    assert_eq!(create_mastery_bar(5), "\u{2588}\u{2588}\u{2588}\u{2588}\u{2588}");
}

#[test]
fn split_tags_trims_pieces() {
    assert_eq!(split_tags("rust, programming"), vec!["rust", "programming"]);
    assert_eq!(split_tags("tag1,tag2"), vec!["tag1", "tag2"]);
    assert_eq!(split_tags("  solo  "), vec!["solo"]);
    assert_eq!(split_tags("a,,b,"), vec!["a", "", "b", ""]);
    assert_eq!(split_tags(""), vec![""]);
}
