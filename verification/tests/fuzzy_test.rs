use nucleus::fuzzy::{fuzzy_match, fuzzy_match_checked, fuzzy_score};

#[test]
fn test_fuzzy_match_exact() {
    let res = fuzzy_match("main", "main.rs");
    assert!(res.is_some());
    let m = res.unwrap();
    assert_eq!(m.match_indices, vec![0, 1, 2, 3]);
}

#[test]
fn test_fuzzy_match_acronym() {
    let res = fuzzy_match("cm", "Cargo.toml");
    assert!(res.is_some());
}

#[test]
fn test_fuzzy_match_no_match() {
    let res = fuzzy_match("xyz", "main.rs");
    assert!(res.is_none());
}

#[test]
fn fuzzy_exact_prefix_score() {
    // m: 10 + 20 (start); a, i, n: 10 + 15 (consecutive) each
    let m = fuzzy_match("main", "main.rs").unwrap();
    assert_eq!(m.score, 30 + 25 * 3);
}

#[test]
fn fuzzy_acronym_positions_and_score() {
    // 'c' at 0 (start: +20), 'm' at 8 (no bonus): 30 + 10
    let m = fuzzy_match("cm", "Cargo.toml").unwrap();
    assert_eq!(m.match_indices, vec![0, 8]);
    assert_eq!(m.score, 40);
}

#[test]
fn fuzzy_full_length_bonus() {
    // every character matched consecutively, plus 50 for equal lengths
    let m = fuzzy_match("ab", "AB").unwrap();
    assert_eq!(m.match_indices, vec![0, 1]);
    assert_eq!(m.score, 30 + 25 + 50);
}

#[test]
fn fuzzy_word_start_and_camel_case_bonuses() {
    // 'f' after '/': +20; 'b' at the hump of "fooBar": +15
    let m = fuzzy_match("fb", "src/fooBar").unwrap();
    assert_eq!(m.match_indices, vec![4, 7]);
    assert_eq!(m.score, 30 + 25);
}

#[test]
fn fuzzy_empty_query_matches_everything() {
    let m = fuzzy_match("", "anything").unwrap();
    assert_eq!(m.score, 0);
    assert!(m.match_indices.is_empty());
    let m2 = fuzzy_match("", "").unwrap();
    assert_eq!(m2.score, 0);
}

#[test]
fn fuzzy_longer_query_fails() {
    assert!(fuzzy_match("abcd", "abc").is_none());
}

#[test]
fn fuzzy_ignores_case() {
    let m = fuzzy_match("CARGO", "cargo.toml").unwrap();
    assert_eq!(m.match_indices, vec![0, 1, 2, 3, 4]);
}

#[test]
fn fuzzy_checked_agrees_on_plain_text() {
    let a = fuzzy_match_checked("git", "Git: Commit").unwrap();
    let b = fuzzy_match("git", "Git: Commit");
    assert_eq!(a, b);
    assert_eq!(fuzzy_match_checked("zz", "Git: Commit"), Some(None));
}

#[test]
fn fuzzy_checked_refuses_scan_past_original() {
    // 'İ' lowercases to two characters, so the lowercase target is longer
    // than the original: a match at the end reads past the original.
    let target = "İx";
    let r = fuzzy_match_checked("x", target);
    assert_eq!(r, None);
}

#[test]
fn fuzzy_score_on_given_lowercase_text() {
    let q: Vec<char> = "ab".chars().collect();
    let t: Vec<char> = "xab".chars().collect();
    let o: Vec<char> = "xAb".chars().collect();
    let up = vec![false, true, false];
    let m = fuzzy_score(&q, &t, &o, &up).unwrap();
    // 'a' at 1: 10 + 15 (camel hump: 'A' after 'x'); 'b' at 2: 10 + 15 (consecutive)
    assert_eq!(m.match_indices, vec![1, 2]);
    assert_eq!(m.score, 50);
}

#[test]
fn longer_query_never_matches() {
    assert!(fuzzy_match("mainrs!", "main.rs").is_none());
    assert!(fuzzy_match("ab", "a").is_none());
    assert_eq!(fuzzy_match("", "").unwrap().score, 0);
}

#[test]
fn case_and_extension_keep_matches() {
    let a = fuzzy_match("MAIN", "src/main.rs").unwrap();
    let b = fuzzy_match("main", "src/main.rs").unwrap();
    assert_eq!(a, b);
    let c = fuzzy_match("main", "SRC/MAIN.RS").unwrap();
    assert_eq!(c.match_indices, b.match_indices);
    assert!(fuzzy_match("ma", "src/main.rs").is_some());
    assert!(fuzzy_match("main", "xx/src/main.rs.bak").is_some());
}
