use cortex::text::{chars_of, contains};

#[test]
fn chars_of_keeps_every_character_in_order() {
    assert_eq!(chars_of("abc"), vec!['a', 'b', 'c']);
    assert_eq!(chars_of(""), Vec::<char>::new());
    assert_eq!(chars_of("héllo ✓"), vec!['h', 'é', 'l', 'l', 'o', ' ', '✓']);
}

#[test]
fn word_inside_text_is_found() {
    assert!(contains("ok computer", "computer"));
    assert!(contains("computer", "computer"));
    assert!(contains("computer turn on", "computer"));
    assert!(contains("my computers", "computer"));
}

#[test]
fn absent_word_is_not_found() {
    assert!(!contains("hi", "computer"));
    assert!(!contains("", "computer"));
    assert!(!contains("compute", "computer"));
    assert!(!contains("comp uter", "computer"));
    assert!(!contains("omputer c", "computer"));
}

#[test]
fn match_is_case_sensitive() {
    assert!(!contains("ok Computer", "computer"));
    assert!(!contains("OK COMPUTER", "computer"));
    assert!(contains("ok Computer", "Computer"));
}

#[test]
fn empty_word_is_in_every_text() {
    assert!(contains("hi", ""));
    assert!(contains("", ""));
}

#[test]
fn match_may_follow_a_partial_match() {
    assert!(contains("cocomputer", "computer"));
    assert!(contains("aaab", "aab"));
    assert!(!contains("aaaa", "aab"));
}

#[test]
fn match_counts_characters_not_bytes() {
    assert!(contains("héllo wörld", "wörld"));
    assert!(contains("日本語のテキスト", "テキスト"));
    assert!(!contains("日本語", "本日"));
}

#[test]
fn contains_agrees_with_the_standard_library() {
    let texts = ["", "a", "ab", "ba", "aba", "abab", "ok computer", "é", "éa", "aé"];
    for t in texts.iter() {
        for w in texts.iter() {
            assert_eq!(contains(t, w), t.contains(w), "{:?} in {:?}", w, t);
        }
    }
}
