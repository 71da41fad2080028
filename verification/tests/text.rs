use candle_vllm::text::{str_contains, str_eq, str_replace};

#[test]
fn contains_finds_substrings() {
    assert!(str_contains("hello world", "lo w"));
    assert!(str_contains("abc", ""));
    assert!(!str_contains("abc", "abcd"));
    assert!(!str_contains("", "a"));
    assert!(str_contains("aab", "ab"));
}

#[test]
fn replace_is_left_to_right_and_non_overlapping() {
    assert_eq!(str_replace("aaa", "aa", "b"), "ba");
    assert_eq!(str_replace("aabb", "ab", ""), "ab");
    assert_eq!(str_replace("xyz", "q", "r"), "xyz");
    assert_eq!(str_replace("abab", "ab", "xyz"), "xyzxyz");
}

#[test]
fn equality_by_characters() {
    assert!(str_eq("llama", "llama"));
    assert!(!str_eq("llama", "llama3"));
    assert!(!str_eq("llama", "Llama"));
}

#[test]
fn replace_empty_pattern_inserts_at_every_boundary() {
    for (s, to) in [("abc", "x"), ("", "x"), ("héé", "-"), ("ab", "")] {
        assert_eq!(str_replace(s, "", to), s.replace("", to), "{s:?}");
    }
    assert_eq!(str_replace("abc", "", "x"), "xaxbxcx");
    assert_eq!(str_replace("", "", "x"), "x");
}
