use zkvm_bench::filter::{contains_all, contains_any, passes};
use zkvm_bench::text::{
    contains, ends_with, has_distinct_keys, joined, last_segment_of, same_text, starts_with,
};

fn strings(items: &[&str]) -> Vec<String> {
    items.iter().map(|s| s.to_string()).collect()
}

#[test]
fn filter_keeps_names_with_every_include_and_no_exclude() {
    let includes = strings(&["add"]);
    let excludes = strings(&["revert"]);
    assert!(passes("add_basic", &includes, &excludes));
    assert!(!passes("add_revert", &includes, &excludes));
    assert!(!passes("sub_basic", &includes, &excludes));
}

#[test]
fn filter_without_includes_keeps_what_is_not_excluded() {
    let includes: Vec<String> = Vec::new();
    let excludes = strings(&["revert"]);
    assert!(passes("anything", &includes, &excludes));
    assert!(!passes("a_revert_b", &includes, &excludes));
    assert!(passes("anything", &includes, &Vec::new()));
    assert!(passes("", &includes, &Vec::new()));
}

#[test]
fn filter_asks_for_all_includes() {
    let includes = strings(&["add", "basic"]);
    let excludes: Vec<String> = Vec::new();
    assert!(passes("basic_add", &includes, &excludes));
    assert!(!passes("add_only", &includes, &excludes));
    assert!(!passes("basic_only", &includes, &excludes));
}

#[test]
fn filter_agrees_with_the_standard_library() {
    let names = ["add_basic", "add_revert", "sub_basic", "", "revert", "adrevert", "ädd_bäsic"];
    let lists: [&[&str]; 5] = [&[], &["add"], &["add", "basic"], &["revert"], &["", "ä"]];
    for name in names {
        for inc in lists {
            for exc in lists {
                let expected = inc.iter().all(|s| name.contains(s))
                    && !exc.iter().any(|s| name.contains(s));
                assert_eq!(passes(name, &strings(inc), &strings(exc)), expected);
            }
        }
    }
}

#[test]
fn contains_all_and_any() {
    let patterns = strings(&["ab", "cd"]);
    assert!(contains_all("abcd", &patterns));
    assert!(!contains_all("ab", &patterns));
    assert!(contains_all("ab", &Vec::new()));
    assert!(contains_any("xxcd", &patterns));
    assert!(!contains_any("acbd", &patterns));
    assert!(!contains_any("abcd", &Vec::new()));
}

#[test]
fn contains_finds_substrings() {
    assert!(contains("hello world", "lo wo"));
    assert!(contains("hello", ""));
    assert!(contains("", ""));
    assert!(!contains("", "a"));
    assert!(!contains("hello", "hellos"));
    assert!(contains("hello", "hello"));
    assert!(!contains("abab", "abb"));
    assert!(contains("naïve café", "ïve c"));
}

#[test]
fn starts_and_ends() {
    assert!(starts_with("0x12", "0x"));
    assert!(!starts_with("12", "0x"));
    assert!(starts_with("abc", ""));
    assert!(!starts_with("a", "ab"));
    assert!(ends_with("case.json", ".json"));
    assert!(!ends_with("case.jsonl", ".json"));
    assert!(ends_with(".json", ".json"));
    assert!(!ends_with("json", ".json"));
}

#[test]
fn same_text_compares_characters() {
    assert!(same_text("full", "full"));
    assert!(!same_text("full", "fulL"));
    assert!(!same_text("full", "ful"));
    assert!(same_text("", ""));
}

#[test]
fn last_segment_is_what_follows_the_last_separator() {
    assert_eq!(last_segment_of("a/b/c", '/'), "c");
    assert_eq!(last_segment_of("abc", '/'), "abc");
    assert_eq!(last_segment_of("abc/", '/'), "");
    assert_eq!(last_segment_of("/abc", '/'), "abc");
    assert_eq!(last_segment_of("", '/'), "");
    assert_eq!(
        last_segment_of("tests/frontier/opcodes/test_dup.py::test_dup[fork_Prague]", '/'),
        "test_dup.py::test_dup[fork_Prague]"
    );
    for name in ["a/b/c", "abc", "abc/", "/abc", "", "//", "ä/ö"] {
        let expected = name.split('/').next_back().unwrap_or(name).to_string();
        assert_eq!(last_segment_of(name, '/'), expected);
    }
}

#[test]
fn joined_appends() {
    assert_eq!(joined("name", ".json"), "name.json");
    assert_eq!(joined("", ""), "");
}

#[test]
fn pairs_of_a_map_have_distinct_keys() {
    let pairs = |keys: &[&str]| keys.iter().map(|k| (k.to_string(), 0u8)).collect::<Vec<_>>();
    assert!(has_distinct_keys(&pairs(&[])));
    assert!(has_distinct_keys(&pairs(&["a"])));
    assert!(has_distinct_keys(&pairs(&["a", "b", "A", ""])));
    assert!(!has_distinct_keys(&pairs(&["a", "b", "a"])));
    assert!(!has_distinct_keys(&pairs(&["", "b", ""])));
    assert!(!has_distinct_keys(&pairs(&["b", "b"])));
}
