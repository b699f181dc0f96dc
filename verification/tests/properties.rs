use http_status_codes2::status_code_registry::{CODE_REGISTRY, UNOFFICIAL_CODE_REGISTRY};
use http_status_codes2::search::same_lower_case_form;
use http_status_codes2::text::{chars_of, contains_chars};
use http_status_codes2::{find_by_code, find_by_substring, StatusRecord};

fn codes(records: &[StatusRecord]) -> Vec<usize> {
    records.iter().map(|record| record.0).collect()
}

fn contains(haystack: &str, needle: &str) -> bool {
    contains_chars(&chars_of(haystack), &chars_of(needle))
}

#[test]
fn registries_have_their_sizes() {
    assert_eq!(CODE_REGISTRY.len(), 63);
    assert_eq!(UNOFFICIAL_CODE_REGISTRY.len(), 4);
}

#[test]
fn registries_are_in_ascending_order() {
    for pair in CODE_REGISTRY.windows(2) {
        assert!(pair[0].0 < pair[1].0);
    }
    assert_eq!(codes(&UNOFFICIAL_CODE_REGISTRY), vec![306, 418, 420, 430]);
}

#[test]
fn official_registry_spans_100_to_511() {
    assert_eq!(CODE_REGISTRY[0].0, 100);
    assert_eq!(CODE_REGISTRY[62].0, 511);
    assert_eq!(CODE_REGISTRY[62].1, "Network Authentication Required");
}

#[test]
fn every_listed_code_is_found_with_its_own_record() {
    for record in CODE_REGISTRY.iter() {
        assert_eq!(find_by_code(record.0, &CODE_REGISTRY), Some(*record));
    }
    for record in UNOFFICIAL_CODE_REGISTRY.iter() {
        assert_eq!(find_by_code(record.0, &UNOFFICIAL_CODE_REGISTRY), Some(*record));
    }
}

#[test]
fn unlisted_codes_are_absent() {
    for code in [0usize, 1, 99, 104, 209, 599, 600, 1000, usize::MAX] {
        assert_eq!(find_by_code(code, &CODE_REGISTRY), None);
    }
    assert_eq!(find_by_code(404, &UNOFFICIAL_CODE_REGISTRY), None);
    assert_eq!(find_by_code(100, &[]), None);
}

#[test]
fn contested_codes_differ_between_the_registries() {
    assert_eq!(find_by_code(306, &CODE_REGISTRY).map(|r| r.1), Some("(Unused)"));
    assert_eq!(
        find_by_code(306, &UNOFFICIAL_CODE_REGISTRY).map(|r| r.1),
        Some("Switch Proxy")
    );
    assert_eq!(find_by_code(418, &CODE_REGISTRY).map(|r| r.1), Some("(Unused)"));
    assert_eq!(
        find_by_code(418, &UNOFFICIAL_CODE_REGISTRY).map(|r| r.1),
        Some("I'm a teapot")
    );
}

#[test]
fn first_entry_wins_where_a_code_is_repeated() {
    let registry: [StatusRecord; 3] = [
        (200, "first", "a", "b"),
        (404, "other", "c", "d"),
        (200, "second", "e", "f"),
    ];
    assert_eq!(find_by_code(200, &registry), Some((200, "first", "a", "b")));
    assert_eq!(find_by_code(404, &registry), Some((404, "other", "c", "d")));
}

#[test]
fn empty_needle_returns_every_record_in_order() {
    assert_eq!(find_by_substring("", &CODE_REGISTRY), CODE_REGISTRY.to_vec());
    assert_eq!(
        find_by_substring("", &UNOFFICIAL_CODE_REGISTRY),
        UNOFFICIAL_CODE_REGISTRY.to_vec()
    );
    assert_eq!(find_by_substring("", &[]), Vec::<StatusRecord>::new());
}

#[test]
fn search_disregards_the_case_of_the_needle() {
    let upper = find_by_substring("TEAPOT", &UNOFFICIAL_CODE_REGISTRY);
    let lower = find_by_substring("teapot", &UNOFFICIAL_CODE_REGISTRY);
    assert_eq!(upper, lower);
    assert_eq!(codes(&upper), vec![418]);
    assert_eq!(
        codes(&find_by_substring("FAILED", &CODE_REGISTRY)),
        vec![412, 417, 424]
    );
    assert_eq!(
        codes(&find_by_substring("Not Found", &CODE_REGISTRY)),
        vec![404]
    );
}

#[test]
fn search_disregards_the_case_of_the_description() {
    let registry: [StatusRecord; 2] = [(1, "ALL CAPS", "", ""), (2, "no caps", "", "")];
    assert_eq!(codes(&find_by_substring("caps", &registry)), vec![1, 2]);
    assert_eq!(codes(&find_by_substring("all", &registry)), vec![1]);
}

#[test]
fn search_twice_gives_the_same_result() {
    for needle in ["", "failed", "teapot", "o", "Prince Adam"] {
        let first = find_by_substring(needle, &CODE_REGISTRY);
        let second = find_by_substring(needle, &CODE_REGISTRY);
        assert_eq!(first, second);
    }
}

#[test]
fn matches_keep_the_order_of_the_registry() {
    let found = find_by_substring("not", &CODE_REGISTRY);
    assert_eq!(codes(&found), vec![304, 404, 405, 406, 416, 501, 505, 510]);
}

#[test]
fn every_matching_record_is_returned_where_codes_repeat() {
    let registry: [StatusRecord; 3] = [
        (200, "Same Name", "a", "b"),
        (201, "Other", "c", "d"),
        (200, "Same Name", "a", "b"),
    ];
    assert_eq!(
        find_by_substring("same", &registry),
        vec![(200, "Same Name", "a", "b"), (200, "Same Name", "a", "b")]
    );
}

#[test]
fn punctuation_and_spaces_are_compared_as_they_stand() {
    assert!(find_by_substring("non authoritative", &CODE_REGISTRY).is_empty());
    assert!(find_by_substring("multi status", &CODE_REGISTRY).is_empty());
    assert!(find_by_substring("non_authoritative", &CODE_REGISTRY).is_empty());
    assert_eq!(
        codes(&find_by_substring("Non-Authoritative", &CODE_REGISTRY)),
        vec![203]
    );
    assert_eq!(codes(&find_by_substring("MULTI-STATUS", &CODE_REGISTRY)), vec![207]);
    assert_eq!(codes(&find_by_substring("(unused)", &CODE_REGISTRY)), vec![306, 418]);
    assert!(find_by_substring("notfound", &CODE_REGISTRY).is_empty());
    assert!(find_by_substring("NotFound", &CODE_REGISTRY).is_empty());
}

#[test]
fn a_capital_inside_a_word_changes_nothing() {
    let mixed = find_by_substring("tEapot", &UNOFFICIAL_CODE_REGISTRY);
    assert_eq!(codes(&mixed), vec![418]);
    assert_eq!(mixed, find_by_substring("teapot", &UNOFFICIAL_CODE_REGISTRY));
    assert_eq!(
        codes(&find_by_substring("fAiLeD", &CODE_REGISTRY)),
        vec![412, 417, 424]
    );
    assert_eq!(codes(&find_by_substring("hTTP vERSION", &CODE_REGISTRY)), vec![505]);
}

#[test]
fn only_the_description_is_searched() {
    assert!(find_by_substring("rfc9110", &CODE_REGISTRY).is_empty());
    assert!(find_by_substring("https", &CODE_REGISTRY).is_empty());
    assert!(find_by_substring("404", &CODE_REGISTRY).is_empty());
}

#[test]
fn texts_that_differ_in_case_alone_have_one_lower_case_form() {
    assert!(same_lower_case_form("TEAPOT", "teapot"));
    assert!(same_lower_case_form("tEapot", "teapot"));
    assert!(same_lower_case_form("Non-Authoritative", "non-authoritative"));
    assert!(same_lower_case_form("", ""));
}

#[test]
fn texts_that_differ_in_more_than_case_have_different_forms() {
    assert!(!same_lower_case_form("tea pot", "teapot"));
    assert!(!same_lower_case_form("multi status", "Multi-Status"));
    assert!(!same_lower_case_form("non_authoritative", "non-authoritative"));
    assert!(!same_lower_case_form("teapot", "teapots"));
    assert!(!same_lower_case_form("", " "));
}

#[test]
fn needles_of_one_form_select_the_same_entries() {
    for (first, second) in [("TEAPOT", "teapot"), ("tEapot", "TeaPot"), ("NOT", "not")] {
        assert!(same_lower_case_form(first, second));
        assert_eq!(
            find_by_substring(first, &CODE_REGISTRY),
            find_by_substring(second, &CODE_REGISTRY)
        );
        assert_eq!(
            find_by_substring(first, &UNOFFICIAL_CODE_REGISTRY),
            find_by_substring(second, &UNOFFICIAL_CODE_REGISTRY)
        );
    }
}

#[test]
fn no_match_gives_an_empty_result() {
    assert!(find_by_substring("teapot", &CODE_REGISTRY).is_empty());
    assert!(find_by_substring("Prince Adam", &UNOFFICIAL_CODE_REGISTRY).is_empty());
    assert!(find_by_substring("anything", &[]).is_empty());
}

#[test]
fn chars_of_gives_the_characters_in_order() {
    assert_eq!(chars_of(""), Vec::<char>::new());
    assert_eq!(chars_of("I'm"), vec!['I', '\'', 'm']);
    assert_eq!(chars_of("naïve ☕"), vec!['n', 'a', 'ï', 'v', 'e', ' ', '☕']);
}

#[test]
fn contains_chars_finds_a_run_at_any_place() {
    assert!(contains("i'm a teapot", "teapot"));
    assert!(contains("i'm a teapot", "i'm"));
    assert!(contains("i'm a teapot", "m a t"));
    assert!(contains("teapot", "teapot"));
    assert!(contains("aab", "ab"));
}

#[test]
fn contains_chars_rejects_what_is_not_a_run() {
    assert!(!contains("i'm a teapot", "teapots"));
    assert!(!contains("i'm a teapot", "tea pot"));
    assert!(!contains("teapot", "TEAPOT"));
    assert!(!contains("pot", "teapot"));
    assert!(!contains("", "a"));
    assert!(!contains("abab", "aa"));
}

#[test]
fn contains_chars_finds_the_empty_needle_everywhere() {
    assert!(contains("", ""));
    assert!(contains("teapot", ""));
}
