use terranames::contracts::auction::state::{
    bytes_equal, bytes_less, calc_range_start_str, collect_name_states, read_name_state,
    read_option_name_state, NameState, DEFAULT_LIMIT, MAX_LIMIT,
};
use terranames::errors::StdError;
use terranames::math::{checked_multiply_ratio, Decimal};
use terranames::utils::Timestamp;

fn record(rate: u128) -> NameState {
    NameState {
        owner: "owner".to_string(),
        controller: None,
        transition_reference_time: Timestamp::zero(),
        rate,
        begin_time: Timestamp::from_seconds(1234),
        begin_deposit: 0,
        previous_owner: None,
        previous_transition_reference_time: Timestamp::zero(),
    }
}

fn entries(names: &[&str]) -> Vec<(Vec<u8>, NameState)> {
    let mut sorted: Vec<&str> = names.to_vec();
    sorted.sort_by(|a, b| a.as_bytes().cmp(b.as_bytes()));
    sorted
        .iter()
        .enumerate()
        .map(|(i, name)| (name.as_bytes().to_vec(), record(i as u128)))
        .collect()
}

fn names(page: &[(String, NameState)]) -> Vec<&str> {
    page.iter().map(|(name, _)| name.as_str()).collect()
}

#[test]
fn range_start_appends_zero_byte() {
    assert_eq!(calc_range_start_str(None), None);
    assert_eq!(calc_range_start_str(Some("")), Some(vec![0]));
    assert_eq!(calc_range_start_str(Some("abc")), Some(vec![b'a', b'b', b'c', 0]));
    assert_eq!(calc_range_start_str(Some("é")), Some(vec![0xc3, 0xa9, 0]));
}

#[test]
fn byte_order_is_lexicographic() {
    let less = |a: &str, b: &str| bytes_less(&a.as_bytes().to_vec(), &b.as_bytes().to_vec());
    assert!(less("abc", "abd"));
    assert!(less("abc", "abcd"));
    assert!(less("", "a"));
    assert!(less("abc-def", "example"));
    assert!(less("example", "other"));
    assert!(less("Z", "a"));
    assert!(!less("abc", "abc"));
    assert!(!less("abd", "abc"));
    assert!(!less("abcd", "abc"));
    assert!(!less("", ""));
    assert!(bytes_less(&vec![0x7f], &vec![0x80]));
    assert!(!bytes_less(&vec![0xff], &vec![0x00, 0xff]));
}

#[test]
fn byte_equality() {
    assert!(bytes_equal(&vec![], &vec![]));
    assert!(bytes_equal(&vec![1, 2, 3], &vec![1, 2, 3]));
    assert!(!bytes_equal(&vec![1, 2, 3], &vec![1, 2, 4]));
    assert!(!bytes_equal(&vec![1, 2, 3], &vec![1, 2]));
    assert!(!bytes_equal(&vec![1, 2], &vec![1, 2, 3]));
}

#[test]
fn records_are_found_by_name() {
    let stored = entries(&["example", "other", "abc-def"]);
    assert_eq!(read_option_name_state(&stored, "abc-def"), Some(record(0)));
    assert_eq!(read_option_name_state(&stored, "example"), Some(record(1)));
    assert_eq!(read_option_name_state(&stored, "other"), Some(record(2)));
    assert_eq!(read_option_name_state(&stored, "exampl"), None);
    assert_eq!(read_option_name_state(&stored, "example2"), None);
    assert_eq!(read_name_state(&stored, "other"), Ok(record(2)));
    assert_eq!(read_name_state(&stored, "missing"), Err(StdError::NotFound));
    assert_eq!(read_name_state(&vec![], "other"), Err(StdError::NotFound));
}

#[test]
fn page_starts_after_the_name_given() {
    let stored = entries(&["a", "ab", "abc", "b", "c"]);
    let page = collect_name_states(&stored, None, None).unwrap();
    assert_eq!(names(&page), vec!["a", "ab", "abc", "b", "c"]);
    let page = collect_name_states(&stored, Some("ab"), None).unwrap();
    assert_eq!(names(&page), vec!["abc", "b", "c"]);
    // The name to start after need not be stored.
    let page = collect_name_states(&stored, Some("aa"), None).unwrap();
    assert_eq!(names(&page), vec!["ab", "abc", "b", "c"]);
    let page = collect_name_states(&stored, Some("c"), None).unwrap();
    assert_eq!(names(&page), Vec::<&str>::new());
    let page = collect_name_states(&stored, Some(""), None).unwrap();
    assert_eq!(names(&page), vec!["a", "ab", "abc", "b", "c"]);
}

#[test]
fn page_carries_the_records() {
    let stored = entries(&["example", "other", "abc-def"]);
    let page = collect_name_states(&stored, Some("abc-def"), Some(1)).unwrap();
    assert_eq!(page, vec![("example".to_string(), record(1))]);
}

#[test]
fn page_limit_defaults_and_is_clamped() {
    assert_eq!(DEFAULT_LIMIT, 10);
    assert_eq!(MAX_LIMIT, 30);
    let all: Vec<String> = (0..40).map(|i| format!("name-{:02}", i)).collect();
    let all: Vec<&str> = all.iter().map(|name| name.as_str()).collect();
    let stored = entries(&all);
    assert_eq!(collect_name_states(&stored, None, None).unwrap().len(), 10);
    assert_eq!(collect_name_states(&stored, None, Some(0)).unwrap().len(), 0);
    assert_eq!(collect_name_states(&stored, None, Some(2)).unwrap().len(), 2);
    assert_eq!(collect_name_states(&stored, None, Some(30)).unwrap().len(), 30);
    assert_eq!(collect_name_states(&stored, None, Some(31)).unwrap().len(), 30);
    assert_eq!(collect_name_states(&stored, None, Some(u32::MAX)).unwrap().len(), 30);
    let page = collect_name_states(&stored, Some("name-34"), Some(30)).unwrap();
    assert_eq!(names(&page), vec!["name-35", "name-36", "name-37", "name-38", "name-39"]);
    let page = collect_name_states(&stored, Some("name-04"), Some(3)).unwrap();
    assert_eq!(names(&page), vec!["name-05", "name-06", "name-07"]);
}

#[test]
fn page_with_invalid_key_fails() {
    let stored = vec![
        (b"abc".to_vec(), record(1)),
        (vec![0xff, 0xfe], record(2)),
    ];
    assert_eq!(collect_name_states(&stored, None, None), Err(StdError::InvalidUtf8));
    // A key that is not on the page does no harm.
    let page = collect_name_states(&stored, None, Some(1)).unwrap();
    assert_eq!(names(&page), vec!["abc"]);
    let stored = vec![
        (vec![0x61, 0x00, 0xff], record(1)),
        (b"abc".to_vec(), record(2)),
    ];
    let page = collect_name_states(&stored, Some("ab"), None).unwrap();
    assert_eq!(names(&page), vec!["abc"]);
}

#[test]
fn page_decodes_keys() {
    let stored = vec![
        (b"abc".to_vec(), record(1)),
        ("nämé".as_bytes().to_vec(), record(2)),
    ];
    let page = collect_name_states(&stored, None, None).unwrap();
    assert_eq!(names(&page), vec!["abc", "nämé"]);
    // What comes back is the name decoded, not the bytes handed in.
    assert_eq!(page[1].0.chars().count(), 4);
    assert_eq!(page[1].0.len(), stored[1].0.len());
}

#[test]
fn pages_follow_each_other() {
    let all: Vec<String> = (0..25).map(|i| format!("name-{:02}", i)).collect();
    let all: Vec<&str> = all.iter().map(|name| name.as_str()).collect();
    let stored = entries(&all);
    for limit in [1u32, 2, 7, 10, 24, 25, 30] {
        let mut seen: Vec<String> = Vec::new();
        let mut cursor: Option<String> = None;
        loop {
            let page = collect_name_states(&stored, cursor.as_deref(), Some(limit)).unwrap();
            if page.is_empty() {
                break;
            }
            cursor = Some(page.last().unwrap().0.clone());
            seen.extend(page.into_iter().map(|(name, _)| name));
        }
        let expected: Vec<String> = all.iter().map(|name| name.to_string()).collect();
        assert_eq!(seen, expected);
    }
    // Two pages one after the other are the page of both their limits.
    let first = collect_name_states(&stored, Some("name-03"), Some(4)).unwrap();
    let second = collect_name_states(&stored, Some(first[3].0.as_str()), Some(5)).unwrap();
    let both = collect_name_states(&stored, Some("name-03"), Some(9)).unwrap();
    assert_eq!([first, second].concat(), both);
}

#[test]
fn limit_of_zero_denominators() {
    assert_eq!(checked_multiply_ratio(5, 3, 0), None);
    assert_eq!(checked_multiply_ratio(0, 0, 0), None);
    assert_eq!(Decimal::from_ratio(1, 0), None);
    assert_eq!(Decimal::from_ratio(0, 0), None);
}
