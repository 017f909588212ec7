use slowpoke::identity::{distinct_authors, resolved_names};
use slowpoke::transcript::{ChatMessage, UtcMinute};

fn by(author_id: u64) -> ChatMessage {
    ChatMessage {
        author_id,
        username: format!("user{}", author_id),
        global_name: None,
        is_bot: false,
        sent_at: UtcMinute { year: 2024, month: 1, day: 1, hour: 0, minute: 0 },
        content: String::new(),
    }
}

#[test]
fn distinct_authors_once_each_in_first_order() {
    let ms = vec![by(3), by(1), by(3), by(2), by(1)];
    assert_eq!(distinct_authors(&ms), vec![3, 1, 2]);
    assert_eq!(distinct_authors(&Vec::new()), Vec::<u64>::new());
}

#[test]
fn only_failed_lookups_are_absent() {
    let names = resolved_names(vec![
        (1, Some("One".to_string())),
        (2, None),
        (3, Some(String::new())),
    ]);
    assert_eq!(names.len(), 2);
    assert_eq!(names.get(&1).map(|s| s.as_str()), Some("One"));
    assert!(!names.contains_key(&2));
    assert_eq!(names.get(&3).map(|s| s.as_str()), Some(""));
}

#[test]
fn resolved_keys_are_among_authors() {
    let authors = distinct_authors(&vec![by(7), by(8), by(9)]);
    let results: Vec<(u64, Option<String>)> =
        authors.iter().map(|a| (*a, if *a == 8 { None } else { Some(format!("n{}", a)) })).collect();
    let names = resolved_names(results);
    for k in names.keys() {
        assert!(authors.contains(k));
    }
    assert_eq!(names.len(), 2);
}

#[test]
fn later_lookup_overrides_earlier() {
    let names = resolved_names(vec![(1, Some("Old".to_string())), (1, Some("New".to_string()))]);
    assert_eq!(names.get(&1).map(|s| s.as_str()), Some("New"));
}
