use slowpoke::chunker::{check_chunking, chunk, fixed_chunks, select_chunks};

#[test]
fn short_text_is_one_part() {
    let parts = chunk("0123456789", 4096);
    assert_eq!(parts, vec!["0123456789".to_string()]);
}

#[test]
fn empty_text_gives_no_parts() {
    assert!(chunk("", 4096).is_empty());
}

#[test]
fn long_markdown_round_trips_within_limit() {
    let mut text = String::new();
    for i in 0..60 {
        text.push_str(&format!("## Heading {}\n\nSome paragraph text number {} with a few words.\n\n- item a\n- item b\n\n", i, i));
    }
    let parts = chunk(&text, 200);
    assert!(parts.len() > 1);
    assert_eq!(parts.concat(), text);
    for p in &parts {
        let n = p.chars().count();
        assert!(n > 0 && n <= 200);
    }
}

#[test]
fn multibyte_text_round_trips() {
    let text = "héllo wörld 🎱 ".repeat(50);
    let parts = chunk(&text, 37);
    assert_eq!(parts.concat(), text);
    assert!(parts.iter().all(|p| p.chars().count() <= 37));
}

#[test]
fn fixed_chunks_cut_by_characters() {
    assert_eq!(fixed_chunks("abcdefg", 3), vec!["abc".to_string(), "def".to_string(), "g".to_string()]);
    assert_eq!(fixed_chunks("ééé", 2), vec!["éé".to_string(), "é".to_string()]);
}

#[test]
fn bad_proposal_falls_back_to_fixed_pieces() {
    let proposed = vec!["ab".to_string(), "XX".to_string()];
    assert!(!check_chunking("abcd", &proposed, 2));
    assert_eq!(select_chunks("abcd", proposed, 2), vec!["ab".to_string(), "cd".to_string()]);
    let too_long = vec!["abcd".to_string()];
    assert_eq!(select_chunks("abcd", too_long, 3), vec!["abc".to_string(), "d".to_string()]);
}

#[test]
fn good_proposal_is_kept() {
    let proposed = vec!["a\n\n".to_string(), "bc".to_string()];
    assert!(check_chunking("a\n\nbc", &proposed, 3));
    assert_eq!(select_chunks("a\n\nbc", proposed.clone(), 3), proposed);
}

#[test]
fn parts_break_between_words() {
    let text = "aaaa bbbb cccc dddd";
    let parts = chunk(text, 6);
    assert_eq!(parts.concat(), text);
    for pair in parts.windows(2) {
        let last = pair[0].chars().last().unwrap();
        let first = pair[1].chars().next().unwrap();
        assert!(last.is_whitespace() || first.is_whitespace(), "{:?}", parts);
    }
}
