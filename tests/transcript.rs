use std::collections::HashMap;

use slowpoke::identity::resolved_names;
use slowpoke::replies::chat_prompt;
use slowpoke::transcript::{chronological, display_name, format_time, render_transcript, ChatMessage, UtcMinute};

fn at(hour: u64, minute: u64) -> UtcMinute {
    UtcMinute { year: 2025, month: 5, day: 30, hour, minute }
}

fn message(author_id: u64, username: &str, global_name: Option<&str>, is_bot: bool, minute: u64, content: &str) -> ChatMessage {
    ChatMessage {
        author_id,
        username: username.to_string(),
        global_name: global_name.map(|g| g.to_string()),
        is_bot,
        sent_at: at(19, minute),
        content: content.to_string(),
    }
}

#[test]
fn time_is_minute_precision_iso() {
    assert_eq!(format_time(&at(19, 15)), "2025-05-30T19:15Z");
    let early = UtcMinute { year: 7, month: 1, day: 2, hour: 3, minute: 4 };
    assert_eq!(format_time(&early), "0007-01-02T03:04Z");
}

#[test]
fn single_line_follows_grammar() {
    let names = HashMap::new();
    let ms = vec![message(1, "soonay", None, false, 15, "Hello, how are you?")];
    assert_eq!(
        render_transcript(&ms, &names),
        "[name: soonay][time: 2025-05-30T19:15Z][isBot: false]: Hello, how are you?\n"
    );
}

#[test]
fn empty_text_still_gives_a_line() {
    let names = HashMap::new();
    let ms = vec![message(1, "bot", None, true, 1, "")];
    assert_eq!(render_transcript(&ms, &names), "[name: bot][time: 2025-05-30T19:01Z][isBot: true]: \n");
}

#[test]
fn no_messages_give_empty_transcript() {
    let names = HashMap::new();
    assert_eq!(render_transcript(&Vec::new(), &names), "");
}

#[test]
fn name_falls_back_from_nickname_to_global_to_handle() {
    let mut names = HashMap::new();
    names.insert(1u64, "Nick".to_string());
    let a = message(1, "handle1", Some("Global1"), false, 0, "x");
    let b = message(2, "handle2", Some("Global2"), false, 0, "x");
    let c = message(3, "handle3", None, false, 0, "x");
    assert_eq!(display_name(&a, &names), "Nick");
    assert_eq!(display_name(&b, &names), "Global2");
    assert_eq!(display_name(&c, &names), "handle3");
}

#[test]
fn reversal_puts_lines_in_chronological_order() {
    let newest_first = vec![
        message(1, "c", None, false, 3, "third"),
        message(1, "c", None, false, 2, "second"),
        message(1, "c", None, false, 1, "first"),
    ];
    let ordered = chronological(newest_first);
    let contents: Vec<&str> = ordered.iter().map(|m| m.content.as_str()).collect();
    assert_eq!(contents, vec!["first", "second", "third"]);
    let text = render_transcript(&ordered, &HashMap::new());
    let lines: Vec<&str> = text.lines().collect();
    assert_eq!(lines.len(), 3);
    assert!(lines[0].ends_with(": first"));
    assert!(lines[1].ends_with(": second"));
    assert!(lines[2].ends_with(": third"));
}

#[test]
fn three_messages_two_authors_end_to_end() {
    let newest_first = vec![
        message(20, "money", Some("Money Money"), false, 17, "Good, you?"),
        message(10, "soonay", Some("Soonay G"), false, 16, "How are you?"),
        message(20, "money", Some("Money Money"), false, 15, "Hi"),
    ];
    let lookups = vec![(10u64, Some("Soonay".to_string())), (20u64, None)];
    let prompt = chat_prompt(newest_first, lookups);
    assert_eq!(
        prompt.prompt,
        "[name: Money Money][time: 2025-05-30T19:15Z][isBot: false]: Hi\n\
         [name: Soonay][time: 2025-05-30T19:16Z][isBot: false]: How are you?\n\
         [name: Money Money][time: 2025-05-30T19:17Z][isBot: false]: Good, you?\n"
    );
    assert_eq!(prompt.prompt.lines().count(), 3);
    assert!(prompt.system_instruction.unwrap().starts_with("You are a Discord bot named slowpoke."));
}

#[test]
fn resolved_names_feed_the_renderer() {
    let names = resolved_names(vec![(5u64, Some("Room Nick".to_string()))]);
    let ms = vec![message(5, "h", Some("G"), false, 0, "yo")];
    assert!(render_transcript(&ms, &names).starts_with("[name: Room Nick]"));
}
