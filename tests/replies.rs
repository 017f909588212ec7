use slowpoke::activity::{activities, activity_at, random_activity, ActivityKind};
use slowpoke::palette::{error_color, palette, palette_color, random_palette_color, Rgb};
use slowpoke::replies::{
    answer_at, answer_pages, ask_eight_ball, eight_ball_answers, eight_ball_reply, latency_text, number_pages, question_prompt,
};
use slowpoke::text::{decimal, padded, starts_with};

#[test]
fn decimal_and_padding() {
    assert_eq!(decimal(0), "0");
    assert_eq!(decimal(42), "42");
    assert_eq!(decimal(18446744073709551615), "18446744073709551615");
    assert_eq!(padded(5, 2), "05");
    assert_eq!(padded(123, 2), "123");
    assert_eq!(padded(9, 4), "0009");
    assert!(starts_with("image/png", "image/"));
    assert!(!starts_with("ima", "image/"));
}

#[test]
fn single_page_has_no_footer() {
    let pages = answer_pages("q", "answer", 4096);
    assert_eq!(pages.len(), 1);
    assert_eq!(pages[0].description, "***q***\n\nanswer");
    assert!(pages[0].footer.is_none());
}

#[test]
fn pages_are_numbered_in_order() {
    let pages = number_pages(vec!["a".to_string(), "b".to_string(), "c".to_string()]);
    let footers: Vec<String> = pages.iter().map(|p| p.footer.clone().unwrap()).collect();
    assert_eq!(footers, vec!["1 / 3", "2 / 3", "3 / 3"]);
    assert_eq!(pages[2].description, "c");
}

#[test]
fn long_answer_pages_rebuild_the_body() {
    let answer = "word ".repeat(30);
    let pages = answer_pages("Q", &answer, 40);
    assert!(pages.len() > 1);
    let joined: String = pages.iter().map(|p| p.description.as_str()).collect();
    assert_eq!(joined, format!("***Q***\n\n{}", answer));
    assert_eq!(pages[0].footer.as_deref(), Some(format!("1 / {}", pages.len()).as_str()));
}

#[test]
fn eight_ball_variants() {
    let none = eight_ball_reply(None, "Yes");
    assert_eq!(none.description.as_deref(), Some("🎱 Yes"));
    assert!(none.field.is_none());
    let asked = eight_ball_reply(Some("Will it rain?".to_string()), "No way");
    let field = asked.field.unwrap();
    assert_eq!(field.name, "❓ Will it rain?");
    assert_eq!(field.value, "🎱 No way");
    assert!(asked.description.is_none());
    let long = eight_ball_reply(Some("x".repeat(255)), "Yes");
    assert_eq!(long.description.as_deref(), Some("🎱 Your question is too long! Try a shorter question."));
    let limit = eight_ball_reply(Some("x".repeat(254)), "Yes");
    assert!(limit.field.is_some());
}

#[test]
fn eight_ball_draws_a_listed_answer() {
    let answers = eight_ball_answers();
    assert_eq!(answers.len(), 39);
    let r = ask_eight_ball(None);
    let d = r.description.unwrap();
    assert!(answers.iter().any(|a| d == format!("🎱 {}", a)));
}

#[test]
fn latency_is_reported_in_millis() {
    assert_eq!(latency_text(153), "Latency: 153 ms");
}

#[test]
fn question_prompt_keeps_question() {
    let p = question_prompt("why?");
    assert_eq!(p.prompt, "why?");
    assert!(p.system_instruction.unwrap().starts_with("Return your response in markdown."));
}

#[test]
fn palette_and_activities() {
    let colors = palette();
    assert_eq!(colors.len(), 12);
    assert!(colors.contains(&random_palette_color()));
    let acts = activities();
    assert_eq!(acts.len(), 17);
    assert_eq!(acts[0].kind, ActivityKind::Playing);
    assert_eq!(acts[0].name, "Pokémon");
    let a = random_activity();
    assert!(acts.iter().any(|b| b.kind == a.kind && b.name == a.name));
}

#[test]
fn ten_characters_are_one_page() {
    let pages = answer_pages("a", "b", 4096);
    assert_eq!(pages.len(), 1);
    assert_eq!(pages[0].description, "***a***\n\nb");
    assert!(pages[0].footer.is_none());
}

#[test]
fn indexed_entries() {
    assert_eq!(palette_color(0), Rgb { r: 245, g: 194, b: 231 });
    assert_eq!(palette_color(11), Rgb { r: 180, g: 190, b: 254 });
    assert_eq!(error_color(), Rgb { r: 231, g: 76, b: 60 });
    let last = activity_at(16);
    assert_eq!(last.kind, ActivityKind::Custom);
    assert_eq!(last.name, "Waiting in line at Den Social");
    assert_eq!(activity_at(6).name, "JasonTheWeen");
    assert_eq!(answer_at(0), "It is certain");
    assert_eq!(answer_at(38), "No, and don’t ask again");
}
