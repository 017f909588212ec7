use slowpoke::invocation::{escalation_reply, invocation_count, invocation_reply, leading_run, HistoryMessage};
use slowpoke::palette::Rgb;

const BOT: u64 = 42;

fn tagged(title: &str) -> HistoryMessage {
    HistoryMessage { author_id: BOT, embed_titles: vec![Some(title.to_string())] }
}

#[test]
fn three_tagged_then_untagged_counts_three() {
    let history = vec![
        tagged("Tfti x3"),
        tagged("Tfti x2"),
        tagged("Tfti"),
        HistoryMessage { author_id: 7, embed_titles: vec![] },
        tagged("Tfti"),
    ];
    assert_eq!(leading_run(&history, BOT), 3);
    let reply = escalation_reply(3);
    assert_eq!(reply.title, "Tfti x4");
    assert_eq!(reply.description, "Thanks for the invite, asshole. Guess we'll just keep saying it.");
    assert_eq!(reply.color, Rgb { r: 137, g: 220, b: 235 });
    assert_eq!(invocation_reply(&Some(history), BOT).title, "Tfti x4");
}

#[test]
fn run_stops_at_bot_message_without_marker() {
    let history = vec![
        tagged("Tfti"),
        HistoryMessage { author_id: BOT, embed_titles: vec![Some("8 Ball Has Spoken".to_string()), None] },
        tagged("Tfti"),
    ];
    assert_eq!(leading_run(&history, BOT), 1);
}

#[test]
fn marker_from_another_author_does_not_count() {
    let history = vec![HistoryMessage { author_id: 1, embed_titles: vec![Some("Tfti".to_string())] }];
    assert_eq!(leading_run(&history, BOT), 0);
}

#[test]
fn any_tagged_embed_counts() {
    let history = vec![HistoryMessage {
        author_id: BOT,
        embed_titles: vec![None, Some("Other".to_string()), Some("Tfti ♾️".to_string())],
    }];
    assert_eq!(leading_run(&history, BOT), 1);
}

#[test]
fn failed_fetch_counts_zero() {
    assert_eq!(invocation_count(&None, BOT), 0);
    let reply = invocation_reply(&None, BOT);
    assert_eq!(reply.title, "Tfti");
    assert_eq!(reply.description, "Thanks for the invite, asshole.");
    assert_eq!(reply.color, Rgb { r: 243, g: 139, b: 168 });
}

#[test]
fn long_runs_reach_the_overflow_variant() {
    assert_eq!(escalation_reply(8).title, "Tfti x9");
    assert_eq!(escalation_reply(9).title, "Tfti ♾️");
    assert_eq!(escalation_reply(17).title, "Tfti ♾️");
    let history: Vec<HistoryMessage> = (0..18).map(|_| tagged("Tfti x9")).collect();
    assert_eq!(leading_run(&history, BOT), 18);
    assert_eq!(invocation_reply(&Some(history), BOT).description, "Thanks for the invite, asshole. Forever stuck in this loop, I guess.");
}
