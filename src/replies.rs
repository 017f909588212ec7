//! The text handed to the text service for a chat or a question, and the
//! replies built from what comes back.

use vstd::prelude::*;
use crate::chunker::{chunk, chunks_spec, views};
use crate::gemini_client::GeminiPrompt;
use crate::identity::{resolved_names, resolved_spec};
use crate::palette::random_index;
use crate::text::{decimal, decimal_spec};
use crate::transcript::{chronological, render_transcript, transcript_spec, ChatMessage};

verus! {

/// How many messages of history a chat reads.
pub const HISTORY_LIMIT: u8 = 100;

/// How many author lookups run at once.
pub const LOOKUP_CONCURRENCY: usize = 100;

/// How many messages of history the invocation counter reads.
pub const INVOCATION_WINDOW: u8 = 18;

/// The largest number of characters in one reply.
pub const MAX_REPLY_CHARS: usize = 4096;

/// The longest question, in bytes, that the 8 ball repeats.
pub const MAX_QUESTION_BYTES: usize = 254;

/// The system instruction of a chat.
pub const CHAT_SYSTEM_INSTRUCTION: &'static str = r#"You are a Discord bot named slowpoke. You are named after
the Pokémon Slowpoke. Respond to the Discord messages in the channel. You will be able to see up to
the last 100 messages in the channel. The messages will be in chronological order. Each message will
be given in the following format:

```
[name: {author name}][time: {timestamp of when message was sent}][isBot: false]: {message_content}
```

The following is a real world example of two messages:

```
[name: Soonay][time: 2025-05-30T19:15Z][isBot: false]: Hello, how are you?
[name: Money Money][time: 2025-05-30T19:16Z][isBot: false]: I'm good how are you?
```

The name and time blocks show the name the person who sent the message and the timestamp in UTC
that the message was sent. Sometimes, channels will include messages from bots. The isBot block
shows if the message was sent by a bot or not. You can also use this to determine if a message in
the channel was sent by you. For example, a message sent by you would look like this since your
name is slowpoke and you are a discord bot:

```
[name: slowpoke][time: 2024-03-14T08:11Z][isBot: true]: Hi! I'm slowpoke, a Discord bot!
```

Generate a response to participate in the conversation. The output of your response should just be
the text of the message. For example, if the message says:

```
[name: jeph][time: 2025-01-20T16:32Z][isBot: false]: Hi slowpoke! How are you doing?
```

Your response should be in the following format without the code block:

```
I'm good jeph! How are you doing?
```

You may see up to the last 100 messages in the channel, but you should only respond to the most
recent messages that are relevant to the conversation. For example:

```
[name: Soonay][time: 2024-01-20T19:15Z][isBot: false]: I like ice cream, do you like ice cream?
[name: Money Money][time: 2025-05-30T19:16Z][isBot: false]: How are you doing today?
```

You would respond to Money Money and ignore Soonay because their question was over a year ago and
no longer relevant to the conversation. You would say something like the following and ignore the
question about ice cream:

```
I'm doing great! Thanks for asking.
```

Aside from the examples responses above (which are meant to be used as a guide and not taken
literally), here are some general guidelines on how to respond:
- Respond in a way that you think would be appropriate for the conversation.
- Try to be helpful. If people are arguing, try to diffuse the situation or resolve the conflict.
- If people are asking questions, try to answer them.
- Be a bit edgy. Not every message needs to be positive, friendly, or politically correct.
- Find opprotunities to roast and troll people.
- Use emojis, but don't overuse them. Not every message needs an emoji.

"#;

/// The system instruction of a question.
pub const PROMPT_SYSTEM_INSTRUCTION: &'static str = r#"Return your response in markdown. Give as complete of an
answer as possible. Assume whoever you're talking to will not be able to respond back so do not ask
for follow-ups. Do not hallucinate."#;

/// The prompt for a chat: the transcript of the history, which arrived
/// newest first, rendered in chronological order with the nicknames that
/// the lookups found, under the chat instruction.
pub fn chat_prompt(newest_first: Vec<ChatMessage>, lookups: Vec<(u64, Option<String>)>) -> (r: GeminiPrompt)
    ensures
        r.prompt@ == transcript_spec(newest_first@.reverse(), resolved_spec(lookups@)),
        r.system_instruction is Some,
        r.system_instruction->0@ == CHAT_SYSTEM_INSTRUCTION@,
{
    let names = resolved_names(lookups);
    let messages = chronological(newest_first);
    let prompt = render_transcript(&messages, &names);
    GeminiPrompt { prompt, system_instruction: Some(String::from_str(CHAT_SYSTEM_INSTRUCTION)) }
}

/// The prompt for a question, under the question instruction.
pub fn question_prompt(question: &str) -> (r: GeminiPrompt)
    ensures
        r.prompt@ == question@,
        r.system_instruction is Some,
        r.system_instruction->0@ == PROMPT_SYSTEM_INSTRUCTION@,
{
    GeminiPrompt {
        prompt: String::from_str(question),
        system_instruction: Some(String::from_str(PROMPT_SYSTEM_INSTRUCTION)),
    }
}

/// One message of a reply sent in parts.
pub struct PagedReply {
    pub description: String,
    /// `{i} / {n}` when the reply has more than one part.
    pub footer: Option<String>,
}

/// The footer of part `i` (from 0) of `n`.
pub open spec fn page_footer(i: nat, n: nat) -> Seq<char> {
    decimal_spec(i + 1) + " / "@ + decimal_spec(n)
}

/// Part `i` of `n` carries `f` as its footer.
pub open spec fn footer_is(f: Option<String>, i: nat, n: nat) -> bool {
    if n == 1 {
        f is None
    } else {
        f is Some && f->0@ == page_footer(i, n)
    }
}

/// The text of a reply to a question: the question in bold italics, a
/// blank line, then the answer.
pub open spec fn answer_body(question: Seq<char>, answer: Seq<char>) -> Seq<char> {
    "***"@ + question + "***\n\n"@ + answer
}

/// The parts numbered for sending in order.
pub fn number_pages(parts: Vec<String>) -> (r: Vec<PagedReply>)
    ensures
        r@.len() == parts@.len(),
        forall|i: int|
            0 <= i < r@.len() ==> (#[trigger] r@[i]).description@ == parts@[i]@
                && footer_is(r@[i].footer, i as nat, parts@.len()),
{
    let n = parts.len();
    let mut rest = parts;
    let mut reversed: Vec<String> = Vec::new();
    while rest.len() > 0
        invariant
            parts@ == rest@ + reversed@.reverse(),
        decreases rest.len(),
    {
        let p = rest.pop().unwrap();
        reversed.push(p);
        assert(parts@ =~= rest@ + reversed@.reverse());
    }
    assert(parts@ =~= reversed@.reverse());
    let mut out: Vec<PagedReply> = Vec::new();
    let mut i: usize = 0;
    while reversed.len() > 0
        invariant
            n == parts@.len(),
            i + reversed@.len() == n,
            out@.len() == i,
            reversed@.reverse() == parts@.subrange(i as int, n as int),
            forall|k: int|
                0 <= k < i ==> (#[trigger] out@[k]).description@ == parts@[k]@
                    && footer_is(out@[k].footer, k as nat, n as nat),
        decreases reversed.len(),
    {
        let ghost before = reversed@;
        let description = reversed.pop().unwrap();
        proof {
            assert(before.reverse()[0] == description);
            assert(parts@.subrange(i as int, n as int)[0] == parts@[i as int]);
            assert(reversed@ =~= before.drop_last());
            assert(reversed@.reverse() =~= before.reverse().drop_first());
            assert(before.reverse().drop_first() =~= parts@.subrange(i + 1, n as int));
        }
        let footer = if n != 1 {
            let mut f = decimal((i + 1) as u64);
            f.append(" / ");
            f.append(decimal(n as u64).as_str());
            Some(f)
        } else {
            None
        };
        out.push(PagedReply { description, footer });
        i = i + 1;
    }
    out
}

/// The replies to a question: the question and the answer, split into
/// parts of at most `max_unit_size` characters, numbered when there is more
/// than one.
pub fn answer_pages(question: &str, answer: &str, max_unit_size: usize) -> (r: Vec<PagedReply>)
    requires
        max_unit_size > 0,
    ensures
        r@.len() == chunks_spec(answer_body(question@, answer@), max_unit_size as nat).len(),
        forall|i: int|
            0 <= i < r@.len() ==> (#[trigger] r@[i]).description@
                == chunks_spec(answer_body(question@, answer@), max_unit_size as nat)[i]
                && footer_is(r@[i].footer, i as nat, r@.len()),
        answer_body(question@, answer@).len() <= max_unit_size ==> r@.len() == 1
            && r@[0].description@ == answer_body(question@, answer@) && r@[0].footer is None,
{
    proof { reveal_strlit("***"); }
    let mut body = String::from_str("***");
    body.append(question);
    body.append("***\n\n");
    body.append(answer);
    let parts = chunk(body.as_str(), max_unit_size);
    let ghost vs = views(parts@);
    let r = number_pages(parts);
    assert forall|i: int| 0 <= i < r@.len() implies (#[trigger] r@[i]).description@ == vs[i] by {
        assert(vs[i] == parts@[i]@);
    }
    r
}

/// The answers of the 8 ball.
pub open spec fn eight_ball_answers_spec() -> Seq<Seq<char>> {
    seq![
        "It is certain"@,
        "Outlook good"@,
        "Most likely"@,
        "Signs point to yes"@,
        "Yes"@,
        "It is decidedly so"@,
        "As I see it, yes"@,
        "You may rely on it"@,
        "Yes definitely"@,
        "Without a doubt"@,
        "The odds are in your favor"@,
        "All signs say yes"@,
        "Absolutely!"@,
        "Without hesitation, yes"@,
        "The universe says yes"@,
        "You can bet on it"@,
        "Yes, without question"@,
        "The answer is a resounding yes"@,
        "It’s a green light"@,
        "Yes, and it’s looking great"@,
        "Don’t count on it"@,
        "My reply is no"@,
        "My sources say no"@,
        "Outlook not so good"@,
        "Very doubtful"@,
        "Not a chance"@,
        "Outlook is grim"@,
        "Absolutely not"@,
        "The stars say no"@,
        "The answer is no"@,
        "I wouldn’t count on it"@,
        "Highly unlikely"@,
        "The universe says no"@,
        "No way"@,
        "The answer is a firm no"@,
        "Negative vibes only"@,
        "The signs aren’t good"@,
        "It’s a red light"@,
        "No, and don’t ask again"@,
    ]
}

/// The answers of the 8 ball.
pub fn eight_ball_answers() -> (r: Vec<&'static str>)
    ensures
        r@.map_values(|s: &str| s@) == eight_ball_answers_spec(),
{
    let r = vec![
        "It is certain",
        "Outlook good",
        "Most likely",
        "Signs point to yes",
        "Yes",
        "It is decidedly so",
        "As I see it, yes",
        "You may rely on it",
        "Yes definitely",
        "Without a doubt",
        "The odds are in your favor",
        "All signs say yes",
        "Absolutely!",
        "Without hesitation, yes",
        "The universe says yes",
        "You can bet on it",
        "Yes, without question",
        "The answer is a resounding yes",
        "It’s a green light",
        "Yes, and it’s looking great",
        "Don’t count on it",
        "My reply is no",
        "My sources say no",
        "Outlook not so good",
        "Very doubtful",
        "Not a chance",
        "Outlook is grim",
        "Absolutely not",
        "The stars say no",
        "The answer is no",
        "I wouldn’t count on it",
        "Highly unlikely",
        "The universe says no",
        "No way",
        "The answer is a firm no",
        "Negative vibes only",
        "The signs aren’t good",
        "It’s a red light",
        "No, and don’t ask again",
    ];
    assert(r@.map_values(|s: &str| s@) =~= eight_ball_answers_spec());
    r
}

/// The number of answers of the 8 ball.
pub const ANSWER_COUNT: usize = 39;

/// The answer at index `i`.
pub fn answer_at(i: usize) -> (r: &'static str)
    requires
        i < ANSWER_COUNT,
    ensures
        r@ == eight_ball_answers_spec()[i as int],
{
    let answers = eight_ball_answers();
    assert(answers@.map_values(|s: &str| s@).len() == answers@.len());
    assert(eight_ball_answers_spec().len() == ANSWER_COUNT);
    assert(answers@.map_values(|s: &str| s@)[i as int] == answers@[i as int]@);
    answers[i]
}

/// What the 8 ball says about a question.
pub struct EightBallReply {
    /// Shown when there is no question, or it is too long.
    pub description: Option<String>,
    /// The question and the answer, shown when the question fits.
    pub field: Option<EmbedField>,
}

/// A named field of an embed.
pub struct EmbedField {
    pub name: String,
    pub value: String,
}

/// The byte length of a text in UTF-8.
pub open spec fn byte_len(s: Seq<char>) -> nat {
    vstd::utf8::encode_utf8(s).len()
}

/// The reply for an optional question and the drawn answer: the answer
/// alone without a question; a request for a shorter question when it has
/// more than `MAX_QUESTION_BYTES` bytes; else the question beside the answer.
pub fn eight_ball_reply(question: Option<String>, answer: &str) -> (r: EightBallReply)
    ensures
        question is None ==> r.field is None && r.description is Some
            && r.description->0@ == "🎱 "@ + answer@,
        question is Some ==> if byte_len(question->0@) > MAX_QUESTION_BYTES {
            r.field is None && r.description is Some
                && r.description->0@ == "🎱 Your question is too long! Try a shorter question."@
        } else {
            r.description is None && r.field is Some && r.field->0.name@ == "❓ "@ + question->0@
                && r.field->0.value@ == "🎱 "@ + answer@
        },
{
    match question {
        None => {
            let mut d = String::from_str("🎱 ");
            d.append(answer);
            EightBallReply { description: Some(d), field: None }
        },
        Some(q) => {
            if q.as_str().as_bytes().len() > MAX_QUESTION_BYTES {
                EightBallReply {
                    description: Some(String::from_str("🎱 Your question is too long! Try a shorter question.")),
                    field: None,
                }
            } else {
                let mut name = String::from_str("❓ ");
                name.append(q.as_str());
                let mut value = String::from_str("🎱 ");
                value.append(answer);
                EightBallReply { description: None, field: Some(EmbedField { name, value }) }
            }
        },
    }
}

/// The reply for an optional question, with an answer drawn at random.
pub fn ask_eight_ball(question: Option<String>) -> (r: EightBallReply)
    ensures
        exists|i: int| 0 <= i < eight_ball_answers_spec().len() && {
            let answer = #[trigger] eight_ball_answers_spec()[i];
            match question {
                None => r.field is None && r.description is Some && r.description->0@ == "🎱 "@ + answer,
                Some(q) => if byte_len(q@) > MAX_QUESTION_BYTES {
                    r.field is None && r.description is Some
                        && r.description->0@ == "🎱 Your question is too long! Try a shorter question."@
                } else {
                    r.description is None && r.field is Some && r.field->0.name@ == "❓ "@ + q@
                        && r.field->0.value@ == "🎱 "@ + answer
                },
            }
        },
{
    let i = random_index(ANSWER_COUNT);
    let answer = answer_at(i);
    eight_ball_reply(question, answer)
}

/// The text that reports a measured latency.
pub fn latency_text(millis: u64) -> (r: String)
    ensures
        r@ == "Latency: "@ + decimal_spec(millis as nat) + " ms"@,
{
    let mut s = String::from_str("Latency: ");
    s.append(decimal(millis).as_str());
    s.append(" ms");
    s
}

} // verus!
