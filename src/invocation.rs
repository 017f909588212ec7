//! The invocation counter: how many of the bot's own "Tfti" replies open the
//! recent history, and the escalating reply that this count selects.

use vstd::prelude::*;
use crate::palette::Rgb;
use crate::text::{is_prefix, starts_with};

verus! {

/// What the counter reads of a message in the history.
pub struct HistoryMessage {
    pub author_id: u64,
    /// The titles of the message's embeds; `None` for an embed without one.
    pub embed_titles: Vec<Option<String>>,
}

/// An embed to send: title, description and colour.
pub struct ReplyEmbed {
    pub title: String,
    pub description: String,
    pub color: Rgb,
}

/// The marker that the escalating replies' titles begin with.
pub open spec fn marker() -> Seq<char> {
    "Tfti"@
}

/// Whether a title carries the marker.
pub open spec fn title_tagged(t: Option<String>) -> bool {
    match t {
        Some(s) => is_prefix(marker(), s@),
        None => false,
    }
}

/// Whether a message is one of the bot's escalating replies.
pub open spec fn is_tagged(m: HistoryMessage, bot_id: u64) -> bool {
    &&& m.author_id == bot_id
    &&& exists|i: int| 0 <= i < m.embed_titles@.len() && title_tagged(#[trigger] m.embed_titles@[i])
}

/// `n` is the length of the run of tagged messages at the front of `ms`.
pub open spec fn is_leading_run(ms: Seq<HistoryMessage>, bot_id: u64, n: nat) -> bool {
    &&& n <= ms.len()
    &&& forall|i: int| 0 <= i < n ==> is_tagged(#[trigger] ms[i], bot_id)
    &&& n < ms.len() ==> !is_tagged(ms[n as int], bot_id)
}

/// The number of entries in the escalation table.
pub const VARIANT_COUNT: usize = 10;

/// The table entry that a run of `count` selects: the last one stands for
/// every count from its index on.
pub open spec fn variant_index(count: nat) -> nat {
    if count >= VARIANT_COUNT { (VARIANT_COUNT - 1) as nat } else { count }
}

/// The title of table entry `i`.
pub open spec fn variant_title(i: nat) -> Seq<char> {
    if i == 0 { "Tfti"@ }
    else if i == 1 { "Tfti x2"@ }
    else if i == 2 { "Tfti x3"@ }
    else if i == 3 { "Tfti x4"@ }
    else if i == 4 { "Tfti x5"@ }
    else if i == 5 { "Tfti x6"@ }
    else if i == 6 { "Tfti x7"@ }
    else if i == 7 { "Tfti x8"@ }
    else if i == 8 { "Tfti x9"@ }
    else { "Tfti ♾️"@ }
}

/// The description of table entry `i`.
pub open spec fn variant_description(i: nat) -> Seq<char> {
    if i == 0 { "Thanks for the invite, asshole."@ }
    else if i == 1 { "Thanks for the invite, asshole. Oh wait, that was just said."@ }
    else if i == 2 { "Thanks for the invite, asshole. Feels like I'm on repeat here."@ }
    else if i == 3 { "Thanks for the invite, asshole. Guess we'll just keep saying it."@ }
    else if i == 4 { "Thanks for the invite, asshole. I could stop, but why bother?"@ }
    else if i == 5 { "Thanks for the invite, asshole. Just keep pretending I don't exist."@ }
    else if i == 6 { "Thanks for the invite, asshole. Still feels worth repeating."@ }
    else if i == 7 { "Thanks for the invite, asshole. I guess this is just what I do now."@ }
    else if i == 8 { "Thanks for the invite, asshole. Forever and always, from the bottom of my heart."@ }
    else { "Thanks for the invite, asshole. Forever stuck in this loop, I guess."@ }
}

/// The colour of table entry `i`.
pub open spec fn variant_color(i: nat) -> Rgb {
    if i == 0 { Rgb { r: 243, g: 139, b: 168 } }
    else if i == 1 { Rgb { r: 250, g: 179, b: 135 } }
    else if i == 2 { Rgb { r: 166, g: 227, b: 161 } }
    else if i == 3 { Rgb { r: 137, g: 220, b: 235 } }
    else if i == 4 { Rgb { r: 180, g: 190, b: 254 } }
    else if i == 5 { Rgb { r: 203, g: 166, b: 247 } }
    else if i == 6 { Rgb { r: 245, g: 194, b: 231 } }
    else if i == 7 { Rgb { r: 148, g: 226, b: 213 } }
    else if i == 8 { Rgb { r: 245, g: 224, b: 220 } }
    else { Rgb { r: 116, g: 199, b: 236 } }
}

/// Whether one of the titles begins with the marker.
pub fn has_tagged_title(titles: &Vec<Option<String>>) -> (r: bool)
    ensures
        r == exists|i: int| 0 <= i < titles@.len() && title_tagged(#[trigger] titles@[i]),
{
    let mut i: usize = 0;
    while i < titles.len()
        invariant
            i <= titles@.len(),
            forall|k: int| 0 <= k < i ==> !title_tagged(#[trigger] titles@[k]),
        decreases titles.len() - i,
    {
        match &titles[i] {
            Some(t) => {
                if starts_with(t.as_str(), "Tfti") {
                    assert(title_tagged(titles@[i as int]));
                    return true;
                }
            },
            None => {},
        }
        i = i + 1;
    }
    false
}

/// Whether `m` is one of the bot's escalating replies.
pub fn is_tagged_reply(m: &HistoryMessage, bot_id: u64) -> (r: bool)
    ensures
        r == is_tagged(*m, bot_id),
{
    m.author_id == bot_id && has_tagged_title(&m.embed_titles)
}

/// The length of the run of the bot's escalating replies at the front of
/// `history`, which holds the most recent messages first.
pub fn leading_run(history: &Vec<HistoryMessage>, bot_id: u64) -> (r: usize)
    ensures
        is_leading_run(history@, bot_id, r as nat),
{
    let mut n: usize = 0;
    while n < history.len()
        invariant
            n <= history@.len(),
            forall|i: int| 0 <= i < n ==> is_tagged(#[trigger] history@[i], bot_id),
        decreases history.len() - n,
    {
        if !is_tagged_reply(&history[n], bot_id) {
            return n;
        }
        n = n + 1;
    }
    n
}

/// The run length, or 0 when the history could not be fetched.
pub fn invocation_count(history: &Option<Vec<HistoryMessage>>, bot_id: u64) -> (r: usize)
    ensures
        match history {
            Some(h) => is_leading_run(h@, bot_id, r as nat),
            None => r == 0,
        },
{
    match history {
        Some(h) => leading_run(h, bot_id),
        None => 0,
    }
}

/// The reply selected by a run of `count` earlier replies.
pub fn escalation_reply(count: usize) -> (r: ReplyEmbed)
    ensures
        r.title@ == variant_title(variant_index(count as nat)),
        r.description@ == variant_description(variant_index(count as nat)),
        r.color == variant_color(variant_index(count as nat)),
{
    let (title, description, color) = if count == 0 {
        ("Tfti", "Thanks for the invite, asshole.", Rgb { r: 243, g: 139, b: 168 })
    } else if count == 1 {
        ("Tfti x2", "Thanks for the invite, asshole. Oh wait, that was just said.", Rgb { r: 250, g: 179, b: 135 })
    } else if count == 2 {
        ("Tfti x3", "Thanks for the invite, asshole. Feels like I'm on repeat here.", Rgb { r: 166, g: 227, b: 161 })
    } else if count == 3 {
        ("Tfti x4", "Thanks for the invite, asshole. Guess we'll just keep saying it.", Rgb { r: 137, g: 220, b: 235 })
    } else if count == 4 {
        ("Tfti x5", "Thanks for the invite, asshole. I could stop, but why bother?", Rgb { r: 180, g: 190, b: 254 })
    } else if count == 5 {
        ("Tfti x6", "Thanks for the invite, asshole. Just keep pretending I don't exist.", Rgb { r: 203, g: 166, b: 247 })
    } else if count == 6 {
        ("Tfti x7", "Thanks for the invite, asshole. Still feels worth repeating.", Rgb { r: 245, g: 194, b: 231 })
    } else if count == 7 {
        ("Tfti x8", "Thanks for the invite, asshole. I guess this is just what I do now.", Rgb { r: 148, g: 226, b: 213 })
    } else if count == 8 {
        ("Tfti x9", "Thanks for the invite, asshole. Forever and always, from the bottom of my heart.", Rgb { r: 245, g: 224, b: 220 })
    } else {
        ("Tfti ♾️", "Thanks for the invite, asshole. Forever stuck in this loop, I guess.", Rgb { r: 116, g: 199, b: 236 })
    };
    ReplyEmbed { title: String::from_str(title), description: String::from_str(description), color }
}

/// The reply to an invocation, given the recent history (most recent first)
/// or `None` when it could not be fetched.
pub fn invocation_reply(history: &Option<Vec<HistoryMessage>>, bot_id: u64) -> (r: ReplyEmbed)
    ensures
        exists|n: nat| {
            &&& match history {
                Some(h) => is_leading_run(h@, bot_id, n),
                None => n == 0,
            }
            &&& r.title@ == variant_title(variant_index(n))
            &&& r.description@ == variant_description(variant_index(n))
            &&& r.color == variant_color(variant_index(n))
        },
{
    let count = invocation_count(history, bot_id);
    escalation_reply(count)
}

/// The run length at the front of a history is unique: it is the number of
/// tagged messages before the first untagged one.
pub proof fn lemma_leading_run_unique(ms: Seq<HistoryMessage>, bot_id: u64, a: nat, b: nat)
    requires
        is_leading_run(ms, bot_id, a),
        is_leading_run(ms, bot_id, b),
    ensures
        a == b,
{
    if a < b {
        assert(is_tagged(ms[a as int], bot_id));
    } else if b < a {
        assert(is_tagged(ms[b as int], bot_id));
    }
}

} // verus!
