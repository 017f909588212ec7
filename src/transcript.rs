//! Chat messages and the transcript they are rendered into.
//!
//! Each message becomes one line of the form
//! `[name: {name}][time: {YYYY-MM-DDTHH:MMZ}][isBot: {bool}]: {text}` followed
//! by a newline, in chronological order.

use std::collections::HashMap;
use vstd::prelude::*;
use crate::text::{bool_string, bool_text, concat_spec, padded, padded_spec};

verus! {

broadcast use vstd::std_specs::hash::group_hash_axioms;

/// A UTC instant at minute precision.
pub struct UtcMinute {
    pub year: u64,
    pub month: u64,
    pub day: u64,
    pub hour: u64,
    pub minute: u64,
}

/// A message fetched from the chat room.
pub struct ChatMessage {
    pub author_id: u64,
    /// The author's raw handle.
    pub username: String,
    /// The author's platform-wide display name, if they set one.
    pub global_name: Option<String>,
    pub is_bot: bool,
    pub sent_at: UtcMinute,
    pub content: String,
}

impl ChatMessage {
    /// A message whose author can always be named: the handle is not empty,
    /// nor is the global name when there is one.
    pub open spec fn wf(&self) -> bool {
        &&& self.username@.len() > 0
        &&& match self.global_name {
            Some(g) => g@.len() > 0,
            None => true,
        }
    }
}

/// `t` as `YYYY-MM-DDTHH:MMZ`.
pub open spec fn time_text(t: UtcMinute) -> Seq<char> {
    padded_spec(t.year as nat, 4) + "-"@ + padded_spec(t.month as nat, 2) + "-"@
        + padded_spec(t.day as nat, 2) + "T"@ + padded_spec(t.hour as nat, 2) + ":"@
        + padded_spec(t.minute as nat, 2) + "Z"@
}

/// The name shown for a message's author: the room nickname when one was
/// resolved, else the global name on the message, else the raw handle.
pub open spec fn display_name_spec(m: ChatMessage, names: Map<u64, String>) -> Seq<char> {
    if names.contains_key(m.author_id) {
        names[m.author_id]@
    } else {
        match m.global_name {
            Some(g) => g@,
            None => m.username@,
        }
    }
}

/// The transcript line of one message.
pub open spec fn line_spec(m: ChatMessage, names: Map<u64, String>) -> Seq<char> {
    "[name: "@ + display_name_spec(m, names) + "][time: "@ + time_text(m.sent_at)
        + "][isBot: "@ + bool_text(m.is_bot) + "]: "@ + m.content@ + "\n"@
}

/// The lines of the messages, one for each, in the same order.
pub open spec fn lines_spec(ms: Seq<ChatMessage>, names: Map<u64, String>) -> Seq<Seq<char>> {
    ms.map_values(|m: ChatMessage| line_spec(m, names))
}

/// The transcript of the messages: their lines joined in order.
pub open spec fn transcript_spec(ms: Seq<ChatMessage>, names: Map<u64, String>) -> Seq<char> {
    concat_spec(lines_spec(ms, names))
}

/// Writes `t` as `YYYY-MM-DDTHH:MMZ`.
pub fn format_time(t: &UtcMinute) -> (r: String)
    ensures
        r@ == time_text(*t),
{
    let mut s = padded(t.year, 4);
    s.append("-");
    s.append(padded(t.month, 2).as_str());
    s.append("-");
    s.append(padded(t.day, 2).as_str());
    s.append("T");
    s.append(padded(t.hour, 2).as_str());
    s.append(":");
    s.append(padded(t.minute, 2).as_str());
    s.append("Z");
    s
}

/// The name shown for the author of `m`.
pub fn display_name<'a>(m: &'a ChatMessage, names: &'a HashMap<u64, String>) -> (r: &'a str)
    ensures
        r@ == display_name_spec(*m, names@),
{
    match names.get(&m.author_id) {
        Some(name) => name.as_str(),
        None => match &m.global_name {
            Some(g) => g.as_str(),
            None => m.username.as_str(),
        },
    }
}

/// Appends the transcript line of `m` to `out`.
pub fn push_line(out: &mut String, m: &ChatMessage, names: &HashMap<u64, String>)
    ensures
        final(out)@ == old(out)@ + line_spec(*m, names@),
{
    out.append("[name: ");
    out.append(display_name(m, names));
    out.append("][time: ");
    out.append(format_time(&m.sent_at).as_str());
    out.append("][isBot: ");
    out.append(bool_string(m.is_bot));
    out.append("]: ");
    out.append(m.content.as_str());
    out.append("\n");
    assert(final(out)@ =~= old(out)@ + line_spec(*m, names@));
}

/// Renders messages, oldest first, into a transcript: one line per message,
/// in the given order, none dropped.
pub fn render_transcript(messages: &Vec<ChatMessage>, names: &HashMap<u64, String>) -> (r: String)
    ensures
        r@ == transcript_spec(messages@, names@),
{
    let mut out = String::new();
    let mut i: usize = 0;
    while i < messages.len()
        invariant
            i <= messages@.len(),
            out@ == transcript_spec(messages@.subrange(0, i as int), names@),
        decreases messages.len() - i,
    {
        push_line(&mut out, &messages[i], names);
        proof {
            let pre = messages@.subrange(0, i as int);
            let next = messages@.subrange(0, i + 1);
            assert(lines_spec(next, names@).drop_last() =~= lines_spec(pre, names@));
        }
        i = i + 1;
    }
    assert(messages@.subrange(0, i as int) =~= messages@);
    out
}

/// Puts history that arrived newest first into chronological order.
pub fn chronological(newest_first: Vec<ChatMessage>) -> (r: Vec<ChatMessage>)
    ensures
        r@ == newest_first@.reverse(),
{
    let mut rest = newest_first;
    let mut out: Vec<ChatMessage> = Vec::new();
    while rest.len() > 0
        invariant
            newest_first@.reverse() == out@ + rest@.reverse(),
        decreases rest.len(),
    {
        let ghost before = rest@;
        let m = rest.pop().unwrap();
        proof {
            assert(before.reverse() =~= seq![m] + rest@.reverse());
        }
        out.push(m);
        assert(newest_first@.reverse() =~= out@ + rest@.reverse());
    }
    assert(out@ =~= out@ + rest@.reverse());
    out
}

/// Rendering history that arrived newest first, after putting it in
/// chronological order, gives one line per message with the lines in
/// exactly the reverse of the order in which the messages arrived.
pub proof fn lemma_reversed_history_lines(newest_first: Seq<ChatMessage>, names: Map<u64, String>)
    ensures
        lines_spec(newest_first.reverse(), names) =~= Seq::new(
            newest_first.len(),
            |k: int| line_spec(newest_first[newest_first.len() - 1 - k], names),
        ),
        transcript_spec(newest_first.reverse(), names) == concat_spec(
            Seq::new(
                newest_first.len(),
                |k: int| line_spec(newest_first[newest_first.len() - 1 - k], names),
            ),
        ),
{
    let lines = Seq::new(
        newest_first.len(),
        |k: int| line_spec(newest_first[newest_first.len() - 1 - k], names),
    );
    assert(lines_spec(newest_first.reverse(), names) =~= lines);
}

} // verus!
