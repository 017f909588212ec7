//! Splitting a long reply into parts that each fit one chat message.
//!
//! Markdown-aware splitting is done by `text_splitter`, with trimming turned
//! off so that no character is lost between parts. Its proposal is accepted
//! when the parts, joined in order, give back the text and each part is
//! non-empty and within the limit; otherwise the text is cut into
//! consecutive pieces of at most the limit. An empty text gives no parts.

use vstd::prelude::*;
use crate::text::{chars_of, concat_spec, is_prefix};

verus! {

/// The parts that `text_splitter`'s markdown splitter makes of `text` with a
/// capacity of `max` characters and trimming turned off.
pub uninterp spec fn markdown_split(text: Seq<char>, max: nat) -> Seq<Seq<char>>;

/// The views of a list of strings.
pub open spec fn views(parts: Seq<String>) -> Seq<Seq<char>> {
    parts.map_values(|s: String| s@)
}

/// Parts that are non-empty, within `max` characters, and join back into `text`.
pub open spec fn is_chunking(parts: Seq<Seq<char>>, text: Seq<char>, max: nat) -> bool {
    &&& concat_spec(parts) == text
    &&& forall|i: int| 0 <= i < parts.len() ==> 0 < #[trigger] parts[i].len() <= max
}

/// `text` cut into consecutive pieces of `max` characters, the last one
/// possibly shorter.
pub open spec fn fixed_split(text: Seq<char>, max: nat) -> Seq<Seq<char>>
    decreases text.len(),
{
    if text.len() == 0 || max == 0 {
        Seq::empty()
    } else if text.len() <= max {
        seq![text]
    } else {
        seq![text.subrange(0, max as int)] + fixed_split(text.subrange(max as int, text.len() as int), max)
    }
}

/// The parts that `chunk` gives: a non-empty text within the limit as one
/// part, else the splitter's proposal when it is a chunking, else fixed
/// pieces.
pub open spec fn chunks_spec(text: Seq<char>, max: nat) -> Seq<Seq<char>> {
    if 0 < text.len() <= max {
        seq![text]
    } else if is_chunking(markdown_split(text, max), text, max) {
        markdown_split(text, max)
    } else {
        fixed_split(text, max)
    }
}

pub proof fn lemma_concat_prepend(a: Seq<char>, rest: Seq<Seq<char>>)
    ensures
        concat_spec(seq![a] + rest) == a + concat_spec(rest),
    decreases rest.len(),
{
    let whole = seq![a] + rest;
    if rest.len() == 0 {
        assert(whole =~= seq![a]);
        assert(whole.drop_last() =~= Seq::<Seq<char>>::empty());
        assert(concat_spec(whole.drop_last()) == Seq::<char>::empty());
        assert(concat_spec(whole) == Seq::<char>::empty() + a);
        assert(Seq::<char>::empty() + a =~= a);
        assert(concat_spec(rest) == Seq::<char>::empty());
        assert(a + Seq::<char>::empty() =~= a);
    } else {
        lemma_concat_prepend(a, rest.drop_last());
        assert(whole.drop_last() =~= seq![a] + rest.drop_last());
        assert(whole.last() == rest.last());
        assert(concat_spec(whole) == concat_spec(whole.drop_last()) + whole.last());
        assert(concat_spec(rest) == concat_spec(rest.drop_last()) + rest.last());
        assert(a + concat_spec(rest.drop_last()) + rest.last() =~= a + (concat_spec(rest.drop_last()) + rest.last()));
    }
}

pub proof fn lemma_concat_push(parts: Seq<Seq<char>>, p: Seq<char>)
    ensures
        concat_spec(parts.push(p)) == concat_spec(parts) + p,
{
    assert(parts.push(p).drop_last() =~= parts);
}

/// Cutting into fixed pieces is a chunking whenever the limit is positive.
pub proof fn lemma_fixed_split_is_chunking(text: Seq<char>, max: nat)
    requires
        max > 0,
    ensures
        is_chunking(fixed_split(text, max), text, max),
    decreases text.len(),
{
    let parts = fixed_split(text, max);
    if text.len() == 0 {
        assert(parts =~= Seq::<Seq<char>>::empty());
        assert(concat_spec(parts) == Seq::<char>::empty());
        assert(text =~= Seq::<char>::empty());
    } else if text.len() <= max {
        assert(parts == seq![text]);
        assert(parts.drop_last() =~= Seq::<Seq<char>>::empty());
        assert(concat_spec(parts) == concat_spec(parts.drop_last()) + parts.last());
        assert(Seq::<char>::empty() + text =~= text);
        assert(parts[0] == text);
    } else {
        let head = text.subrange(0, max as int);
        let tail = text.subrange(max as int, text.len() as int);
        lemma_fixed_split_is_chunking(tail, max);
        lemma_concat_prepend(head, fixed_split(tail, max));
        assert(parts == seq![head] + fixed_split(tail, max));
        assert(head + tail =~= text);
        assert forall|i: int| 0 <= i < parts.len() implies 0 < #[trigger] parts[i].len() <= max by {
            if i > 0 {
                assert(parts[i] == fixed_split(tail, max)[i - 1]);
            } else {
                assert(parts[i] == head);
            }
        }
    }
}

/// Whatever the outside splitter proposes, the parts that `chunk` gives
/// join back, in order, into exactly the text, and each holds at least one
/// and at most `max` characters.
pub proof fn lemma_chunk_round_trip(text: Seq<char>, max: nat)
    requires
        max > 0,
    ensures
        is_chunking(chunks_spec(text, max), text, max),
        concat_spec(chunks_spec(text, max)) == text,
{
    lemma_fixed_split_is_chunking(text, max);
    if 0 < text.len() <= max {
        assert(seq![text].drop_last() =~= Seq::<Seq<char>>::empty());
        assert(concat_spec(seq![text]) == concat_spec(seq![text].drop_last()) + text);
        assert(Seq::<char>::empty() + text =~= text);
        assert(seq![text][0] == text);
    }
}

/// Relies on `text_splitter::MarkdownSplitter::chunks`: the markdown-aware
/// parts of `text` for a capacity of `max_unit_size` characters, untrimmed.
#[verifier::external_body]
fn markdown_chunks(text: &str, max_unit_size: usize) -> (r: Vec<String>)
    ensures
        views(r@) == markdown_split(text@, max_unit_size as nat),
{
    let config = text_splitter::ChunkConfig::new(max_unit_size).with_trim(false);
    let splitter = text_splitter::MarkdownSplitter::new(config);
    splitter.chunks(text).map(|c| c.to_string()).collect()
}

/// Cuts `text` into consecutive pieces of `max_unit_size` characters.
pub fn fixed_chunks(text: &str, max_unit_size: usize) -> (r: Vec<String>)
    requires
        max_unit_size > 0,
    ensures
        views(r@) == fixed_split(text@, max_unit_size as nat),
{
    let n = text.unicode_len();
    let ghost max = max_unit_size as nat;
    let mut out: Vec<String> = Vec::new();
    let mut pos: usize = 0;
    assert(text@.subrange(0, n as int) =~= text@);
    assert(views(out@) =~= Seq::<Seq<char>>::empty());
    assert(views(out@) + fixed_split(text@, max) =~= fixed_split(text@, max));
    while pos < n
        invariant
            n == text@.len(),
            pos <= n,
            max_unit_size > 0,
            max == max_unit_size as nat,
            views(out@) + fixed_split(text@.subrange(pos as int, n as int), max) == fixed_split(text@, max),
        decreases n - pos,
    {
        let ghost rest = text@.subrange(pos as int, n as int);
        let end: usize = if n - pos <= max_unit_size { n } else { pos + max_unit_size };
        let piece = String::from_str(text.substring_char(pos, end));
        proof {
            if n - pos <= max_unit_size {
                assert(fixed_split(rest, max) == seq![rest]);
                assert(text@.subrange(end as int, n as int).len() == 0);
                assert(fixed_split(text@.subrange(end as int, n as int), max) =~= Seq::<Seq<char>>::empty());
                assert(piece@ =~= rest);
            } else {
                assert(rest.subrange(0, max as int) =~= piece@);
                assert(rest.subrange(max as int, rest.len() as int) =~= text@.subrange(end as int, n as int));
            }
            assert(views(out@.push(piece)) =~= views(out@).push(piece@));
            assert(views(out@).push(piece@) + fixed_split(text@.subrange(end as int, n as int), max)
                =~= views(out@) + (seq![piece@] + fixed_split(text@.subrange(end as int, n as int), max)));
        }
        out.push(piece);
        pos = end;
    }
    proof {
        assert(text@.subrange(pos as int, n as int).len() == 0);
        assert(fixed_split(text@.subrange(pos as int, n as int), max) =~= Seq::<Seq<char>>::empty());
        assert(views(out@) + Seq::<Seq<char>>::empty() =~= views(out@));
    }
    out
}

/// Whether `parts` is a chunking of `text` within `max_unit_size`.
pub fn check_chunking(text: &str, parts: &Vec<String>, max_unit_size: usize) -> (r: bool)
    ensures
        r == is_chunking(views(parts@), text@, max_unit_size as nat),
{
    let chars = chars_of(text);
    let n = chars.len();
    let mut pos: usize = 0;
    let mut j: usize = 0;
    while j < parts.len()
        invariant
            chars@ == text@,
            n == chars@.len(),
            j <= parts@.len(),
            pos <= n,
            concat_spec(views(parts@.subrange(0, j as int))) == text@.subrange(0, pos as int),
            forall|i: int| 0 <= i < j ==> 0 < #[trigger] parts@[i]@.len() <= max_unit_size,
        decreases parts.len() - j,
    {
        let part = chars_of(parts[j].as_str());
        let len = part.len();
        if len == 0 || len > max_unit_size {
            proof {
                assert(views(parts@)[j as int] == parts@[j as int]@);
            }
            return false;
        }
        if len > n - pos {
            proof { lemma_not_prefix_when_longer(text@, parts@, j as int, pos as int); }
            return false;
        }
        let mut k: usize = 0;
        while k < len
            invariant
                chars@ == text@,
                n == chars@.len(),
                j < parts@.len(),
                concat_spec(views(parts@.subrange(0, j as int))) == text@.subrange(0, pos as int),
                part@ == parts@[j as int]@,
                len == part@.len(),
                pos + len <= n,
                k <= len,
                text@.subrange(pos as int, pos + k) == part@.subrange(0, k as int),
            decreases len - k,
        {
            if chars[pos + k] != part[k] {
                proof { lemma_not_prefix_when_differs(text@, parts@, j as int, pos as int, k as int); }
                return false;
            }
            assert(text@.subrange(pos as int, pos + k + 1) =~= part@.subrange(0, k + 1));
            k = k + 1;
        }
        proof {
            assert(part@.subrange(0, len as int) =~= part@);
            let pre = views(parts@.subrange(0, j as int));
            let next = views(parts@.subrange(0, j + 1));
            assert(next =~= pre.push(parts@[j as int]@));
            lemma_concat_push(pre, parts@[j as int]@);
            assert(text@.subrange(0, pos as int) + text@.subrange(pos as int, pos + len) =~= text@.subrange(0, pos + len));
        }
        pos = pos + len;
        j = j + 1;
    }
    assert(parts@.subrange(0, j as int) =~= parts@);
    if pos < n {
        assert(text@.subrange(0, pos as int).len() != text@.len());
        return false;
    }
    assert(text@.subrange(0, pos as int) =~= text@);
    proof {
        let vs = views(parts@);
        assert forall|i: int| 0 <= i < vs.len() implies 0 < #[trigger] vs[i].len() <= max_unit_size by {
            assert(vs[i] == parts@[i]@);
        }
    }
    true
}

proof fn lemma_concat_prefix_of_whole(parts: Seq<Seq<char>>, j: int)
    requires
        0 <= j <= parts.len(),
    ensures
        is_prefix(concat_spec(parts.subrange(0, j)), concat_spec(parts)),
        j < parts.len() ==> is_prefix(concat_spec(parts.subrange(0, j)) + parts[j], concat_spec(parts)),
    decreases parts.len() - j,
{
    if j < parts.len() {
        lemma_concat_prefix_of_whole(parts, j + 1);
        assert(parts.subrange(0, j + 1).drop_last() =~= parts.subrange(0, j));
        assert(parts.subrange(0, j + 1).last() == parts[j]);
        let whole = concat_spec(parts);
        let a = concat_spec(parts.subrange(0, j));
        let b = a + parts[j];
        assert(whole.subrange(0, b.len() as int) == b);
        assert(whole.subrange(0, a.len() as int) =~= whole.subrange(0, b.len() as int).subrange(0, a.len() as int));
        assert(b.subrange(0, a.len() as int) =~= a);
    } else {
        assert(parts.subrange(0, j) =~= parts);
        assert(concat_spec(parts).subrange(0, concat_spec(parts).len() as int) =~= concat_spec(parts));
    }
}

proof fn lemma_not_prefix_when_longer(text: Seq<char>, parts: Seq<String>, j: int, pos: int)
    requires
        0 <= j < parts.len(),
        0 <= pos <= text.len(),
        concat_spec(views(parts.subrange(0, j))) == text.subrange(0, pos),
        parts[j]@.len() > text.len() - pos,
    ensures
        concat_spec(views(parts)) != text,
{
    let vs = views(parts);
    assert(views(parts.subrange(0, j)) =~= vs.subrange(0, j));
    lemma_concat_prefix_of_whole(vs, j);
}

proof fn lemma_not_prefix_when_differs(text: Seq<char>, parts: Seq<String>, j: int, pos: int, k: int)
    requires
        0 <= j < parts.len(),
        0 <= pos,
        0 <= k < parts[j]@.len(),
        pos + parts[j]@.len() <= text.len(),
        concat_spec(views(parts.subrange(0, j))) == text.subrange(0, pos),
        text[pos + k] != parts[j]@[k],
    ensures
        concat_spec(views(parts)) != text,
{
    let vs = views(parts);
    assert(views(parts.subrange(0, j)) =~= vs.subrange(0, j));
    lemma_concat_prefix_of_whole(vs, j);
    let whole = concat_spec(vs);
    if whole == text {
        let pre = text.subrange(0, pos) + parts[j]@;
        assert(whole.subrange(0, pre.len() as int) == pre);
        assert(pre[pos + k] == parts[j]@[k]);
        assert(whole.subrange(0, pre.len() as int)[pos + k] == text[pos + k]);
    }
}

/// Keeps the proposed parts when they are a chunking of `text`, else cuts
/// `text` into fixed pieces.
pub fn select_chunks(text: &str, proposed: Vec<String>, max_unit_size: usize) -> (r: Vec<String>)
    requires
        max_unit_size > 0,
    ensures
        views(r@) == if is_chunking(views(proposed@), text@, max_unit_size as nat) {
            views(proposed@)
        } else {
            fixed_split(text@, max_unit_size as nat)
        },
{
    if check_chunking(text, &proposed, max_unit_size) {
        proposed
    } else {
        fixed_chunks(text, max_unit_size)
    }
}

/// Splits `text` into parts of at most `max_unit_size` characters, at
/// markdown boundaries where the splitter finds them.
pub fn chunk(text: &str, max_unit_size: usize) -> (r: Vec<String>)
    requires
        max_unit_size > 0,
    ensures
        views(r@) == chunks_spec(text@, max_unit_size as nat),
        is_chunking(views(r@), text@, max_unit_size as nat),
        0 < text@.len() <= max_unit_size ==> views(r@) == seq![text@],
{
    proof { lemma_chunk_round_trip(text@, max_unit_size as nat); }
    let n = text.unicode_len();
    if 0 < n && n <= max_unit_size {
        let r = vec![String::from_str(text)];
        assert(views(r@) =~= seq![text@]);
        return r;
    }
    let proposed = markdown_chunks(text, max_unit_size);
    let r = select_chunks(text, proposed, max_unit_size);
    proof { lemma_chunk_round_trip(text@, max_unit_size as nat); }
    r
}

} // verus!
