//! Small string building blocks shared by the renderers: decimal numbers,
//! zero padding, booleans, prefixes and concatenation of parts.

use vstd::prelude::*;

verus! {

/// The character of a decimal digit.
pub open spec fn digit_char(d: int) -> char {
    if d == 0 { '0' }
    else if d == 1 { '1' }
    else if d == 2 { '2' }
    else if d == 3 { '3' }
    else if d == 4 { '4' }
    else if d == 5 { '5' }
    else if d == 6 { '6' }
    else if d == 7 { '7' }
    else if d == 8 { '8' }
    else { '9' }
}

/// The decimal digits of `n`, most significant first, without leading zeros.
pub open spec fn decimal_spec(n: nat) -> Seq<char>
    decreases n,
{
    if n < 10 {
        seq![digit_char(n as int)]
    } else {
        decimal_spec(n / 10) + seq![digit_char((n % 10) as int)]
    }
}

/// `n` in decimal, with zeros in front up to `width` characters.
pub open spec fn padded_spec(n: nat, width: nat) -> Seq<char> {
    let d = decimal_spec(n);
    if d.len() >= width {
        d
    } else {
        Seq::new((width - d.len()) as nat, |i: int| '0') + d
    }
}

/// The text of a boolean, as Rust prints it.
pub open spec fn bool_text(b: bool) -> Seq<char> {
    if b { "true"@ } else { "false"@ }
}

/// The parts joined in order.
pub open spec fn concat_spec(parts: Seq<Seq<char>>) -> Seq<char>
    decreases parts.len(),
{
    if parts.len() == 0 {
        Seq::empty()
    } else {
        concat_spec(parts.drop_last()) + parts.last()
    }
}

/// Joining two lists of parts gives the two joins one after the other.
pub proof fn lemma_concat_append(a: Seq<Seq<char>>, b: Seq<Seq<char>>)
    ensures
        concat_spec(a + b) == concat_spec(a) + concat_spec(b),
    decreases b.len(),
{
    if b.len() == 0 {
        assert(a + b =~= a);
        assert(concat_spec(a) + Seq::<char>::empty() =~= concat_spec(a));
    } else {
        lemma_concat_append(a, b.drop_last());
        assert((a + b).drop_last() =~= a + b.drop_last());
        assert((a + b).last() == b.last());
        assert(concat_spec(a) + concat_spec(b.drop_last()) + b.last()
            =~= concat_spec(a) + (concat_spec(b.drop_last()) + b.last()));
    }
}

/// Whether `p` is a prefix of `s`.
pub open spec fn is_prefix(p: Seq<char>, s: Seq<char>) -> bool {
    p.len() <= s.len() && s.subrange(0, p.len() as int) == p
}

fn digit_str(d: u64) -> (r: &'static str)
    requires
        d < 10,
    ensures
        r@ == seq![digit_char(d as int)],
{
    proof {
        reveal_strlit("0");
        reveal_strlit("1");
        reveal_strlit("2");
        reveal_strlit("3");
        reveal_strlit("4");
        reveal_strlit("5");
        reveal_strlit("6");
        reveal_strlit("7");
        reveal_strlit("8");
        reveal_strlit("9");
    }
    let r = if d == 0 { "0" }
    else if d == 1 { "1" }
    else if d == 2 { "2" }
    else if d == 3 { "3" }
    else if d == 4 { "4" }
    else if d == 5 { "5" }
    else if d == 6 { "6" }
    else if d == 7 { "7" }
    else if d == 8 { "8" }
    else { "9" };
    assert(r@ =~= seq![digit_char(d as int)]);
    r
}

/// `n` written in decimal.
pub fn decimal(n: u64) -> (r: String)
    ensures
        r@ == decimal_spec(n as nat),
    decreases n,
{
    if n < 10 {
        String::from_str(digit_str(n))
    } else {
        let mut s = decimal(n / 10);
        s.append(digit_str(n % 10));
        s
    }
}

/// `n` written in decimal with zeros in front up to `width` characters.
pub fn padded(n: u64, width: usize) -> (r: String)
    ensures
        r@ == padded_spec(n as nat, width as nat),
{
    let d = decimal(n);
    let len = d.as_str().unicode_len();
    let mut s = String::new();
    if len < width {
        let mut i: usize = 0;
        while i < width - len
            invariant
                i <= width - len,
                s@ =~= Seq::new(i as nat, |k: int| '0'),
            decreases width - len - i,
        {
            proof { reveal_strlit("0"); }
            s.append("0");
            i = i + 1;
        }
    }
    s.append(d.as_str());
    assert(s@ =~= padded_spec(n as nat, width as nat));
    s
}

/// The text of a boolean.
pub fn bool_string(b: bool) -> (r: &'static str)
    ensures
        r@ == bool_text(b),
{
    if b { "true" } else { "false" }
}

/// The characters of `s`, in order.
pub fn chars_of(s: &str) -> (r: Vec<char>)
    ensures
        r@ == s@,
{
    let mut v: Vec<char> = Vec::new();
    for c in it: s.chars()
        invariant
            v@ == it.seq().subrange(0, it.index() as int),
    {
        v.push(c);
    }
    v
}

/// Whether `s` begins with `p`.
pub fn starts_with(s: &str, p: &str) -> (r: bool)
    ensures
        r == is_prefix(p@, s@),
{
    let n = s.unicode_len();
    let m = p.unicode_len();
    if m > n {
        return false;
    }
    let mut i: usize = 0;
    while i < m
        invariant
            m == p@.len(),
            n == s@.len(),
            m <= n,
            i <= m,
            s@.subrange(0, i as int) == p@.subrange(0, i as int),
        decreases m - i,
    {
        if s.get_char(i) != p.get_char(i) {
            assert(s@.subrange(0, m as int)[i as int] != p@[i as int]);
            return false;
        }
        assert(s@.subrange(0, i + 1) =~= p@.subrange(0, i + 1));
        i = i + 1;
    }
    assert(p@.subrange(0, m as int) =~= p@);
    true
}

} // verus!
