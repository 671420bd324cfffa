//! String helpers shared by the parsers and the display code.

use vstd::prelude::*;

verus! {

/// What `str::to_lowercase` makes of a sequence of characters.
pub uninterp spec fn lower_of(s: Seq<char>) -> Seq<char>;

/// Relies on `str::to_lowercase`: the result depends on the characters alone.
#[verifier::external_body]
pub(crate) fn lowercase(s: &str) -> (r: String)
    ensures
        r@ == lower_of(s@),
{
    s.to_lowercase()
}

/// Whether two strings hold the same characters.
pub fn same_chars(a: &str, b: &str) -> (r: bool)
    ensures
        r == (a@ == b@),
{
    let n = a.unicode_len();
    if n != b.unicode_len() {
        return false;
    }
    let mut i: usize = 0;
    while i < n
        invariant
            n == a@.len(),
            n == b@.len(),
            i <= n,
            forall|j: int| 0 <= j < i ==> a@[j] == b@[j],
        decreases n - i,
    {
        if a.get_char(i) != b.get_char(i) {
            return false;
        }
        i = i + 1;
    }
    assert(a@ =~= b@);
    true
}

/// How many bytes UTF-8 uses for a character.
pub open spec fn utf8_width(c: char) -> nat {
    if (c as u32) < 0x80 {
        1
    } else if (c as u32) < 0x800 {
        2
    } else if (c as u32) < 0x10000 {
        3
    } else {
        4
    }
}

/// The length of a text in UTF-8 bytes.
pub open spec fn byte_len(s: Seq<char>) -> nat
    decreases s.len(),
{
    if s.len() == 0 {
        0
    } else {
        byte_len(s.drop_last()) + utf8_width(s.last())
    }
}

/// How many leading characters of `s` fit in `budget` bytes: the cut at
/// `budget` bytes, moved back to the start of the character it falls in.
pub open spec fn chars_within(s: Seq<char>, budget: int) -> nat
    decreases s.len(),
{
    if s.len() == 0 || utf8_width(s[0]) > budget {
        0
    } else {
        1 + chars_within(s.drop_first(), budget - utf8_width(s[0]))
    }
}

/// The text `s` cut to at most `max_len` bytes: a longer text keeps what fits
/// of its first `max_len - 3` bytes (none when `max_len` is below 3), cut
/// back to a character boundary, followed by `...`.
pub open spec fn truncated(s: Seq<char>, max_len: nat) -> Seq<char> {
    if byte_len(s) <= max_len {
        s
    } else {
        let budget: int = if max_len >= 3 { max_len - 3 } else { 0 };
        s.subrange(0, chars_within(s, budget) as int) + "..."@
    }
}

fn char_width(c: char) -> (w: u8)
    ensures
        w == utf8_width(c),
{
    let v = c as u32;
    if v < 0x80 {
        1
    } else if v < 0x800 {
        2
    } else if v < 0x10000 {
        3
    } else {
        4
    }
}

proof fn lemma_chars_within_bound(s: Seq<char>, budget: int)
    ensures
        chars_within(s, budget) <= s.len(),
    decreases s.len(),
{
    if s.len() > 0 && utf8_width(s[0]) <= budget {
        lemma_chars_within_bound(s.drop_first(), budget - utf8_width(s[0]));
    }
}

/// Shortens `s` to `max_len` bytes for display, marking the cut with `...`.
pub fn truncate(s: &str, max_len: usize) -> (r: String)
    ensures
        r@ == truncated(s@, max_len as nat),
{
    let n = s.unicode_len();
    let mut total: u128 = 0;
    let mut i: usize = 0;
    while i < n
        invariant
            n == s@.len(),
            i <= n,
            total == byte_len(s@.subrange(0, i as int)),
            total <= 4 * i,
        decreases n - i,
    {
        let w = char_width(s.get_char(i));
        proof {
            assert(s@.subrange(0, i + 1).drop_last() =~= s@.subrange(0, i as int));
        }
        total = total + w as u128;
        i = i + 1;
    }
    proof {
        assert(s@.subrange(0, n as int) =~= s@);
    }
    if total <= max_len as u128 {
        return s.to_owned();
    }
    let budget: u128 = if max_len >= 3 {
        (max_len - 3) as u128
    } else {
        0
    };
    let mut used: u128 = 0;
    let mut k: usize = 0;
    while k < n && used + char_width(s.get_char(k)) as u128 <= budget
        invariant
            n == s@.len(),
            k <= n,
            used <= budget,
            budget <= usize::MAX,
            chars_within(s@, budget as int) == k + chars_within(
                s@.subrange(k as int, n as int),
                budget - used,
            ),
        decreases n - k,
    {
        proof {
            let rest = s@.subrange(k as int, n as int);
            assert(rest[0] == s@[k as int]);
            assert(rest.drop_first() =~= s@.subrange(k + 1, n as int));
        }
        used = used + char_width(s.get_char(k)) as u128;
        k = k + 1;
    }
    proof {
        let rest = s@.subrange(k as int, n as int);
        if k < n {
            assert(rest[0] == s@[k as int]);
        }
    }
    let head = s.substring_char(0, k).to_owned();
    let r = head.concat("...");
    proof {
        reveal_strlit("...");
    }
    r
}

/// `count` copies of `unit`.
pub open spec fn repeated(unit: Seq<char>, count: nat) -> Seq<char>
    decreases count,
{
    if count == 0 {
        Seq::empty()
    } else {
        repeated(unit, (count - 1) as nat) + unit
    }
}

/// A five-cell gauge of a mastery level: one full block per level, light
/// shade for the rest.
pub fn create_mastery_bar(level: i32) -> (r: String)
    requires
        0 <= level <= 5,
    ensures
        r@ == repeated("\u{2588}"@, level as nat) + repeated("\u{2591}"@, (5 - level) as nat),
{
    let mut full = String::new();
    let mut i: i32 = 0;
    while i < level
        invariant
            0 <= i <= level <= 5,
            full@ == repeated("\u{2588}"@, i as nat),
        decreases level - i,
    {
        full = full.concat("\u{2588}");
        i = i + 1;
    }
    let mut empty = String::new();
    let mut j: i32 = level;
    while j < 5
        invariant
            level <= j <= 5,
            empty@ == repeated("\u{2591}"@, (j - level) as nat),
        decreases 5 - j,
    {
        empty = empty.concat("\u{2591}");
        j = j + 1;
        proof {
            assert((j - level) as nat - 1 == (j - 1 - level) as nat);
        }
    }
    full.concat(empty.as_str())
}

/// What `str::trim` makes of a sequence of characters.
pub uninterp spec fn trim_of(s: Seq<char>) -> Seq<char>;

/// Relies on `str::trim`: the text without leading and trailing white space;
/// the result depends on the characters alone.
#[verifier::external_body]
pub(crate) fn trim(s: &str) -> (r: String)
    ensures
        r@ == trim_of(s@),
{
    s.trim().to_string()
}

/// The pieces of `s` between commas, in order: one more piece than there
/// are commas, empty pieces included.
pub open spec fn comma_pieces(s: Seq<char>) -> Seq<Seq<char>>
    decreases s.len(),
{
    if s.len() == 0 {
        seq![Seq::empty()]
    } else {
        let prev = comma_pieces(s.drop_last());
        if s.last() == ',' {
            prev.push(Seq::empty())
        } else {
            prev.update(prev.len() - 1, prev.last().push(s.last()))
        }
    }
}

proof fn lemma_comma_pieces_nonempty(s: Seq<char>)
    ensures
        comma_pieces(s).len() >= 1,
    decreases s.len(),
{
    if s.len() > 0 {
        lemma_comma_pieces_nonempty(s.drop_last());
    }
}

/// Splits a comma-separated list of tags, trimming each piece.
pub fn split_tags(s: &str) -> (r: Vec<String>)
    ensures
        r@.len() == comma_pieces(s@).len(),
        forall|j: int| 0 <= j < r@.len() ==> #[trigger] r@[j]@ == trim_of(comma_pieces(s@)[j]),
{
    let n = s.unicode_len();
    let mut out: Vec<String> = Vec::new();
    let mut start: usize = 0;
    let mut i: usize = 0;
    proof {
        assert(s@.subrange(0, 0) =~= Seq::<char>::empty());
    }
    while i < n
        invariant
            n == s@.len(),
            start <= i <= n,
            comma_pieces(s@.subrange(0, i as int)).len() == out@.len() + 1,
            comma_pieces(s@.subrange(0, i as int)).last() =~= s@.subrange(start as int, i as int),
            forall|j: int|
                0 <= j < out@.len() ==> #[trigger] out@[j]@ == trim_of(
                    comma_pieces(s@.subrange(0, i as int))[j],
                ),
        decreases n - i,
    {
        let ghost before = comma_pieces(s@.subrange(0, i as int));
        let c = s.get_char(i);
        proof {
            lemma_comma_pieces_nonempty(s@.subrange(0, i as int));
            assert(s@.subrange(0, i + 1).drop_last() =~= s@.subrange(0, i as int));
            assert(s@.subrange(0, i + 1).last() == c);
        }
        if c == ',' {
            let piece = trim(s.substring_char(start, i));
            out.push(piece);
            start = i + 1;
            proof {
                assert(s@.subrange(start as int, i + 1) =~= Seq::<char>::empty());
            }
        } else {
            proof {
                assert(s@.subrange(start as int, i as int).push(c) =~= s@.subrange(
                    start as int,
                    i + 1,
                ));
            }
        }
        i = i + 1;
        proof {
            let now = comma_pieces(s@.subrange(0, i as int));
            assert forall|j: int| 0 <= j < out@.len() implies #[trigger] out@[j]@ == trim_of(
                now[j],
            ) by {
                if j < before.len() - 1 {
                    assert(now[j] == before[j]);
                }
            }
        }
    }
    let last = trim(s.substring_char(start, n));
    out.push(last);
    proof {
        assert(s@.subrange(0, n as int) =~= s@);
    }
    out
}

} // verus!
