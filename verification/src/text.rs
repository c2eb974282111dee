//! Text helpers shared by the views: identifier shortening, truncation with
//! an ellipsis, and the small string operations the other modules build on.
//!
//! Every length in this module counts characters, not bytes.

use vstd::prelude::*;
use vstd::string::*;

verus! {

/// Position just after the last `:` of `s`, or 0 where `s` holds none.
pub open spec fn after_last_colon(s: Seq<char>) -> int
    decreases s.len(),
{
    if s.len() == 0 {
        0
    } else if s.last() == ':' {
        s.len() as int
    } else {
        after_last_colon(s.drop_last())
    }
}

/// The short form of an identifier: what follows its last `:`, cut to at
/// most 12 characters.
pub open spec fn short_id(id: Seq<char>) -> Seq<char> {
    let tail = id.skip(after_last_colon(id));
    if tail.len() <= 12 {
        tail
    } else {
        tail.take(12)
    }
}

/// The marker that ends a truncated string.
pub open spec fn ellipsis() -> Seq<char> {
    seq!['.', '.', '.']
}

/// `s` cut to fit `max_length` characters: unchanged where it has at most
/// `max_length - 3`, else its first `max_length - 3` characters and `...`.
pub open spec fn truncated(s: Seq<char>, max_length: int) -> Seq<char> {
    if s.len() <= max_length - 3 {
        s
    } else {
        s.take(max_length - 3) + ellipsis()
    }
}

/// A run of `n` space characters.
pub open spec fn spaces(n: nat) -> Seq<char> {
    Seq::new(n, |i: int| ' ')
}

/// The character of one decimal digit.
pub open spec fn digit_char(d: int) -> char {
    if d == 0 {
        '0'
    } else if d == 1 {
        '1'
    } else if d == 2 {
        '2'
    } else if d == 3 {
        '3'
    } else if d == 4 {
        '4'
    } else if d == 5 {
        '5'
    } else if d == 6 {
        '6'
    } else if d == 7 {
        '7'
    } else if d == 8 {
        '8'
    } else {
        '9'
    }
}

/// The decimal numeral of `n`, without sign or leading zeros.
pub open spec fn decimal(n: nat) -> Seq<char>
    decreases n,
{
    if n < 10 {
        seq![digit_char(n as int)]
    } else {
        decimal(n / 10).push(digit_char((n % 10) as int))
    }
}

/// `after_last_colon` lies inside the string, nothing from it on is a `:`,
/// and the character just before it, if any, is one.
pub proof fn lemma_after_last_colon(s: Seq<char>)
    ensures
        0 <= after_last_colon(s) <= s.len(),
        forall|i: int| after_last_colon(s) <= i < s.len() ==> s[i] != ':',
        after_last_colon(s) > 0 ==> s[after_last_colon(s) - 1] == ':',
    decreases s.len(),
{
    if s.len() > 0 && s.last() != ':' {
        let front = s.drop_last();
        lemma_after_last_colon(front);
        assert forall|i: int| after_last_colon(s) <= i < s.len() implies s[i] != ':' by {
            if i < front.len() {
                assert(s[i] == front[i]);
            }
        }
    }
}

/// A string without any `:` has its tail starting at 0.
pub proof fn lemma_no_colon_starts_at_zero(s: Seq<char>)
    requires
        forall|i: int| 0 <= i < s.len() ==> s[i] != ':',
    ensures
        after_last_colon(s) == 0,
    decreases s.len(),
{
    if s.len() > 0 {
        let front = s.drop_last();
        assert forall|i: int| 0 <= i < front.len() implies front[i] != ':' by {
            assert(front[i] == s[i]);
        }
        lemma_no_colon_starts_at_zero(front);
    }
}

/// Shortening is idempotent, and a short identifier has at most 12
/// characters, none of them a `:`.
pub proof fn lemma_short_id_idempotent(id: Seq<char>)
    ensures
        short_id(short_id(id)) == short_id(id),
        short_id(id).len() <= 12,
        forall|i: int| 0 <= i < short_id(id).len() ==> short_id(id)[i] != ':',
{
    lemma_after_last_colon(id);
    let short = short_id(id);
    assert forall|i: int| 0 <= i < short.len() implies short[i] != ':' by {
        assert(short[i] == id[after_last_colon(id) + i]);
    }
    lemma_no_colon_starts_at_zero(short);
    assert(short.skip(0) == short);
}

/// Truncation to a bound of at least 3 never exceeds the bound, leaves a
/// string of at most `max_length - 3` characters alone, and otherwise ends
/// with the ellipsis.
pub proof fn lemma_truncated(s: Seq<char>, max_length: int)
    requires
        max_length >= 3,
    ensures
        truncated(s, max_length).len() <= max_length,
        s.len() <= max_length - 3 ==> truncated(s, max_length) == s,
        s.len() > max_length - 3 ==> truncated(s, max_length).len() == max_length
            && truncated(s, max_length).skip(max_length - 3) == ellipsis()
            && truncated(s, max_length).take(max_length - 3) == s.take(max_length - 3),
{
    if s.len() > max_length - 3 {
        let t = truncated(s, max_length);
        assert(t.skip(max_length - 3) == ellipsis());
        assert(t.take(max_length - 3) == s.take(max_length - 3));
    }
}

/// Whether two strings hold the same characters.
pub fn str_eq(a: &str, b: &str) -> (same: bool)
    ensures
        same == (a@ == b@),
{
    let left = a.to_owned();
    let right = b.to_owned();
    left == right
}

/// Whether `s` begins with `prefix`.
pub fn starts_with(s: &str, prefix: &str) -> (found: bool)
    ensures
        found == prefix@.is_prefix_of(s@),
{
    let n = prefix.unicode_len();
    if s.unicode_len() < n {
        false
    } else {
        str_eq(s.substring_char(0, n), prefix)
    }
}

/// `a` followed by `b`.
pub fn join(a: &str, b: &str) -> (joined: String)
    ensures
        joined@ == a@ + b@,
{
    let mut joined = a.to_owned();
    joined.append(b);
    joined
}

/// A string of `n` spaces.
pub fn space_run(n: usize) -> (run: String)
    ensures
        run@ == spaces(n as nat),
{
    let mut run = String::new();
    let mut written: usize = 0;
    proof {
        reveal_strlit(" ");
    }
    while written < n
        invariant
            written <= n,
            run@ == spaces(written as nat),
            " "@ == seq![' '],
        decreases n - written,
    {
        run.append(" ");
        written = written + 1;
        assert(run@ == spaces(written as nat));
    }
    run
}

/// The literal of one decimal digit.
fn digit_str(d: u64) -> (s: &'static str)
    requires
        d < 10,
    ensures
        s@ == seq![digit_char(d as int)],
{
    proof {
        reveal_strlit("0");
        reveal_strlit("1");
        reveal_strlit("2");
        reveal_strlit("3");
        reveal_strlit("4");
        reveal_strlit("5");
        reveal_strlit("6");
        reveal_strlit("7");
        reveal_strlit("8");
        reveal_strlit("9");
    }
    if d == 0 {
        "0"
    } else if d == 1 {
        "1"
    } else if d == 2 {
        "2"
    } else if d == 3 {
        "3"
    } else if d == 4 {
        "4"
    } else if d == 5 {
        "5"
    } else if d == 6 {
        "6"
    } else if d == 7 {
        "7"
    } else if d == 8 {
        "8"
    } else {
        "9"
    }
}

/// The decimal numeral of `n`.
pub fn decimal_string(n: u64) -> (numeral: String)
    ensures
        numeral@ == decimal(n as nat),
    decreases n,
{
    if n < 10 {
        digit_str(n).to_owned()
    } else {
        let mut numeral = decimal_string(n / 10);
        numeral.append(digit_str(n % 10));
        numeral
    }
}

/// Index just after the last `:` of `id`, counted in characters.
fn tail_start(id: &str) -> (start: usize)
    ensures
        start == after_last_colon(id@),
{
    let total = id.unicode_len();
    let mut start: usize = 0;
    let mut seen: usize = 0;
    for c in iter: id.chars()
        invariant
            seen == iter.index(),
            iter.seq() == id@,
            total == id@.len(),
            seen <= total,
            start == after_last_colon(id@.take(seen as int)),
    {
        assert(id@.take(seen + 1).drop_last() == id@.take(seen as int));
        seen = seen + 1;
        if c == ':' {
            start = seen;
        }
    }
    assert(id@.take(seen as int) == id@);
    start
}

/// Shortens an image identifier for display: drops everything up to and
/// including the last `:` and keeps at most 12 characters of the rest.
pub fn shorten_id(id: &str) -> (short: String)
    ensures
        short@ == short_id(id@),
        short@.len() <= 12,
        short_id(short@) == short@,
{
    proof {
        lemma_after_last_colon(id@);
        lemma_short_id_idempotent(id@);
    }
    let total = id.unicode_len();
    let start = tail_start(id);
    let end = if total - start <= 12 {
        total
    } else {
        start + 12
    };
    let short = id.substring_char(start, end).to_owned();
    assert(short@ == short_id(id@));
    short
}

/// Truncates `s` to `max_length` characters, marking the cut with `...`.
pub fn shorten_string(s: &str, max_length: usize) -> (short: String)
    requires
        max_length >= 3,
    ensures
        short@ == truncated(s@, max_length as int),
        short@.len() <= max_length,
{
    proof {
        lemma_truncated(s@, max_length as int);
    }
    let keep = max_length - 3;
    if s.unicode_len() <= keep {
        s.to_owned()
    } else {
        proof {
            reveal_strlit("...");
        }
        let short = join(s.substring_char(0, keep), "...");
        assert(short@ == truncated(s@, max_length as int));
        short
    }
}

} // verus!
