//! Splitting source lines into tokens, and reading numbers.
use vstd::prelude::*;

verus! {

pub open spec fn is_space(c: char) -> bool {
    c == ' ' || c == '\t' || c == '\n' || c == '\r' || c == '\x0B' || c == '\x0C'
}

/// The word `cur` as a list of tokens: none where it is empty.
pub open spec fn word(cur: Seq<char>) -> Seq<Seq<char>> {
    if cur.len() == 0 { Seq::empty() } else { seq![cur] }
}

/// The tokens of `s`, given that the word `cur` runs up to its start.
pub open spec fn tokens_after(s: Seq<char>, cur: Seq<char>) -> Seq<Seq<char>>
    decreases s.len(),
{
    if s.len() == 0 {
        word(cur)
    } else if is_space(s[0]) {
        word(cur) + tokens_after(s.drop_first(), Seq::empty())
    } else {
        tokens_after(s.drop_first(), cur.push(s[0]))
    }
}

/// The whitespace-separated tokens of `s`, in order.
pub open spec fn tokens(s: Seq<char>) -> Seq<Seq<char>> {
    tokens_after(s, Seq::empty())
}

pub open spec fn is_digit(c: char) -> bool {
    '0' <= c && c <= '9'
}

pub open spec fn all_digits(s: Seq<char>) -> bool {
    forall|i: int| 0 <= i < s.len() ==> is_digit(#[trigger] s[i])
}

/// The value of a string of decimal digits.
pub open spec fn digits_value(s: Seq<char>) -> nat
    decreases s.len(),
{
    if s.len() == 0 {
        0
    } else {
        digits_value(s.drop_last()) * 10 + ((s.last() as int - '0' as int) as nat)
    }
}

/// The 16-bit number that `s` writes in decimal, if it writes one.
pub open spec fn parse_u16(s: Seq<char>) -> Option<u16> {
    if s.len() > 0 && all_digits(s) && digits_value(s) < 0x10000 {
        Some(digits_value(s) as u16)
    } else {
        None
    }
}

/// Whether `s` starts with the comment marker `//`.
pub open spec fn is_comment(s: Seq<char>) -> bool {
    s.len() >= 2 && s[0] == '/' && s[1] == '/'
}

/// Whether two texts are equal.
pub fn text_is(s: &str, t: &str) -> (r: bool)
    ensures
        r == (s@ == t@),
{
    let n = s.unicode_len();
    if n != t.unicode_len() {
        return false;
    }
    let mut i: usize = 0;
    while i < n
        invariant
            n == s@.len(),
            n == t@.len(),
            i <= n,
            forall|k: int| 0 <= k < i ==> s@[k] == t@[k],
        decreases n - i,
    {
        if s.get_char(i) != t.get_char(i) {
            return false;
        }
        i = i + 1;
    }
    assert(s@ =~= t@);
    true
}

/// Splits `s` at whitespace.
pub fn split_tokens(s: &str) -> (r: Vec<String>)
    ensures
        r@.len() == tokens(s@).len(),
        forall|k: int| 0 <= k < r@.len() ==> #[trigger] r@[k]@ == tokens(s@)[k],
{
    let n = s.unicode_len();
    let ghost full = s@;
    let ghost mut got: Seq<Seq<char>> = Seq::empty();
    let mut out: Vec<String> = Vec::new();
    let mut start: usize = 0;
    let mut i: usize = 0;
    assert(full.skip(0) =~= full);
    assert(full.subrange(0, 0) =~= Seq::<char>::empty());
    while i < n
        invariant
            n == full.len(),
            full == s@,
            start <= i <= n,
            got.len() == out@.len(),
            forall|k: int| 0 <= k < out@.len() ==> #[trigger] out@[k]@ == got[k],
            tokens(full) == got + tokens_after(full.skip(i as int), full.subrange(start as int, i as int)),
        decreases n - i,
    {
        let c = s.get_char(i);
        let ghost rest = full.skip(i as int);
        assert(rest.drop_first() =~= full.skip(i + 1));
        if is_space_char(c) {
            if start < i {
                let w = s.substring_char(start, i);
                out.push(String::from_str(w));
                proof {
                    got = got.push(full.subrange(start as int, i as int));
                }
            }
            assert(word(full.subrange(start as int, i as int)) + tokens_after(full.skip(i + 1), Seq::empty())
                == tokens_after(rest, full.subrange(start as int, i as int)));
            assert(full.subrange(i + 1, i + 1) =~= Seq::<char>::empty());
            assert(got + tokens_after(full.skip(i + 1), full.subrange(i + 1, i + 1))
                =~= tokens(full));
            i = i + 1;
            start = i;
        } else {
            assert(full.subrange(start as int, i as int).push(c) =~= full.subrange(start as int, i + 1));
            i = i + 1;
        }
    }
    if start < n {
        let w = s.substring_char(start, n);
        out.push(String::from_str(w));
        proof {
            got = got.push(full.subrange(start as int, n as int));
        }
    }
    assert(full.skip(n as int) =~= Seq::<char>::empty());
    assert(got =~= tokens(full));
    out
}

fn is_space_char(c: char) -> (r: bool)
    ensures
        r == is_space(c),
{
    c == ' ' || c == '\t' || c == '\n' || c == '\r' || c == '\x0B' || c == '\x0C'
}

proof fn lemma_digits_value_prefix(s: Seq<char>, i: int)
    requires
        0 <= i <= s.len(),
        all_digits(s),
    ensures
        digits_value(s.take(i)) <= digits_value(s),
    decreases s.len(),
{
    if i < s.len() {
        let p = s.drop_last();
        assert(is_digit(s[s.len() - 1]));
        assert(all_digits(p)) by {
            assert forall|k: int| 0 <= k < p.len() implies is_digit(#[trigger] p[k]) by {
                assert(p[k] == s[k]);
            }
        }
        lemma_digits_value_prefix(p, i);
        assert(p.take(i) =~= s.take(i));
    } else {
        assert(s.take(i) =~= s);
    }
}

/// Reads a decimal number that fits in 16 bits.
pub fn parse_number(s: &str) -> (r: Option<u16>)
    ensures
        r == parse_u16(s@),
{
    let n = s.unicode_len();
    if n == 0 {
        return None;
    }
    let mut acc: u32 = 0;
    let mut i: usize = 0;
    while i < n
        invariant
            n == s@.len(),
            i <= n,
            acc == digits_value(s@.take(i as int)),
            acc < 0x10000,
            all_digits(s@.take(i as int)),
        decreases n - i,
    {
        let c = s.get_char(i);
        assert(s@.take(i + 1).drop_last() =~= s@.take(i as int));
        if !('0' <= c && c <= '9') {
            assert(!all_digits(s@)) by {
                assert(!is_digit(s@[i as int]));
            }
            return None;
        }
        let next = acc * 10 + (c as u32 - '0' as u32);
        if next >= 0x10000 {
            proof {
                if all_digits(s@) {
                    lemma_digits_value_prefix(s@, i + 1);
                }
            }
            return None;
        }
        acc = next;
        i = i + 1;
        assert(all_digits(s@.take(i as int))) by {
            assert forall|k: int| 0 <= k < i implies is_digit(#[trigger] s@.take(i as int)[k]) by {
                if k < i - 1 {
                    assert(s@.take(i as int)[k] == s@.take(i - 1)[k]);
                }
            }
        }
    }
    assert(s@.take(n as int) =~= s@);
    Some(acc as u16)
}

} // verus!
