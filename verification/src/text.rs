//! Text helpers: joining, decimal numbers, and finding one text in another.

use vstd::prelude::*;

verus! {

/// The items of `lines`, with `sep` between each two neighbours.
pub open spec fn joined(lines: Seq<Seq<char>>, sep: Seq<char>) -> Seq<char>
    decreases lines.len(),
{
    if lines.len() == 0 {
        Seq::empty()
    } else if lines.len() == 1 {
        lines[0]
    } else {
        joined(lines.drop_last(), sep) + sep + lines.last()
    }
}

/// Joined text is empty only where there is no item, or one item that is
/// empty.
pub proof fn lemma_joined_is_empty(lines: Seq<Seq<char>>, sep: Seq<char>)
    requires
        sep.len() > 0,
    ensures
        joined(lines, sep).len() == 0 <==> lines.len() == 0 || (lines.len() == 1 && lines[0].len()
            == 0),
{
}

/// The character of a decimal digit.
pub open spec fn digit_char(d: int) -> char {
    if d == 0 {
        '0'
    } else if d == 1 {
        '1'
    } else if d == 2 {
        '2'
    } else if d == 3 {
        '3'
    } else if d == 4 {
        '4'
    } else if d == 5 {
        '5'
    } else if d == 6 {
        '6'
    } else if d == 7 {
        '7'
    } else if d == 8 {
        '8'
    } else {
        '9'
    }
}

/// A natural number written in base ten, without leading zeros.
pub open spec fn decimal(n: nat) -> Seq<char>
    decreases n,
{
    if n < 10 {
        seq![digit_char(n as int)]
    } else {
        decimal(n / 10).push(digit_char((n % 10) as int))
    }
}

/// Whether `part` stands in `whole` from position `at` on.
pub open spec fn stands_at(part: Seq<char>, whole: Seq<char>, at: int) -> bool {
    0 <= at && at + part.len() <= whole.len() && whole.subrange(at, at + part.len()) == part
}

/// Appends one character to a string.
///
/// Trusted: this is `String::push` of the standard library, which appends the
/// given character to the end of the string and changes nothing else.
#[verifier::external_body]
pub(crate) fn push_char(s: &mut String, c: char)
    ensures
        final(s)@ == old(s)@.push(c),
{
    s.push(c)
}

fn digit(d: u64) -> (c: char)
    requires
        d < 10,
    ensures
        c == digit_char(d as int),
{
    if d == 0 {
        '0'
    } else if d == 1 {
        '1'
    } else if d == 2 {
        '2'
    } else if d == 3 {
        '3'
    } else if d == 4 {
        '4'
    } else if d == 5 {
        '5'
    } else if d == 6 {
        '6'
    } else if d == 7 {
        '7'
    } else if d == 8 {
        '8'
    } else {
        '9'
    }
}

/// Writes a number in base ten.
pub fn decimal_string(n: u64) -> (s: String)
    ensures
        s@ == decimal(n as nat),
    decreases n,
{
    if n < 10 {
        let mut s = String::new();
        push_char(&mut s, digit(n));
        assert(s@ =~= seq![digit_char(n as int)]);
        s
    } else {
        let mut s = decimal_string(n / 10);
        push_char(&mut s, digit(n % 10));
        s
    }
}

/// Tells whether `part` stands in `whole` from position `at` on.
pub fn text_at(whole: &str, at: usize, part: &str) -> (b: bool)
    ensures
        b == stands_at(part@, whole@, at as int),
{
    let n = whole.unicode_len();
    let m = part.unicode_len();
    if at > n || m > n - at {
        return false;
    }
    let mut k: usize = 0;
    while k < m
        invariant
            n == whole@.len(),
            m == part@.len(),
            at + m <= n,
            k <= m,
            forall|j: int| 0 <= j < k ==> whole@[at + j] == part@[j],
        decreases m - k,
    {
        if whole.get_char(at + k) != part.get_char(k) {
            assert(whole@.subrange(at as int, at + m)[k as int] != part@[k as int]);
            return false;
        }
        k = k + 1;
    }
    assert(whole@.subrange(at as int, at + m) =~= part@);
    true
}

/// Tells whether a character occurs in a text.
pub fn has_char(text: &str, c: char) -> (b: bool)
    ensures
        b == text@.contains(c),
{
    let n = text.unicode_len();
    let mut i: usize = 0;
    while i < n
        invariant
            n == text@.len(),
            i <= n,
            forall|j: int| 0 <= j < i ==> text@[j] != c,
        decreases n - i,
    {
        if text.get_char(i) == c {
            return true;
        }
        i = i + 1;
    }
    false
}

/// Joins strings with a separator between each two neighbours.
pub fn join(lines: &Vec<String>, sep: &str) -> (s: String)
    ensures
        s@ == joined(lines.deep_view(), sep@),
{
    let mut out = String::new();
    let mut i: usize = 0;
    while i < lines.len()
        invariant
            i <= lines.len(),
            out@ == joined(lines.deep_view().take(i as int), sep@),
        decreases lines.len() - i,
    {
        proof {
            let all = lines.deep_view();
            assert(all.take(i as int + 1).drop_last() =~= all.take(i as int));
            assert(all.take(i as int + 1).last() == lines@[i as int]@);
        }
        if i > 0 {
            out.append(sep);
        }
        out.append(lines[i].as_str());
        proof {
            let all = lines.deep_view();
            if i == 0 {
                assert(out@ =~= all.take(1)[0]);
            }
        }
        i = i + 1;
    }
    assert(lines.deep_view().take(lines.len() as int) =~= lines.deep_view());
    out
}

} // verus!
