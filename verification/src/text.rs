//! Text primitives the generator is built from: splitting, trimming, joining
//! and decimal numerals, each with its meaning stated over `Seq<char>`.

use vstd::prelude::*;

verus! {

/// Whether `c`, a character beyond ASCII, carries the Unicode `White_Space`
/// property, in the version of Unicode that the standard library follows.
pub uninterp spec fn white_space_beyond_ascii(c: char) -> bool;

/// Whether `c` is whitespace: it carries the Unicode `White_Space` property.
/// Within ASCII these are the space and the five controls from tab to
/// carriage return.
pub open spec fn is_whitespace(c: char) -> bool {
    if (c as u32) < 128 {
        c == ' ' || 9 <= (c as u32) <= 13
    } else {
        white_space_beyond_ascii(c)
    }
}

/// Calls `char::is_whitespace`, which reports whether the character has the
/// Unicode `White_Space` property. Within ASCII the property is spelled
/// out: U+0020 and U+0009 to U+000D. Beyond ASCII the table moves with the
/// version of Unicode, so the answer is only given a name.
#[verifier::external_body]
pub(crate) fn char_is_whitespace(c: char) -> (blank: bool)
    ensures
        (c as u32) < 128 ==> blank == (c == ' ' || 9 <= (c as u32) <= 13),
        (c as u32) >= 128 ==> blank == white_space_beyond_ascii(c),
{
    c.is_whitespace()
}

/// Number of whitespace characters at the front of `s`.
pub open spec fn leading_blanks(s: Seq<char>) -> nat
    decreases s.len(),
{
    if s.len() == 0 || !is_whitespace(s[0]) {
        0
    } else {
        1 + leading_blanks(s.drop_first())
    }
}

/// Number of whitespace characters at the back of `s`.
pub open spec fn trailing_blanks(s: Seq<char>) -> nat
    decreases s.len(),
{
    if s.len() == 0 || !is_whitespace(s.last()) {
        0
    } else {
        1 + trailing_blanks(s.drop_last())
    }
}

/// `s` without its leading and trailing whitespace.
pub open spec fn trimmed(s: Seq<char>) -> Seq<char> {
    let rest = s.skip(leading_blanks(s) as int);
    rest.take(rest.len() - trailing_blanks(rest))
}

/// The pieces of `s` between occurrences of `sep`. There is always at least
/// one piece; a separator at either end yields an empty piece there.
pub open spec fn pieces(s: Seq<char>, sep: char) -> Seq<Seq<char>>
    decreases s.len(),
{
    if s.len() == 0 {
        seq![Seq::<char>::empty()]
    } else {
        let before = pieces(s.drop_last(), sep);
        if s.last() == sep {
            before.push(Seq::<char>::empty())
        } else {
            before.drop_last().push(before.last().push(s.last()))
        }
    }
}

/// `parts` written one after another with `sep` between neighbours.
pub open spec fn separated(parts: Seq<Seq<char>>, sep: Seq<char>) -> Seq<char>
    decreases parts.len(),
{
    if parts.len() == 0 {
        Seq::<char>::empty()
    } else if parts.len() == 1 {
        parts.last()
    } else {
        separated(parts.drop_last(), sep) + sep + parts.last()
    }
}

/// The decimal digit for `d`, for `0 <= d < 10`.
pub open spec fn digit(d: int) -> char {
    if d == 0 {
        '0'
    } else if d == 1 {
        '1'
    } else if d == 2 {
        '2'
    } else if d == 3 {
        '3'
    } else if d == 4 {
        '4'
    } else if d == 5 {
        '5'
    } else if d == 6 {
        '6'
    } else if d == 7 {
        '7'
    } else if d == 8 {
        '8'
    } else {
        '9'
    }
}

/// The decimal numeral of `n`, without leading zeros.
pub open spec fn decimal(n: nat) -> Seq<char>
    decreases n,
{
    if n < 10 {
        seq![digit(n as int)]
    } else {
        decimal(n / 10) + seq![digit((n % 10) as int)]
    }
}

/// Text that neither begins nor ends with whitespace is its own trimming.
pub proof fn lemma_tight_text_is_trimmed(s: Seq<char>)
    requires
        s.len() > 0 ==> !is_whitespace(s.first()) && !is_whitespace(s.last()),
    ensures
        trimmed(s) == s,
{
    assert(s.skip(0) == s);
    assert(s.take(s.len() as int) == s);
}

/// Text that holds no separator is one piece.
pub proof fn lemma_one_piece_without_separator(s: Seq<char>, sep: char)
    requires
        forall|i: int| 0 <= i < s.len() ==> s[i] != sep,
    ensures
        pieces(s, sep) == seq![s],
    decreases s.len(),
{
    if s.len() > 0 {
        lemma_one_piece_without_separator(s.drop_last(), sep);
        assert(seq![s.drop_last()].drop_last().push(s.drop_last().push(s.last())) == seq![s]) by {
            assert(s.drop_last().push(s.last()) == s);
        }
    } else {
        assert(s == Seq::<char>::empty());
    }
}

/// The characters of `text`, in order.
pub fn chars_of(text: &str) -> (out: Vec<char>)
    ensures
        out@ == text@,
{
    broadcast use vstd::string::group_string_axioms;

    let mut out: Vec<char> = Vec::new();
    for c in it: text.chars()
        invariant
            it.seq() == text@,
            out@ == it.seq().take(it.index()),
    {
        out.push(c);
    }
    assert(out@ == text@);
    out
}

/// Whether two texts hold the same characters.
pub fn same_text(a: &str, b: &str) -> (same: bool)
    ensures
        same == (a@ == b@),
{
    a.to_owned() == b.to_owned()
}

/// Whether `text` begins with `prefix`.
pub fn starts_with(text: &str, prefix: &str) -> (yes: bool)
    ensures
        yes == prefix@.is_prefix_of(text@),
{
    let whole = chars_of(text);
    let head = chars_of(prefix);
    if head.len() > whole.len() {
        return false;
    }
    let mut i: usize = 0;
    while i < head.len()
        invariant
            i <= head.len() <= whole.len(),
            head@ == prefix@,
            whole@ == text@,
            head@.take(i as int) == whole@.take(i as int),
        decreases head.len() - i,
    {
        if head[i] != whole[i] {
            assert(head@[i as int] != whole@.subrange(0, head@.len() as int)[i as int]);
            return false;
        }
        assert(head@.take(i + 1) == head@.take(i as int).push(head@[i as int]));
        assert(whole@.take(i + 1) == whole@.take(i as int).push(whole@[i as int]));
        i += 1;
    }
    assert(head@ == head@.take(head@.len() as int));
    assert(whole@.take(head@.len() as int) == whole@.subrange(0, head@.len() as int));
    true
}

/// `text` without its leading and trailing whitespace.
pub fn trim(text: &str) -> (out: String)
    ensures
        out@ == trimmed(text@),
{
    let chars = chars_of(text);
    let n: usize = chars.len();
    let mut start: usize = 0;
    assert(chars@.skip(0) == chars@);
    while start < n && char_is_whitespace(chars[start])
        invariant
            start <= n,
            n == chars@.len(),
            leading_blanks(chars@) == start + leading_blanks(chars@.skip(start as int)),
        decreases n - start,
    {
        assert(chars@.skip(start as int).drop_first() == chars@.skip(start + 1));
        start += 1;
    }
    let ghost rest = chars@.skip(start as int);
    let mut end: usize = n;
    assert(rest.take(n - start) == rest);
    while end > start && char_is_whitespace(chars[end - 1])
        invariant
            start <= end <= n,
            n == chars@.len(),
            rest == chars@.skip(start as int),
            trailing_blanks(rest) == (n - end) + trailing_blanks(rest.take(end - start)),
        decreases end,
    {
        assert(rest.take(end - start).drop_last() == rest.take(end - start - 1));
        end -= 1;
    }
    assert(rest.take(end - start) == text@.subrange(start as int, end as int));
    text.substring_char(start, end).to_owned()
}

/// The pieces of `text` between occurrences of `sep`, in order.
pub fn split(text: &str, sep: char) -> (parts: Vec<String>)
    ensures
        parts.deep_view() == pieces(text@, sep),
{
    let chars = chars_of(text);
    let n: usize = chars.len();
    let mut parts: Vec<String> = Vec::new();
    let mut start: usize = 0;
    let mut i: usize = 0;
    assert(chars@.take(0) == Seq::<char>::empty());
    assert(parts.deep_view().push(chars@.subrange(0, 0)) == seq![Seq::<char>::empty()]);
    while i < n
        invariant
            start <= i <= n,
            n == chars@.len(),
            chars@ == text@,
            pieces(chars@.take(i as int), sep) == parts.deep_view().push(
                chars@.subrange(start as int, i as int),
            ),
        decreases n - i,
    {
        let ghost done = parts.deep_view();
        assert(chars@.take(i + 1).drop_last() == chars@.take(i as int));
        if chars[i] == sep {
            parts.push(text.substring_char(start, i).to_owned());
            assert(parts.deep_view() == done.push(chars@.subrange(start as int, i as int)));
            start = i + 1;
            assert(chars@.subrange(start as int, start as int) == Seq::<char>::empty());
        } else {
            assert(chars@.subrange(start as int, i + 1) == chars@.subrange(
                start as int,
                i as int,
            ).push(chars@[i as int]));
            assert(done.push(chars@.subrange(start as int, i as int)).drop_last() == done);
        }
        i += 1;
    }
    let ghost done = parts.deep_view();
    assert(chars@.take(n as int) == chars@);
    parts.push(text.substring_char(start, n).to_owned());
    assert(parts.deep_view() == done.push(chars@.subrange(start as int, n as int)));
    parts
}

/// `parts` written one after another with `sep` between neighbours.
pub fn join(parts: &Vec<String>, sep: &str) -> (out: String)
    ensures
        out@ == separated(parts.deep_view(), sep@),
{
    let mut out = String::new();
    let mut i: usize = 0;
    while i < parts.len()
        invariant
            i <= parts.len(),
            out@ == separated(parts.deep_view().take(i as int), sep@),
        decreases parts.len() - i,
    {
        assert(parts.deep_view().take(i + 1).drop_last() == parts.deep_view().take(i as int));
        assert(parts.deep_view().take(i + 1).last() == parts[i as int]@);
        if i > 0 {
            out.append(sep);
        }
        out.append(parts[i].as_str());
        i += 1;
    }
    assert(parts.deep_view().take(parts.len() as int) == parts.deep_view());
    out
}

fn digit_text(d: usize) -> (text: &'static str)
    requires
        d < 10,
    ensures
        text@ == seq![digit(d as int)],
{
    proof {
        reveal_strlit("0");
        reveal_strlit("1");
        reveal_strlit("2");
        reveal_strlit("3");
        reveal_strlit("4");
        reveal_strlit("5");
        reveal_strlit("6");
        reveal_strlit("7");
        reveal_strlit("8");
        reveal_strlit("9");
    }
    let text = if d == 0 {
        "0"
    } else if d == 1 {
        "1"
    } else if d == 2 {
        "2"
    } else if d == 3 {
        "3"
    } else if d == 4 {
        "4"
    } else if d == 5 {
        "5"
    } else if d == 6 {
        "6"
    } else if d == 7 {
        "7"
    } else if d == 8 {
        "8"
    } else {
        "9"
    };
    assert(text@ =~= seq![digit(d as int)]);
    text
}

/// The decimal numeral of `n`.
pub fn decimal_text(n: usize) -> (out: String)
    ensures
        out@ == decimal(n as nat),
    decreases n,
{
    if n < 10 {
        digit_text(n).to_owned()
    } else {
        let mut out = decimal_text(n / 10);
        out.append(digit_text(n % 10));
        out
    }
}

} // verus!
