//! Character-level helpers for query text: escaping, quoting decisions,
//! trimming and decimal rendering, each stated over `Seq<char>`.
use vstd::prelude::*;

verus! {

/// What `str::trim` returns for the given characters.
pub uninterp spec fn trimmed(s: Seq<char>) -> Seq<char>;

/// Relies on `str::trim`: leading and trailing white space is removed and the
/// result is a slice of the input, so it is never longer.
#[verifier::external_body]
pub(crate) fn trim_str<'a>(s: &'a str) -> (r: &'a str)
    ensures
        r@ == trimmed(s@),
        r@.len() <= s@.len(),
{
    s.trim()
}

/// Relies on `String::push`: the character is appended at the end.
#[verifier::external_body]
pub(crate) fn push_char(s: &mut String, c: char)
    ensures
        final(s)@ == old(s)@.push(c),
{
    s.push(c);
}

/// The text of one character once quotes are escaped: `"` becomes `\"`.
pub open spec fn escaped_char(c: char) -> Seq<char> {
    if c == '"' {
        seq!['\\', '"']
    } else {
        seq![c]
    }
}

/// `s` with every `"` replaced by `\"`.
pub open spec fn escaped(s: Seq<char>) -> Seq<char>
    decreases s.len(),
{
    if s.len() == 0 {
        Seq::empty()
    } else {
        escaped(s.drop_last()) + escaped_char(s.last())
    }
}

/// `s` wrapped in a pair of `"`, with its own quotes escaped.
pub open spec fn quoted(s: Seq<char>) -> Seq<char> {
    seq!['"'] + escaped(s) + seq!['"']
}

/// Whether `c` occurs in `s`.
pub open spec fn has_char(s: Seq<char>, c: char) -> bool {
    exists|i: int| 0 <= i < s.len() && s[i] == c
}

/// Whether `s` holds the range operator `..`.
pub open spec fn has_range(s: Seq<char>) -> bool {
    exists|i: int| 0 <= i && i + 1 < s.len() && #[trigger] s[i] == '.' && s[i + 1] == '.'
}

/// Whether `s` begins with `c`.
pub open spec fn starts_with(s: Seq<char>, c: char) -> bool {
    s.len() > 0 && s[0] == c
}

/// Whether an axis value has to be put in quotes: it holds a space, a colon,
/// a quote or `..`, or it begins with `-`.
pub open spec fn needs_quoting(v: Seq<char>) -> bool {
    has_char(v, ' ') || has_char(v, ':') || has_char(v, '"') || has_range(v) || starts_with(
        v,
        '-',
    )
}

/// Whether `v` is already enclosed in a matching pair of quotes.
pub open spec fn is_quoted(v: Seq<char>) -> bool {
    v.len() >= 2 && v[0] == '"' && v[v.len() - 1] == '"'
}

/// How an axis value is written after the colon.
pub open spec fn format_value(v: Seq<char>) -> Seq<char> {
    if needs_quoting(v) {
        if is_quoted(v) {
            quoted(v.subrange(1, v.len() - 1))
        } else {
            quoted(v)
        }
    } else {
        escaped(v)
    }
}

/// `s` without the `-` characters it begins with.
pub open spec fn without_leading_dashes(s: Seq<char>) -> Seq<char>
    decreases s.len(),
{
    if s.len() > 0 && s[0] == '-' {
        without_leading_dashes(s.drop_first())
    } else {
        s
    }
}

/// The decimal digit for `d`.
pub open spec fn digit(d: nat) -> char {
    if d == 0 {
        '0'
    } else if d == 1 {
        '1'
    } else if d == 2 {
        '2'
    } else if d == 3 {
        '3'
    } else if d == 4 {
        '4'
    } else if d == 5 {
        '5'
    } else if d == 6 {
        '6'
    } else if d == 7 {
        '7'
    } else if d == 8 {
        '8'
    } else {
        '9'
    }
}

/// The decimal notation of `n`, without leading zeros.
pub open spec fn decimal(n: nat) -> Seq<char>
    decreases n,
{
    if n < 10 {
        seq![digit(n)]
    } else {
        decimal(n / 10).push(digit(n % 10))
    }
}

/// Appends `s` with its quotes escaped to `out`.
pub fn push_escaped(out: &mut String, s: &str)
    ensures
        final(out)@ == old(out)@ + escaped(s@),
{
    let n = s.unicode_len();
    let mut i: usize = 0;
    while i < n
        invariant
            n == s@.len(),
            i <= n,
            out@ == old(out)@ + escaped(s@.subrange(0, i as int)),
        decreases n - i,
    {
        let c = s.get_char(i);
        proof {
            assert(s@.subrange(0, i + 1).drop_last() =~= s@.subrange(0, i as int));
        }
        if c == '"' {
            push_char(out, '\\');
            push_char(out, '"');
        } else {
            push_char(out, c);
        }
        assert(out@ =~= old(out)@ + escaped(s@.subrange(0, i + 1)));
        i = i + 1;
    }
    assert(s@.subrange(0, n as int) =~= s@);
}

/// Whether `c` occurs in `s`.
pub fn contains_char(s: &str, c: char) -> (r: bool)
    ensures
        r == has_char(s@, c),
{
    let n = s.unicode_len();
    let mut i: usize = 0;
    while i < n
        invariant
            n == s@.len(),
            i <= n,
            forall|j: int| 0 <= j < i ==> s@[j] != c,
        decreases n - i,
    {
        if s.get_char(i) == c {
            return true;
        }
        i = i + 1;
    }
    false
}

/// Whether `s` holds the range operator `..`.
pub fn contains_range(s: &str) -> (r: bool)
    ensures
        r == has_range(s@),
{
    let n = s.unicode_len();
    let mut i: usize = 0;
    while i < n
        invariant
            n == s@.len(),
            i <= n,
            forall|j: int| 0 <= j < i && j + 1 < n ==> !(#[trigger] s@[j] == '.' && s@[j + 1] == '.'),
        decreases n - i,
    {
        if i + 1 < n && s.get_char(i) == '.' && s.get_char(i + 1) == '.' {
            return true;
        }
        i = i + 1;
    }
    false
}

/// Whether an axis value has to be put in quotes.
pub fn value_needs_quoting(v: &str) -> (r: bool)
    ensures
        r == needs_quoting(v@),
{
    let dash = v.unicode_len() > 0 && v.get_char(0) == '-';
    contains_char(v, ' ') || contains_char(v, ':') || contains_char(v, '"') || contains_range(v)
        || dash
}

/// Appends an axis value to `out` as it is written after the colon.
pub fn push_value(out: &mut String, v: &str)
    ensures
        final(out)@ == old(out)@ + format_value(v@),
{
    let n = v.unicode_len();
    if value_needs_quoting(v) {
        push_char(out, '"');
        if n >= 2 && v.get_char(0) == '"' && v.get_char(n - 1) == '"' {
            push_escaped(out, v.substring_char(1, n - 1));
        } else {
            push_escaped(out, v);
        }
        push_char(out, '"');
    } else {
        push_escaped(out, v);
    }
    assert(out@ =~= old(out)@ + format_value(v@));
}

/// `s` without the `-` characters it begins with.
pub fn strip_leading_dashes(s: &str) -> (r: &str)
    ensures
        r@ == without_leading_dashes(s@),
{
    let n = s.unicode_len();
    let mut k: usize = 0;
    assert(s@.subrange(0, n as int) =~= s@);
    while k < n && s.get_char(k) == '-'
        invariant
            n == s@.len(),
            k <= n,
            without_leading_dashes(s@.subrange(k as int, n as int)) == without_leading_dashes(s@),
        decreases n - k,
    {
        assert(s@.subrange(k as int, n as int).drop_first() =~= s@.subrange(k + 1, n as int));
        k = k + 1;
    }
    s.substring_char(k, n)
}

/// The decimal digit for `d`.
fn digit_char(d: u32) -> (c: char)
    requires
        d < 10,
    ensures
        c == digit(d as nat),
{
    if d == 0 {
        '0'
    } else if d == 1 {
        '1'
    } else if d == 2 {
        '2'
    } else if d == 3 {
        '3'
    } else if d == 4 {
        '4'
    } else if d == 5 {
        '5'
    } else if d == 6 {
        '6'
    } else if d == 7 {
        '7'
    } else if d == 8 {
        '8'
    } else {
        '9'
    }
}

/// The decimal notation of `n`.
pub fn decimal_string(n: u32) -> (r: String)
    ensures
        r@ == decimal(n as nat),
    decreases n,
{
    if n < 10 {
        let mut s = String::new();
        push_char(&mut s, digit_char(n));
        assert(s@ =~= decimal(n as nat));
        s
    } else {
        let mut s = decimal_string(n / 10);
        push_char(&mut s, digit_char(n % 10));
        s
    }
}

} // verus!
