use vstd::prelude::*;

verus! {

/// A `String` holding the characters of a string slice.
pub fn owned(s: &str) -> (r: String)
    ensures
        r@ == s@,
{
    s.to_owned()
}

/// The concatenation of two string slices.
pub fn join2(a: &str, b: &str) -> (r: String)
    ensures
        r@ == a@ + b@,
{
    let mut r = a.to_owned();
    r.append(b);
    r
}

/// The concatenation of three string slices.
pub fn join3(a: &str, b: &str, c: &str) -> (r: String)
    ensures
        r@ == a@ + b@ + c@,
{
    let mut r = a.to_owned();
    r.append(b);
    r.append(c);
    r
}

/// Whether a text begins with a prefix.
pub open spec fn starts_with(s: Seq<char>, prefix: Seq<char>) -> bool {
    prefix.len() <= s.len() && s.subrange(0, prefix.len() as int) == prefix
}

/// The text after a prefix, if the text begins with it.
pub fn strip_prefix(s: &str, prefix: &str) -> (r: Option<String>)
    ensures
        starts_with(s@, prefix@) ==> (r matches Some(x) && x@ == s@.skip(prefix@.len() as int)),
        !starts_with(s@, prefix@) ==> r is None,
{
    let n = s.unicode_len();
    let m = prefix.unicode_len();
    if n < m {
        return None;
    }
    let head = owned(s.substring_char(0, m));
    let p = owned(prefix);
    if head == p {
        Some(owned(s.substring_char(m, n)))
    } else {
        None
    }
}

/// What `str::to_lowercase` gives for a text: its Unicode lower case.
pub uninterp spec fn lowercase(s: Seq<char>) -> Seq<char>;

/// Lower-cases a text with `str::to_lowercase`, named by `lowercase`. Its
/// documentation maps every character to one or more characters, so only the
/// empty text gives the empty text.
#[verifier::external_body]
pub(crate) fn to_lowercase(s: &str) -> (r: String)
    ensures
        r@ == lowercase(s@),
        (r@.len() == 0) == (s@.len() == 0),
{
    s.to_lowercase()
}

/// Whether a character is white space as `char::is_whitespace` tells it: it
/// has the Unicode `White_Space` property, which these 25 code points have.
pub open spec fn white_space(c: char) -> bool {
    ||| '\u{9}' <= c <= '\u{d}'
    ||| c == ' '
    ||| c == '\u{85}'
    ||| c == '\u{a0}'
    ||| c == '\u{1680}'
    ||| '\u{2000}' <= c <= '\u{200a}'
    ||| c == '\u{2028}'
    ||| c == '\u{2029}'
    ||| c == '\u{202f}'
    ||| c == '\u{205f}'
    ||| c == '\u{3000}'
}

/// Tests a character for white space.
pub fn is_whitespace(c: char) -> (r: bool)
    ensures
        r == white_space(c),
{
    ('\u{9}' <= c && c <= '\u{d}') || c == ' ' || c == '\u{85}' || c == '\u{a0}' || c == '\u{1680}'
        || ('\u{2000}' <= c && c <= '\u{200a}') || c == '\u{2028}' || c == '\u{2029}' || c
        == '\u{202f}' || c == '\u{205f}' || c == '\u{3000}'
}

/// Whether every character of a text is white space.
pub open spec fn blank(s: Seq<char>) -> bool {
    forall|i: int| 0 <= i < s.len() ==> white_space(#[trigger] s[i])
}

/// Whether a text holds nothing but white space, as `s.trim().is_empty()`
/// tells it.
pub fn is_blank(s: &str) -> (r: bool)
    ensures
        r == blank(s@),
{
    let n = s.unicode_len();
    let mut i: usize = 0;
    while i < n
        invariant
            n == s@.len(),
            i <= n,
            forall|k: int| 0 <= k < i ==> white_space(#[trigger] s@[k]),
        decreases n - i,
    {
        if !is_whitespace(s.get_char(i)) {
            return false;
        }
        i = i + 1;
    }
    true
}

/// The number of white-space characters that begin a text.
pub open spec fn leading_space(s: Seq<char>) -> nat
    decreases s.len(),
{
    if s.len() == 0 || !white_space(s[0]) {
        0
    } else {
        1 + leading_space(s.drop_first())
    }
}

/// The number of white-space characters that end a text.
pub open spec fn trailing_space(s: Seq<char>) -> nat
    decreases s.len(),
{
    if s.len() == 0 || !white_space(s.last()) {
        0
    } else {
        1 + trailing_space(s.drop_last())
    }
}

/// A text without the white space at its two ends.
pub open spec fn trimmed(s: Seq<char>) -> Seq<char> {
    if leading_space(s) == s.len() {
        Seq::empty()
    } else {
        s.subrange(leading_space(s) as int, s.len() - trailing_space(s))
    }
}

/// Trims a text with `str::trim`, which removes the white space that
/// `char::is_whitespace` tells at both ends.
#[verifier::external_body]
pub(crate) fn trim(s: &str) -> (r: String)
    ensures
        r@ == trimmed(s@),
{
    s.trim().to_string()
}

/// The number of `c` characters that end a text.
pub open spec fn trailing_count(s: Seq<char>, c: char) -> nat
    decreases s.len(),
{
    if s.len() == 0 || s.last() != c {
        0
    } else {
        1 + trailing_count(s.drop_last(), c)
    }
}

/// A text without the `/` characters that end it.
pub open spec fn without_trailing_slashes(s: Seq<char>) -> Seq<char> {
    s.subrange(0, s.len() - trailing_count(s, '/'))
}

/// Removes the `/` characters that end a text with `str::trim_end_matches`.
#[verifier::external_body]
pub(crate) fn trim_end_slashes(s: &str) -> (r: String)
    ensures
        r@ == without_trailing_slashes(s@),
{
    s.trim_end_matches('/').to_string()
}

/// The position of the first `c` in a text that holds one.
pub open spec fn first_index(s: Seq<char>, c: char) -> nat
    decreases s.len(),
{
    if s.len() == 0 || s[0] == c {
        0
    } else {
        1 + first_index(s.drop_first(), c)
    }
}

/// The pieces of a text between the separators, as `str::split` gives them.
pub open spec fn pieces(s: Seq<char>, sep: char) -> Seq<Seq<char>>
    decreases s.len(),
{
    if !s.contains(sep) {
        seq![s]
    } else {
        let k = first_index(s, sep);
        if k < s.len() {
            seq![s.take(k as int)] + pieces(s.skip(k + 1 as int), sep)
        } else {
            seq![s]
        }
    }
}

/// Whether the texts are the given pieces, one for one.
pub open spec fn texts_are(r: Seq<String>, p: Seq<Seq<char>>) -> bool {
    r.len() == p.len() && forall|i: int| 0 <= i < p.len() ==> (#[trigger] r[i])@ == p[i]
}

/// Splits a text at every comma with `str::split`.
#[verifier::external_body]
pub(crate) fn split_commas(s: &str) -> (r: Vec<String>)
    ensures
        texts_are(r@, pieces(s@, ',')),
{
    s.split(',').map(str::to_string).collect()
}

/// The value of a sequence of decimal digits.
pub open spec fn digits_value(s: Seq<char>) -> int
    decreases s.len(),
{
    if s.len() == 0 {
        0
    } else {
        10 * digits_value(s.drop_last()) + (s.last() as int - '0' as int)
    }
}

/// Whether a text is made of decimal digits only.
pub open spec fn all_digits(s: Seq<char>) -> bool {
    forall|i: int| 0 <= i < s.len() ==> '0' <= #[trigger] s[i] <= '9'
}

/// The number that `u16::from_str` reads from a text: an optional `+` and one
/// or more decimal digits of a value that fits.
pub open spec fn u16_reading(s: Seq<char>) -> Option<u16> {
    let d = if s.len() > 0 && s[0] == '+' {
        s.drop_first()
    } else {
        s
    };
    if d.len() > 0 && all_digits(d) && digits_value(d) <= 65535 {
        Some(digits_value(d) as u16)
    } else {
        None
    }
}

/// Reads a port number with `str::parse::<u16>`; the error gives its text.
#[verifier::external_body]
pub(crate) fn parse_u16(s: &str) -> (r: Result<u16, String>)
    ensures
        match u16_reading(s@) {
            Some(n) => r == Ok::<u16, String>(n),
            None => r is Err,
        },
{
    s.parse::<u16>().map_err(|e| e.to_string())
}

/// The decimal digits of a natural number.
pub open spec fn decimal(n: nat) -> Seq<char>
    decreases n,
{
    if n < 10 {
        seq![(('0' as int) + n) as char]
    } else {
        decimal(n / 10).push((('0' as int) + n % 10) as char)
    }
}

/// The decimal text of an integer, with a `-` before a negative one.
pub open spec fn signed_decimal(n: int) -> Seq<char> {
    if n < 0 {
        seq!['-'] + decimal((-n) as nat)
    } else {
        decimal(n as nat)
    }
}

/// Writes a `u16` with its `Display`: its decimal digits.
#[verifier::external_body]
pub(crate) fn u16_to_text(n: u16) -> (r: String)
    ensures
        r@ == decimal(n as nat),
{
    n.to_string()
}

/// Writes an `i64` with its `Display`: its decimal digits, after a `-` where
/// it is negative.
#[verifier::external_body]
pub(crate) fn i64_to_text(n: i64) -> (r: String)
    ensures
        r@ == signed_decimal(n as int),
{
    n.to_string()
}

} // verus!
