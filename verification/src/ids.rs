use vstd::prelude::*;

verus! {

/// The hexadecimal digit, in lower case, for a value below sixteen.
pub open spec fn hex_digit(d: int) -> char {
    if d < 10 {
        (('0' as int) + d) as char
    } else {
        (('a' as int) + d - 10) as char
    }
}

/// The `k`-th of the 32 hexadecimal digits of a 128-bit identifier, most
/// significant digit first.
pub open spec fn id_nibble(id: u128, k: int) -> int {
    (id as int / vstd::arithmetic::power::pow(16, (31 - k) as nat)) % 16
}

/// The 32 hexadecimal digits of an identifier.
pub open spec fn id_digits(id: u128) -> Seq<char> {
    Seq::new(32, |k: int| hex_digit(id_nibble(id, k)))
}

/// The hyphenated text of an identifier: groups of 8, 4, 4, 4 and 12 lower
/// case hexadecimal digits joined by `-`.
pub open spec fn uuid_text(id: u128) -> Seq<char> {
    let d = id_digits(id);
    d.subrange(0, 8) + seq!['-'] + d.subrange(8, 12) + seq!['-'] + d.subrange(12, 16) + seq!['-']
        + d.subrange(16, 20) + seq!['-'] + d.subrange(20, 32)
}

/// What `uuid::Uuid::parse_str` gives for a text: the identifier, or the
/// text of the error it reports.
pub uninterp spec fn uuid_parse_result(text: Seq<char>) -> Result<u128, Seq<char>>;

/// Whether an identifier is a version 7 UUID of the RFC 4122 variant: its
/// thirteenth hexadecimal digit is 7 and its seventeenth is one of 8, 9, a, b.
pub open spec fn is_v7(id: u128) -> bool {
    id_nibble(id, 12) == 7 && 8 <= id_nibble(id, 16) < 12
}

/// Draws a fresh identifier with `uuid::Uuid::now_v7`. The value rests on
/// the clock and on chance; what the crate sets in every such value is
/// stated: the version 7 and the RFC 4122 variant bits.
#[verifier::external_body]
pub(crate) fn new_uuid_v7() -> (r: u128)
    ensures
        is_v7(r),
{
    uuid::Uuid::now_v7().as_u128()
}

/// Formats an identifier with the `Display` of `uuid::Uuid`, which writes the
/// hyphenated lower-case form.
#[verifier::external_body]
pub(crate) fn uuid_to_string(id: u128) -> (r: String)
    ensures
        r@ == uuid_text(id),
{
    uuid::Uuid::from_u128(id).to_string()
}

/// A parse result with its error text taken by its view.
pub open spec fn parse_view(r: Result<u128, String>) -> Result<u128, Seq<char>> {
    match r {
        Ok(id) => Ok(id),
        Err(e) => Err(e@),
    }
}

/// Whether a text that is the hyphenated form of an identifier parses back to
/// that identifier.
pub open spec fn text_is_uuid_of(text: Seq<char>, r: Result<u128, String>) -> bool {
    forall|id: u128| text == uuid_text(id) ==> r == Ok::<u128, String>(id)
}

/// Parses a text with `uuid::Uuid::parse_str`. Its result is named by
/// `uuid_parse_result`; the hyphenated form of an identifier parses back to
/// that identifier, as the crate documents for that form.
#[verifier::external_body]
pub(crate) fn parse_uuid(text: &str) -> (r: Result<u128, String>)
    ensures
        parse_view(r) == uuid_parse_result(text@),
        text_is_uuid_of(text@, r),
{
    match uuid::Uuid::parse_str(text) {
        Ok(u) => Ok(u.as_u128()),
        Err(e) => Err(e.to_string()),
    }
}

/// The earliest and the latest second, counted from the Unix epoch, that a
/// `chrono::DateTime<Utc>` can hold.
pub open spec fn min_datetime_secs() -> int {
    -8334601228800
}

pub open spec fn max_datetime_secs() -> int {
    8210266876799
}

/// Whether a time in microseconds lies within the dates that `chrono` holds.
pub open spec fn micros_in_range(m: int) -> bool {
    min_datetime_secs() * 1_000_000 <= m <= max_datetime_secs() * 1_000_000 + 999_999
}

/// Reads the clock with `chrono::Utc::now`, in microseconds since the Unix
/// epoch. The value rests on the clock: only the range of `chrono`'s dates is
/// stated.
#[verifier::external_body]
pub(crate) fn clock_micros() -> (r: i64)
    ensures
        micros_in_range(r as int),
{
    chrono::Utc::now().timestamp_micros()
}

/// Reads the clock with `chrono::Utc::now`, in whole seconds since the Unix
/// epoch. The value rests on the clock: only the range of `chrono`'s dates is
/// stated.
#[verifier::external_body]
pub(crate) fn clock_secs() -> (r: i64)
    ensures
        min_datetime_secs() <= r <= max_datetime_secs(),
{
    chrono::Utc::now().timestamp()
}

/// Reads a time in whole seconds with `chrono::DateTime::from_timestamp`,
/// which refuses the seconds outside the range of its dates, and gives its
/// seconds back with `DateTime::timestamp`.
#[verifier::external_body]
pub(crate) fn datetime_from_secs(secs: i64) -> (r: Option<i64>)
    ensures
        (r is Some) == (min_datetime_secs() <= secs <= max_datetime_secs()),
        r is Some ==> r == Some(secs),
{
    match chrono::DateTime::from_timestamp(secs, 0) {
        Some(d) => Some(d.timestamp()),
        None => None,
    }
}

/// The whole seconds of a time given in microseconds, rounded down, as
/// `chrono::DateTime::timestamp` gives them.
pub open spec fn secs_of_micros(micros: int) -> int {
    micros / 1_000_000
}

/// Whole seconds, rounded towards the past, of a time in microseconds.
pub fn micros_to_secs(micros: i64) -> (r: i64)
    ensures
        r == secs_of_micros(micros as int),
{
    if micros >= 0 {
        let q = (micros as u64) / 1_000_000;
        (q as i64)
    } else {
        let a = (-(micros + 1)) as u64;
        let q = a / 1_000_000;
        proof {
            lemma_floor_div_negative(micros as int, a as int, q as int);
        }
        -(q as i64) - 1
    }
}

proof fn lemma_floor_div_negative(m: int, a: int, q: int)
    requires
        m < 0,
        a == -m - 1,
        q == a / 1_000_000,
    ensures
        m / 1_000_000 == -q - 1,
{
    let r = a % 1_000_000;
    assert(a == 1_000_000 * q + r && 0 <= r < 1_000_000) by (nonlinear_arith)
        requires
            a >= 0,
            q == a / 1_000_000,
            r == a % 1_000_000,
    ;
    assert(m == 1_000_000 * (-q - 1) + (999_999 - r));
    assert(m / 1_000_000 == -q - 1) by (nonlinear_arith)
        requires
            m == 1_000_000 * (-q - 1) + (999_999 - r),
            0 <= 999_999 - r < 1_000_000,
    ;
}

} // verus!
