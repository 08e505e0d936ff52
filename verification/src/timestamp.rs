//! Points in time, as the storage service keeps them, and their text form.
use vstd::prelude::*;
use vstd::string::StrSliceExecFns;

verus! {

/// Seconds and nanoseconds since the Unix epoch, in UTC.
#[derive(Clone, Copy, Debug, PartialEq, Eq, Structural)]
pub struct Timestamp {
    pub seconds: i64,
    pub nanos: i32,
}

/// What `prost_types::Timestamp::from_str` reads from an RFC 3339 text, as
/// seconds and nanoseconds, or `None` where it refuses the text.
pub uninterp spec fn rfc3339_timestamp(text: Seq<char>) -> Option<(i64, i32)>;

/// The text of the error that `prost_types::Timestamp::from_str` returns.
pub open spec fn timestamp_parse_failure_text() -> Seq<char> {
    "failed to parse RFC-3339 formatted timestamp"@
}

/// Reads an RFC 3339 text with `prost_types::Timestamp::from_str`; an error
/// comes back as the error's text.
///
/// Trusted: the contract claims that on the texts of `parse_returns` the call
/// returns, that the result is the named `rfc3339_timestamp` of the text, and
/// that a refused text gives the text of `TimestampError::ParseFailure`, the
/// only error that `from_str` returns in its source. On the other texts the
/// source splits a piece of fewer than two characters off the text, which
/// panics; `requires` leaves them out.
#[verifier::external_body]
pub(crate) fn parse_timestamp(text: &str) -> (r: Result<Timestamp, String>)
    requires
        parse_returns(text@),
    ensures
        match r {
            Ok(t) => rfc3339_timestamp(text@) == Some((t.seconds, t.nanos)),
            Err(m) => rfc3339_timestamp(text@) is None && m@ == timestamp_parse_failure_text(),
        },
{
    match <prost_types::Timestamp as std::str::FromStr>::from_str(text) {
        Ok(t) => Ok(Timestamp { seconds: t.seconds, nanos: t.nanos }),
        Err(e) => Err(e.to_string()),
    }
}

/// The result of reading a text: what `from_str` gives where it returns, and
/// its failure text where it would panic.
pub open spec fn parsed_timestamp(text: Seq<char>) -> Result<Timestamp, Seq<char>> {
    if parse_returns(text) {
        match rfc3339_timestamp(text) {
            Some((s, n)) => Ok(Timestamp { seconds: s, nanos: n }),
            None => Err(timestamp_parse_failure_text()),
        }
    } else {
        Err(timestamp_parse_failure_text())
    }
}

// The texts on which `from_str` returns. It reads the text from left to
// right; it panics only where it takes a two-digit number from fewer than two
// remaining characters. The checks below follow its reading up to each such
// place, and hold wherever it stops early (which makes it return `None`) or
// finds the two characters there.

/// Every character is ASCII.
pub open spec fn is_ascii_text(s: Seq<char>) -> bool {
    forall|j: int| 0 <= j < s.len() ==> #[trigger] s[j] <= '\u{7f}'
}

/// A decimal digit.
pub open spec fn is_digit(c: char) -> bool {
    '0' <= c && c <= '9'
}

/// The number of digits in the run that starts at `from`.
pub open spec fn digit_run(s: Seq<char>, from: int) -> nat
    decreases s.len() - from,
{
    if 0 <= from < s.len() && is_digit(s[from]) {
        1 + digit_run(s, from + 1)
    } else {
        0
    }
}

/// At least two characters remain from `i` on.
pub open spec fn two_remain(s: Seq<char>, i: int) -> bool {
    s.len() - i >= 2
}

/// Where the year ends, or `None` where the year is refused.
pub open spec fn year_end(s: Seq<char>) -> Option<int> {
    if s[0] == '+' {
        if digit_run(s, 1) >= 5 { Some(1 + digit_run(s, 1) as int) } else { None }
    } else if s[0] == '-' {
        if digit_run(s, 1) >= 4 { Some(1 + digit_run(s, 1) as int) } else { None }
    } else {
        Some(4)
    }
}

/// The offset, from `o` on, is read without a panic.
pub open spec fn offset_returns(s: Seq<char>, o: int) -> bool {
    o >= s.len() || {
        let p = if s[o] == ' ' { o + 1 } else { o };
        ||| p >= s.len()
        ||| s[p] == 'Z' || s[p] == 'z'
        ||| !(s[p] == '+' || s[p] == '-')
        ||| two_remain(s, p + 1) && (p + 3 >= s.len() || two_remain(
            s,
            if s[p + 3] == ':' { p + 4 } else { p + 3 },
        ))
    }
}

/// The fraction of a second and the offset, from `n` on, are read without a panic.
pub open spec fn fraction_returns(s: Seq<char>, n: int) -> bool {
    if n < s.len() && s[n] == '.' {
        let d = digit_run(s, n + 1);
        d == 0 || d > 9 || offset_returns(s, n + 1 + d)
    } else {
        offset_returns(s, n)
    }
}

/// The time, from `k` on, is read without a panic.
pub open spec fn time_returns(s: Seq<char>, k: int) -> bool {
    ||| k >= s.len()
    ||| !(s[k] == 'T' || s[k] == 't' || s[k] == ' ')
    ||| two_remain(s, k + 1) && (k + 3 >= s.len() || s[k + 3] != ':' || two_remain(s, k + 4) && (k
        + 6 >= s.len() || s[k + 6] != ':' || two_remain(s, k + 7) && fraction_returns(s, k + 9)))
}

/// The month, day and what follows, from `i` on, are read without a panic.
pub open spec fn date_returns(s: Seq<char>, i: int) -> bool {
    ||| i >= s.len()
    ||| s[i] != '-'
    ||| two_remain(s, i + 1) && (i + 3 >= s.len() || s[i + 3] != '-' || two_remain(s, i + 4)
        && time_returns(s, i + 6))
}

/// `prost_types::Timestamp::from_str` returns on this text: it refuses a
/// text that is not ASCII or shorter than ten characters at once.
pub open spec fn parse_returns(s: Seq<char>) -> bool {
    ||| !is_ascii_text(s)
    ||| s.len() < 10
    ||| match year_end(s) {
        None => true,
        Some(i) => date_returns(s, i),
    }
}

fn digit(c: char) -> (b: bool)
    ensures
        b == is_digit(c),
{
    '0' <= c && c <= '9'
}

fn run_of_digits(s: &Vec<char>, from: usize) -> (r: usize)
    requires
        from <= s@.len(),
    ensures
        r == digit_run(s@, from as int),
        from + r <= s@.len(),
{
    let mut i = from;
    while i < s.len() && digit(s[i])
        invariant
            from <= i <= s@.len(),
            digit_run(s@, from as int) == (i - from) + digit_run(s@, i as int),
        decreases s@.len() - i,
    {
        i = i + 1;
    }
    i - from
}

fn enough(s: &Vec<char>, i: usize) -> (b: bool)
    ensures
        b == two_remain(s@, i as int),
{
    i <= s.len() && s.len() - i >= 2
}

fn offset_ok(s: &Vec<char>, o: usize) -> (b: bool)
    requires
        o <= s@.len(),
    ensures
        b == offset_returns(s@, o as int),
{
    if o >= s.len() {
        return true;
    }
    let p = if s[o] == ' ' { o + 1 } else { o };
    if p >= s.len() || s[p] == 'Z' || s[p] == 'z' || !(s[p] == '+' || s[p] == '-') {
        return true;
    }
    if !enough(s, p + 1) {
        return false;
    }
    if p + 3 >= s.len() {
        return true;
    }
    let m = if s[p + 3] == ':' { p + 4 } else { p + 3 };
    enough(s, m)
}

fn fraction_ok(s: &Vec<char>, n: usize) -> (b: bool)
    requires
        n <= s@.len(),
    ensures
        b == fraction_returns(s@, n as int),
{
    if n < s.len() && s[n] == '.' {
        let d = run_of_digits(s, n + 1);
        d == 0 || d > 9 || offset_ok(s, n + 1 + d)
    } else {
        offset_ok(s, n)
    }
}

fn time_ok(s: &Vec<char>, k: usize) -> (b: bool)
    requires
        k <= s@.len(),
    ensures
        b == time_returns(s@, k as int),
{
    if k >= s.len() || !(s[k] == 'T' || s[k] == 't' || s[k] == ' ') {
        return true;
    }
    if !enough(s, k + 1) {
        return false;
    }
    if k + 3 >= s.len() || s[k + 3] != ':' {
        return true;
    }
    if !enough(s, k + 4) {
        return false;
    }
    if k + 6 >= s.len() || s[k + 6] != ':' {
        return true;
    }
    if !enough(s, k + 7) {
        return false;
    }
    fraction_ok(s, k + 9)
}

fn date_ok(s: &Vec<char>, i: usize) -> (b: bool)
    requires
        i <= s@.len(),
    ensures
        b == date_returns(s@, i as int),
{
    if i >= s.len() || s[i] != '-' {
        return true;
    }
    if !enough(s, i + 1) {
        return false;
    }
    if i + 3 >= s.len() || s[i + 3] != '-' {
        return true;
    }
    if !enough(s, i + 4) {
        return false;
    }
    time_ok(s, i + 6)
}

fn chars_of(text: &str) -> (v: Vec<char>)
    ensures
        v@ == text@,
{
    let n = text.unicode_len();
    let mut v: Vec<char> = Vec::new();
    let mut i: usize = 0;
    while i < n
        invariant
            n == text@.len(),
            i <= n,
            v@ == text@.subrange(0, i as int),
        decreases n - i,
    {
        v.push(text.get_char(i));
        i = i + 1;
    }
    v
}

/// Whether `prost_types::Timestamp::from_str` returns on `text`.
pub fn timestamp_parse_returns(text: &str) -> (b: bool)
    ensures
        b == parse_returns(text@),
{
    let s = chars_of(text);
    let mut ascii = true;
    let mut i: usize = 0;
    while i < s.len()
        invariant
            i <= s@.len(),
            ascii == (forall|j: int| 0 <= j < i ==> #[trigger] s@[j] <= '\u{7f}'),
        decreases s@.len() - i,
    {
        let c = s[i];
        assert(c == s@[i as int]);
        if !(c <= '\u{7f}') {
            ascii = false;
        }
        i = i + 1;
    }
    if !ascii || s.len() < 10 {
        return true;
    }
    let year_end: Option<usize> = if s[0] == '+' {
        let d = run_of_digits(&s, 1);
        if d >= 5 { Some(1 + d) } else { None }
    } else if s[0] == '-' {
        let d = run_of_digits(&s, 1);
        if d >= 4 { Some(1 + d) } else { None }
    } else {
        Some(4)
    };
    match year_end {
        None => true,
        Some(e) => date_ok(&s, e),
    }
}

/// Reads an RFC 3339 text: what `prost_types::Timestamp::from_str` gives, or
/// its failure text for a text on which it would panic.
pub fn read_timestamp(text: &str) -> (r: Result<Timestamp, String>)
    ensures
        match r {
            Ok(t) => parsed_timestamp(text@) == Ok::<Timestamp, Seq<char>>(t),
            Err(m) => parsed_timestamp(text@) == Err::<Timestamp, Seq<char>>(m@),
        },
{
    if timestamp_parse_returns(text) {
        parse_timestamp(text)
    } else {
        Err("failed to parse RFC-3339 formatted timestamp".to_owned())
    }
}

/// The current time, by `chrono::Utc::now()`.
///
/// Trusted: the contract claims only what holds of every reading, as the
/// source shows: the time is taken from `SystemTime` since the Unix epoch, so
/// the seconds are not negative and the nanoseconds are below one second.
/// Which time comes out is left unsaid. The outside source panics when the
/// system clock stands before 1970.
#[verifier::external_body]
pub(crate) fn utc_now() -> (t: Timestamp)
    ensures
        0 <= t.seconds,
        0 <= t.nanos < 1_000_000_000,
{
    let now = chrono::Utc::now();
    Timestamp { seconds: now.timestamp(), nanos: now.timestamp_subsec_nanos() as i32 }
}


// --------------------------------------------------------------------- laws

/// `n` digits stand from `from` on.
pub open spec fn digits_at(s: Seq<char>, from: int, n: int) -> bool {
    &&& 0 <= from
    &&& from + n <= s.len()
    &&& forall|i: int| from <= i < from + n ==> is_digit(#[trigger] s[i])
}

/// An RFC 3339 offset from `o` to the end: none, `Z`, or a sign and two
/// digits of hours, then optionally two digits of minutes, with or without a
/// colon.
pub open spec fn offset_shape(s: Seq<char>, o: int) -> bool {
    ||| o == s.len()
    ||| o + 1 == s.len() && (s[o] == 'Z' || s[o] == 'z')
    ||| {
        &&& o + 3 <= s.len()
        &&& (s[o] == '+' || s[o] == '-')
        &&& digits_at(s, o + 1, 2)
        &&& {
            ||| o + 3 == s.len()
            ||| o + 5 == s.len() && digits_at(s, o + 3, 2)
            ||| o + 6 == s.len() && s[o + 3] == ':' && digits_at(s, o + 4, 2)
        }
    }
}

/// A date `YYYY-MM-DD`.
pub open spec fn date_shape(s: Seq<char>) -> bool {
    &&& s.len() >= 10
    &&& digits_at(s, 0, 4)
    &&& s[4] == '-'
    &&& digits_at(s, 5, 2)
    &&& s[7] == '-'
    &&& digits_at(s, 8, 2)
}

/// An RFC 3339 date and time, `YYYY-MM-DDTHH:MM:SS`, with `frac` digits of a
/// fraction of a second (none where `frac` is 0) and an offset.
pub open spec fn date_time_shape(s: Seq<char>, frac: int) -> bool {
    &&& s.len() >= 19
    &&& date_shape(s)
    &&& (s[10] == 'T' || s[10] == 't' || s[10] == ' ')
    &&& digits_at(s, 11, 2)
    &&& s[13] == ':'
    &&& digits_at(s, 14, 2)
    &&& s[16] == ':'
    &&& digits_at(s, 17, 2)
    &&& if frac == 0 {
        offset_shape(s, 19)
    } else {
        &&& 1 <= frac <= 9
        &&& s.len() > 19
        &&& s[19] == '.'
        &&& digits_at(s, 20, frac)
        &&& offset_shape(s, 20 + frac)
    }
}

proof fn lemma_digit_run_exact(s: Seq<char>, i: int, n: int)
    requires
        digits_at(s, i, n),
        n >= 0,
        i + n == s.len() || !is_digit(s[i + n]),
    ensures
        digit_run(s, i) == n,
    decreases n,
{
    if n > 0 {
        assert(is_digit(s[i]));
        lemma_digit_run_exact(s, i + 1, n - 1);
    }
}

proof fn lemma_offset_shape_returns(s: Seq<char>, o: int)
    requires
        offset_shape(s, o),
    ensures
        offset_returns(s, o),
{
}

/// The reader takes every well-formed RFC 3339 date and time to the parser,
/// whatever its offset's sign: it refuses no such text up front.
pub proof fn lemma_well_formed_date_times_are_read(s: Seq<char>, frac: int)
    requires
        date_time_shape(s, frac),
    ensures
        parse_returns(s),
        parsed_timestamp(s) == match rfc3339_timestamp(s) {
            Some((sec, n)) => Ok::<Timestamp, Seq<char>>(Timestamp { seconds: sec, nanos: n }),
            None => Err::<Timestamp, Seq<char>>(timestamp_parse_failure_text()),
        },
{
    assert(is_digit(s[0]));
    assert(is_digit(s[5]) && is_digit(s[6]) && is_digit(s[8]) && is_digit(s[9]));
    if frac == 0 {
        lemma_offset_shape_returns(s, 19);
        assert(fraction_returns(s, 19));
    } else {
        let o = 20 + frac;
        if o < s.len() {
            assert(!is_digit(s[o]));
        }
        lemma_digit_run_exact(s, 20, frac);
        lemma_offset_shape_returns(s, o);
        assert(fraction_returns(s, 19));
    }
    assert(time_returns(s, 10));
    assert(date_returns(s, 4));
}

/// The reader takes every date `YYYY-MM-DD` standing alone to the parser.
pub proof fn lemma_dates_are_read(s: Seq<char>)
    requires
        date_shape(s),
        s.len() == 10,
    ensures
        parse_returns(s),
{
    assert(is_digit(s[0]));
    assert(date_returns(s, 4));
}

/// The reader gives the parser's result wherever the parser returns, and the
/// parser's failure text elsewhere.
pub proof fn lemma_read_is_the_parser_result(s: Seq<char>)
    ensures
        parse_returns(s) ==> match rfc3339_timestamp(s) {
            Some((sec, n)) => parsed_timestamp(s) == Ok::<Timestamp, Seq<char>>(
                Timestamp { seconds: sec, nanos: n },
            ),
            None => parsed_timestamp(s) == Err::<Timestamp, Seq<char>>(timestamp_parse_failure_text()),
        },
        !parse_returns(s) ==> parsed_timestamp(s) == Err::<Timestamp, Seq<char>>(
            timestamp_parse_failure_text(),
        ),
        parsed_timestamp(s) matches Err(m) ==> m == timestamp_parse_failure_text(),
{
}


/// An ASCII date followed by a time separator and fewer than two characters
/// of hours is refused before the parser, which would panic on it.
pub proof fn lemma_cut_hours_refused(s: Seq<char>)
    requires
        is_ascii_text(s),
        date_shape(s),
        s[10] == 'T' || s[10] == 't' || s[10] == ' ',
        s.len() == 11 || s.len() == 12,
    ensures
        !parse_returns(s),
{
    assert(is_digit(s[0]));
    assert(!time_returns(s, 10));
    assert(!date_returns(s, 4));
}

/// An ASCII date and time whose offset sign is followed by fewer than two
/// characters of hours is refused before the parser, which would panic on it.
pub proof fn lemma_cut_offset_refused(s: Seq<char>)
    requires
        is_ascii_text(s),
        date_shape(s),
        s[10] == 'T' || s[10] == 't' || s[10] == ' ',
        digits_at(s, 11, 2),
        s[13] == ':',
        digits_at(s, 14, 2),
        s[16] == ':',
        digits_at(s, 17, 2),
        s[19] == '+' || s[19] == '-',
        s.len() == 20 || s.len() == 21,
    ensures
        !parse_returns(s),
{
    assert(is_digit(s[0]));
    assert(!offset_returns(s, 19));
    assert(!fraction_returns(s, 19));
    assert(!time_returns(s, 10));
    assert(!date_returns(s, 4));
}

} // verus!
