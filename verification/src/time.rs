use std::fmt::Write;
use vstd::prelude::*;

verus! {

/// Seconds between UTC and the local time zone, UTC+8.
pub const LOCAL_OFFSET_SECS: i32 = 28_800;

/// Milliseconds between UTC and the local time zone, UTC+8.
pub const LOCAL_OFFSET_MILLIS: i64 = 28_800_000;

/// The first millisecond after year 9999, 10000-01-01 00:00:00, counted from
/// the Unix epoch.
pub const LOCAL_TEXT_END_MILLIS: i64 = 253_402_300_800_000;

/// The format that the conversions use when none is given.
pub open spec fn default_format() -> Seq<char> {
    "%Y-%m-%d %H:%M:%S%.3f"@
}

/// The format given, or the default one.
pub open spec fn format_or_default(format_opt: Option<&str>) -> Seq<char> {
    match format_opt {
        Some(f) => f@,
        None => default_format(),
    }
}

/// The milliseconds since the Unix epoch of the date and time that
/// `chrono::NaiveDateTime::parse_from_str` reads from `text` with `format`,
/// taken as UTC; `None` where the text does not parse.
pub uninterp spec fn naive_datetime_millis(text: Seq<char>, format: Seq<char>) -> Option<int>;

/// The text that chrono writes for the instant `millis` milliseconds after the
/// Unix epoch, seen at a fixed offset of `offset_secs` seconds east of UTC,
/// with `format`; `None` where the offset or the instant is out of chrono's
/// range or the format cannot be written.
pub uninterp spec fn offset_datetime_text(millis: int, offset_secs: int, format: Seq<char>) -> Option<Seq<char>>;

/// `chrono::NaiveDateTime::parse_from_str`, then the parsed date and time's
/// milliseconds since the epoch as UTC. Claimed: the result is what
/// `naive_datetime_millis` names, and chrono's dates (years -262143 to
/// 262142) keep it below 10^16 milliseconds either side of the epoch.
#[verifier::external_body]
fn parse_naive_millis(text: &str, format: &str) -> (r: Option<i64>)
    ensures
        r is Some <==> naive_datetime_millis(text@, format@) is Some,
        r matches Some(ms) ==> naive_datetime_millis(text@, format@) == Some(ms as int),
        r matches Some(ms) ==> -10_000_000_000_000_000 < ms < 10_000_000_000_000_000,
{
    match chrono::NaiveDateTime::parse_from_str(text, format) {
        Ok(datetime) => Some(datetime.and_utc().timestamp_millis()),
        Err(_) => None,
    }
}

/// chrono's `FixedOffset::east_opt`, `timestamp_millis_opt` and `format`,
/// written into a `String`. Claimed: the result is what
/// `offset_datetime_text` names; and with the default format, an offset
/// under a day and a local time from the epoch to the end of year 9999, the
/// text is written (four-digit year, two-digit fields, three-digit
/// milliseconds) and `NaiveDateTime::parse_from_str` reads it back as the
/// local time, to the millisecond.
#[verifier::external_body]
fn format_millis_at_offset(millis: i64, offset_secs: i32, format: &str) -> (r: Option<String>)
    ensures
        r is Some <==> offset_datetime_text(millis as int, offset_secs as int, format@) is Some,
        r matches Some(s) ==> offset_datetime_text(millis as int, offset_secs as int, format@) == Some(s@),
        r is None ==> !(format@ == default_format() && -86_400 < offset_secs < 86_400 && 0 <= millis
            + offset_secs * 1_000 < LOCAL_TEXT_END_MILLIS),
        r matches Some(s) ==> (format@ == default_format() && -86_400 < offset_secs < 86_400 && 0 <= millis
            + offset_secs * 1_000 < LOCAL_TEXT_END_MILLIS ==> naive_datetime_millis(s@, format@) == Some(
            millis + offset_secs * 1_000,
        )),
{
    let offset = chrono::FixedOffset::east_opt(offset_secs)?;
    let datetime = chrono::TimeZone::timestamp_millis_opt(&offset, millis).single()?;
    let mut text = String::new();
    write!(text, "{}", datetime.format(format)).ok()?;
    Some(text)
}

/// Formats a UTC timestamp in milliseconds as local (UTC+8) time, with the
/// default format `%Y-%m-%d %H:%M:%S%.3f` where none is given. The timestamp
/// is read as an `i64`, as chrono takes it. In the default format, a time up
/// to the end of year 9999 is written so that `local_str_to_time` reads the
/// timestamp back.
pub fn time_to_local_str(tm: u64, format_opt: Option<&str>) -> (r: String)
    requires
        offset_datetime_text(tm as i64 as int, LOCAL_OFFSET_SECS as int, format_or_default(format_opt)) is Some,
    ensures
        offset_datetime_text(tm as i64 as int, LOCAL_OFFSET_SECS as int, format_or_default(format_opt)) == Some(r@),
        format_opt is None && tm + LOCAL_OFFSET_MILLIS < LOCAL_TEXT_END_MILLIS ==> local_str_to_time_outcome(
            r@,
            default_format(),
        ) == Some(tm as int),
{
    let format = match format_opt {
        Some(f) => f,
        None => "%Y-%m-%d %H:%M:%S%.3f",
    };
    match format_millis_at_offset(tm as i64, LOCAL_OFFSET_SECS, format) {
        Some(text) => text,
        None => {
            proof {
                assert(false);
            }
            String::new()
        },
    }
}

/// Formats a UTC timestamp in milliseconds as local (UTC+8) time, or returns
/// `None` where chrono cannot represent the instant or write the format. In
/// the default format, a time up to the end of year 9999 is written, and
/// reads back as the timestamp.
pub fn try_time_to_local_str(tm: u64, format_opt: Option<&str>) -> (r: Option<String>)
    ensures
        (match offset_datetime_text(tm as i64 as int, LOCAL_OFFSET_SECS as int, format_or_default(format_opt)) {
            Some(text) => r matches Some(s) && s@ == text,
            None => r is None,
        }),
        format_opt is None && tm + LOCAL_OFFSET_MILLIS < LOCAL_TEXT_END_MILLIS ==> (r matches Some(s)
            && local_str_to_time_outcome(s@, default_format()) == Some(tm as int)),
{
    let format = match format_opt {
        Some(f) => f,
        None => "%Y-%m-%d %H:%M:%S%.3f",
    };
    match format_millis_at_offset(tm as i64, LOCAL_OFFSET_SECS, format) {
        Some(_) => Some(time_to_local_str(tm, format_opt)),
        None => None,
    }
}

/// The UTC timestamp in milliseconds of a local (UTC+8) date and time, read
/// with the given format or the default one; `None` where it does not parse.
pub open spec fn local_str_to_time_outcome(text: Seq<char>, format: Seq<char>) -> Option<int> {
    match naive_datetime_millis(text, format) {
        Some(ms) => Some(ms - LOCAL_OFFSET_MILLIS),
        None => None,
    }
}

/// Reads a local (UTC+8) date and time and returns its UTC timestamp in
/// milliseconds, with the default format `%Y-%m-%d %H:%M:%S%.3f` where none
/// is given; `None` where the text does not parse.
pub fn local_str_to_time(tm_str: &str, format_opt: Option<&str>) -> (r: Option<i64>)
    ensures
        (match local_str_to_time_outcome(tm_str@, format_or_default(format_opt)) {
            Some(ms) => r == Some(ms as i64) && r.unwrap() == ms,
            None => r is None,
        }),
{
    let format = match format_opt {
        Some(f) => f,
        None => "%Y-%m-%d %H:%M:%S%.3f",
    };
    match parse_naive_millis(tm_str, format) {
        Some(ms) => Some(ms - LOCAL_OFFSET_MILLIS),
        None => None,
    }
}

/// Reads a UTC date and time and returns its timestamp in milliseconds, with
/// the default format `%Y-%m-%d %H:%M:%S%.3f` where none is given; `None`
/// where the text does not parse.
pub fn utc_str_to_time(tm_str: &str, format_opt: Option<&str>) -> (r: Option<i64>)
    ensures
        (match naive_datetime_millis(tm_str@, format_or_default(format_opt)) {
            Some(ms) => r == Some(ms as i64) && r.unwrap() == ms,
            None => r is None,
        }),
{
    let format = match format_opt {
        Some(f) => f,
        None => "%Y-%m-%d %H:%M:%S%.3f",
    };
    parse_naive_millis(tm_str, format)
}

/// The character of a decimal digit.
pub open spec fn digit_char(d: nat) -> char {
    if d == 0 { '0' }
    else if d == 1 { '1' }
    else if d == 2 { '2' }
    else if d == 3 { '3' }
    else if d == 4 { '4' }
    else if d == 5 { '5' }
    else if d == 6 { '6' }
    else if d == 7 { '7' }
    else if d == 8 { '8' }
    else { '9' }
}

/// The decimal digits of a natural number, most significant first, without
/// leading zeros.
pub open spec fn decimal_digits(n: nat) -> Seq<char>
    decreases n,
{
    if n < 10 {
        seq![digit_char(n)]
    } else {
        decimal_digits(n / 10) + seq![digit_char(n % 10)]
    }
}

/// An integer written in decimal, with a leading `-` where it is negative,
/// as Rust's `Display` writes integers.
pub open spec fn decimal_text(n: int) -> Seq<char> {
    if n < 0 {
        seq!['-'] + decimal_digits((-n) as nat)
    } else {
        decimal_digits(n as nat)
    }
}

/// The number that a text of decimal digits stands for, most significant
/// digit first, each character counted by its distance from `'0'`.
pub open spec fn digits_value(s: Seq<char>) -> int
    decreases s.len(),
{
    if s.len() == 0 {
        0
    } else {
        digits_value(s.drop_last()) * 10 + (s.last() as int - '0' as int)
    }
}

/// The integer that a decimal text stands for: its digits, negated after a
/// leading `-`.
pub open spec fn decimal_text_value(s: Seq<char>) -> int {
    if s.len() > 0 && s[0] == '-' {
        -digits_value(s.drop_first())
    } else {
        digits_value(s)
    }
}

/// Whether a character is one of the ASCII digits `0` to `9`.
pub open spec fn is_ascii_digit(c: char) -> bool {
    '0' as int <= c as int <= '9' as int
}

proof fn lemma_digit_char_code(d: nat)
    requires
        d < 10,
    ensures
        digit_char(d) as int == '0' as int + d,
{
}

/// The decimal digits of a natural number are its standard decimal
/// numeral: every character is an ASCII digit, there is no leading zero
/// (but for zero itself), and read as a decimal number they give the number
/// back.
pub proof fn lemma_decimal_digits_read_back(n: nat)
    ensures
        digits_value(decimal_digits(n)) == n,
        decimal_digits(n).len() >= 1,
        forall|i: int| 0 <= i < decimal_digits(n).len() ==> is_ascii_digit(#[trigger] decimal_digits(n)[i]),
        n > 0 ==> decimal_digits(n)[0] != '0',
    decreases n,
{
    if n < 10 {
        lemma_digit_char_code(n);
        assert(decimal_digits(n).drop_last() =~= Seq::<char>::empty());
        assert(digits_value(Seq::<char>::empty()) == 0);
        assert(digits_value(decimal_digits(n)) == digits_value(decimal_digits(n).drop_last()) * 10 + (
        decimal_digits(n).last() as int - '0' as int));
    } else {
        lemma_decimal_digits_read_back(n / 10);
        lemma_digit_char_code(n % 10);
        let s = decimal_digits(n);
        assert(s.drop_last() =~= decimal_digits(n / 10));
        assert(s.last() == digit_char(n % 10));
        assert(forall|i: int| 0 <= i < decimal_digits(n / 10).len() ==> s[i] == decimal_digits(n / 10)[i]);
        assert(digits_value(s) == digits_value(s.drop_last()) * 10 + (s.last() as int - '0' as int));
        assert(n == (n / 10) * 10 + n % 10) by {
            vstd::arithmetic::div_mod::lemma_fundamental_div_mod(n as int, 10);
        }
    }
}

/// An integer written in decimal reads back as itself: the text
/// `decimal_string` writes for `n` stands for `n`, so a date written as
/// `yyyymmdd` names that date.
pub proof fn lemma_decimal_text_read_back(n: int)
    ensures
        decimal_text_value(decimal_text(n)) == n,
{
    if n < 0 {
        lemma_decimal_digits_read_back((-n) as nat);
        assert((seq!['-'] + decimal_digits((-n) as nat)).drop_first() =~= decimal_digits((-n) as nat));
    } else {
        lemma_decimal_digits_read_back(n as nat);
        assert(is_ascii_digit(decimal_digits(n as nat)[0]));
    }
}

fn digit_str(d: u32) -> (r: &'static str)
    requires
        d < 10,
    ensures
        r@ == seq![digit_char(d as nat)],
{
    proof {
        reveal_strlit("0");
        reveal_strlit("1");
        reveal_strlit("2");
        reveal_strlit("3");
        reveal_strlit("4");
        reveal_strlit("5");
        reveal_strlit("6");
        reveal_strlit("7");
        reveal_strlit("8");
        reveal_strlit("9");
    }
    if d == 0 {
        "0"
    } else if d == 1 {
        "1"
    } else if d == 2 {
        "2"
    } else if d == 3 {
        "3"
    } else if d == 4 {
        "4"
    } else if d == 5 {
        "5"
    } else if d == 6 {
        "6"
    } else if d == 7 {
        "7"
    } else if d == 8 {
        "8"
    } else {
        "9"
    }
}

fn digits_string(n: u32) -> (r: String)
    ensures
        r@ == decimal_digits(n as nat),
    decreases n,
{
    if n < 10 {
        String::from_str(digit_str(n))
    } else {
        let prefix = digits_string(n / 10);
        prefix.concat(digit_str(n % 10))
    }
}

/// An `i32` written in decimal, as `format!("{}", n)` writes it.
pub fn decimal_string(n: i32) -> (r: String)
    ensures
        r@ == decimal_text(n as int),
{
    if n < 0 {
        let magnitude: u32 = if n == i32::MIN {
            2147483648u32
        } else {
            (-n) as u32
        };
        let minus = String::from_str("-");
        proof {
            reveal_strlit("-");
        }
        minus.concat(digits_string(magnitude).as_str())
    } else {
        digits_string(n as u32)
    }
}

/// The UTC timestamp in milliseconds of midnight, local (UTC+8) time, on a
/// date written as the number `yyyymmdd`, e.g. 20231030; `None` where it is
/// not a date.
pub open spec fn local_date_outcome(date: int) -> Option<int> {
    local_str_to_time_outcome(decimal_text(date) + " 00:00:00.000"@, "%Y%m%d %H:%M:%S%.3f"@)
}

/// Converts a local (UTC+8) date written as the number `yyyymmdd`, e.g.
/// 20231030, to the UTC timestamp in milliseconds of its midnight; `None`
/// where the number is not a date.
pub fn local_date_to_timestamp_ms(date: i32) -> (r: Option<i64>)
    ensures
        (match local_date_outcome(date as int) {
            Some(ms) => r == Some(ms as i64) && r.unwrap() == ms,
            None => r is None,
        }),
{
    let text = decimal_string(date).concat(" 00:00:00.000");
    local_str_to_time(text.as_str(), Some("%Y%m%d %H:%M:%S%.3f"))
}

#[verifier::external_type_specification]
#[verifier::external_body]
pub struct ExSystemTime(std::time::SystemTime);

/// `std::time::SystemTime::now`. Nothing is claimed of the instant: it is
/// whatever the system clock says.
#[verifier::external_body]
fn system_time_now() -> std::time::SystemTime {
    std::time::SystemTime::now()
}

/// `SystemTime::duration_since(UNIX_EPOCH)` as whole seconds and the
/// nanoseconds past them. Claimed: the nanoseconds are below one second.
/// Not stated: which instants give `None` (those before the epoch), as the
/// instant is opaque.
#[verifier::external_body]
fn since_unix_epoch(time: &std::time::SystemTime) -> (r: Option<(u64, u32)>)
    ensures
        r matches Some(d) ==> d.1 < 1_000_000_000,
{
    match time.duration_since(std::time::UNIX_EPOCH) {
        Ok(d) => Some((d.as_secs(), d.subsec_nanos())),
        Err(_) => None,
    }
}

/// 2^64: `as u64` keeps a count modulo this.
pub open spec fn u64_modulus() -> int {
    18446744073709551616
}

/// The nanoseconds in a duration of `secs` seconds and `nanos` nanoseconds,
/// cut to 64 bits as `as_nanos() as u64` does.
pub open spec fn duration_nanos(secs: int, nanos: int) -> int {
    (secs * 1_000_000_000 + nanos) % u64_modulus()
}

/// The whole microseconds in such a duration, cut to 64 bits as `as_micros() as u64` does.
pub open spec fn duration_micros(secs: int, nanos: int) -> int {
    (secs * 1_000_000 + nanos / 1_000) % u64_modulus()
}

/// The whole milliseconds in such a duration, cut to 64 bits as `as_millis() as u64` does.
pub open spec fn duration_millis(secs: int, nanos: int) -> int {
    (secs * 1_000 + nanos / 1_000_000) % u64_modulus()
}

/// The nanoseconds in a duration of `secs` seconds and `nanos` more
/// nanoseconds, modulo 2^64.
pub fn nanos_of(secs: u64, nanos: u32) -> (r: u64)
    requires
        nanos < 1_000_000_000,
    ensures
        r == duration_nanos(secs as int, nanos as int),
{
    let total: u128 = secs as u128 * 1_000_000_000 + nanos as u128;
    (total % 18446744073709551616u128) as u64
}

/// The whole microseconds in a duration of `secs` seconds and `nanos` more
/// nanoseconds, modulo 2^64.
pub fn micros_of(secs: u64, nanos: u32) -> (r: u64)
    requires
        nanos < 1_000_000_000,
    ensures
        r == duration_micros(secs as int, nanos as int),
{
    let total: u128 = secs as u128 * 1_000_000 + (nanos / 1_000) as u128;
    (total % 18446744073709551616u128) as u64
}

/// The whole milliseconds in a duration of `secs` seconds and `nanos` more
/// nanoseconds, modulo 2^64.
pub fn millis_of(secs: u64, nanos: u32) -> (r: u64)
    requires
        nanos < 1_000_000_000,
    ensures
        r == duration_millis(secs as int, nanos as int),
{
    let total: u128 = secs as u128 * 1_000 + (nanos / 1_000_000) as u128;
    (total % 18446744073709551616u128) as u64
}

/// Nanoseconds since the Unix epoch by the system clock, cut to 64 bits as
/// `nanos_of` computes them from the clock's reading, or `None` where the clock
/// is set before the epoch.
pub fn now_nanos() -> Option<u64> {
    match since_unix_epoch(&system_time_now()) {
        Some((secs, nanos)) => Some(nanos_of(secs, nanos)),
        None => None,
    }
}

/// Microseconds since the Unix epoch by the system clock, cut to 64 bits as
/// `micros_of` computes them from the clock's reading, or `None` where the clock
/// is set before the epoch.
pub fn now_micros() -> Option<u64> {
    match since_unix_epoch(&system_time_now()) {
        Some((secs, nanos)) => Some(micros_of(secs, nanos)),
        None => None,
    }
}

/// Milliseconds since the Unix epoch by the system clock, cut to 64 bits as
/// `millis_of` computes them from the clock's reading, or `None` where the clock
/// is set before the epoch.
pub fn now_millis() -> Option<u64> {
    match since_unix_epoch(&system_time_now()) {
        Some((secs, nanos)) => Some(millis_of(secs, nanos)),
        None => None,
    }
}

/// Whole seconds since the Unix epoch by the system clock, or `None` where
/// the clock is set before the epoch.
pub fn now_secs() -> Option<u64> {
    match since_unix_epoch(&system_time_now()) {
        Some((secs, _)) => Some(secs),
        None => None,
    }
}

/// Local and UTC readings of the same text differ by the local offset:
/// reading a date and time as UTC+8 gives the UTC reading minus eight hours,
/// and one parses exactly where the other does.
pub proof fn lemma_local_is_utc_minus_offset(text: Seq<char>, format: Seq<char>)
    ensures
        local_str_to_time_outcome(text, format) is Some <==> naive_datetime_millis(text, format) is Some,
        naive_datetime_millis(text, format) matches Some(utc) ==> local_str_to_time_outcome(text, format)
            == Some(utc - 8 * 3_600_000),
{
}

/// The units of one clock reading agree with each other: the whole seconds
/// are the milliseconds divided by a thousand, the milliseconds the
/// microseconds divided by a thousand and the microseconds the nanoseconds
/// divided by a thousand, each where the finer count has not been cut to
/// 64 bits.
pub proof fn lemma_duration_units_agree(secs: int, nanos: int)
    requires
        0 <= secs,
        0 <= nanos < 1_000_000_000,
    ensures
        secs * 1_000 + nanos / 1_000_000 < u64_modulus() ==> duration_millis(secs, nanos) / 1_000 == secs,
        secs * 1_000_000 + nanos / 1_000 < u64_modulus() ==> duration_micros(secs, nanos) / 1_000
            == duration_millis(secs, nanos),
        secs * 1_000_000_000 + nanos < u64_modulus() ==> duration_nanos(secs, nanos) / 1_000
            == duration_micros(secs, nanos),
{
    let millis: int = secs * 1_000 + nanos / 1_000_000;
    let micros: int = secs * 1_000_000 + nanos / 1_000;
    let total: int = secs * 1_000_000_000 + nanos;
    assert(0 <= millis <= micros <= total && millis / 1_000 == secs && micros / 1_000 == millis
        && total / 1_000 == micros) by (nonlinear_arith)
        requires
            millis == secs * 1_000 + nanos / 1_000_000,
            micros == secs * 1_000_000 + nanos / 1_000,
            total == secs * 1_000_000_000 + nanos,
            0 <= secs,
            0 <= nanos < 1_000_000_000,
    ;
    if millis < u64_modulus() {
        vstd::arithmetic::div_mod::lemma_small_mod(millis as nat, u64_modulus() as nat);
    }
    if micros < u64_modulus() {
        vstd::arithmetic::div_mod::lemma_small_mod(millis as nat, u64_modulus() as nat);
        vstd::arithmetic::div_mod::lemma_small_mod(micros as nat, u64_modulus() as nat);
    }
    if total < u64_modulus() {
        vstd::arithmetic::div_mod::lemma_small_mod(micros as nat, u64_modulus() as nat);
        vstd::arithmetic::div_mod::lemma_small_mod(total as nat, u64_modulus() as nat);
    }
}

/// Formats timestamps as text.
pub trait TimeFormatter {
    /// The timestamp with millisecond precision.
    fn millis_str(&self) -> String;

    /// The timestamp with nanosecond precision.
    fn nanos_str(&self) -> String;
}

} // verus!
