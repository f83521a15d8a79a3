//! Conversion between a scaled 64-bit time value and an instant counted in
//! whole seconds since 1970-01-01T00:00:00Z.

use vstd::arithmetic::div_mod::lemma_fundamental_div_mod;
use vstd::prelude::*;
use vstd::string::StrSliceExecFns;

verus! {

/// Seconds since the epoch of the earliest representable instant.
pub const MIN_TIMESTAMP: i64 = -8334601228800;

/// Seconds since the epoch of the latest representable instant.
pub const MAX_TIMESTAMP: i64 = 8210266876799;

/// The unit in which a [`ScaledTimeValue`] counts.
#[derive(Clone, Copy, Debug, PartialEq, Eq, Structural)]
pub enum TimeSpanScale {
    Days,
    Hours,
    Minutes,
    Seconds,
    Milliseconds,
    Ticks,
    Minmax,
}

/// A time as an integer count of some unit. Under `Minmax` the value is
/// `-1` for the earliest instant and `1` for the latest.
#[derive(Clone, Copy, Debug, PartialEq, Eq, Structural)]
pub struct ScaledTimeValue {
    pub value: i64,
    pub scale: TimeSpanScale,
}

/// Why a scaled value names no instant.
#[derive(Clone, Copy, Debug, PartialEq, Eq, Structural)]
pub enum TimeError {
    /// A `Minmax` value other than `-1` or `1`.
    InvalidScaledValue,
    /// The seconds fall outside `[MIN_TIMESTAMP, MAX_TIMESTAMP]`.
    OutOfRangeInstant,
}

/// Rust's division of integers, which rounds toward zero.
pub open spec fn div_toward_zero(a: int, b: int) -> int {
    if a >= 0 {
        a / b
    } else {
        -((-a) / b)
    }
}

/// The seconds lie within `[MIN_TIMESTAMP, MAX_TIMESTAMP]`.
pub open spec fn in_range(secs: int) -> bool {
    MIN_TIMESTAMP <= secs <= MAX_TIMESTAMP
}

/// The epoch seconds that a scaled value stands for, before the range check.
pub open spec fn scaled_seconds(v: ScaledTimeValue) -> Result<int, TimeError> {
    match v.scale {
        TimeSpanScale::Seconds => Ok(v.value as int),
        TimeSpanScale::Minutes => Ok(v.value * 60),
        TimeSpanScale::Hours => Ok(v.value * 3600),
        TimeSpanScale::Days => Ok(v.value * 86400),
        TimeSpanScale::Milliseconds => Ok(div_toward_zero(v.value as int, 1000)),
        TimeSpanScale::Ticks => Ok(div_toward_zero(v.value as int, 10000000)),
        TimeSpanScale::Minmax => if v.value == -1 {
            Ok(MIN_TIMESTAMP as int)
        } else if v.value == 1 {
            Ok(MAX_TIMESTAMP as int)
        } else {
            Err(TimeError::InvalidScaledValue)
        },
    }
}

/// The instant a scaled value decodes to, in epoch seconds.
pub open spec fn decode_spec(v: ScaledTimeValue) -> Result<int, TimeError> {
    match scaled_seconds(v) {
        Ok(s) => if in_range(s) {
            Ok(s)
        } else {
            Err(TimeError::OutOfRangeInstant)
        },
        Err(e) => Err(e),
    }
}

/// The most compact scale that holds the seconds without loss.
pub open spec fn encode_spec(secs: int) -> ScaledTimeValue {
    if secs == MIN_TIMESTAMP {
        ScaledTimeValue { value: -1i64, scale: TimeSpanScale::Minmax }
    } else if secs == MAX_TIMESTAMP {
        ScaledTimeValue { value: 1i64, scale: TimeSpanScale::Minmax }
    } else if secs % 86400 == 0 {
        ScaledTimeValue { value: (secs / 86400) as i64, scale: TimeSpanScale::Days }
    } else if secs % 3600 == 0 {
        ScaledTimeValue { value: (secs / 3600) as i64, scale: TimeSpanScale::Hours }
    } else if secs % 60 == 0 {
        ScaledTimeValue { value: (secs / 60) as i64, scale: TimeSpanScale::Minutes }
    } else {
        ScaledTimeValue { value: secs as i64, scale: TimeSpanScale::Seconds }
    }
}

/// Relies on chrono's `DateTime::<Utc>::from_timestamp(secs, 0)`: `Some` exactly
/// for the seconds between its earliest and latest date, and then it holds
/// those seconds, as `timestamp` reads them back.
#[verifier::external_body]
fn chrono_checked_seconds(secs: i64) -> (r: Option<i64>)
    ensures
        r == (if in_range(secs as int) {
            Some(secs)
        } else {
            None::<i64>
        }),
{
    match chrono::DateTime::from_timestamp(secs, 0) {
        Some(dt) => Some(dt.timestamp()),
        None => None,
    }
}

/// An instant in whole epoch seconds, within `[MIN_TIMESTAMP, MAX_TIMESTAMP]`.
#[derive(Clone, Copy, Debug, PartialEq, Eq)]
pub struct UtcTimestamp {
    seconds: i64,
}

impl UtcTimestamp {
    #[verifier::type_invariant]
    spec fn inv(self) -> bool {
        in_range(self.seconds as int)
    }

    /// Seconds since the epoch.
    pub closed spec fn secs(self) -> int {
        self.seconds as int
    }

    /// The instant `secs` seconds after the epoch, if it is representable.
    pub fn from_epoch_seconds(secs: i64) -> (r: Option<UtcTimestamp>)
        ensures
            r is Some <==> in_range(secs as int),
            r matches Some(t) ==> t.secs() == secs,
    {
        match chrono_checked_seconds(secs) {
            Some(s) => Some(UtcTimestamp { seconds: s }),
            None => None,
        }
    }

    pub fn epoch_seconds(&self) -> (r: i64)
        ensures
            r == self.secs(),
            in_range(r as int),
    {
        proof {
            use_type_invariant(self);
        }
        self.seconds
    }
}

impl ScaledTimeValue {
    /// The instant this value stands for.
    pub fn decode(&self) -> (r: Result<UtcTimestamp, TimeError>)
        ensures
            match decode_spec(*self) {
                Ok(s) => r matches Ok(t) && t.secs() == s,
                Err(e) => r == Err::<UtcTimestamp, TimeError>(e),
            },
    {
        let v = self.value;
        let seconds: Option<i64> = match self.scale {
            TimeSpanScale::Seconds => Some(v),
            TimeSpanScale::Minutes => v.checked_mul(60),
            TimeSpanScale::Hours => v.checked_mul(3600),
            TimeSpanScale::Days => v.checked_mul(86400),
            TimeSpanScale::Milliseconds => Some(v / 1000),
            TimeSpanScale::Ticks => Some(v / 10000000),
            TimeSpanScale::Minmax => {
                if v == -1 {
                    Some(MIN_TIMESTAMP)
                } else if v == 1 {
                    Some(MAX_TIMESTAMP)
                } else {
                    return Err(TimeError::InvalidScaledValue);
                }
            },
        };
        match seconds {
            Some(s) => match UtcTimestamp::from_epoch_seconds(s) {
                Some(t) => Ok(t),
                None => Err(TimeError::OutOfRangeInstant),
            },
            None => Err(TimeError::OutOfRangeInstant),
        }
    }

    /// The value in the most compact scale that holds the instant: `Minmax`
    /// for the two bounds, then days, hours, minutes, and seconds.
    pub fn encode(t: &UtcTimestamp) -> (r: ScaledTimeValue)
        ensures
            r == encode_spec(t.secs()),
    {
        let secs = t.epoch_seconds();
        if secs == MIN_TIMESTAMP {
            ScaledTimeValue { value: -1, scale: TimeSpanScale::Minmax }
        } else if secs == MAX_TIMESTAMP {
            ScaledTimeValue { value: 1, scale: TimeSpanScale::Minmax }
        } else if secs % 86400 == 0 {
            ScaledTimeValue { value: secs / 86400, scale: TimeSpanScale::Days }
        } else if secs % 3600 == 0 {
            ScaledTimeValue { value: secs / 3600, scale: TimeSpanScale::Hours }
        } else if secs % 60 == 0 {
            ScaledTimeValue { value: secs / 60, scale: TimeSpanScale::Minutes }
        } else {
            ScaledTimeValue { value: secs, scale: TimeSpanScale::Seconds }
        }
    }
}

/// Why a timestamp text names no instant.
#[derive(Clone, Copy, Debug, PartialEq, Eq, Structural)]
pub enum TimestampTextError {
    /// No `+` separates the date from the offset.
    MissingOffset,
    /// The date is not `%Y-%m-%dT%H:%M:%S`.
    InvalidDate,
    /// The offset is not `:`-separated integers that make a valid offset.
    InvalidOffset,
    /// The instant is outside `[MIN_TIMESTAMP, MAX_TIMESTAMP]`.
    OutOfRange,
}

/// The seconds since the epoch of the date that chrono reads from `s` with
/// `%Y-%m-%dT%H:%M:%S`, taken as UTC; `None` when it refuses the text.
pub uninterp spec fn naive_seconds_of(s: Seq<char>) -> Option<i64>;

/// The RFC 3339 text that chrono writes for the instant `secs`.
pub uninterp spec fn rfc3339_of(secs: i64) -> Seq<char>;

/// Relies on chrono's `NaiveDateTime::parse_from_str(s, "%Y-%m-%dT%H:%M:%S")`,
/// read as UTC seconds with `and_utc().timestamp()`: the result depends on
/// the text alone.
#[verifier::external_body]
fn chrono_naive_seconds(s: &str) -> (r: Option<i64>)
    ensures
        r == naive_seconds_of(s@),
{
    match chrono::NaiveDateTime::parse_from_str(s, "%Y-%m-%dT%H:%M:%S") {
        Ok(dt) => Some(dt.and_utc().timestamp()),
        Err(_) => None,
    }
}

/// Relies on chrono's `FixedOffset::east_opt`, which accepts an offset of
/// strictly less than a day either way.
#[verifier::external_body]
fn chrono_offset_valid(secs: i32) -> (r: bool)
    ensures
        r == (-86400 < secs < 86400),
{
    chrono::FixedOffset::east_opt(secs).is_some()
}

/// Relies on chrono's `DateTime::<Utc>::to_rfc3339` for the instant `secs`
/// (made with `from_timestamp(secs, 0)`, which succeeds in range): the text
/// depends on the seconds alone.
#[verifier::external_body]
fn chrono_rfc3339(secs: i64) -> (r: String)
    requires
        in_range(secs as int),
    ensures
        r@ == rfc3339_of(secs),
{
    chrono::DateTime::from_timestamp(secs, 0).unwrap().to_rfc3339()
}

/// Position of the last `c` in `s`, or -1.
pub open spec fn last_index_of(s: Seq<char>, c: char) -> int
    decreases s.len(),
{
    if s.len() == 0 {
        -1
    } else if s.last() == c {
        s.len() - 1
    } else {
        last_index_of(s.drop_last(), c)
    }
}

/// The pieces of `s` between its `:` characters.
pub open spec fn split_colons(s: Seq<char>) -> Seq<Seq<char>>
    decreases s.len(),
{
    if s.len() == 0 {
        seq![Seq::empty()]
    } else {
        let r = split_colons(s.drop_last());
        if s.last() == ':' {
            r.push(Seq::empty())
        } else {
            r.update(r.len() - 1, r.last().push(s.last()))
        }
    }
}

/// An ASCII decimal digit.
pub open spec fn is_digit(c: char) -> bool {
    '0' <= c <= '9'
}

/// The number written by the decimal digits `d`.
pub open spec fn digits_value(d: Seq<char>) -> int
    decreases d.len(),
{
    if d.len() == 0 {
        0
    } else {
        10 * digits_value(d.drop_last()) + (d.last() as int - 48)
    }
}

/// Every character is a decimal digit.
pub open spec fn all_digits(d: Seq<char>) -> bool {
    forall|i: int| 0 <= i < d.len() ==> is_digit(#[trigger] d[i])
}

/// `s` without its leading sign, if any.
pub open spec fn unsigned_part(s: Seq<char>) -> Seq<char> {
    if s.len() > 0 && (s[0] == '-' || s[0] == '+') {
        s.drop_first()
    } else {
        s
    }
}

/// The value of the digits, negated after a leading `-`.
pub open spec fn signed_value(s: Seq<char>) -> int {
    if s.len() > 0 && s[0] == '-' {
        -digits_value(unsigned_part(s))
    } else {
        digits_value(unsigned_part(s))
    }
}

/// An `i32` as Rust's `str::parse` reads it: an optional sign, then at
/// least one decimal digit, within range.
pub open spec fn parse_i32(s: Seq<char>) -> Option<i32> {
    if unsigned_part(s).len() == 0 || !all_digits(unsigned_part(s)) {
        None
    } else if i32::MIN <= signed_value(s) <= i32::MAX {
        Some(signed_value(s) as i32)
    } else {
        None
    }
}

/// Adds a piece to an offset total: the first piece counts hours, the
/// others minutes; `None` when the piece is no integer or a step leaves `i32`.
pub open spec fn offset_step(acc: i32, piece: Seq<char>, first: bool) -> Option<i32> {
    match parse_i32(piece) {
        Some(v) => {
            let unit = if first {
                3600int
            } else {
                60int
            };
            if i32::MIN <= v * unit <= i32::MAX && i32::MIN <= acc + v * unit <= i32::MAX {
                Some((acc + v * unit) as i32)
            } else {
                None
            }
        },
        None => None,
    }
}

/// The offset in seconds that the pieces give.
pub open spec fn offset_total(parts: Seq<Seq<char>>) -> Option<i32>
    decreases parts.len(),
{
    if parts.len() == 0 {
        Some(0)
    } else {
        match offset_total(parts.drop_last()) {
            Some(acc) => offset_step(acc, parts.last(), parts.len() == 1),
            None => None,
        }
    }
}

/// The instant that a timestamp text `date+offset` stands for: the date is
/// read as UTC, and the offset must be valid but does not move it.
pub open spec fn parse_timestamp_spec(s: Seq<char>) -> Result<int, TimestampTextError> {
    let p = last_index_of(s, '+');
    if p < 0 {
        Err(TimestampTextError::MissingOffset)
    } else {
        match naive_seconds_of(s.take(p)) {
            None => Err(TimestampTextError::InvalidDate),
            Some(secs) => match offset_total(split_colons(s.skip(p + 1))) {
                Some(off) => if !(-86400 < off < 86400) {
                    Err(TimestampTextError::InvalidOffset)
                } else if !in_range(secs as int) {
                    Err(TimestampTextError::OutOfRange)
                } else {
                    Ok(secs as int)
                },
                None => Err(TimestampTextError::InvalidOffset),
            },
        }
    }
}

proof fn lemma_digits_value_prefix(d: Seq<char>, i: int)
    requires
        0 <= i <= d.len(),
        all_digits(d),
    ensures
        0 <= digits_value(d.take(i)) <= digits_value(d),
    decreases d.len(),
{
    if i < d.len() {
        assert(d.drop_last().take(i) =~= d.take(i));
        lemma_digits_value_prefix(d.drop_last(), i);
    } else {
        assert(d.take(i) =~= d);
        lemma_digits_value_nonneg(d);
    }
}

proof fn lemma_digits_value_nonneg(d: Seq<char>)
    requires
        all_digits(d),
    ensures
        0 <= digits_value(d),
    decreases d.len(),
{
    if d.len() > 0 {
        lemma_digits_value_nonneg(d.drop_last());
    }
}

/// Reads an `i32` as Rust's `str::parse` does.
pub fn parse_i32_text(s: &str) -> (r: Option<i32>)
    ensures
        r == parse_i32(s@),
{
    let n = s.unicode_len();
    if n == 0 {
        return None;
    }
    let first = s.get_char(0);
    let neg = first == '-';
    let start: usize = if first == '-' || first == '+' {
        1
    } else {
        0
    };
    let ghost digits = unsigned_part(s@);
    assert(digits =~= s@.skip(start as int));
    if start == n {
        return None;
    }
    let mut acc: u64 = 0;
    let mut i: usize = start;
    assert(digits.take(0) =~= Seq::<char>::empty());
    while i < n
        invariant
            n == s@.len(),
            start <= i <= n,
            digits == s@.skip(start as int),
            digits == unsigned_part(s@),
            neg == (s@.len() > 0 && s@[0] == '-'),
            forall|j: int| 0 <= j < i - start ==> is_digit(#[trigger] digits[j]),
            acc == digits_value(digits.take(i - start)),
            acc <= 2147483648,
        decreases n - i,
    {
        let c = s.get_char(i);
        assert(digits[i - start] == c);
        if !('0' <= c && c <= '9') {
            assert(!is_digit(digits[i - start]));
            assert(!all_digits(digits));
            return None;
        }
        assert(digits.take(i - start + 1).drop_last() =~= digits.take(i - start));
        assert(digits.take(i - start + 1).last() == c);
        assert(digits_value(digits.take(i - start + 1)) == 10 * acc + (c as int - 48));
        let next = acc * 10 + (c as u64 - 48);
        if next > 2147483648 {
            proof {
                if all_digits(digits) {
                    lemma_digits_value_prefix(digits, i - start + 1);
                }
            }
            return None;
        }
        acc = next;
        i += 1;
    }
    assert(digits.take(n - start) =~= digits);
    if neg {
        Some((0 - acc as i64) as i32)
    } else if acc <= 2147483647 {
        Some(acc as i32)
    } else {
        None
    }
}

fn add_offset_piece(acc: i32, piece: &str, first: bool) -> (r: Option<i32>)
    ensures
        r == offset_step(acc, piece@, first),
{
    let v = match parse_i32_text(piece) {
        Some(v) => v,
        None => return None,
    };
    let unit: i32 = if first {
        3600
    } else {
        60
    };
    match v.checked_mul(unit) {
        Some(m) => acc.checked_add(m),
        None => None,
    }
}

/// The offset in seconds written as `:`-separated integers, hours first.
pub fn offset_seconds(off: &str) -> (r: Option<i32>)
    ensures
        r == offset_total(split_colons(off@)),
{
    let n = off.unicode_len();
    let mut start: usize = 0;
    let mut acc: Option<i32> = Some(0);
    let mut count: usize = 0;
    let ghost mut done: Seq<Seq<char>> = Seq::empty();
    let mut i: usize = 0;
    assert(off@.take(0) =~= Seq::<char>::empty());
    assert(split_colons(Seq::<char>::empty()) =~= done.push(off@.subrange(0, 0)));
    while i < n
        invariant
            n == off@.len(),
            0 <= start <= i <= n,
            count == done.len(),
            count <= i,
            split_colons(off@.take(i as int)) == done.push(off@.subrange(start as int, i as int)),
            offset_total(done) == acc,
        decreases n - i,
    {
        let c = off.get_char(i);
        let ghost cur = off@.subrange(start as int, i as int);
        assert(off@.take(i + 1).drop_last() =~= off@.take(i as int));
        assert(off@.take(i + 1).last() == c);
        if c == ':' {
            let piece = off.substring_char(start, i);
            assert(done.push(cur).drop_last() =~= done);
            acc = match acc {
                Some(a) => add_offset_piece(a, piece, count == 0),
                None => None,
            };
            proof {
                done = done.push(cur);
            }
            count += 1;
            start = i + 1;
            assert(off@.subrange(start as int, i + 1) =~= Seq::<char>::empty());
        } else {
            assert(cur.push(c) =~= off@.subrange(start as int, i + 1));
            assert(done.push(cur).update(done.len() as int, cur.push(c)) =~= done.push(
                off@.subrange(start as int, i + 1),
            ));
        }
        i += 1;
    }
    assert(off@.take(n as int) =~= off@);
    let piece = off.substring_char(start, n);
    let ghost last = off@.subrange(start as int, n as int);
    assert(done.push(last).drop_last() =~= done);
    match acc {
        Some(a) => add_offset_piece(a, piece, count == 0),
        None => None,
    }
}

/// Position of the last `+` of `s`, or -1.
fn last_plus(s: &str) -> (r: Option<usize>)
    ensures
        match r {
            Some(p) => last_index_of(s@, '+') == p && p < s@.len(),
            None => last_index_of(s@, '+') == -1,
        },
{
    let n = s.unicode_len();
    let mut found: Option<usize> = None;
    let mut i: usize = 0;
    assert(s@.take(0) =~= Seq::<char>::empty());
    while i < n
        invariant
            n == s@.len(),
            0 <= i <= n,
            match found {
                Some(p) => last_index_of(s@.take(i as int), '+') == p && p < i,
                None => last_index_of(s@.take(i as int), '+') == -1,
            },
        decreases n - i,
    {
        assert(s@.take(i + 1).drop_last() =~= s@.take(i as int));
        if s.get_char(i) == '+' {
            found = Some(i);
        }
        i += 1;
    }
    assert(s@.take(n as int) =~= s@);
    found
}

/// Reads a timestamp text `%Y-%m-%dT%H:%M:%S+HH:MM`. The date is taken as
/// UTC; the offset after the last `+` must be a valid offset, but does not
/// move the instant.
pub fn parse_custom_timestamp(timestamp: &str) -> (r: Result<UtcTimestamp, TimestampTextError>)
    ensures
        match parse_timestamp_spec(timestamp@) {
            Ok(secs) => r matches Ok(t) && t.secs() == secs,
            Err(e) => r == Err::<UtcTimestamp, TimestampTextError>(e),
        },
{
    let p = match last_plus(timestamp) {
        Some(p) => p,
        None => return Err(TimestampTextError::MissingOffset),
    };
    let n = timestamp.unicode_len();
    let date = timestamp.substring_char(0, p);
    assert(date@ =~= timestamp@.take(p as int));
    let secs = match chrono_naive_seconds(date) {
        Some(secs) => secs,
        None => return Err(TimestampTextError::InvalidDate),
    };
    let off = timestamp.substring_char(p + 1, n);
    assert(off@ =~= timestamp@.skip(p + 1));
    match offset_seconds(off) {
        Some(o) => {
            if !chrono_offset_valid(o) {
                return Err(TimestampTextError::InvalidOffset);
            }
        },
        None => return Err(TimestampTextError::InvalidOffset),
    }
    match UtcTimestamp::from_epoch_seconds(secs) {
        Some(t) => Ok(t),
        None => Err(TimestampTextError::OutOfRange),
    }
}

impl UtcTimestamp {
    /// The instant as RFC 3339 text.
    pub fn to_rfc3339(&self) -> (r: String)
        ensures
            r@ == rfc3339_of(self.secs() as i64),
    {
        chrono_rfc3339(self.epoch_seconds())
    }
}

/// Encoding an instant and decoding the result gives the same instant back.
pub proof fn lemma_time_round_trip(secs: int)
    requires
        in_range(secs),
    ensures
        decode_spec(encode_spec(secs)) == Ok::<int, TimeError>(secs),
{
    let q86400 = secs / 86400;
    let q3600 = secs / 3600;
    let q60 = secs / 60;
    lemma_fundamental_div_mod(secs, 86400);
    lemma_fundamental_div_mod(secs, 3600);
    lemma_fundamental_div_mod(secs, 60);
    assert(-200000000000 <= q86400 <= 200000000000) by (nonlinear_arith)
        requires
            secs == 86400 * q86400 + secs % 86400,
            0 <= secs % 86400 < 86400,
            in_range(secs),
    ;
    assert(-3000000000000 <= q3600 <= 3000000000000) by (nonlinear_arith)
        requires
            secs == 3600 * q3600 + secs % 3600,
            0 <= secs % 3600 < 3600,
            in_range(secs),
    ;
    assert(-200000000000000 <= q60 <= 200000000000000) by (nonlinear_arith)
        requires
            secs == 60 * q60 + secs % 60,
            0 <= secs % 60 < 60,
            in_range(secs),
    ;
}

} // verus!
