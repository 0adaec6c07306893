//! Date and time values (`YYYY-MM-DDThh:mm:ss.sss` followed by `Z` or an offset `+hh:mm` /
//! `-hh:mm`), as `#EXT-X-PROGRAM-DATE-TIME` carries them.

use vstd::prelude::*;
use vstd::string::StringSliceAdditionalSpecFns;

use crate::error::DateTimeSyntaxError;
use crate::utils::{all_digits, dec, digits_value, is_digit, push_bytes, push_u64};

verus! {

/// The offset of a date and time from UTC.
#[derive(Debug, PartialEq, Eq, Structural, Clone, Copy)]
pub struct DateTimeTimezoneOffset {
    /// The hours of the offset (negative west of UTC).
    pub time_hour: i8,
    /// The minutes of the offset.
    pub time_minute: u8,
}

/// A date and time with millisecond precision and an offset from UTC.
#[derive(Debug, PartialEq, Eq, Structural, Clone, Copy)]
pub struct DateTime {
    /// The year.
    pub date_fullyear: u32,
    /// The month (1 to 12).
    pub date_month: u8,
    /// The day of the month (1 to 31).
    pub date_mday: u8,
    /// The hour (0 to 23).
    pub time_hour: u8,
    /// The minute (0 to 59).
    pub time_minute: u8,
    /// The second (0 to 60, where 60 is a leap second).
    pub time_second: u8,
    /// The millisecond (0 to 999).
    pub time_millisecond: u16,
    /// The offset from UTC.
    pub timezone_offset: DateTimeTimezoneOffset,
}

/// The decimal digits of `n`, with zeros in front up to `width` digits.
pub open spec fn padded(n: nat, width: nat) -> Seq<u8> {
    let d = dec(n);
    if d.len() >= width {
        d
    } else {
        Seq::new((width - d.len()) as nat, |i: int| 48u8) + d
    }
}

/// The text of an offset: `Z` for no offset, else `+hh:mm` or `-hh:mm`.
pub open spec fn offset_text(o: DateTimeTimezoneOffset) -> Seq<u8> {
    if o.time_hour == 0 && o.time_minute == 0 {
        seq![90u8]
    } else {
        seq![
            if o.time_hour < 0 {
                45u8
            } else {
                43u8
            },
        ] + padded(
            (if o.time_hour < 0 {
                -o.time_hour
            } else {
                o.time_hour as int
            }) as nat,
            2,
        ) + seq![58u8] + padded(o.time_minute as nat, 2)
    }
}

/// The text of a date and time: `YYYY-MM-DDThh:mm:ss.sss` followed by its offset.
pub open spec fn date_time_text(d: DateTime) -> Seq<u8> {
    date_text(d) + time_text(d) + offset_text(d.timezone_offset)
}

/// The text of the date: `YYYY-MM-DD`.
pub open spec fn date_text(d: DateTime) -> Seq<u8> {
    padded(d.date_fullyear as nat, 4) + seq![45u8] + padded(d.date_month as nat, 2) + seq![45u8]
        + padded(d.date_mday as nat, 2)
}

/// The text of the time: `Thh:mm:ss.sss`.
pub open spec fn time_text(d: DateTime) -> Seq<u8> {
    seq![84u8] + padded(d.time_hour as nat, 2) + seq![58u8] + padded(d.time_minute as nat, 2)
        + seq![58u8] + padded(d.time_second as nat, 2) + seq![46u8] + padded(
        d.time_millisecond as nat,
        3,
    )
}

/// Whether the `k` bytes of `s` from `i` on are decimal digits.
pub open spec fn digits_at(s: Seq<u8>, i: int, k: int) -> bool {
    0 <= i && i + k <= s.len() && all_digits(s.subrange(i, i + k))
}

/// The number that the `k` bytes of `s` from `i` on denote.
pub open spec fn number_at(s: Seq<u8>, i: int, k: int) -> nat {
    digits_value(s.subrange(i, i + k))
}

/// Whether `s` starts with `YYYY-MM-DDThh:mm:ss` and has at least one more byte.
pub open spec fn has_date_and_time(s: Seq<u8>) -> bool {
    &&& s.len() >= 20
    &&& digits_at(s, 0, 4)
    &&& s[4] == 45u8
    &&& digits_at(s, 5, 2)
    &&& s[7] == 45u8
    &&& digits_at(s, 8, 2)
    &&& s[10] == 84u8
    &&& digits_at(s, 11, 2)
    &&& s[13] == 58u8
    &&& digits_at(s, 14, 2)
    &&& s[16] == 58u8
    &&& digits_at(s, 17, 2)
}

/// Where the offset starts in `s`: right after the seconds, or after a `.` and one to three
/// digits of the fraction of a second.
pub open spec fn offset_start(s: Seq<u8>) -> int {
    if s[19] != 46u8 {
        19
    } else if s.len() > 21 && !is_digit(s[21]) {
        21
    } else if s.len() > 22 && !is_digit(s[22]) {
        22
    } else {
        23
    }
}

/// The milliseconds that the fraction of a second ending at `z` gives.
pub open spec fn millis_spec(s: Seq<u8>, z: int) -> nat {
    if z == 19 {
        0
    } else if z == 21 {
        number_at(s, 20, 1) * 100
    } else if z == 22 {
        number_at(s, 20, 2) * 10
    } else {
        number_at(s, 20, 3)
    }
}

/// The offset that `s` holds from `z` to its end (`Z`, `+hh:mm` or `-hh:mm`), as signed hours and
/// minutes.
pub open spec fn offset_spec(s: Seq<u8>, z: int) -> Option<(int, nat)> {
    if s.len() == z + 1 && s[z] == 90u8 {
        Some((0, 0))
    } else if s.len() == z + 6 && (s[z] == 43u8 || s[z] == 45u8) && digits_at(s, z + 1, 2) && s[z
        + 3] == 58u8 && digits_at(s, z + 4, 2) {
        Some(
            (
                if s[z] == 45u8 {
                    -number_at(s, z + 1, 2)
                } else {
                    number_at(s, z + 1, 2) as int
                },
                number_at(s, z + 4, 2),
            ),
        )
    } else {
        None
    }
}

/// The result of reading `s` as a date and time: a layout error gives `InvalidSyntax`, and a
/// component out of its range gives `OutOfRange`.
pub open spec fn date_time_spec(s: Seq<u8>) -> Result<DateTime, DateTimeSyntaxError> {
    if !has_date_and_time(s) {
        Err(DateTimeSyntaxError::InvalidSyntax)
    } else {
        let z = offset_start(s);
        if z != 19 && !digits_at(s, 20, z - 20) {
            Err(DateTimeSyntaxError::InvalidSyntax)
        } else {
            match offset_spec(s, z) {
                None => Err(DateTimeSyntaxError::InvalidSyntax),
                Some((oh, om)) => {
                    let month = number_at(s, 5, 2);
                    let mday = number_at(s, 8, 2);
                    let hour = number_at(s, 11, 2);
                    let minute = number_at(s, 14, 2);
                    let second = number_at(s, 17, 2);
                    if month < 1 || month > 12 || mday < 1 || mday > 31 || hour > 23 || minute > 59
                        || second > 60 || oh < -23 || oh > 23 || om > 59 {
                        Err(DateTimeSyntaxError::OutOfRange)
                    } else {
                        Ok(
                            DateTime {
                                date_fullyear: number_at(s, 0, 4) as u32,
                                date_month: month as u8,
                                date_mday: mday as u8,
                                time_hour: hour as u8,
                                time_minute: minute as u8,
                                time_second: second as u8,
                                time_millisecond: millis_spec(s, z) as u16,
                                timezone_offset: DateTimeTimezoneOffset {
                                    time_hour: oh as i8,
                                    time_minute: om as u8,
                                },
                            },
                        )
                    }
                },
            }
        }
    }
}

/// Reads the `k` (at most 4) bytes of `s` from `i` on as decimal digits.
fn read_digits(s: &[u8], i: usize, k: usize) -> (r: Option<u64>)
    requires
        k <= 4,
        i + k <= s@.len(),
    ensures
        match r {
            Some(v) => digits_at(s@, i as int, k as int) && v == number_at(s@, i as int, k as int)
                && v < pow10(k as nat),
            None => !digits_at(s@, i as int, k as int),
        },
{
    let len = s.len();
    let mut v: u64 = 0;
    let mut j: usize = 0;
    proof {
        reveal_with_fuel(pow10, 5);
    }
    while j < k
        invariant
            j <= k <= 4,
            i + k <= len == s@.len(),
            all_digits(s@.subrange(i as int, i + j)),
            v == digits_value(s@.subrange(i as int, i + j)),
            v < pow10(j as nat),
            pow10(0) == 1 && pow10(1) == 10 && pow10(2) == 100 && pow10(3) == 1000 && pow10(4)
                == 10000,
        decreases k - j,
    {
        let b = s[i + j];
        let ghost prev = s@.subrange(i as int, i + j);
        let ghost next = s@.subrange(i as int, i + j + 1);
        assert(next.drop_last() == prev);
        assert(next.last() == b);
        if b < 48 || b > 57 {
            proof {
                assert(s@.subrange(i as int, i + k)[j as int] == b);
                assert(!is_digit(s@.subrange(i as int, i + k)[j as int]));
            }
            return None;
        }
        proof {
            assert forall|t: int| 0 <= t < next.len() implies #[trigger] is_digit(next[t]) by {
                if t < j {
                    assert(next[t] == prev[t]);
                }
            }
            assert(v * 10 + (b - 48) < pow10((j + 1) as nat)) by (nonlinear_arith)
                requires
                    v < pow10(j as nat),
                    b - 48 < 10,
                    pow10((j + 1) as nat) == pow10(j as nat) * 10,
            ;
        }
        v = v * 10 + (b - 48) as u64;
        j += 1;
    }
    Some(v)
}

/// Ten to the power `n`.
pub open spec fn pow10(n: nat) -> nat
    decreases n,
{
    if n == 0 {
        1
    } else {
        pow10((n - 1) as nat) * 10
    }
}

/// Reads `s` as a date and time.
pub fn parse_bytes(s: &[u8]) -> (r: Result<DateTime, DateTimeSyntaxError>)
    ensures
        r == date_time_spec(s@),
{
    let len = s.len();
    if len < 20 {
        return Err(DateTimeSyntaxError::InvalidSyntax);
    }
    proof {
        reveal_with_fuel(pow10, 5);
    }
    let year = read_digits(s, 0, 4);
    let month = read_digits(s, 5, 2);
    let mday = read_digits(s, 8, 2);
    let hour = read_digits(s, 11, 2);
    let minute = read_digits(s, 14, 2);
    let second = read_digits(s, 17, 2);
    let (year, month, mday, hour, minute, second) = match (year, month, mday, hour, minute, second) {
        (Some(a), Some(b), Some(c), Some(d), Some(e), Some(f)) => (a, b, c, d, e, f),
        _ => return Err(DateTimeSyntaxError::InvalidSyntax),
    };
    if s[4] != 45 || s[7] != 45 || s[10] != 84 || s[13] != 58 || s[16] != 58 {
        return Err(DateTimeSyntaxError::InvalidSyntax);
    }
    let z: usize = if s[19] != 46 {
        19
    } else if len > 21 && !(48 <= s[21] && s[21] <= 57) {
        21
    } else if len > 22 && !(48 <= s[22] && s[22] <= 57) {
        22
    } else {
        23
    };
    let mut millis: u64 = 0;
    if z != 19 {
        if z > len {
            return Err(DateTimeSyntaxError::InvalidSyntax);
        }
        match read_digits(s, 20, z - 20) {
            Some(v) => {
                millis = if z == 21 {
                    v * 100
                } else if z == 22 {
                    v * 10
                } else {
                    v
                };
            },
            None => return Err(DateTimeSyntaxError::InvalidSyntax),
        }
    }
    let (oh, om, negative): (u64, u64, bool) = if len == z + 1 && s[z] == 90 {
        (0, 0, false)
    } else if len == z + 6 && (s[z] == 43 || s[z] == 45) && s[z + 3] == 58 {
        match (read_digits(s, z + 1, 2), read_digits(s, z + 4, 2)) {
            (Some(h), Some(m)) => (h, m, s[z] == 45),
            _ => return Err(DateTimeSyntaxError::InvalidSyntax),
        }
    } else {
        return Err(DateTimeSyntaxError::InvalidSyntax);
    };
    if month < 1 || month > 12 || mday < 1 || mday > 31 || hour > 23 || minute > 59 || second > 60
        || oh > 23 || om > 59 {
        return Err(DateTimeSyntaxError::OutOfRange);
    }
    let offset_hour: i8 = if negative {
        -(oh as i8)
    } else {
        oh as i8
    };
    Ok(
        DateTime {
            date_fullyear: year as u32,
            date_month: month as u8,
            date_mday: mday as u8,
            time_hour: hour as u8,
            time_minute: minute as u8,
            time_second: second as u8,
            time_millisecond: millis as u16,
            timezone_offset: DateTimeTimezoneOffset { time_hour: offset_hour, time_minute: om as u8 },
        },
    )
}


/// Reads the text `s` as a date and time.
pub fn parse(s: &str) -> (r: Result<DateTime, DateTimeSyntaxError>)
    ensures
        r == date_time_spec(s.spec_bytes()),
{
    parse_bytes(s.as_bytes())
}

impl DateTime {
    /// The text of the date and time (`YYYY-MM-DDThh:mm:ss.sss` and its offset), as bytes.
    pub fn to_bytes(&self) -> (r: Vec<u8>)
        ensures
            r@ == date_time_text(*self),
    {
        let mut line: Vec<u8> = Vec::new();
        push_date_time(&mut line, self);
        proof {
            assert(line@ =~= date_time_text(*self));
        }
        line
    }
}

/// Appends the decimal digits of `n` to `line`, with zeros in front up to `width` digits.
pub(crate) fn push_padded(line: &mut Vec<u8>, n: u64, width: usize)
    ensures
        final(line)@ == old(line)@ + padded(n as nat, width as nat),
{
    let mut d: Vec<u8> = Vec::new();
    push_u64(&mut d, n);
    let mut k = d.len();
    let ghost start = line@;
    proof {
        assert(d@ == dec(n as nat));
        assert(line@ =~= start + Seq::new((k - d@.len()) as nat, |i: int| 48u8));
    }
    while k < width
        invariant
            d@ == dec(n as nat),
            d@.len() <= k,
            k <= width || k == d@.len(),
            line@ == start + Seq::new((k - d@.len()) as nat, |i: int| 48u8),
            start == old(line)@,
        decreases width - k,
    {
        line.push(48u8);
        proof {
            assert(line@ =~= start + Seq::new((k + 1 - d@.len()) as nat, |i: int| 48u8));
        }
        k += 1;
    }
    let ghost zeros = line@;
    push_bytes(line, d.as_slice());
    proof {
        if d@.len() >= width {
            assert(zeros =~= start);
        }
        assert(final(line)@ =~= old(line)@ + padded(n as nat, width as nat));
    }
}

/// Appends the text of an offset to `line`.
fn push_offset(line: &mut Vec<u8>, o: DateTimeTimezoneOffset)
    ensures
        final(line)@ == old(line)@ + offset_text(o),
{
    if o.time_hour == 0 && o.time_minute == 0 {
        line.push(90u8);
    } else {
        let negative = o.time_hour < 0;
        line.push(if negative {
            45u8
        } else {
            43u8
        });
        let hours: u64 = if negative {
            (-(o.time_hour as i16)) as u64
        } else {
            o.time_hour as u64
        };
        push_padded(line, hours, 2);
        line.push(58u8);
        push_padded(line, o.time_minute as u64, 2);
    }
    proof {
        assert(final(line)@ =~= old(line)@ + offset_text(o));
    }
}

fn push_date(line: &mut Vec<u8>, d: &DateTime)
    ensures
        final(line)@ == old(line)@ + date_text(*d),
{
    push_padded(line, d.date_fullyear as u64, 4);
    line.push(45u8);
    push_padded(line, d.date_month as u64, 2);
    line.push(45u8);
    push_padded(line, d.date_mday as u64, 2);
    proof {
        assert(final(line)@ =~= old(line)@ + date_text(*d));
    }
}

fn push_time(line: &mut Vec<u8>, d: &DateTime)
    ensures
        final(line)@ == old(line)@ + time_text(*d),
{
    line.push(84u8);
    push_padded(line, d.time_hour as u64, 2);
    line.push(58u8);
    push_padded(line, d.time_minute as u64, 2);
    line.push(58u8);
    push_padded(line, d.time_second as u64, 2);
    line.push(46u8);
    push_padded(line, d.time_millisecond as u64, 3);
    proof {
        assert(final(line)@ =~= old(line)@ + time_text(*d));
    }
}

/// Appends the text of a date and time to `line`.
pub(crate) fn push_date_time(line: &mut Vec<u8>, d: &DateTime)
    ensures
        final(line)@ == old(line)@ + date_time_text(*d),
{
    push_date(line, d);
    push_time(line, d);
    push_offset(line, d.timezone_offset);
    proof {
        assert(final(line)@ =~= old(line)@ + date_time_text(*d));
    }
}

/// Whether every component of `d` is in the range that reading a date and time accepts: a year of
/// at most four digits, a month of 1 to 12, a day of 1 to 31, an hour of 0 to 23, a minute of 0 to
/// 59, a second of 0 to 60, a millisecond of 0 to 999, and an offset of at most 23 hours and 59
/// minutes either way.
pub open spec fn in_range(d: DateTime) -> bool {
    &&& d.date_fullyear <= 9999
    &&& 1 <= d.date_month <= 12
    &&& 1 <= d.date_mday <= 31
    &&& d.time_hour <= 23
    &&& d.time_minute <= 59
    &&& d.time_second <= 60
    &&& d.time_millisecond <= 999
    &&& -23 <= d.timezone_offset.time_hour <= 23
    &&& d.timezone_offset.time_minute <= 59
}

proof fn lemma_dec_len(n: nat, w: nat)
    requires
        1 <= w,
        n < pow10(w),
    ensures
        dec(n).len() <= w,
    decreases w,
{
    if n >= 10 {
        assert(w > 1) by {
            if w == 1 {
                reveal_with_fuel(pow10, 2);
            }
        }
        assert(n / 10 < pow10((w - 1) as nat));
        lemma_dec_len(n / 10, (w - 1) as nat);
    }
}

proof fn lemma_zeros_value(z: Seq<u8>, t: Seq<u8>)
    requires
        forall|i: int| 0 <= i < z.len() ==> #[trigger] z[i] == 48u8,
    ensures
        digits_value(z + t) == digits_value(t),
    decreases z.len() + t.len(),
{
    if t.len() == 0 {
        assert(z + t =~= z);
        if z.len() > 0 {
            assert(z.drop_last() + t =~= z.drop_last());
            lemma_zeros_value(z.drop_last(), t);
        }
    } else {
        assert((z + t).drop_last() =~= z + t.drop_last());
        lemma_zeros_value(z, t.drop_last());
    }
}

/// The padded digits of a number below `10^w` are `w` digits whose value is the number.
proof fn lemma_padded(n: nat, w: nat)
    requires
        1 <= w,
        n < pow10(w),
    ensures
        padded(n, w).len() == w,
        all_digits(padded(n, w)),
        digits_value(padded(n, w)) == n,
{
    crate::utils::lemma_dec_digits(n);
    lemma_dec_len(n, w);
    let d = dec(n);
    if d.len() < w {
        let z = Seq::new((w - d.len()) as nat, |i: int| 48u8);
        lemma_zeros_value(z, d);
        assert forall|i: int| 0 <= i < padded(n, w).len() implies #[trigger] is_digit(
            padded(n, w)[i],
        ) by {
            if i >= z.len() {
                assert(padded(n, w)[i] == d[i - z.len()]);
            }
        }
    }
}

/// Reading the text of a date and time whose components are in range gives back that date and
/// time; the text of one with a component out of range is refused.
pub proof fn lemma_date_time_round_trip(d: DateTime)
    ensures
        in_range(d) ==> date_time_spec(date_time_text(d)) == Ok::<DateTime, DateTimeSyntaxError>(d),
{
    if in_range(d) {
        lemma_date_time_text_reads_back(d);
    }
}

proof fn lemma_date_time_text_reads_back(d: DateTime)
    requires
        in_range(d),
    ensures
        date_time_spec(date_time_text(d)) == Ok::<DateTime, DateTimeSyntaxError>(d),
{
    reveal_with_fuel(pow10, 5);
    let o = d.timezone_offset;
    let y = padded(d.date_fullyear as nat, 4);
    let mo = padded(d.date_month as nat, 2);
    let da = padded(d.date_mday as nat, 2);
    let h = padded(d.time_hour as nat, 2);
    let mi = padded(d.time_minute as nat, 2);
    let se = padded(d.time_second as nat, 2);
    let ms = padded(d.time_millisecond as nat, 3);
    lemma_padded(d.date_fullyear as nat, 4);
    lemma_padded(d.date_month as nat, 2);
    lemma_padded(d.date_mday as nat, 2);
    lemma_padded(d.time_hour as nat, 2);
    lemma_padded(d.time_minute as nat, 2);
    lemma_padded(d.time_second as nat, 2);
    lemma_padded(d.time_millisecond as nat, 3);
    let head = y + seq![45u8] + mo + seq![45u8] + da + seq![84u8] + h + seq![58u8] + mi + seq![
        58u8,
    ] + se + seq![46u8] + ms;
    let off = offset_text(o);
    let s = date_time_text(d);
    assert(s =~= head + off);
    assert(head.len() == 23);
    assert(s.subrange(0, 4) =~= y);
    assert(s.subrange(5, 7) =~= mo);
    assert(s.subrange(8, 10) =~= da);
    assert(s.subrange(11, 13) =~= h);
    assert(s.subrange(14, 16) =~= mi);
    assert(s.subrange(17, 19) =~= se);
    assert(s.subrange(20, 23) =~= ms);
    assert(is_digit(ms[1]) && is_digit(ms[2]));
    assert(s[21] == ms[1] && s[22] == ms[2]);
    assert(offset_start(s) == 23);
    assert(digits_at(s, 20, 3));
    assert(millis_spec(s, 23) == d.time_millisecond);
    if o.time_hour == 0 && o.time_minute == 0 {
        assert(s.len() == 24);
        assert(s[23] == 90u8);
        assert(offset_spec(s, 23) == Some::<(int, nat)>((0, 0)));
    } else {
        let a: nat = (if o.time_hour < 0 {
            -o.time_hour
        } else {
            o.time_hour as int
        }) as nat;
        let oh = padded(a, 2);
        let om = padded(o.time_minute as nat, 2);
        lemma_padded(a, 2);
        lemma_padded(o.time_minute as nat, 2);
        assert(s.len() == 29);
        assert(s.subrange(24, 26) =~= oh);
        assert(s.subrange(27, 29) =~= om);
        assert(s[26] == 58u8);
        assert(s[23] == (if o.time_hour < 0 {
            45u8
        } else {
            43u8
        }));
        assert(offset_spec(s, 23) == Some::<(int, nat)>((o.time_hour as int, o.time_minute as nat)));
    }
}

/// The padded digits of any number are digits.
proof fn lemma_padded_digits(n: nat, w: nat)
    ensures
        all_digits(padded(n, w)),
{
    crate::utils::lemma_dec_digits(n);
    let d = dec(n);
    if d.len() < w {
        let z = Seq::new((w - d.len()) as nat, |i: int| 48u8);
        assert forall|i: int| 0 <= i < padded(n, w).len() implies #[trigger] is_digit(
            padded(n, w)[i],
        ) by {
            if i >= z.len() {
                assert(padded(n, w)[i] == d[i - z.len()]);
            }
        }
    }
}

/// Whether no byte of `s` is a line feed, `,` or `=`: such text can stand as an unparsed tag value.
pub open spec fn free_of_value_marks(s: Seq<u8>) -> bool {
    forall|i: int| 0 <= i < s.len() ==> s[i] != 10u8 && s[i] != 44u8 && s[i] != 61u8
}

proof fn lemma_concat_free_of_value_marks(a: Seq<u8>, b: Seq<u8>)
    requires
        free_of_value_marks(a),
        free_of_value_marks(b),
    ensures
        free_of_value_marks(a + b),
{
    assert forall|i: int| 0 <= i < (a + b).len() implies (a + b)[i] != 10u8 && (a + b)[i] != 44u8
        && (a + b)[i] != 61u8 by {
        if i < a.len() {
            assert((a + b)[i] == a[i]);
        } else {
            assert((a + b)[i] == b[i - a.len()]);
        }
    }
}

proof fn lemma_padded_free_of_value_marks(n: nat, w: nat)
    ensures
        free_of_value_marks(padded(n, w)),
{
    lemma_padded_digits(n, w);
    assert forall|i: int| 0 <= i < padded(n, w).len() implies padded(n, w)[i] != 10u8 && padded(
        n,
        w,
    )[i] != 44u8 && padded(n, w)[i] != 61u8 by {
        assert(is_digit(padded(n, w)[i]));
    }
}

/// The text of a date and time holds no line feed, `,` or `=`, so it can stand as the unparsed
/// value of a tag line.
pub proof fn lemma_date_time_text_free_of_value_marks(d: DateTime)
    ensures
        free_of_value_marks(date_time_text(d)),
{
    let o = d.timezone_offset;
    lemma_padded_free_of_value_marks(d.date_fullyear as nat, 4);
    lemma_padded_free_of_value_marks(d.date_month as nat, 2);
    lemma_padded_free_of_value_marks(d.date_mday as nat, 2);
    lemma_padded_free_of_value_marks(d.time_hour as nat, 2);
    lemma_padded_free_of_value_marks(d.time_minute as nat, 2);
    lemma_padded_free_of_value_marks(d.time_second as nat, 2);
    lemma_padded_free_of_value_marks(d.time_millisecond as nat, 3);
    let y = padded(d.date_fullyear as nat, 4);
    let mo = padded(d.date_month as nat, 2);
    let da = padded(d.date_mday as nat, 2);
    let h = padded(d.time_hour as nat, 2);
    let mi = padded(d.time_minute as nat, 2);
    let se = padded(d.time_second as nat, 2);
    let ms = padded(d.time_millisecond as nat, 3);
    lemma_concat_free_of_value_marks(y, seq![45u8]);
    lemma_concat_free_of_value_marks(y + seq![45u8], mo);
    lemma_concat_free_of_value_marks(y + seq![45u8] + mo, seq![45u8]);
    lemma_concat_free_of_value_marks(y + seq![45u8] + mo + seq![45u8], da);
    lemma_concat_free_of_value_marks(seq![84u8], h);
    lemma_concat_free_of_value_marks(seq![84u8] + h, seq![58u8]);
    lemma_concat_free_of_value_marks(seq![84u8] + h + seq![58u8], mi);
    lemma_concat_free_of_value_marks(seq![84u8] + h + seq![58u8] + mi, seq![58u8]);
    lemma_concat_free_of_value_marks(seq![84u8] + h + seq![58u8] + mi + seq![58u8], se);
    lemma_concat_free_of_value_marks(seq![84u8] + h + seq![58u8] + mi + seq![58u8] + se, seq![46u8]);
    lemma_concat_free_of_value_marks(
        seq![84u8] + h + seq![58u8] + mi + seq![58u8] + se + seq![46u8],
        ms,
    );
    lemma_concat_free_of_value_marks(date_text(d), time_text(d));
    if !(o.time_hour == 0 && o.time_minute == 0) {
        let a: nat = (if o.time_hour < 0 {
            -o.time_hour
        } else {
            o.time_hour as int
        }) as nat;
        lemma_padded_free_of_value_marks(a, 2);
        lemma_padded_free_of_value_marks(o.time_minute as nat, 2);
        let sign = seq![
            if o.time_hour < 0 {
                45u8
            } else {
                43u8
            },
        ];
        lemma_concat_free_of_value_marks(sign, padded(a, 2));
        lemma_concat_free_of_value_marks(sign + padded(a, 2), seq![58u8]);
        lemma_concat_free_of_value_marks(sign + padded(a, 2) + seq![58u8], padded(o.time_minute as nat, 2));
    }
    lemma_concat_free_of_value_marks(date_text(d) + time_text(d), offset_text(o));
}

} // verus!
