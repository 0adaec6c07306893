//! Byte-level helpers shared by the tag parsers and writers: decimal integers, line splitting,
//! byte searching and output-line assembly.

use vstd::prelude::*;
use vstd::string::StringSliceAdditionalSpecFns;
use vstd::string::StringExecFns;
use vstd::string::StrSliceExecFns;
use vstd::utf8::*;

use crate::error::ParseNumberError;
use crate::line::ParsedByteSlice;

verus! {

/// The ASCII code of `0`.
pub const ZERO: u8 = 48;

/// Whether `b` is an ASCII decimal digit.
pub open spec fn is_digit(b: u8) -> bool {
    48 <= b <= 57
}

/// The decimal representation of `n` (ASCII digits, most significant first, no leading zeros).
pub open spec fn dec(n: nat) -> Seq<u8>
    decreases n,
{
    if n < 10 {
        seq![(48 + n) as u8]
    } else {
        dec(n / 10).push((48 + n % 10) as u8)
    }
}

/// The number that a sequence of decimal digits denotes.
pub open spec fn digits_value(s: Seq<u8>) -> nat
    decreases s.len(),
{
    if s.len() == 0 {
        0
    } else {
        digits_value(s.drop_last()) * 10 + (s.last() - 48) as nat
    }
}

/// Whether every byte of `s` is a decimal digit.
pub open spec fn all_digits(s: Seq<u8>) -> bool {
    forall|i: int| 0 <= i < s.len() ==> #[trigger] is_digit(s[i])
}

/// Reading the first `k` bytes of `s` from left to right as a decimal integer: the first
/// non-digit byte, or the first digit that takes the value past `u64::MAX`, stops the reading
/// with an error.
pub open spec fn read_decimal_prefix(s: Seq<u8>, k: nat) -> Result<u64, ParseNumberError>
    recommends
        k <= s.len(),
    decreases k,
{
    if k == 0 {
        Ok(0)
    } else {
        match read_decimal_prefix(s, (k - 1) as nat) {
            Err(e) => Err(e),
            Ok(acc) => {
                let b = s[k - 1];
                if !is_digit(b) {
                    Err(ParseNumberError::InvalidDigit(b))
                } else if acc * 10 + (b - 48) > u64::MAX {
                    Err(ParseNumberError::NumberTooBig)
                } else {
                    Ok((acc * 10 + (b - 48)) as u64)
                }
            },
        }
    }
}

/// The result of reading `s` as a decimal integer (`decimal-integer` of the HLS specification).
pub open spec fn parse_u64_spec(s: Seq<u8>) -> Result<u64, ParseNumberError> {
    if s.len() == 0 {
        Err(ParseNumberError::Empty)
    } else {
        read_decimal_prefix(s, s.len())
    }
}

/// The decimal representation of a number is a non-empty run of digits whose value is the number.
pub proof fn lemma_dec_digits(n: nat)
    ensures
        dec(n).len() > 0,
        all_digits(dec(n)),
        digits_value(dec(n)) == n,
    decreases n,
{
    if n >= 10 {
        lemma_dec_digits(n / 10);
        let d = dec(n / 10);
        assert(dec(n).drop_last() == d);
        assert(dec(n).last() == (48 + n % 10) as u8);
        assert(n == (n / 10) * 10 + n % 10) by (nonlinear_arith);
        assert(digits_value(dec(n)) == digits_value(d) * 10 + (n % 10));
        assert forall|i: int| 0 <= i < dec(n).len() implies #[trigger] is_digit(dec(n)[i]) by {
            if i < d.len() {
                assert(dec(n)[i] == d[i]);
            }
        }
    } else {
        assert(dec(n).drop_last() =~= Seq::<u8>::empty());
        assert(digits_value(dec(n)) == digits_value(Seq::<u8>::empty()) * 10 + n);
    }
}

proof fn lemma_read_prefix_ok(s: Seq<u8>, k: nat)
    requires
        k <= s.len(),
        all_digits(s.subrange(0, k as int)),
        digits_value(s.subrange(0, k as int)) <= u64::MAX,
    ensures
        read_decimal_prefix(s, k) == Ok::<u64, ParseNumberError>(
            digits_value(s.subrange(0, k as int)) as u64,
        ),
    decreases k,
{
    if k > 0 {
        let p = s.subrange(0, k as int);
        let q = s.subrange(0, k - 1);
        assert(p.drop_last() == q);
        assert forall|i: int| 0 <= i < q.len() implies #[trigger] is_digit(q[i]) by {
            assert(q[i] == p[i]);
        }
        assert(is_digit(p[k - 1]));
        lemma_read_prefix_ok(s, (k - 1) as nat);
    }
}

proof fn lemma_read_prefix_ok_only_if(s: Seq<u8>, k: nat)
    requires
        k <= s.len(),
        read_decimal_prefix(s, k) is Ok,
    ensures
        all_digits(s.subrange(0, k as int)),
        digits_value(s.subrange(0, k as int)) == read_decimal_prefix(s, k)->Ok_0,
    decreases k,
{
    if k > 0 {
        lemma_read_prefix_ok_only_if(s, (k - 1) as nat);
        let p = s.subrange(0, k as int);
        let q = s.subrange(0, k - 1);
        assert(p.drop_last() == q);
        assert forall|i: int| 0 <= i < p.len() implies #[trigger] is_digit(p[i]) by {
            if i < k - 1 {
                assert(q[i] == p[i]);
            }
        }
    }
}

/// Reading back the decimal representation of any `u64` gives the same number.
pub proof fn lemma_parse_u64_of_dec(n: u64)
    ensures
        parse_u64_spec(dec(n as nat)) == Ok::<u64, ParseNumberError>(n),
{
    lemma_dec_digits(n as nat);
    let d = dec(n as nat);
    assert(d.subrange(0, d.len() as int) == d);
    lemma_read_prefix_ok(d, d.len());
}

/// A byte sequence is read as a decimal integer exactly when it is a non-empty run of digits
/// whose value fits in a `u64`, and then the result is that value.
pub proof fn lemma_parse_u64_ok_iff(s: Seq<u8>)
    ensures
        (parse_u64_spec(s) is Ok) <==> (s.len() > 0 && all_digits(s) && digits_value(s)
            <= u64::MAX),
        parse_u64_spec(s) is Ok ==> parse_u64_spec(s)->Ok_0 == digits_value(s),
{
    assert(s.subrange(0, s.len() as int) == s);
    if s.len() > 0 {
        if all_digits(s) && digits_value(s) <= u64::MAX {
            lemma_read_prefix_ok(s, s.len());
        }
        if parse_u64_spec(s) is Ok {
            lemma_read_prefix_ok_only_if(s, s.len());
        }
    }
}

/// Reads `input` as a decimal integer (`decimal-integer` of the HLS specification).
pub fn parse_u64(input: &[u8]) -> (r: Result<u64, ParseNumberError>)
    ensures
        r == parse_u64_spec(input@),
{
    if input.len() == 0 {
        return Err(ParseNumberError::Empty);
    }
    let mut acc: u64 = 0;
    let mut i: usize = 0;
    while i < input.len()
        invariant
            0 <= i <= input@.len(),
            read_decimal_prefix(input@, i as nat) == Ok::<u64, ParseNumberError>(acc),
        decreases input@.len() - i,
    {
        let b = input[i];
        if b < 48 || b > 57 {
            proof {
                lemma_read_prefix_error_sticks(input@, (i + 1) as nat, input@.len());
            }
            return Err(ParseNumberError::InvalidDigit(b));
        }
        let next = match acc.checked_mul(10) {
            Some(m) => m.checked_add((b - 48) as u64),
            None => None,
        };
        match next {
            Some(v) => {
                acc = v;
            },
            None => {
                proof {
                    lemma_read_prefix_error_sticks(input@, (i + 1) as nat, input@.len());
                }
                return Err(ParseNumberError::NumberTooBig);
            },
        }
        i += 1;
    }
    Ok(acc)
}

proof fn lemma_read_prefix_error_sticks(s: Seq<u8>, k: nat, m: nat)
    requires
        k <= m <= s.len(),
        read_decimal_prefix(s, k) is Err,
    ensures
        read_decimal_prefix(s, m) == read_decimal_prefix(s, k),
    decreases m - k,
{
    if m > k {
        lemma_read_prefix_error_sticks(s, k, (m - 1) as nat);
    }
}

/// Reading `s` as an unsigned integer no larger than `max`, as the standard library's `parse`
/// reads unsigned integers: an optional `+`, then one or more decimal digits.
pub open spec fn parse_uint_spec(s: Seq<u8>, max: nat) -> Option<nat> {
    let d = if s.len() > 0 && s[0] == 43u8 {
        s.drop_first()
    } else {
        s
    };
    if d.len() > 0 && all_digits(d) && digits_value(d) <= max {
        Some(digits_value(d))
    } else {
        None
    }
}

/// Reads `s` as an unsigned integer no larger than `max` (an optional `+`, then decimal digits).
pub fn parse_uint(s: &[u8], max: u64) -> (r: Option<u64>)
    ensures
        match parse_uint_spec(s@, max as nat) {
            Some(n) => r == Some(n as u64),
            None => r is None,
        },
{
    let d = if s.len() > 0 && s[0] == 43u8 {
        vstd::slice::slice_subrange(s, 1, s.len())
    } else {
        s
    };
    proof {
        lemma_parse_u64_ok_iff(d@);
        if s@.len() > 0 && s@[0] == 43u8 {
            assert(d@ == s@.drop_first());
        }
    }
    match parse_u64(d) {
        Ok(n) => if n <= max {
            Some(n)
        } else {
            None
        },
        Err(_) => None,
    }
}

/// Reading back the decimal representation of a number gives the number.
pub proof fn lemma_parse_uint_of_dec(n: nat, max: nat)
    requires
        n <= max,
    ensures
        parse_uint_spec(dec(n), max) == Some(n),
{
    lemma_dec_digits(n);
    assert(is_digit(dec(n)[0]));
}

/// Appends the decimal representation of `n` to `line`.
pub fn push_u64(line: &mut Vec<u8>, n: u64)
    ensures
        final(line)@ == old(line)@ + dec(n as nat),
    decreases n,
{
    if n >= 10 {
        push_u64(line, n / 10);
    }
    line.push(ZERO + (n % 10) as u8);
    proof {
        if n >= 10 {
            assert(dec(n as nat) == dec((n / 10) as nat).push((48 + n % 10) as u8));
        }
    }
}

/// Appends the bytes of `s` to `line`.
pub fn push_bytes(line: &mut Vec<u8>, s: &[u8])
    ensures
        final(line)@ == old(line)@ + s@,
{
    let mut i: usize = 0;
    while i < s.len()
        invariant
            i <= s@.len(),
            line@ == old(line)@ + s@.subrange(0, i as int),
        decreases s@.len() - i,
    {
        line.push(s[i]);
        i += 1;
        assert(s@.subrange(0, i as int) == s@.subrange(0, i - 1).push(s@[i - 1]));
    }
    assert(s@.subrange(0, s@.len() as int) == s@);
}

/// Appends the UTF-8 encoding of `s` to `line`.
pub fn push_str(line: &mut Vec<u8>, s: &str)
    ensures
        final(line)@ == old(line)@ + s.spec_bytes(),
{
    push_bytes(line, s.as_bytes());
}

/// `memchr::memchr`: the position of the first occurrence of `needle` in `haystack`, or `None`
/// when there is none.
#[verifier::external_body]
pub(crate) fn find_byte(needle: u8, haystack: &[u8]) -> (r: Option<usize>)
    ensures
        match r {
            Some(i) => i < haystack@.len() && haystack@[i as int] == needle && forall|j: int|
                0 <= j < i ==> haystack@[j] != needle,
            None => forall|j: int| 0 <= j < haystack@.len() ==> haystack@[j] != needle,
        },
{
    memchr::memchr(needle, haystack)
}

/// `memchr::memchr2`: the position of the first byte of `haystack` that is `needle1` or
/// `needle2`, or `None` when there is none.
#[verifier::external_body]
pub(crate) fn find_either_byte(needle1: u8, needle2: u8, haystack: &[u8]) -> (r: Option<usize>)
    ensures
        match r {
            Some(i) => i < haystack@.len() && (haystack@[i as int] == needle1 || haystack@[i as int]
                == needle2) && forall|j: int|
                0 <= j < i ==> haystack@[j] != needle1 && haystack@[j] != needle2,
            None => forall|j: int|
                0 <= j < haystack@.len() ==> haystack@[j] != needle1 && haystack@[j] != needle2,
        },
{
    memchr::memchr2(needle1, needle2, haystack)
}

/// `memchr::memchr3`: the position of the first byte of `haystack` that is `needle1`, `needle2`
/// or `needle3`, or `None` when there is none.
#[verifier::external_body]
pub(crate) fn find_any_of_three_bytes(
    needle1: u8,
    needle2: u8,
    needle3: u8,
    haystack: &[u8],
) -> (r: Option<usize>)
    ensures
        match r {
            Some(i) => i < haystack@.len() && (haystack@[i as int] == needle1 || haystack@[i as int]
                == needle2 || haystack@[i as int] == needle3) && forall|j: int|
                0 <= j < i ==> haystack@[j] != needle1 && haystack@[j] != needle2 && haystack@[j]
                    != needle3,
            None => forall|j: int|
                0 <= j < haystack@.len() ==> haystack@[j] != needle1 && haystack@[j] != needle2
                    && haystack@[j] != needle3,
        },
{
    memchr::memchr3(needle1, needle2, needle3, haystack)
}

/// The line of `input` (everything before its first line feed, without a carriage return that
/// directly precedes the line feed) and what follows the line feed.
pub open spec fn split_line_spec(input: Seq<u8>) -> (Seq<u8>, Option<Seq<u8>>) {
    match first_index(input, 10u8) {
        Some(n) => {
            let end = if n > 0 && input[n - 1] == 13u8 {
                n - 1
            } else {
                n
            };
            (input.subrange(0, end), Some(input.subrange(n + 1, input.len() as int)))
        },
        None => (input, None),
    }
}

/// Input that holds no line feed is a line of its own.
pub proof fn lemma_split_line_without_line_feed(input: Seq<u8>)
    requires
        forall|i: int| 0 <= i < input.len() ==> input[i] != 10u8,
    ensures
        split_line_spec(input).0 == input,
{
    lemma_first_index_facts(input, 10u8);
}

/// Splits `input` at its first line feed (`\n`), dropping a carriage return (`\r`) that directly
/// precedes it.
pub fn split_on_new_line(input: &[u8]) -> (r: ParsedByteSlice<'_, &[u8]>)
    ensures
        r.parsed@ == split_line_spec(input@).0,
        r.remaining matches Some(rem) ==> split_line_spec(input@).1 == Some(rem@),
        r.remaining is None ==> split_line_spec(input@).1 is None,
{
    match find_byte(10u8, input) {
        Some(n) => {
            proof {
                lemma_first_index_is(input@, 10u8, n as int);
            }
            let end = if n > 0 && input[n - 1] == 13u8 {
                n - 1
            } else {
                n
            };
            ParsedByteSlice { parsed: &input[0..end], remaining: Some(&input[(n + 1)..input.len()]) }
        },
        None => ParsedByteSlice { parsed: input, remaining: None },
    }
}

/// The first position of `needle` in `s`, if any.
pub open spec fn first_index(s: Seq<u8>, needle: u8) -> Option<int> {
    if exists|i: int| 0 <= i < s.len() && s[i] == needle {
        Some(
            choose|i: int|
                0 <= i < s.len() && s[i] == needle && forall|j: int| 0 <= j < i ==> s[j] != needle,
        )
    } else {
        None
    }
}

/// What the first position of a byte is: in range, holding the byte, with no earlier occurrence.
pub proof fn lemma_first_index_facts(s: Seq<u8>, needle: u8)
    ensures
        match first_index(s, needle) {
            Some(i) => 0 <= i < s.len() && s[i] == needle && forall|j: int|
                0 <= j < i ==> s[j] != needle,
            None => forall|j: int| 0 <= j < s.len() ==> s[j] != needle,
        },
{
    if exists|i: int| 0 <= i < s.len() && s[i] == needle {
        let w = choose|i: int| 0 <= i < s.len() && s[i] == needle;
        lemma_least_index(s, needle, w);
    }
}

proof fn lemma_least_index(s: Seq<u8>, needle: u8, w: int)
    requires
        0 <= w < s.len(),
        s[w] == needle,
    ensures
        exists|i: int|
            0 <= i < s.len() && s[i] == needle && forall|j: int| 0 <= j < i ==> s[j] != needle,
    decreases w,
{
    if exists|j: int| 0 <= j < w && s[j] == needle {
        let j = choose|j: int| 0 <= j < w && s[j] == needle;
        lemma_least_index(s, needle, j);
    } else {
        assert(forall|j: int| 0 <= j < w ==> s[j] != needle);
    }
}

/// A position that holds `needle` with no earlier `needle` is the first position of `needle`.
pub proof fn lemma_first_index_is(s: Seq<u8>, needle: u8, i: int)
    requires
        0 <= i < s.len(),
        s[i] == needle,
        forall|j: int| 0 <= j < i ==> s[j] != needle,
    ensures
        first_index(s, needle) == Some(i),
{
    let m = choose|k: int|
        0 <= k < s.len() && s[k] == needle && forall|j: int| 0 <= j < k ==> s[j] != needle;
    assert(m == i) by {
        if m < i {
            assert(s[m] != needle);
        }
        if i < m {
            assert(s[i] != needle);
        }
    }
}

/// The first position of `a` or `b` in `s`, if any.
pub open spec fn first_index_either(s: Seq<u8>, a: u8, b: u8) -> Option<int> {
    if exists|i: int| 0 <= i < s.len() && (s[i] == a || s[i] == b) {
        Some(
            choose|i: int|
                0 <= i < s.len() && (s[i] == a || s[i] == b) && forall|j: int|
                    0 <= j < i ==> s[j] != a && s[j] != b,
        )
    } else {
        None
    }
}

/// A position that holds `a` or `b` with no earlier `a` or `b` is the first such position.
pub proof fn lemma_first_index_either_is(s: Seq<u8>, a: u8, b: u8, i: int)
    requires
        0 <= i < s.len(),
        s[i] == a || s[i] == b,
        forall|j: int| 0 <= j < i ==> s[j] != a && s[j] != b,
    ensures
        first_index_either(s, a, b) == Some(i),
{
    let m = choose|k: int|
        0 <= k < s.len() && (s[k] == a || s[k] == b) && forall|j: int|
            0 <= j < k ==> s[j] != a && s[j] != b;
    assert(m == i) by {
        if m < i {
            assert(s[m] != a && s[m] != b);
        }
        if i < m {
            assert(s[i] != a && s[i] != b);
        }
    }
}

/// The pieces of `s` between the bytes `sep` (every one of them: an empty `s` is one empty
/// piece, and a trailing `sep` ends in an empty piece).
#[verifier::opaque]
pub open spec fn split_spec(s: Seq<u8>, sep: u8) -> Seq<Seq<u8>>
    decreases s.len(),
{
    match first_index(s, sep) {
        Some(i) => if 0 <= i < s.len() {
            seq![s.subrange(0, i)] + split_spec(s.subrange(i + 1, s.len() as int), sep)
        } else {
            seq![s]
        },
        None => seq![s],
    }
}

/// The pieces of `p` joined, with `sep` between each two of them.
pub open spec fn join_spec(p: Seq<Seq<u8>>, sep: u8) -> Seq<u8>
    decreases p.len(),
{
    if p.len() == 0 {
        seq![]
    } else if p.len() == 1 {
        p[0]
    } else {
        join_spec(p.drop_last(), sep) + seq![sep] + p.last()
    }
}

/// Splitting at the first `sep` gives the piece before it followed by the pieces after it.
pub proof fn lemma_split_at_first(s: Seq<u8>, sep: u8, i: int)
    requires
        0 <= i < s.len(),
        s[i] == sep,
        forall|j: int| 0 <= j < i ==> s[j] != sep,
    ensures
        split_spec(s, sep) == seq![s.subrange(0, i)] + split_spec(
            s.subrange(i + 1, s.len() as int),
            sep,
        ),
{
    reveal(split_spec);
    lemma_first_index_is(s, sep, i);
}

/// Without any `sep`, `s` is a single piece.
pub proof fn lemma_split_none(s: Seq<u8>, sep: u8)
    requires
        forall|j: int| 0 <= j < s.len() ==> s[j] != sep,
    ensures
        split_spec(s, sep) == seq![s],
{
    reveal(split_spec);
    assert(!(exists|i: int| 0 <= i < s.len() && s[i] == sep));
}

/// Every piece of valid UTF-8 split at an ASCII byte is valid UTF-8.
pub proof fn lemma_split_valid_utf8(s: Seq<u8>, sep: u8)
    requires
        valid_utf8(s),
        sep < 128,
    ensures
        forall|k: int| 0 <= k < split_spec(s, sep).len() ==> valid_utf8(#[trigger] split_spec(s, sep)[k]),
    decreases s.len(),
{
    reveal(split_spec);
    lemma_first_index_facts(s, sep);
    match first_index(s, sep) {
        Some(i) => {
            lemma_valid_utf8_split_at_ascii(s, i);
            let rest = s.subrange(i + 1, s.len() as int);
            lemma_split_valid_utf8(rest, sep);
            assert forall|k: int| 0 <= k < split_spec(s, sep).len() implies valid_utf8(
                #[trigger] split_spec(s, sep)[k],
            ) by {
                if k > 0 {
                    assert(split_spec(s, sep)[k] == split_spec(rest, sep)[k - 1]);
                }
            }
        },
        None => {},
    }
}

/// Joining pieces of valid UTF-8 at an ASCII byte gives valid UTF-8.
pub proof fn lemma_join_valid_utf8(p: Seq<Seq<u8>>, sep: u8)
    requires
        forall|k: int| 0 <= k < p.len() ==> valid_utf8(#[trigger] p[k]),
        sep < 128,
    ensures
        valid_utf8(join_spec(p, sep)),
    decreases p.len(),
{
    if p.len() == 0 {
        assert(valid_utf8(Seq::<u8>::empty())) by {
            reveal_with_fuel(valid_utf8, 1);
        }
    } else if p.len() > 1 {
        let q = p.drop_last();
        assert forall|k: int| 0 <= k < q.len() implies valid_utf8(#[trigger] q[k]) by {
            assert(q[k] == p[k]);
        }
        lemma_join_valid_utf8(q, sep);
        let one = seq![sep];
        assert(valid_utf8(one)) by {
            reveal_with_fuel(valid_utf8, 2);
            assert(pop_first_scalar(one) =~= Seq::<u8>::empty());
        }
        assert(valid_utf8(p.last()));
        valid_utf8_concat(join_spec(q, sep), one);
        valid_utf8_concat(join_spec(q, sep) + one, p.last());
    }
}

/// Joining one more piece puts the separator and the piece at the end.
pub proof fn lemma_join_push(p: Seq<Seq<u8>>, x: Seq<u8>, sep: u8)
    ensures
        join_spec(p.push(x), sep) == if p.len() == 0 {
            x
        } else {
            join_spec(p, sep) + seq![sep] + x
        },
{
    assert(p.push(x).drop_last() == p);
    if p.len() == 0 {
        assert(p.push(x)[0] == x);
    }
}

/// Splitting always gives at least one piece.
pub proof fn lemma_split_nonempty(s: Seq<u8>, sep: u8)
    ensures
        split_spec(s, sep).len() > 0,
{
    reveal(split_spec);
}

/// No piece of a split holds the separator.
pub proof fn lemma_split_pieces_lack_sep(s: Seq<u8>, sep: u8)
    ensures
        forall|k: int|
            0 <= k < split_spec(s, sep).len() ==> !(#[trigger] split_spec(s, sep)[k]).contains(sep),
    decreases s.len(),
{
    reveal(split_spec);
    lemma_first_index_facts(s, sep);
    match first_index(s, sep) {
        Some(i) => {
            let rest = s.subrange(i + 1, s.len() as int);
            lemma_split_pieces_lack_sep(rest, sep);
            assert forall|k: int| 0 <= k < split_spec(s, sep).len() implies !(
            #[trigger] split_spec(s, sep)[k]).contains(sep) by {
                if k > 0 {
                    assert(split_spec(s, sep)[k] == split_spec(rest, sep)[k - 1]);
                } else {
                    let piece = s.subrange(0, i);
                    assert(split_spec(s, sep)[0] == piece);
                    if piece.contains(sep) {
                        let j = choose|j: int| 0 <= j < piece.len() && piece[j] == sep;
                        assert(s[j] == sep);
                    }
                }
            }
        },
        None => {
            assert(split_spec(s, sep)[0] == s);
            if s.contains(sep) {
                let j = choose|j: int| 0 <= j < s.len() && s[j] == sep;
                assert(s[j] == sep);
            }
        },
    }
}

/// Appending the separator and a piece without it adds that piece to the split.
pub proof fn lemma_split_append(a: Seq<u8>, x: Seq<u8>, sep: u8)
    requires
        !x.contains(sep),
    ensures
        split_spec(a + seq![sep] + x, sep) == split_spec(a, sep) + seq![x],
    decreases a.len(),
{
    let w = a + seq![sep] + x;
    lemma_first_index_facts(a, sep);
    assert forall|j: int| 0 <= j < x.len() implies x[j] != sep by {
        if x[j] == sep {
            assert(x.contains(sep));
        }
    }
    match first_index(a, sep) {
        Some(i) => {
            assert(w[i] == sep);
            assert forall|j: int| 0 <= j < i implies w[j] != sep by {
                assert(w[j] == a[j]);
            }
            lemma_split_at_first(w, sep, i);
            lemma_split_at_first(a, sep, i);
            let rest = a.subrange(i + 1, a.len() as int);
            lemma_split_append(rest, x, sep);
            assert(w.subrange(0, i) =~= a.subrange(0, i));
            assert(w.subrange(i + 1, w.len() as int) =~= rest + seq![sep] + x);
            assert(split_spec(w, sep) =~= split_spec(a, sep) + seq![x]);
        },
        None => {
            let n = a.len() as int;
            assert(w[n] == sep);
            assert forall|j: int| 0 <= j < n implies w[j] != sep by {
                assert(w[j] == a[j]);
            }
            lemma_split_at_first(w, sep, n);
            lemma_split_none(a, sep);
            lemma_split_none(x, sep);
            assert(w.subrange(0, n) =~= a);
            assert(w.subrange(n + 1, w.len() as int) =~= x);
        },
    }
}

/// Splitting what was joined gives back the pieces, when there is at least one piece and no piece
/// holds the separator.
pub proof fn lemma_split_join(p: Seq<Seq<u8>>, sep: u8)
    requires
        p.len() > 0,
        forall|k: int| 0 <= k < p.len() ==> !(#[trigger] p[k]).contains(sep),
    ensures
        split_spec(join_spec(p, sep), sep) == p,
    decreases p.len(),
{
    if p.len() == 1 {
        assert forall|j: int| 0 <= j < p[0].len() implies p[0][j] != sep by {
            if p[0][j] == sep {
                assert(p[0].contains(sep));
            }
        }
        lemma_split_none(p[0], sep);
        assert(p =~= seq![p[0]]);
    } else {
        let q = p.drop_last();
        assert forall|k: int| 0 <= k < q.len() implies !(#[trigger] q[k]).contains(sep) by {
            assert(q[k] == p[k]);
        }
        lemma_split_join(q, sep);
        assert(!p[p.len() - 1].contains(sep));
        lemma_split_append(join_spec(q, sep), p.last(), sep);
        assert(p =~= q + seq![p.last()]);
    }
}

/// Joining the pieces of a split gives back what was split.
pub proof fn lemma_join_split(s: Seq<u8>, sep: u8)
    ensures
        join_spec(split_spec(s, sep), sep) == s,
    decreases s.len(),
{
    lemma_first_index_facts(s, sep);
    match first_index(s, sep) {
        Some(i) => {
            let rest = s.subrange(i + 1, s.len() as int);
            lemma_split_at_first(s, sep, i);
            lemma_join_split(rest, sep);
            lemma_split_nonempty(rest, sep);
            lemma_join_prepend(s.subrange(0, i), split_spec(rest, sep), sep);
            lemma_split_nonempty(rest, sep);
            assert(s =~= s.subrange(0, i) + seq![sep] + rest);
        },
        None => {
            lemma_split_none(s, sep);
        },
    }
}

/// Joining a piece in front of at least one more piece puts the piece and the separator first.
pub proof fn lemma_join_prepend(x: Seq<u8>, p: Seq<Seq<u8>>, sep: u8)
    requires
        p.len() > 0,
    ensures
        join_spec(seq![x] + p, sep) == x + seq![sep] + join_spec(p, sep),
    decreases p.len(),
{
    let w = seq![x] + p;
    if p.len() == 1 {
        assert(w.drop_last() =~= seq![x]);
        assert(w.last() == p[0]);
        assert(join_spec(seq![x], sep) == x);
        assert(join_spec(w, sep) == join_spec(w.drop_last(), sep) + seq![sep] + w.last());
    } else {
        lemma_join_prepend(x, p.drop_last(), sep);
        assert(w.drop_last() =~= seq![x] + p.drop_last());
        assert(w.last() == p.last());
        assert(join_spec(w, sep) == join_spec(w.drop_last(), sep) + seq![sep] + w.last());
        assert(join_spec(p, sep) == join_spec(p.drop_last(), sep) + seq![sep] + p.last());
        assert(x + seq![sep] + join_spec(p, sep) =~= x + seq![sep] + join_spec(p.drop_last(), sep)
            + seq![sep] + p.last());
    }
}

/// Splitting valid UTF-8 around an ASCII byte leaves valid UTF-8 on both sides.
pub proof fn lemma_valid_utf8_split_at_ascii(b: Seq<u8>, p: int)
    requires
        valid_utf8(b),
        0 <= p < b.len(),
        b[p] < 128,
    ensures
        valid_utf8(b.subrange(0, p)),
        valid_utf8(b.subrange(p + 1, b.len() as int)),
{
    is_char_boundary_iff_not_is_continuation_byte(b, p);
    valid_utf8_split(b, p);
    let suffix = b.subrange(p, b.len() as int);
    assert(suffix[0] == b[p]);
    reveal_with_fuel(valid_utf8, 1);
    assert(pop_first_scalar(suffix) =~= b.subrange(p + 1, b.len() as int));
}

/// Whether `c` is white space as Unicode's `White_Space` property defines it.
pub open spec fn is_white_space(c: char) -> bool {
    ('\u{9}' <= c <= '\u{d}') || c == ' ' || c == '\u{85}' || c == '\u{a0}' || c == '\u{1680}'
        || ('\u{2000}' <= c <= '\u{200a}') || c == '\u{2028}' || c == '\u{2029}'
        || c == '\u{202f}' || c == '\u{205f}' || c == '\u{3000}'
}

fn char_is_white_space(c: char) -> (r: bool)
    ensures
        r == is_white_space(c),
{
    ('\u{9}' <= c && c <= '\u{d}') || c == ' ' || c == '\u{85}' || c == '\u{a0}' || c
        == '\u{1680}' || ('\u{2000}' <= c && c <= '\u{200a}') || c == '\u{2028}' || c
        == '\u{2029}' || c == '\u{202f}' || c == '\u{205f}' || c == '\u{3000}'
}

/// `s` without its leading white space.
pub open spec fn trim_start_spec(s: Seq<char>) -> Seq<char>
    decreases s.len(),
{
    if s.len() > 0 && is_white_space(s[0]) {
        trim_start_spec(s.drop_first())
    } else {
        s
    }
}

/// `s` without its trailing white space.
pub open spec fn trim_end_spec(s: Seq<char>) -> Seq<char>
    decreases s.len(),
{
    if s.len() > 0 && is_white_space(s.last()) {
        trim_end_spec(s.drop_last())
    } else {
        s
    }
}

/// `s` without its leading and trailing white space.
pub open spec fn trim_spec(s: Seq<char>) -> Seq<char> {
    trim_end_spec(trim_start_spec(s))
}

/// `s` without its leading and trailing white space.
pub fn trim(s: &str) -> (r: &str)
    ensures
        r@ == trim_spec(s@),
{
    let len = s.unicode_len();
    let mut i: usize = 0;
    proof {
        assert(s@.subrange(0, len as int) =~= s@);
    }
    while i < len && char_is_white_space(s.get_char(i))
        invariant
            i <= len == s@.len(),
            trim_start_spec(s@) == trim_start_spec(s@.subrange(i as int, len as int)),
        decreases len - i,
    {
        proof {
            assert(s@.subrange(i + 1, len as int) =~= s@.subrange(i as int, len as int).drop_first());
        }
        i += 1;
    }
    let ghost start = s@.subrange(i as int, len as int);
    proof {
        assert(trim_start_spec(start) == start);
    }
    let mut j: usize = len;
    while j > i && char_is_white_space(s.get_char(j - 1))
        invariant
            i <= j <= len == s@.len(),
            start == s@.subrange(i as int, len as int),
            trim_spec(s@) == trim_end_spec(s@.subrange(i as int, j as int)),
        decreases j - i,
    {
        proof {
            assert(s@.subrange(i as int, j - 1) =~= s@.subrange(i as int, j as int).drop_last());
        }
        j -= 1;
    }
    s.substring_char(i, j)
}

/// Encoding two texts one after the other gives the two encodings one after the other.
pub proof fn lemma_encode_utf8_concat(a: Seq<char>, b: Seq<char>)
    ensures
        encode_utf8(a + b) == encode_utf8(a) + encode_utf8(b),
    decreases a.len(),
{
    if a.len() == 0 {
        assert(a + b =~= b);
    } else {
        lemma_encode_utf8_concat(a.drop_first(), b);
        assert((a + b).drop_first() =~= a.drop_first() + b);
        assert((a + b)[0] == a[0]);
    }
}

/// Whether two byte slices hold the same bytes.
pub fn bytes_eq(a: &[u8], b: &[u8]) -> (r: bool)
    ensures
        r == (a@ == b@),
{
    if a.len() != b.len() {
        return false;
    }
    let mut i: usize = 0;
    while i < a.len()
        invariant
            a@.len() == b@.len(),
            i <= a@.len(),
            forall|j: int| 0 <= j < i ==> a@[j] == b@[j],
        decreases a@.len() - i,
    {
        if a[i] != b[i] {
            return false;
        }
        i += 1;
    }
    assert(a@ =~= b@);
    true
}

/// Whether two strings hold the same characters.
pub fn str_eq(a: &str, b: &str) -> (r: bool)
    ensures
        r == (a@ == b@),
{
    proof {
        encode_utf8_decode_utf8(a@);
        encode_utf8_decode_utf8(b@);
    }
    bytes_eq(a.as_bytes(), b.as_bytes())
}

/// The characters of the decimal representation of `n`.
pub open spec fn dec_chars(n: nat) -> Seq<char> {
    dec(n).map_values(|b: u8| b as char)
}

/// The decimal representation of a number is ASCII text: its characters encode to its bytes.
pub proof fn lemma_dec_ascii(n: nat)
    ensures
        is_ascii_chars(dec_chars(n)),
        encode_utf8(dec_chars(n)) == dec(n),
        valid_utf8(dec(n)),
{
    lemma_dec_digits(n);
    let c = dec_chars(n);
    assert forall|i: int| 0 <= i < c.len() implies '\0' <= #[trigger] c[i] <= '\u{7f}' by {
        assert(is_digit(dec(n)[i]));
    }
    is_ascii_chars_encode_utf8(c);
    assert(encode_utf8(c) =~= dec(n));
    encode_utf8_valid_utf8(c);
}

/// Copies `s` into a new string.
pub fn string_from(s: &str) -> (r: String)
    ensures
        r@ == s@,
{
    String::from_str(s)
}

/// The decimal representation of `n` as a string.
pub fn u64_to_string(n: u64) -> (r: String)
    ensures
        r@ == dec_chars(n as nat),
{
    let mut digits: Vec<u8> = Vec::new();
    push_u64(&mut digits, n);
    proof {
        lemma_dec_ascii(n as nat);
        assert(digits@ =~= dec(n as nat));
    }
    match str_from_utf8(digits.as_slice()) {
        Ok(s) => {
            proof {
                encode_utf8_decode_utf8(s@);
                encode_utf8_decode_utf8(dec_chars(n as nat));
            }
            String::from_str(s)
        },
        Err(_) => {
            proof {
                assert(false);
            }
            String::new()
        },
    }
}

/// `std::str::from_utf8`: the text that `v` encodes when `v` is valid UTF-8, an error otherwise.
#[verifier::external_body]
pub(crate) fn str_from_utf8(v: &[u8]) -> (r: Result<&str, core::str::Utf8Error>)
    ensures
        r is Ok <==> valid_utf8(v@),
        r matches Ok(s) ==> s.spec_bytes() == v@,
{
    core::str::from_utf8(v)
}

/// The standard library's error for bytes that are not valid UTF-8.
#[verifier::external_type_specification]
#[verifier::external_body]
pub struct ExUtf8Error(core::str::Utf8Error);

} // verus!
