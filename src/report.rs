use vstd::prelude::*;

use crate::error::UpscaleError;
use crate::protocol::{decimal_of, digit_char};

verus! {

/// The characters with the Unicode `White_Space` property.
pub open spec fn is_white_space(c: char) -> bool {
    ||| ('\u{9}' <= c && c <= '\u{d}')
    ||| c == ' '
    ||| c == '\u{85}'
    ||| c == '\u{a0}'
    ||| c == '\u{1680}'
    ||| ('\u{2000}' <= c && c <= '\u{200a}')
    ||| c == '\u{2028}'
    ||| c == '\u{2029}'
    ||| c == '\u{202f}'
    ||| c == '\u{205f}'
    ||| c == '\u{3000}'
}

/// `s` without its leading white space.
pub open spec fn trim_start_text(s: Seq<char>) -> Seq<char>
    decreases s.len(),
{
    if s.len() > 0 && is_white_space(s[0]) {
        trim_start_text(s.drop_first())
    } else {
        s
    }
}

/// `s` without its trailing white space.
pub open spec fn trim_end_text(s: Seq<char>) -> Seq<char>
    decreases s.len(),
{
    if s.len() > 0 && is_white_space(s.last()) {
        trim_end_text(s.drop_last())
    } else {
        s
    }
}

/// `s` without white space at either end.
pub open spec fn trim_text(s: Seq<char>) -> Seq<char> {
    trim_end_text(trim_start_text(s))
}

/// The text that a sequence of bytes encodes in UTF-8, or none when the bytes
/// are not valid UTF-8.
pub uninterp spec fn utf8_decoded(b: Seq<u8>) -> Option<Seq<char>>;

/// Relies on `std::str::from_utf8`: the text that the bytes encode, exactly
/// when they are valid UTF-8.
#[verifier::external_body]
pub(crate) fn decode_utf8(b: &[u8]) -> (r: Option<&str>)
    ensures
        r is Some <==> utf8_decoded(b@) is Some,
        r is Some ==> r->0@ == utf8_decoded(b@)->0,
{
    std::str::from_utf8(b).ok()
}

/// Relies on `str::trim`: the text without leading and trailing characters
/// that have the `White_Space` property.
#[verifier::external_body]
fn trimmed(s: &str) -> (r: &str)
    ensures
        r@ == trim_text(s@),
{
    s.trim()
}

/// An ASCII decimal digit.
pub open spec fn is_digit(c: char) -> bool {
    '0' <= c && c <= '9'
}

/// The number that a sequence of decimal digits denotes.
pub open spec fn digits_value(s: Seq<char>) -> nat
    decreases s.len(),
{
    if s.len() == 0 {
        0
    } else {
        digits_value(s.drop_last()) * 10 + ((s.last() as nat) - ('0' as nat)) as nat
    }
}

/// The digits of an unsigned decimal numeral: an optional `+`, then the rest.
pub open spec fn numeral_digits(s: Seq<char>) -> Seq<char> {
    if s.len() > 0 && s[0] == '+' {
        s.drop_first()
    } else {
        s
    }
}

/// The `u32` that the text denotes as a decimal numeral: an optional `+`
/// followed by one or more digits, of a value that fits in 32 bits.
pub open spec fn u32_of(s: Seq<char>) -> Option<u32> {
    let d = numeral_digits(s);
    if d.len() > 0 && (forall|i: int| 0 <= i < d.len() ==> is_digit(#[trigger] d[i]))
        && digits_value(d) <= u32::MAX {
        Some(digits_value(d) as u32)
    } else {
        None
    }
}

/// `i` is the position of the first `x` in `s`.
pub open spec fn is_first_x(s: Seq<char>, i: int) -> bool {
    &&& 0 <= i < s.len()
    &&& s[i] == 'x'
    &&& forall|j: int| 0 <= j < i ==> #[trigger] s[j] != 'x'
}

/// The two sides of the first `x` in `s`, if it has one.
pub open spec fn split_at_first_x(s: Seq<char>) -> Option<(Seq<char>, Seq<char>)> {
    if exists|i: int| is_first_x(s, i) {
        let i = choose|i: int| is_first_x(s, i);
        Some((s.take(i), s.skip(i + 1)))
    } else {
        None
    }
}

/// The dimensions that a worker reports as `<width>x<height>`, white space
/// around the whole allowed.
pub open spec fn dimensions_of(text: Seq<char>) -> Option<(u32, u32)> {
    match split_at_first_x(trim_text(text)) {
        Some((w, h)) => match (u32_of(w), u32_of(h)) {
            (Some(width), Some(height)) => Some((width, height)),
            _ => None,
        },
        None => None,
    }
}

/// What a worker that exited successfully reports, from its raw output.
pub open spec fn report_of(stdout: Seq<u8>) -> Option<(u32, u32)> {
    match utf8_decoded(stdout) {
        Some(text) => dimensions_of(text),
        None => None,
    }
}

proof fn lemma_digits_value_grows(s: Seq<char>, k: int)
    requires
        0 <= k <= s.len(),
        forall|i: int| 0 <= i < s.len() ==> is_digit(#[trigger] s[i]),
    ensures
        digits_value(s.take(k)) <= digits_value(s),
    decreases s.len() - k,
{
    if k < s.len() {
        lemma_digits_value_grows(s, k + 1);
        assert(s.take(k + 1).drop_last() =~= s.take(k));
        assert(is_digit(s[k]));
    } else {
        assert(s.take(k) =~= s);
    }
}

/// Reads an unsigned decimal numeral: an optional `+`, then digits only,
/// of a value that fits in 32 bits.
pub fn parse_u32(s: &str) -> (r: Option<u32>)
    ensures
        r == u32_of(s@),
{
    let n = s.unicode_len();
    let start: usize = if n > 0 && s.get_char(0) == '+' { 1 } else { 0 };
    let d = s.substring_char(start, n);
    assert(d@ =~= numeral_digits(s@));
    let len = n - start;
    if len == 0 {
        return None;
    }
    let mut acc: u64 = 0;
    let mut i: usize = 0;
    while i < len
        invariant
            len == d@.len(),
            len > 0,
            d@ == numeral_digits(s@),
            i <= len,
            acc <= u32::MAX,
            acc == digits_value(d@.take(i as int)),
            forall|j: int| 0 <= j < i ==> is_digit(#[trigger] d@[j]),
        decreases len - i,
    {
        let c = d.get_char(i);
        if !('0' <= c && c <= '9') {
            assert(!is_digit(d@[i as int]));
            return None;
        }
        proof {
            assert(d@.take(i + 1).drop_last() =~= d@.take(i as int));
            assert(d@.take(i + 1).last() == c);
        }
        acc = acc * 10 + (c as u64 - '0' as u64);
        i = i + 1;
        if acc > u32::MAX as u64 {
            proof {
                if forall|j: int| 0 <= j < d@.len() ==> is_digit(#[trigger] d@[j]) {
                    lemma_digits_value_grows(d@, i as int);
                }
            }
            return None;
        }
    }
    assert(d@.take(len as int) =~= d@);
    Some(acc as u32)
}

/// Splits the text at its first `x`, dropping the `x`.
pub fn split_at_x(s: &str) -> (r: Option<(&str, &str)>)
    ensures
        r is Some <==> split_at_first_x(s@) is Some,
        r matches Some((a, b)) ==> split_at_first_x(s@) == Some((a@, b@)),
{
    let n = s.unicode_len();
    let mut i: usize = 0;
    while i < n
        invariant
            n == s@.len(),
            i <= n,
            forall|j: int| 0 <= j < i ==> #[trigger] s@[j] != 'x',
        decreases n - i,
    {
        if s.get_char(i) == 'x' {
            proof {
                assert(is_first_x(s@, i as int));
                let k = choose|k: int| is_first_x(s@, k);
                if k < i {
                    assert(s@[k] != 'x');
                } else if k > i {
                    assert(s@[i as int] != 'x');
                }
            }
            let before = s.substring_char(0, i);
            let after = s.substring_char(i + 1, n);
            proof {
                assert(before@ =~= s@.take(i as int));
                assert(after@ =~= s@.skip(i + 1));
            }
            return Some((before, after));
        }
        i = i + 1;
    }
    None
}

/// The dimensions that a worker reports as `<width>x<height>`: the text is
/// trimmed of white space, split at its first `x`, and each side read as an
/// unsigned decimal numeral.
pub fn parse_dimensions(text: &str) -> (r: Option<(u32, u32)>)
    ensures
        r == dimensions_of(text@),
{
    let t = trimmed(text);
    match split_at_x(t) {
        Some((w, h)) => match (parse_u32(w), parse_u32(h)) {
            (Some(width), Some(height)) => Some((width, height)),
            _ => None,
        },
        None => None,
    }
}

/// Interprets the output of a worker that exited successfully: its
/// dimensions, or `InvalidOutput` holding the raw output when it is not UTF-8
/// text of the form `<width>x<height>`.
pub fn parse_output(stdout: Vec<u8>) -> (r: Result<(u32, u32), UpscaleError>)
    ensures
        match report_of(stdout@) {
            Some(d) => r == Ok::<(u32, u32), UpscaleError>(d),
            None => r == Err::<(u32, u32), UpscaleError>(UpscaleError::InvalidOutput(stdout)),
        },
{
    let res = match decode_utf8(stdout.as_slice()) {
        Some(text) => parse_dimensions(text),
        None => None,
    };
    match res {
        Some(d) => Ok(d),
        None => Err(UpscaleError::InvalidOutput(stdout)),
    }
}

proof fn lemma_digit_char(d: int)
    requires
        0 <= d < 10,
    ensures
        is_digit(digit_char(d)),
        (digit_char(d) as nat) - ('0' as nat) == d,
{
    let s = seq!['0', '1', '2', '3', '4', '5', '6', '7', '8', '9'];
    assert(digit_char(d) == s[d]);
}

proof fn lemma_decimal_digits(n: nat)
    ensures
        decimal_of(n).len() > 0,
        forall|i: int| 0 <= i < decimal_of(n).len() ==> is_digit(#[trigger] decimal_of(n)[i]),
        digits_value(decimal_of(n)) == n,
    decreases n,
{
    if n < 10 {
        lemma_digit_char(n as int);
        let s = decimal_of(n);
        assert(s.drop_last() =~= Seq::<char>::empty());
        assert(digits_value(s.drop_last()) == 0);
        assert(s.last() == digit_char(n as int));
    } else {
        lemma_decimal_digits(n / 10);
        lemma_digit_char((n % 10) as int);
        let s = decimal_of(n);
        assert(s.drop_last() =~= decimal_of(n / 10));
        assert(s.last() == digit_char((n % 10) as int));
        assert forall|i: int| 0 <= i < s.len() implies is_digit(#[trigger] s[i]) by {
            if i < s.len() - 1 {
                assert(s[i] == decimal_of(n / 10)[i]);
            }
        }
        assert(digits_value(s) == digits_value(s.drop_last()) * 10 + ((s.last() as nat) - ('0' as nat)) as nat);
        assert((n / 10) * 10 + n % 10 == n) by (nonlinear_arith);
    }
}

proof fn lemma_decimal_reads_back(n: u32)
    ensures
        u32_of(decimal_of(n as nat)) == Some(n),
{
    lemma_decimal_digits(n as nat);
    let s = decimal_of(n as nat);
    assert(is_digit(s[0]));
    assert(numeral_digits(s) == s);
}

/// What a worker prints when it follows the protocol, `<width>x<height>`
/// with both numbers in decimal, is read back as exactly those dimensions.
pub proof fn lemma_reported_dimensions_parse(width: u32, height: u32)
    ensures
        dimensions_of(decimal_of(width as nat) + seq!['x'] + decimal_of(height as nat)) == Some(
            (width, height),
        ),
{
    let w = decimal_of(width as nat);
    let h = decimal_of(height as nat);
    let s = w + seq!['x'] + h;
    lemma_decimal_digits(width as nat);
    lemma_decimal_digits(height as nat);
    lemma_decimal_reads_back(width);
    lemma_decimal_reads_back(height);
    assert(s[0] == w[0]);
    assert(is_digit(s[0]));
    assert(trim_start_text(s) == s);
    assert(s.last() == h.last());
    assert(is_digit(h[h.len() - 1]));
    assert(trim_end_text(s) == s);
    let i = w.len() as int;
    assert forall|j: int| 0 <= j < i implies #[trigger] s[j] != 'x' by {
        assert(s[j] == w[j]);
        assert(is_digit(w[j]));
    }
    assert(is_first_x(s, i));
    let k = choose|k: int| is_first_x(s, k);
    if k < i {
        assert(s[k] != 'x');
    } else if k > i {
        assert(s[i] != 'x');
    }
    assert(s.take(i) =~= w);
    assert(s.skip(i + 1) =~= h);
}

} // verus!
