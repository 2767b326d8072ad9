//! Text helpers shared by the identifier matcher and the field codec.
use vstd::prelude::*;
use vstd::string::*;

verus! {

/// An ASCII hexadecimal digit, in either case.
pub open spec fn is_hex_digit(c: char) -> bool {
    ('0' <= c <= '9') || ('a' <= c <= 'f') || ('A' <= c <= 'F')
}

/// The four positions at which a textual uuid carries a hyphen.
pub open spec fn is_hyphen_position(i: int) -> bool {
    i == 8 || i == 13 || i == 18 || i == 23
}

/// The textual uuid shape: 36 characters, hexadecimal groups of 8-4-4-4-12
/// separated by hyphens.
pub open spec fn uuid_shape(s: Seq<char>) -> bool {
    &&& s.len() == 36
    &&& forall|i: int|
        0 <= i < 36 ==> if is_hyphen_position(i) {
            #[trigger] s[i] == '-'
        } else {
            is_hex_digit(s[i])
        }
}

/// Executable form of [`is_hex_digit`] on the byte of an ASCII character.
fn is_hex_byte(b: u8) -> (r: bool)
    ensures
        r == is_hex_digit(b as char),
{
    (b >= 48 && b <= 57) || (b >= 97 && b <= 102) || (b >= 65 && b <= 70)
}

/// Quick test of whether `s` has the textual uuid shape.
pub fn is_uuid(s: &str) -> (r: bool)
    ensures
        r == uuid_shape(s@),
{
    if !s.is_ascii() {
        assert(!uuid_shape(s@)) by {
            if uuid_shape(s@) {
                assert forall|i: int| 0 <= i < s@.len() implies '\0' <= #[trigger] s@[i]
                    <= '\u{7f}' by {
                    assert(s@[i] == '-' || is_hex_digit(s@[i]));
                }
            }
        }
        return false;
    }
    proof {
        is_ascii_spec_bytes(s);
    }
    let bytes = s.as_bytes();
    if bytes.len() != 36 {
        return false;
    }
    let mut i: usize = 0;
    while i < 36
        invariant
            i <= 36,
            bytes@.len() == 36,
            s@.len() == 36,
            is_ascii(s),
            bytes@ == s.spec_bytes(),
            s.spec_bytes() =~= Seq::new(s@.len(), |k: int| s@.index(k) as u8),
            forall|k: int|
                0 <= k < i ==> if is_hyphen_position(k) {
                    #[trigger] s@[k] == '-'
                } else {
                    is_hex_digit(s@[k])
                },
        decreases 36 - i,
    {
        let b = bytes[i];
        assert(b == s@[i as int] as u8);
        assert('\0' <= s@[i as int] <= '\u{7f}');
        assert(b as char == s@[i as int]);
        let hyphen_here = i == 8 || i == 13 || i == 18 || i == 23;
        let ok = if hyphen_here {
            b == 45
        } else {
            is_hex_byte(b)
        };
        if !ok {
            assert(!uuid_shape(s@)) by {
                if uuid_shape(s@) {
                    assert(if is_hyphen_position(i as int) {
                        s@[i as int] == '-'
                    } else {
                        is_hex_digit(s@[i as int])
                    });
                }
            }
            return false;
        }
        i += 1;
    }
    true
}

/// Whether two string slices hold the same text.
pub fn str_eq(a: &str, b: &str) -> (r: bool)
    ensures
        r == (a@ == b@),
{
    broadcast use vstd::utf8::encode_utf8_decode_utf8;

    let x = a.as_bytes();
    let y = b.as_bytes();
    if x.len() != y.len() {
        return false;
    }
    let mut i: usize = 0;
    while i < x.len()
        invariant
            i <= x@.len(),
            x@.len() == y@.len(),
            x@ == a.spec_bytes(),
            y@ == b.spec_bytes(),
            forall|k: int| 0 <= k < i ==> x@[k] == y@[k],
        decreases x@.len() - i,
    {
        if x[i] != y[i] {
            return false;
        }
        i += 1;
    }
    assert(x@ =~= y@);
    assert(vstd::utf8::decode_utf8(vstd::utf8::encode_utf8(a@)) == a@);
    assert(vstd::utf8::decode_utf8(vstd::utf8::encode_utf8(b@)) == b@);
    true
}

/// Something that can be read as text: the pieces that [`join`] accepts.
pub trait Text {
    /// The text this value stands for.
    spec fn text(&self) -> Seq<char>;

    /// Borrows the value as a string slice.
    fn as_text(&self) -> (r: &str)
        ensures
            r@ == self.text(),
    ;
}

impl Text for String {
    open spec fn text(&self) -> Seq<char> {
        self@
    }

    fn as_text(&self) -> (r: &str) {
        self.as_str()
    }
}

impl<'a> Text for &'a str {
    open spec fn text(&self) -> Seq<char> {
        self@
    }

    fn as_text(&self) -> (r: &str) {
        self
    }
}

/// The texts of the first `n` pieces joined by `sep`.
pub open spec fn joined<T: Text>(sep: Seq<char>, parts: Seq<T>, n: int) -> Seq<char>
    decreases n,
{
    if n <= 0 {
        Seq::empty()
    } else if n == 1 {
        parts[0].text()
    } else {
        joined(sep, parts, n - 1) + sep + parts[n - 1].text()
    }
}

/// Joins the pieces of `arr` into one string, with `sep` between neighbours.
pub fn join<T: Text>(sep: &str, arr: &[T]) -> (r: String)
    ensures
        r@ == joined(sep@, arr@, arr@.len() as int),
{
    if arr.len() == 0 {
        return String::new();
    }
    let mut result = String::from_str(arr[0].as_text());
    let mut i: usize = 1;
    while i < arr.len()
        invariant
            1 <= i <= arr@.len(),
            result@ == joined(sep@, arr@, i as int),
        decreases arr@.len() - i,
    {
        result.append(sep);
        result.append(arr[i].as_text());
        i += 1;
    }
    result
}

/// The character of a decimal digit `d`, for `d` below ten.
pub open spec fn digit_char(d: nat) -> char {
    (48 + d) as char
}

/// The decimal rendering of `n`, without sign or leading zeros.
pub open spec fn decimal(n: nat) -> Seq<char>
    decreases n,
{
    if n < 10 {
        seq![digit_char(n)]
    } else {
        decimal(n / 10).push(digit_char(n % 10))
    }
}

/// The one-character string of a decimal digit.
fn digit_str(d: u64) -> (r: &'static str)
    requires
        d < 10,
    ensures
        r@ == seq![digit_char(d as nat)],
{
    let r = match d {
        0 => "0",
        1 => "1",
        2 => "2",
        3 => "3",
        4 => "4",
        5 => "5",
        6 => "6",
        7 => "7",
        8 => "8",
        _ => "9",
    };
    proof {
        reveal_strlit("0");
        reveal_strlit("1");
        reveal_strlit("2");
        reveal_strlit("3");
        reveal_strlit("4");
        reveal_strlit("5");
        reveal_strlit("6");
        reveal_strlit("7");
        reveal_strlit("8");
        reveal_strlit("9");
        assert(r@ =~= seq![digit_char(d as nat)]);
    }
    r
}

/// Renders a number in decimal, as the service writes numeric ids in paths.
pub fn to_decimal(n: u64) -> (r: String)
    ensures
        r@ == decimal(n as nat),
    decreases n,
{
    if n < 10 {
        String::from_str(digit_str(n))
    } else {
        let mut s = to_decimal(n / 10);
        s.append(digit_str(n % 10));
        assert(s@ =~= decimal(n as nat));
        s
    }
}

/// The decimal rendering of an integer, with `-` before a negative one.
pub open spec fn signed_text(n: int) -> Seq<char> {
    if n < 0 {
        "-"@ + decimal((-n) as nat)
    } else {
        decimal(n as nat)
    }
}

/// Renders a signed number in decimal.
pub fn to_signed_decimal(n: i64) -> (r: String)
    ensures
        r@ == signed_text(n as int),
{
    if n < 0 {
        let magnitude: u64 = if n == i64::MIN {
            9223372036854775808
        } else {
            (-n) as u64
        };
        let digits = to_decimal(magnitude);
        let mut r = String::from_str("-");
        r.append(digits.as_str());
        r
    } else {
        to_decimal(n as u64)
    }
}

/// A text filled up with spaces at its end to a width; a text that is as
/// wide or wider stays as it is.
pub open spec fn padded(s: Seq<char>, width: nat) -> Seq<char> {
    if s.len() >= width {
        s
    } else {
        s + Seq::new((width - s.len()) as nat, |i: int| ' ')
    }
}

/// Fills a text up with spaces at its end to a width.
pub fn pad_right(s: String, width: usize) -> (r: String)
    ensures
        r@ == padded(s@, width as nat),
{
    let n = s.as_str().unicode_len();
    let mut r = s;
    let mut i: usize = n;
    while i < width
        invariant
            n == s@.len(),
            n <= i,
            i <= width || i == n,
            r@ == s@ + Seq::new((i - n) as nat, |k: int| ' '),
        decreases width - i,
    {
        proof {
            reveal_strlit(" ");
        }
        r.append(" ");
        i += 1;
        assert(r@ =~= s@ + Seq::new((i - n) as nat, |k: int| ' '));
    }
    assert(r@ =~= padded(s@, width as nat));
    r
}

/// A text in double quotes, with those of its characters escaped that the
/// `Debug` form of a string escapes.
pub uninterp spec fn quoted(s: Seq<char>) -> Seq<char>;

/// `format!` with `{:?}` on a string slice: the `Debug` form of the text,
/// which std writes in double quotes and with escapes; a function of the
/// text alone.
#[verifier::external_body]
pub(crate) fn debug_str(s: &str) -> (r: String)
    ensures
        r@ == quoted(s@),
{
    format!("{:?}", s)
}

/// An ASCII decimal digit.
pub open spec fn is_digit(c: char) -> bool {
    '0' <= c <= '9'
}

/// Whether a text is made of decimal digits alone.
pub open spec fn all_digits(s: Seq<char>) -> bool {
    forall|i: int| 0 <= i < s.len() ==> is_digit(#[trigger] s[i])
}

/// The number that a text of decimal digits writes.
pub open spec fn digits_value(s: Seq<char>) -> nat
    decreases s.len(),
{
    if s.len() == 0 {
        0
    } else {
        (digits_value(s.drop_last()) * 10 + (s.last() as nat - 48)) as nat
    }
}

/// Whether a text starts with a sign.
pub open spec fn has_sign(s: Seq<char>) -> bool {
    s.len() > 0 && (s[0] == '-' || s[0] == '+')
}

/// The integer that a text writes in decimal, if it writes one that fits in
/// 64 bits with sign: an optional `+` or `-`, then at least one digit.
pub open spec fn signed_decimal(s: Seq<char>) -> Option<i64> {
    let body = if has_sign(s) {
        s.subrange(1, s.len() as int)
    } else {
        s
    };
    let value = if has_sign(s) && s[0] == '-' {
        -(digits_value(body) as int)
    } else {
        digits_value(body) as int
    };
    if body.len() > 0 && all_digits(body) && i64::MIN <= value <= i64::MAX {
        Some(value as i64)
    } else {
        None
    }
}

/// Whether a text starts with a plus sign.
pub open spec fn has_plus(s: Seq<char>) -> bool {
    s.len() > 0 && s[0] == '+'
}

/// The number that a text writes in decimal, if it writes one that fits in
/// 64 bits without sign: an optional `+`, then at least one digit.
pub open spec fn unsigned_decimal(s: Seq<char>) -> Option<u64> {
    let body = if has_plus(s) {
        s.subrange(1, s.len() as int)
    } else {
        s
    };
    if body.len() > 0 && all_digits(body) && digits_value(body) <= u64::MAX {
        Some(digits_value(body) as u64)
    } else {
        None
    }
}

/// One more digit at the end of a text of digits: the text is still made of
/// digits, and writes ten times the number and the digit.
proof fn lemma_digits_extend(body: Seq<char>, k: int)
    requires
        0 <= k < body.len(),
        all_digits(body.take(k)),
        is_digit(body[k]),
    ensures
        all_digits(body.take(k + 1)),
        digits_value(body.take(k + 1)) == digits_value(body.take(k)) * 10 + (body[k] as nat - 48),
{
    let next = body.take(k + 1);
    assert(next.drop_last() =~= body.take(k));
    assert(next.last() == body[k]);
    assert forall|j: int| 0 <= j < next.len() implies is_digit(#[trigger] next[j]) by {
        if j < k {
            assert(is_digit(body.take(k)[j]));
        }
    }
}

/// A longer text of digits writes no smaller number than its beginning.
proof fn lemma_digits_value_grows(s: Seq<char>, n: int)
    requires
        all_digits(s),
        0 <= n <= s.len(),
    ensures
        digits_value(s.take(n)) <= digits_value(s),
    decreases s.len() - n,
{
    if n == s.len() {
        assert(s.take(n) =~= s);
    } else {
        lemma_digits_value_grows(s, n + 1);
        assert(s.take(n + 1).drop_last() =~= s.take(n));
        assert(is_digit(s[n]));
        assert(s.take(n + 1).last() == s[n]);
    }
}

/// Reads a decimal number without sign, as `u64`.
pub fn parse_u64(s: &str) -> (r: Option<u64>)
    ensures
        r == unsigned_decimal(s@),
{
    if !s.is_ascii() {
        proof {
            let body = if has_plus(s@) {
                s@.subrange(1, s@.len() as int)
            } else {
                s@
            };
            if body.len() > 0 && all_digits(body) {
                assert forall|i: int| 0 <= i < s@.len() implies '\0' <= #[trigger] s@[i]
                    <= '\u{7f}' by {
                    if has_plus(s@) {
                        if i > 0 {
                            assert(is_digit(body[i - 1]));
                        }
                    } else {
                        assert(is_digit(body[i]));
                    }
                }
            }
        }
        return None;
    }
    proof {
        is_ascii_spec_bytes(s);
    }
    let bytes = s.as_bytes();
    let n = bytes.len();
    if n == 0 {
        return None;
    }
    assert(bytes@[0] == s@[0] as u8);
    assert('\0' <= s@[0] <= '\u{7f}');
    let start: usize = if bytes[0] == 43 {
        1
    } else {
        0
    };
    assert(has_plus(s@) == (start == 1));
    let ghost body = s@.subrange(start as int, n as int);
    assert(body =~= if has_plus(s@) {
        s@.subrange(1, s@.len() as int)
    } else {
        s@
    });
    if start == n {
        return None;
    }
    let mut acc: u64 = 0;
    let mut i: usize = start;
    while i < n
        invariant
            start <= i <= n,
            n == s@.len(),
            bytes@.len() == n,
            is_ascii(s),
            bytes@ == s.spec_bytes(),
            s.spec_bytes() =~= Seq::new(s@.len(), |k: int| s@.index(k) as u8),
            body == s@.subrange(start as int, n as int),
            body == (if has_plus(s@) {
                s@.subrange(1, s@.len() as int)
            } else {
                s@
            }),
            all_digits(body.take(i - start)),
            acc == digits_value(body.take(i - start)),
        decreases n - i,
    {
        let b = bytes[i];
        assert(b == s@[i as int] as u8);
        assert('\0' <= s@[i as int] <= '\u{7f}');
        assert(body[i - start] == s@[i as int]);
        if b < 48 || b > 57 {
            assert(!is_digit(body[i - start]));
            return None;
        }
        let d: u64 = (b - 48) as u64;
        proof {
            lemma_digits_extend(body, i - start);
        }
        if acc > 1844674407370955161 {
            proof {
                if all_digits(body) {
                    lemma_digits_value_grows(body, i - start + 1);
                }
            }
            return None;
        }
        let tens: u64 = acc * 10;
        if d > u64::MAX - tens {
            proof {
                if all_digits(body) {
                    lemma_digits_value_grows(body, i - start + 1);
                }
            }
            return None;
        }
        acc = tens + d;
        i += 1;
    }
    assert(body.take(n - start) =~= body);
    Some(acc)
}

/// Reads a decimal integer with optional sign, as `i64`.
pub fn parse_i64(s: &str) -> (r: Option<i64>)
    ensures
        r == signed_decimal(s@),
{
    if !s.is_ascii() {
        proof {
            let body = if has_sign(s@) {
                s@.subrange(1, s@.len() as int)
            } else {
                s@
            };
            if body.len() > 0 && all_digits(body) {
                assert forall|i: int| 0 <= i < s@.len() implies '\0' <= #[trigger] s@[i]
                    <= '\u{7f}' by {
                    if has_sign(s@) {
                        if i > 0 {
                            assert(is_digit(body[i - 1]));
                        }
                    } else {
                        assert(is_digit(body[i]));
                    }
                }
            }
        }
        return None;
    }
    proof {
        is_ascii_spec_bytes(s);
    }
    let bytes = s.as_bytes();
    let n = bytes.len();
    if n == 0 {
        return None;
    }
    assert(bytes@[0] == s@[0] as u8);
    assert('\0' <= s@[0] <= '\u{7f}');
    let negative = bytes[0] == 45;
    let start: usize = if bytes[0] == 45 || bytes[0] == 43 {
        1
    } else {
        0
    };
    assert(has_sign(s@) == (start == 1));
    let ghost body = s@.subrange(start as int, n as int);
    assert(body =~= if has_sign(s@) {
        s@.subrange(1, s@.len() as int)
    } else {
        s@
    });
    if start == n {
        return None;
    }
    let mut acc: u64 = 0;
    let mut i: usize = start;
    while i < n
        invariant
            start <= i <= n,
            n == s@.len(),
            bytes@.len() == n,
            is_ascii(s),
            bytes@ == s.spec_bytes(),
            s.spec_bytes() =~= Seq::new(s@.len(), |k: int| s@.index(k) as u8),
            body == s@.subrange(start as int, n as int),
            body == (if has_sign(s@) {
                s@.subrange(1, s@.len() as int)
            } else {
                s@
            }),
            all_digits(body.take(i - start)),
            acc == digits_value(body.take(i - start)),
            acc <= 9223372036854775808,
        decreases n - i,
    {
        let b = bytes[i];
        assert(b == s@[i as int] as u8);
        assert('\0' <= s@[i as int] <= '\u{7f}');
        assert(body[i - start] == s@[i as int]);
        if b < 48 || b > 57 {
            assert(!is_digit(body[i - start]));
            return None;
        }
        let d: u64 = (b - 48) as u64;
        proof {
            lemma_digits_extend(body, i - start);
        }
        if acc > 922337203685477580 {
            proof {
                if all_digits(body) {
                    lemma_digits_value_grows(body, i - start + 1);
                }
            }
            return None;
        }
        acc = acc * 10 + d;
        if acc > 9223372036854775808 {
            proof {
                if all_digits(body) {
                    lemma_digits_value_grows(body, i - start + 1);
                }
            }
            return None;
        }
        i += 1;
    }
    assert(body.take(n - start) =~= body);
    if negative {
        if acc == 9223372036854775808 {
            Some(i64::MIN)
        } else {
            Some(-(acc as i64))
        }
    } else if acc == 9223372036854775808 {
        None
    } else {
        Some(acc as i64)
    }
}

} // verus!
