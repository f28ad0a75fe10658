//! The decimal and hexadecimal notations that messages and identifiers use.
use vstd::prelude::*;
use vstd::slice::*;
use vstd::string::*;

verus! {

/// The digit for a value below sixteen.
pub open spec fn digit(value: int) -> char {
    if value < 10 {
        (48 + value) as char
    } else {
        (87 + value) as char
    }
}

/// A number in decimal notation.
pub open spec fn decimal(n: nat) -> Seq<char>
    decreases n,
{
    if n < 10 {
        seq![digit(n as int)]
    } else {
        decimal(n / 10).push(digit((n % 10) as int))
    }
}

/// A number in decimal notation, with its sign where it is negative.
pub open spec fn decimal_signed(n: int) -> Seq<char> {
    if n < 0 {
        seq!['-'] + decimal((-n) as nat)
    } else {
        decimal(n as nat)
    }
}

/// The `width` last digits of a number in lower-case hexadecimal notation.
pub open spec fn hex(n: nat, width: nat) -> Seq<char>
    decreases width,
{
    if width == 0 {
        Seq::empty()
    } else {
        hex(n / 16, (width - 1) as nat).push(digit((n % 16) as int))
    }
}

/// Two hexadecimal digits for every byte.
pub open spec fn hex_bytes(bytes: Seq<u8>) -> Seq<char>
    decreases bytes.len(),
{
    if bytes.len() == 0 {
        Seq::empty()
    } else {
        hex_bytes(bytes.drop_last()) + hex(bytes.last() as nat, 2)
    }
}

/// Whether `s` is made of lower-case hexadecimal digits.
pub open spec fn is_hex(s: Seq<char>) -> bool {
    forall|i: int| 0 <= i < s.len() ==> ('0' <= #[trigger] s[i] <= '9' || 'a' <= s[i] <= 'f')
}

/// Whether `s` is made of decimal digits.
pub open spec fn all_digits(s: Seq<char>) -> bool {
    forall|i: int| 0 <= i < s.len() ==> '0' <= #[trigger] s[i] <= '9'
}

/// The value of a row of decimal digits.
pub open spec fn digits_value(s: Seq<char>) -> nat
    decreases s.len(),
{
    if s.len() == 0 {
        0
    } else {
        digits_value(s.drop_last()) * 10 + (s.last() as nat - 48) as nat
    }
}

/// The number that `s` spells, where it spells one of 32 bits: decimal digits,
/// at least one, behind a plus sign or none.
pub open spec fn parsed_u32(s: Seq<char>) -> Option<u32> {
    let digits = if s.len() > 0 && s[0] == '+' {
        s.skip(1)
    } else {
        s
    };
    if digits.len() > 0 && all_digits(digits) && digits_value(digits) <= u32::MAX {
        Some(digits_value(digits) as u32)
    } else {
        None
    }
}

/// Writes one digit.
pub fn digit_char(value: u8) -> (c: char)
    requires
        value < 16,
    ensures
        c == digit(value as int),
{
    match value {
        0 => '0',
        1 => '1',
        2 => '2',
        3 => '3',
        4 => '4',
        5 => '5',
        6 => '6',
        7 => '7',
        8 => '8',
        9 => '9',
        10 => 'a',
        11 => 'b',
        12 => 'c',
        13 => 'd',
        14 => 'e',
        _ => 'f',
    }
}

/// Appends a number in decimal notation.
pub fn append_decimal(text: &mut String, n: u32)
    ensures
        final(text)@ == old(text)@ + decimal(n as nat),
    decreases n,
{
    let ghost before = text@;
    if n < 10 {
        text.push(digit_char(n as u8));
        assert(text@ =~= before + decimal(n as nat));
    } else {
        append_decimal(text, n / 10);
        text.push(digit_char((n % 10) as u8));
        assert(text@ =~= before + decimal(n as nat));
    }
}

/// Appends a number in decimal notation, with its sign where it is negative.
pub fn append_signed(text: &mut String, n: i32)
    ensures
        final(text)@ == old(text)@ + decimal_signed(n as int),
{
    let ghost before = text@;
    if n < 0 {
        text.push('-');
        let size: i64 = -(n as i64);
        append_decimal(text, size as u32);
        assert(text@ =~= before + decimal_signed(n as int));
    } else {
        append_decimal(text, n as u32);
    }
}

/// Appends the last `width` digits of a number in hexadecimal notation.
pub fn append_hex(text: &mut String, n: u64, width: u8)
    ensures
        final(text)@ == old(text)@ + hex(n as nat, width as nat),
    decreases width,
{
    let ghost before = text@;
    if width == 0 {
        assert(text@ =~= before + hex(n as nat, 0));
    } else {
        append_hex(text, n / 16, width - 1);
        text.push(digit_char((n % 16) as u8));
        assert(text@ =~= before + hex(n as nat, width as nat));
    }
}

/// Two hexadecimal digits for every byte.
pub fn hex_text(bytes: &[u8]) -> (text: String)
    ensures
        text@ == hex_bytes(bytes@),
{
    let mut text = String::new();
    for i in 0..bytes.len()
        invariant
            text@ == hex_bytes(bytes@.take(i as int)),
    {
        let ghost next = bytes@.take(i + 1);
        assert(next.drop_last() =~= bytes@.take(i as int));
        append_hex(&mut text, bytes[i] as u64, 2);
    }
    assert(bytes@.take(bytes@.len() as int) =~= bytes@);
    text
}

/// Reads a number of 32 bits.
pub fn parse_u32(s: &[char]) -> (parsed: Option<u32>)
    ensures
        parsed == parsed_u32(s@),
{
    let size: usize = s.len();
    let digits = if size > 0 && s[0] == '+' {
        slice_subrange(s, 1, size)
    } else {
        s
    };
    proof {
        if s@.len() > 0 && s@[0] == '+' {
            assert(digits@ =~= s@.skip(1));
        }
    }
    if digits.len() == 0 {
        return None;
    }
    let mut value: u32 = 0;
    let mut over: bool = false;
    for i in 0..digits.len()
        invariant
            all_digits(digits@.take(i as int)),
            !over ==> value == digits_value(digits@.take(i as int)),
            over ==> digits_value(digits@.take(i as int)) > u32::MAX,
            parsed_u32(s@) == (if digits@.len() > 0 && all_digits(digits@) && digits_value(digits@)
                <= u32::MAX {
                Some(digits_value(digits@) as u32)
            } else {
                None
            }),
    {
        let c = digits[i];
        if !('0' <= c && c <= '9') {
            assert(!all_digits(digits@));
            return None;
        }
        let ghost next = digits@.take(i + 1);
        assert(next.drop_last() =~= digits@.take(i as int));
        assert(next.last() == c);
        assert forall|j: int| 0 <= j < next.len() implies '0' <= #[trigger] next[j] <= '9' by {
            if j < i {
                assert(next[j] == digits@.take(i as int)[j]);
            }
        }
        if !over {
            let wide: u64 = value as u64 * 10 + (c as u64 - 48);
            if wide > 0xffff_ffff {
                over = true;
            } else {
                value = wide as u32;
            }
        }
    }
    assert(digits@.take(digits@.len() as int) =~= digits@);
    if over {
        None
    } else {
        Some(value)
    }
}

/// The decimal notation of a number is a row of digits, at least one, with
/// that number as its value.
pub proof fn lemma_decimal(n: nat)
    ensures
        decimal(n).len() > 0,
        all_digits(decimal(n)),
        digits_value(decimal(n)) == n,
    decreases n,
{
    reveal_with_fuel(digits_value, 2);
    if n >= 10 {
        lemma_decimal(n / 10);
        assert(decimal(n).drop_last() =~= decimal(n / 10));
        assert forall|i: int| 0 <= i < decimal(n).len() implies '0' <= #[trigger] decimal(n)[i]
            <= '9' by {
            if i < decimal(n / 10).len() {
                assert(decimal(n)[i] == decimal(n / 10)[i]);
            }
        }
    } else {
        assert(decimal(n).drop_last() =~= Seq::empty());
    }
}

/// Reading a number back from its decimal notation gives that number.
pub proof fn law_decimal_read_back(n: u32)
    ensures
        parsed_u32(decimal(n as nat)) == Some(n),
{
    lemma_decimal(n as nat);
    assert('0' <= decimal(n as nat)[0] <= '9');
}

/// A hexadecimal notation of fixed width has that many digits.
pub proof fn lemma_hex(n: nat, width: nat)
    ensures
        hex(n, width).len() == width,
        is_hex(hex(n, width)),
    decreases width,
{
    if width > 0 {
        lemma_hex(n / 16, (width - 1) as nat);
        assert forall|i: int| 0 <= i < width implies ('0' <= #[trigger] hex(n, width)[i] <= '9'
            || 'a' <= hex(n, width)[i] <= 'f') by {
            if i < width - 1 {
                assert(hex(n, width)[i] == hex(n / 16, (width - 1) as nat)[i]);
            }
        }
    }
}

/// Two digits tell apart any two bytes.
proof fn lemma_hex_byte(a: u8, b: u8)
    requires
        hex(a as nat, 2) == hex(b as nat, 2),
    ensures
        a == b,
{
    reveal_with_fuel(hex, 3);
    let x = hex(a as nat, 2);
    let y = hex(b as nat, 2);
    assert(x[0] == digit((a as nat / 16 % 16) as int) && x[1] == digit((a as nat % 16) as int));
    assert(y[0] == digit((b as nat / 16 % 16) as int) && y[1] == digit((b as nat % 16) as int));
}

/// The notation of a byte string has two lower-case hexadecimal digits for
/// every byte.
pub proof fn law_hex_bytes_shape(bytes: Seq<u8>)
    ensures
        hex_bytes(bytes).len() == 2 * bytes.len(),
        is_hex(hex_bytes(bytes)),
    decreases bytes.len(),
{
    if bytes.len() > 0 {
        law_hex_bytes_shape(bytes.drop_last());
        lemma_hex(bytes.last() as nat, 2);
    }
}

/// Byte strings with the same notation are the same.
pub proof fn law_hex_bytes_injective(a: Seq<u8>, b: Seq<u8>)
    requires
        hex_bytes(a) == hex_bytes(b),
    ensures
        a == b,
    decreases a.len(),
{
    law_hex_bytes_shape(a);
    law_hex_bytes_shape(b);
    if a.len() > 0 {
        let x = hex_bytes(a.drop_last());
        let y = hex_bytes(b.drop_last());
        let p = hex(a.last() as nat, 2);
        let q = hex(b.last() as nat, 2);
        law_hex_bytes_shape(a.drop_last());
        law_hex_bytes_shape(b.drop_last());
        lemma_hex(a.last() as nat, 2);
        lemma_hex(b.last() as nat, 2);
        assert(x =~= (x + p).take(x.len() as int));
        assert(y =~= (y + q).take(x.len() as int));
        assert(p =~= (x + p).skip(x.len() as int));
        assert(q =~= (y + q).skip(x.len() as int));
        law_hex_bytes_injective(a.drop_last(), b.drop_last());
        lemma_hex_byte(a.last(), b.last());
        assert(a =~= a.drop_last().push(a.last()));
        assert(b =~= b.drop_last().push(b.last()));
    } else {
        assert(a =~= b);
    }
}

/// The decimal notation of a number has no zero before its first digit, but for
/// zero itself, so there is one for each number.
pub proof fn law_decimal_canonical(n: nat)
    ensures
        all_digits(decimal(n)),
        digits_value(decimal(n)) == n,
        decimal(n).len() > 0,
        n > 0 ==> decimal(n)[0] != '0',
        n == 0 ==> decimal(n) == seq!['0'],
    decreases n,
{
    lemma_decimal(n);
    if n >= 10 {
        law_decimal_canonical(n / 10);
        lemma_decimal(n / 10);
        assert(decimal(n)[0] == decimal(n / 10)[0]);
    }
}

/// A negative number is written as a minus sign and its size, any other as it is.
pub proof fn law_decimal_signed(n: int)
    ensures
        n >= 0 ==> decimal_signed(n) == decimal(n as nat),
        n < 0 ==> decimal_signed(n) == seq!['-'] + decimal((-n) as nat),
{
}

/// The value of a row of digits is ten times that of the digits before the last,
/// and the last.
pub proof fn law_digits_value(s: Seq<char>, c: char)
    requires
        '0' <= c <= '9',
    ensures
        digits_value(Seq::empty()) == 0,
        digits_value(s.push(c)) == 10 * digits_value(s) + (c as int - '0' as int),
{
    assert(s.push(c).drop_last() =~= s);
}

/// A text is read as a number where, and only where, it is digits, at least one,
/// behind a plus sign or none, and the number fits.
pub proof fn law_parsed_u32(digits: Seq<char>)
    requires
        digits.len() > 0 ==> digits[0] != '+',
    ensures
        parsed_u32(digits) == parsed_u32(seq!['+'] + digits),
        parsed_u32(digits) is Some <==> digits.len() > 0 && (forall|i: int|
            0 <= i < digits.len() ==> '0' <= #[trigger] digits[i] <= '9') && digits_value(digits)
            <= 0xffff_ffff,
        parsed_u32(digits) matches Some(n) ==> n == digits_value(digits),
        parsed_u32(seq!['+', '+'] + digits) is None,
{
    let signed = seq!['+'] + digits;
    assert(signed[0] == '+');
    assert(signed.skip(1) =~= digits);
    let twice = seq!['+', '+'] + digits;
    assert(twice[0] == '+');
    assert(twice.skip(1)[0] == '+');
}

/// The value of a row of hexadecimal digits.
pub open spec fn hex_value(s: Seq<char>) -> nat
    decreases s.len(),
{
    if s.len() == 0 {
        0
    } else {
        16 * hex_value(s.drop_last()) + (if s.last() <= '9' {
            s.last() as nat - 48
        } else {
            s.last() as nat - 87
        }) as nat
    }
}

/// The digits of a number in hexadecimal notation give what is left of it when it
/// is divided by sixteen as often as there are digits.
pub proof fn law_hex_value(n: nat, width: nat)
    ensures
        hex_value(hex(n, width)) + n / sixteens(width) * sixteens(width) == n,
        hex_value(hex(n, width)) < sixteens(width),
    decreases width,
{
    reveal_with_fuel(sixteens, 2);
    if width > 0 {
        let less = (width - 1) as nat;
        law_hex_value(n / 16, less);
        assert(hex(n, width).drop_last() =~= hex(n / 16, less));
        assert(hex(n, width).last() == digit((n % 16) as int));
        let p = sixteens(less) as int;
        lemma_sixteens(less);
        let low = hex_value(hex(n / 16, less)) as int;
        let m = n as int;
        assert(m / (16 * p) == (m / 16) / p) by (nonlinear_arith)
            requires
                p > 0,
                m >= 0,
        {
            vstd::arithmetic::div_mod::lemma_div_denominator(m, 16, p);
        }
        let q = (m / 16) / p;
        assert(q * (16 * p) == 16 * (q * p)) by (nonlinear_arith);
        assert(low + q * p == m / 16);
    } else {
        assert(n as int / 1 * 1 == n);
    }
}

/// Sixteen to the power of a number.
pub open spec fn sixteens(width: nat) -> nat
    decreases width,
{
    if width == 0 {
        1
    } else {
        16 * sixteens((width - 1) as nat)
    }
}

proof fn lemma_sixteens(width: nat)
    ensures
        sixteens(width) > 0,
    decreases width,
{
    if width > 0 {
        lemma_sixteens((width - 1) as nat);
    }
}

/// Every byte, the last as well as those before it, has its two digits, in their
/// order.
pub proof fn law_hex_bytes(bytes: Seq<u8>, last: u8)
    ensures
        hex_bytes(Seq::empty()) == Seq::<char>::empty(),
        hex_bytes(bytes.push(last)) == hex_bytes(bytes) + hex(last as nat, 2),
        hex_value(hex(last as nat, 2)) == last,
{
    assert(bytes.push(last).drop_last() =~= bytes);
    law_hex_value(last as nat, 2);
    reveal_with_fuel(sixteens, 3);
    let p = sixteens(2);
    assert(p == 256);
    let n = last as nat;
    assert(n / p == 0 && n / p * p == 0) by (nonlinear_arith)
        requires
            p == 256,
            n < 256,
    ;
}

} // verus!
