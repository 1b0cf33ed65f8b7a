use vstd::prelude::*;

verus! {

/// Whether `c` is a decimal digit.
pub open spec fn is_digit(c: char) -> bool {
    48 <= (c as u32) && (c as u32) <= 57
}

/// Numeric value of a decimal digit (0 for anything else).
pub open spec fn digit_val(c: char) -> nat {
    if is_digit(c) {
        ((c as u32) - 48) as nat
    } else {
        0
    }
}

/// Whether every character of `s` is a decimal digit.
pub open spec fn all_digits(s: Seq<char>) -> bool {
    forall|i: int| 0 <= i < s.len() ==> is_digit(s[i])
}

/// Value of `s` read as a decimal numeral, most significant digit first.
pub open spec fn digits_val(s: Seq<char>) -> nat
    decreases s.len(),
{
    if s.len() == 0 {
        0
    } else {
        digits_val(s.drop_last()) * 10 + digit_val(s.last())
    }
}

/// The number a car-number string parses to: defined exactly for non-empty
/// all-digit strings whose value fits a 16-bit word, undefined otherwise.
pub open spec fn parsed_car_number(s: Seq<char>) -> Option<u16> {
    if s.len() == 0 || !all_digits(s) {
        None
    } else if digits_val(s) > 0xFFFF {
        None
    } else {
        Some(digits_val(s) as u16)
    }
}

/// Count of leading `'0'` characters of `s`.
pub open spec fn leading_zeros(s: Seq<char>) -> nat
    decreases s.len(),
{
    if s.len() > 0 && s[0] == '0' {
        1 + leading_zeros(s.skip(1))
    } else {
        0
    }
}

/// The zeros that carry padding information: an all-zero string counts one
/// zero as the number itself, so only the extra ones are padding.
pub open spec fn pad_zeros(s: Seq<char>) -> nat {
    let z = leading_zeros(s);
    if z > 0 && z == s.len() {
        (z - 1) as nat
    } else {
        z
    }
}

/// Parsed value of `s`, falling back to 0 for malformed car numbers.
pub open spec fn parse_or_zero(s: Seq<char>) -> u16 {
    match parsed_car_number(s) {
        Some(n) => n,
        None => 0,
    }
}

/// Number of decimal places the protocol attributes to `n` (capped at 3).
pub open spec fn place_count(n: u16) -> u16 {
    if n > 99 {
        3
    } else if n > 9 {
        2
    } else {
        1
    }
}

/// Wire value of a car-number string. Leading zeros stay distinct by being
/// folded into the thousands place: `"1"` gives 1, `"01"` gives 2001,
/// `"001"` gives 3001. The sum is reduced modulo 2^16 so that it always
/// fits the message's 16-bit parameter slot.
pub open spec fn car_number_value(s: Seq<char>) -> u16 {
    let z = pad_zeros(s);
    let n = parse_or_zero(s);
    if z == 0 {
        n
    } else {
        ((n + 1000 * (place_count(n) + (z % 0x10000))) % 0x10000) as u16
    }
}

/// A longer prefix of a numeral never has a smaller value.
proof fn lemma_digits_val_prefix_le(s: Seq<char>, i: int, j: int)
    requires
        0 <= i <= j <= s.len(),
    ensures
        digits_val(s.take(i)) <= digits_val(s.take(j)),
    decreases j - i,
{
    if i < j {
        lemma_digits_val_prefix_le(s, i, j - 1);
        assert(s.take(j).drop_last() =~= s.take(j - 1));
    }
}

/// `leading_zeros` counts to the first non-zero character.
proof fn lemma_leading_zeros_at(s: Seq<char>, k: int)
    requires
        0 <= k <= s.len(),
        forall|j: int| 0 <= j < k ==> s[j] == '0',
        k < s.len() ==> s[k] != '0',
    ensures
        leading_zeros(s) == k,
    decreases s.len(),
{
    if k == 0 {
    } else {
        let t = s.skip(1);
        assert forall|j: int| 0 <= j < k - 1 implies t[j] == '0' by {
            assert(t[j] == s[j + 1]);
        }
        assert(k - 1 < t.len() ==> t[k - 1] == s[k]);
        lemma_leading_zeros_at(t, k - 1);
    }
}

/// In the ordinary range — a well-formed number with a handful of padding
/// zeros — the wire value is exactly the padded sum, with no reduction.
pub proof fn lemma_car_number_value_exact(s: Seq<char>)
    requires
        pad_zeros(s) > 0,
        parse_or_zero(s) + 1000 * (place_count(parse_or_zero(s)) + pad_zeros(s)) < 0x10000,
    ensures
        car_number_value(s) == parse_or_zero(s) + 1000 * (place_count(parse_or_zero(s))
            + pad_zeros(s)),
{
    let z = pad_zeros(s);
    let n = parse_or_zero(s);
    let p = place_count(n);
    vstd::arithmetic::div_mod::lemma_small_mod(z, 0x10000);
    vstd::arithmetic::div_mod::lemma_small_mod((n + 1000 * (p + z)) as nat, 0x10000);
}

/// Parse a car-number string as a decimal numeral.
///
/// Returns `None` for the empty string, for any non-digit character, and
/// for values that do not fit a 16-bit word.
pub fn parse_car_number(s: &str) -> (r: Option<u16>)
    ensures
        r == parsed_car_number(s@),
{
    let len = s.unicode_len();
    if len == 0 {
        return None;
    }
    let mut acc: u32 = 0;
    let mut i: usize = 0;
    while i < len
        invariant
            0 <= i <= len,
            len == s@.len(),
            forall|j: int| 0 <= j < i ==> is_digit(s@[j]),
            acc == digits_val(s@.take(i as int)),
            acc <= 0xFFFF,
        decreases len - i,
    {
        let c = s.get_char(i);
        let cv = c as u32;
        if cv < 48 || cv > 57 {
            assert(!is_digit(s@[i as int]));
            return None;
        }
        proof {
            assert(s@.take(i + 1).drop_last() =~= s@.take(i as int));
            assert(s@.take(i + 1).last() == s@[i as int]);
        }
        acc = acc * 10 + (cv - 48);
        if acc > 0xFFFF {
            proof {
                lemma_digits_val_prefix_le(s@, i + 1, s@.len() as int);
                assert(s@.take(s@.len() as int) =~= s@);
            }
            return None;
        }
        i += 1;
    }
    proof {
        assert(s@.take(len as int) =~= s@);
    }
    Some(acc as u16)
}

/// Count the leading `'0'` characters of `s`.
pub fn count_leading_zeros(s: &str) -> (z: usize)
    ensures
        z == leading_zeros(s@),
{
    let len = s.unicode_len();
    let mut z: usize = 0;
    while z < len
        invariant
            z <= len,
            len == s@.len(),
            forall|j: int| 0 <= j < z ==> s@[j] == '0',
        decreases len - z,
    {
        if s.get_char(z) != '0' {
            proof {
                lemma_leading_zeros_at(s@, z as int);
            }
            return z;
        }
        z += 1;
    }
    proof {
        lemma_leading_zeros_at(s@, len as int);
    }
    z
}

/// Compute the wire value of a car-number string.
pub fn encode_car_number(s: &str) -> (v: u16)
    ensures
        v == car_number_value(s@),
{
    let len = s.unicode_len();
    let zeros = count_leading_zeros(s);
    let z: usize = if zeros > 0 && zeros == len {
        zeros - 1
    } else {
        zeros
    };
    let n: u16 = match parse_car_number(s) {
        Some(n) => n,
        None => 0,
    };
    if z == 0 {
        n
    } else {
        let place: u32 = if n > 99 {
            3
        } else if n > 9 {
            2
        } else {
            1
        };
        let zm: u32 = (z % 0x10000) as u32;
        let wide: u32 = n as u32 + 1000 * (place + zm);
        (wide % 0x10000) as u16
    }
}

} // verus!
