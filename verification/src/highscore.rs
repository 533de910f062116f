use vstd::prelude::*;

verus! {

/// True for the ASCII codes of the decimal digits.
pub open spec fn is_digit(b: u8) -> bool {
    48 <= b <= 57
}

/// The numeric value of an ASCII digit.
pub open spec fn digit_val(b: u8) -> nat {
    (b - 48) as nat
}

/// The unsigned value of a decimal digit string, most significant digit
/// first.
pub open spec fn dec_value(s: Seq<u8>) -> nat
    decreases s.len(),
{
    if s.len() == 0 {
        0
    } else {
        dec_value(s.drop_last()) * 10 + digit_val(s.last())
    }
}

/// The canonical decimal digit string of `n`: most significant digit
/// first, no sign, and no leading zero except for the value zero itself.
pub open spec fn digits_of(n: nat) -> Seq<u8>
    decreases n,
{
    if n < 10 {
        seq![(n + 48) as u8]
    } else {
        digits_of(n / 10).push(((n % 10) + 48) as u8)
    }
}

/// The value of a prefix of a digit string never exceeds the value of a
/// longer prefix: appending bytes multiplies the value up and adds a
/// non-negative digit.
proof fn lemma_dec_value_prefix_monotone(s: Seq<u8>, i: int, j: int)
    requires
        0 <= i <= j <= s.len(),
    ensures
        dec_value(s.subrange(0, i)) <= dec_value(s.subrange(0, j)),
    decreases j - i,
{
    if i < j {
        lemma_dec_value_prefix_monotone(s, i, j - 1);
        assert(s.subrange(0, j).drop_last() =~= s.subrange(0, j - 1));
    }
}

/// The decimal text a stored highscore is written as: the canonical digit
/// string of `n`.
pub fn format_u32(n: u32) -> (r: Vec<u8>)
    ensures
        r@ == digits_of(n as nat),
    decreases n,
{
    if n < 10 {
        let mut v: Vec<u8> = Vec::new();
        v.push((n as u8) + 48);
        v
    } else {
        let mut v = format_u32(n / 10);
        v.push(((n % 10) as u8) + 48);
        v
    }
}

/// Parse a decimal digit string. The result is `Some` exactly when the
/// input is non-empty, holds nothing but decimal digits, and denotes a
/// value that fits in a `u32`; the value returned is the decimal value of
/// the whole input.
pub fn parse_u32(s: &[u8]) -> (r: Option<u32>)
    ensures
        r is Some <==> (s@.len() >= 1 && (forall|k: int| 0 <= k < s@.len() ==> is_digit(s@[k]))
            && dec_value(s@) <= u32::MAX),
        r matches Some(v) ==> v == dec_value(s@),
{
    if s.len() == 0 {
        return None;
    }
    let mut acc: u32 = 0;
    let mut i: usize = 0;
    while i < s.len()
        invariant
            i <= s@.len(),
            forall|k: int| 0 <= k < i as int ==> is_digit(s@[k]),
            acc == dec_value(s@.subrange(0, i as int)),
        decreases s@.len() - i as int,
    {
        let b = s[i];
        if b < 48 || b > 57 {
            return None;
        }
        let d = (b - 48) as u32;
        proof {
            assert(s@.subrange(0, i + 1).drop_last() =~= s@.subrange(0, i as int));
        }
        if acc > (u32::MAX - d) / 10 {
            proof {
                lemma_dec_value_prefix_monotone(s@, i + 1, s@.len() as int);
                assert(s@.subrange(0, s@.len() as int) =~= s@);
            }
            return None;
        }
        acc = acc * 10 + d;
        i = i + 1;
    }
    proof {
        assert(s@.subrange(0, s@.len() as int) =~= s@);
    }
    Some(acc)
}

/// The value the stored-highscore bytes stand for: their decimal value, or
/// zero when the contents are not a well-formed in-range decimal number
/// (matching the read-failure default).
pub fn read_highscore_value(s: &[u8]) -> (r: u32)
    ensures
        (s@.len() >= 1 && (forall|k: int| 0 <= k < s@.len() ==> is_digit(s@[k])) && dec_value(s@)
            <= u32::MAX) ==> r == dec_value(s@),
        !(s@.len() >= 1 && (forall|k: int| 0 <= k < s@.len() ==> is_digit(s@[k])) && dec_value(s@)
            <= u32::MAX) ==> r == 0,
{
    match parse_u32(s) {
        Some(v) => v,
        None => 0,
    }
}

/// Round trip of the highscore store: the canonical digit string of any
/// `u32` is non-empty, holds nothing but digits, and its decimal value is
/// the number itself — so writing a value and parsing it back on a fresh
/// read yields that value.
pub proof fn lemma_round_trip(n: u32)
    ensures
        digits_of(n as nat).len() >= 1,
        forall|k: int| 0 <= k < digits_of(n as nat).len() ==> is_digit(digits_of(n as nat)[k]),
        dec_value(digits_of(n as nat)) == n as nat,
{
    lemma_digits_of_value(n as nat);
}

/// The canonical digit string of any natural number is non-empty, all
/// digits, and evaluates back to that number.
proof fn lemma_digits_of_value(n: nat)
    ensures
        digits_of(n).len() >= 1,
        forall|k: int| 0 <= k < digits_of(n).len() ==> is_digit(digits_of(n)[k]),
        dec_value(digits_of(n)) == n,
    decreases n,
{
    if n < 10 {
        assert(digits_of(n) =~= seq![(n + 48) as u8]);
        assert(digits_of(n).drop_last() =~= Seq::<u8>::empty());
        assert(dec_value(Seq::<u8>::empty()) == 0);
        assert(digits_of(n).last() == (n + 48) as u8);
        assert(digit_val((n + 48) as u8) == n);
    } else {
        lemma_digits_of_value(n / 10);
        assert(digits_of(n).drop_last() =~= digits_of(n / 10));
        assert(digits_of(n).last() == ((n % 10) + 48) as u8);
        assert(digit_val(((n % 10) + 48) as u8) == n % 10);
        assert(dec_value(digits_of(n)) == (n / 10) * 10 + n % 10);
        assert(n == (n / 10) * 10 + n % 10) by (nonlinear_arith);
    }
}

} // verus!
