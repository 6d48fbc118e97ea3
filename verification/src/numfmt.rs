//! Decimal rendering of the unsigned integers that appear in wire formats
//! and failure reasons: IPv4 octets, ports and HTTP status codes.
//!
//! The same number has to appear both as ASCII bytes (in the PROXY protocol
//! v1 preamble and in HTTP request lines) and as characters (in the
//! human-readable failure reasons), so both forms are defined here, each
//! against its own specification.

use vstd::prelude::*;

verus! {

/// The decimal digits of `n` as ASCII bytes, most significant first.
/// A single `0` digit for zero; no leading zeros otherwise.
pub open spec fn dec_digits(n: nat) -> Seq<u8>
    decreases n,
{
    if n < 10 {
        seq![(48 + n) as u8]
    } else {
        dec_digits(n / 10) + seq![(48 + n % 10) as u8]
    }
}

/// The decimal digits of `n` as characters, most significant first.
pub open spec fn dec_chars(n: nat) -> Seq<char>
    decreases n,
{
    if n < 10 {
        seq![((48 + n) as u8) as char]
    } else {
        dec_chars(n / 10) + seq![((48 + n % 10) as u8) as char]
    }
}

/// Appends the decimal ASCII digits of `n` to `out`.
pub fn push_dec_digits(out: &mut Vec<u8>, n: u64)
    ensures
        final(out)@ == old(out)@ + dec_digits(n as nat),
    decreases n,
{
    if n < 10 {
        out.push(48 + n as u8);
        assert(out@ =~= old(out)@ + dec_digits(n as nat));
    } else {
        push_dec_digits(out, n / 10);
        out.push(48 + (n % 10) as u8);
        assert(out@ =~= old(out)@ + dec_digits(n as nat));
    }
}

/// One decimal digit as a string slice.
fn digit_str(d: u64) -> (r: &'static str)
    requires
        d < 10,
    ensures
        r@ == seq![((48 + d) as u8) as char],
{
    let r = match d {
        0 => "0",
        1 => "1",
        2 => "2",
        3 => "3",
        4 => "4",
        5 => "5",
        6 => "6",
        7 => "7",
        8 => "8",
        _ => "9",
    };
    proof {
        reveal_strlit("0");
        reveal_strlit("1");
        reveal_strlit("2");
        reveal_strlit("3");
        reveal_strlit("4");
        reveal_strlit("5");
        reveal_strlit("6");
        reveal_strlit("7");
        reveal_strlit("8");
        reveal_strlit("9");
        assert(r@ =~= seq![((48 + d) as u8) as char]);
    }
    r
}

/// Whether `b` is an ASCII decimal digit.
pub open spec fn is_digit(b: u8) -> bool {
    48 <= b && b <= 57
}

/// Whether every byte of `s` is an ASCII decimal digit.
pub open spec fn all_digits(s: Seq<u8>) -> bool {
    forall|i: int| 0 <= i < s.len() ==> is_digit(#[trigger] s[i])
}

/// The number the digit bytes `s` denote, most significant first.
/// Meaningful only when `all_digits(s)`.
pub open spec fn dec_value(s: Seq<u8>) -> int
    decreases s.len(),
{
    if s.len() == 0 {
        0
    } else {
        dec_value(s.drop_last()) * 10 + (s.last() - 48)
    }
}

/// Ten to the `n`.
pub open spec fn pow10(n: nat) -> int
    decreases n,
{
    if n == 0 {
        1
    } else {
        10 * pow10((n - 1) as nat)
    }
}

proof fn lemma_pow10_mono(k: nat, m: nat)
    requires
        k <= m,
    ensures
        pow10(k) <= pow10(m),
    decreases m,
{
    if k < m {
        lemma_pow10_mono(k, (m - 1) as nat);
        lemma_pow10_pos((m - 1) as nat);
    }
}

proof fn lemma_pow10_pos(n: nat)
    ensures
        pow10(n) >= 1,
    decreases n,
{
    if n > 0 {
        lemma_pow10_pos((n - 1) as nat);
    }
}

/// A string of `n` digits denotes a value below ten to the `n`.
proof fn lemma_dec_value_bound(s: Seq<u8>)
    requires
        all_digits(s),
    ensures
        0 <= dec_value(s) < pow10(s.len()),
    decreases s.len(),
{
    if s.len() > 0 {
        assert(all_digits(s.drop_last())) by {
            assert(forall|i: int|
                0 <= i < s.len() - 1 ==> s.drop_last()[i] == #[trigger] s[i]);
        }
        lemma_dec_value_bound(s.drop_last());
    }
}

/// Reads the decimal value of the digit bytes `v[from..to]`: the value when
/// they are all digits, nothing when any is not.
pub fn checked_dec_value(v: &Vec<u8>, from: usize, to: usize) -> (r: Option<u32>)
    requires
        from <= to <= v@.len(),
        to - from <= 5,
    ensures
        (if all_digits(v@.subrange(from as int, to as int)) {
            r matches Some(x) && x as int == dec_value(v@.subrange(from as int, to as int))
        } else {
            r is None
        }),
{
    let mut val: u32 = 0;
    let mut i: usize = from;
    while i < to
        invariant
            from <= i <= to <= v@.len(),
            to - from <= 5,
            all_digits(v@.subrange(from as int, i as int)),
            val as int == dec_value(v@.subrange(from as int, i as int)),
        decreases to - i,
    {
        let b = v[i];
        if b < 48 || b > 57 {
            proof {
                assert(v@.subrange(from as int, to as int)[i - from] == v@[i as int]);
                assert(!all_digits(v@.subrange(from as int, to as int)));
            }
            return None;
        }
        proof {
            let prefix = v@.subrange(from as int, i as int);
            lemma_dec_value_bound(prefix);
            lemma_pow10_mono(prefix.len(), 4nat);
            assert(pow10(0nat) == 1);
            assert(pow10(1nat) == 10);
            assert(pow10(2nat) == 100);
            assert(pow10(3nat) == 1000);
            assert(pow10(4nat) == 10000);
            let ext = v@.subrange(from as int, i + 1);
            assert(ext.drop_last() =~= prefix);
            assert(ext.last() == v@[i as int]);
        }
        val = val * 10 + (b - 48) as u32;
        i = i + 1;
    }
    proof {
        assert(v@.subrange(from as int, i as int) =~= v@.subrange(from as int, to as int));
    }
    Some(val)
}

/// Renders `n` in decimal, most significant digit first.
pub fn dec_string(n: u64) -> (s: String)
    ensures
        s@ == dec_chars(n as nat),
    decreases n,
{
    if n < 10 {
        let s = digit_str(n).to_owned();
        proof {
            assert(s@ =~= dec_chars(n as nat));
        }
        s
    } else {
        let mut s = dec_string(n / 10);
        s.append(digit_str(n % 10));
        proof {
            assert(s@ =~= dec_chars(n as nat));
        }
        s
    }
}

} // verus!
