//! Numbers as text: the numerals in a line of disassembly.
use vstd::prelude::*;

verus! {

/// The digits of every radix up to sixteen, in order of their value. The
/// letters are lower case.
pub open spec fn digits() -> Seq<char> {
    "0123456789abcdef"@
}

/// The numeral of `n` in the given radix: its digits from the most
/// significant to the least, with no leading zero, no sign and no prefix.
/// Zero is written as the single digit `0`.
pub open spec fn numeral(n: nat, radix: nat) -> Seq<char>
    recommends
        2 <= radix <= 16,
    decreases n,
{
    if radix < 2 || n < radix {
        seq![digits()[n as int]]
    } else {
        proof {
            assert(n / radix < n) by (nonlinear_arith)
                requires
                    2 <= radix <= n,
            ;
        }
        numeral(n / radix, radix).push(digits()[(n % radix) as int])
    }
}

/// The decimal numeral of `n`.
pub open spec fn decimal(n: nat) -> Seq<char> {
    numeral(n, 10)
}

/// The hexadecimal numeral of `n`, in lower case.
pub open spec fn hexadecimal(n: nat) -> Seq<char> {
    numeral(n, 16)
}

/// Appends the numeral of `n` in the given radix to `out`.
fn push_numeral(out: &mut String, n: u32, radix: u32)
    requires
        2 <= radix <= 16,
    ensures
        final(out)@ == old(out)@ + numeral(n as nat, radix as nat),
    decreases n,
{
    if n >= radix {
        assert(n / radix < n) by (nonlinear_arith)
            requires
                2 <= radix <= n,
        ;
        push_numeral(out, n / radix, radix);
    }
    let digit: usize = (n % radix) as usize;
    proof {
        reveal_strlit("0123456789abcdef");
    }
    out.append("0123456789abcdef".substring_ascii(digit, digit + 1));
}

/// Appends the decimal numeral of `n` to `out`.
pub fn push_decimal(out: &mut String, n: u32)
    ensures
        final(out)@ == old(out)@ + decimal(n as nat),
{
    push_numeral(out, n, 10);
}

/// Appends the lower-case hexadecimal numeral of `n` to `out`.
pub fn push_hexadecimal(out: &mut String, n: u32)
    ensures
        final(out)@ == old(out)@ + hexadecimal(n as nat),
{
    push_numeral(out, n, 16);
}

} // verus!
