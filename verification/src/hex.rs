//! Numbers in hexadecimal.
use vstd::prelude::*;
use vstd::string::StringExecFns;
use vstd::string::StrSliceExecFns;

verus! {

/// The hexadecimal digits, in order.
pub open spec fn digits() -> Seq<char> {
    "0123456789abcdef"@
}

/// The digits of `n` in base sixteen, without leading zeros; zero is a single digit.
pub open spec fn hex(n: nat) -> Seq<char>
    decreases n,
{
    if n < 16 {
        seq![digits()[n as int]]
    } else {
        hex(n / 16).push(digits()[(n % 16) as int])
    }
}

/// `n` as pointers and flags are written: in hexadecimal, behind `0x`.
pub open spec fn prefixed_hex(n: nat) -> Seq<char> {
    "0x"@ + hex(n)
}

/// Appends the hexadecimal digits of `n`.
fn append_hex(text: &mut String, n: usize)
    ensures
        final(text)@ == old(text)@ + hex(n as nat),
    decreases n,
{
    let digit: usize = n % 16;
    proof {
        reveal_strlit("0123456789abcdef");
    }
    if n >= 16 {
        append_hex(text, n / 16);
    }
    let all = "0123456789abcdef";
    assert(all.is_ascii());
    text.append(all.substring_ascii(digit, digit + 1));
    assert(all@.subrange(digit as int, digit + 1) =~= seq![digits()[digit as int]]);
}

/// Appends `n` in hexadecimal, behind `0x`.
pub fn append_prefixed_hex(text: &mut String, n: usize)
    ensures
        final(text)@ == old(text)@ + prefixed_hex(n as nat),
{
    text.append("0x");
    append_hex(text, n);
}

} // verus!
