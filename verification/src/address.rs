//! Addresses, their alignment, and the base of an over-aligned block.
use vstd::arithmetic::power2::is_pow2;
use vstd::arithmetic::power2::pow2;
use vstd::prelude::*;

verus! {

/// The size of a pointer, in bytes.
pub const WORD: usize = (usize::BITS / 8) as usize;

/// Blocks up to this alignment come straight from the heap; the system allocator
/// over-allocates the rest.
pub const MIN_ALIGN: usize = 2 * WORD;

/// A word has the bits of an address, on machines of either width, and the heap aligns to two words.
pub proof fn law_word()
    ensures
        8 * WORD == usize::BITS,
        MIN_ALIGN == WORD + WORD,
{
}

/// The address of a block that is not null.
#[derive(Clone, Copy, Debug, PartialEq, Eq)]
pub struct Address {
    addr: usize,
}

impl View for Address {
    type V = usize;

    closed spec fn view(&self) -> usize {
        self.addr
    }
}

impl Address {
    #[verifier::type_invariant]
    spec fn not_null(self) -> bool {
        self.addr != 0
    }

    /// The address as a non-null one, unless it is null.
    pub fn new(addr: usize) -> (address: Option<Address>)
        ensures
            address is None <==> addr == 0,
            address matches Some(a) ==> a@ == addr,
    {
        if addr == 0 {
            None
        } else {
            Some(Address { addr })
        }
    }

    /// The numeric value of the address.
    pub fn get(self) -> (addr: usize)
        ensures
            addr == self@,
            addr != 0,
    {
        proof {
            use_type_invariant(&self);
        }
        self.addr
    }
}

/// The largest power of two that divides `n`, for `n` other than zero.
pub open spec fn alignment(n: nat) -> nat
    decreases n,
{
    if n == 0 || n % 2 == 1 {
        1
    } else {
        2 * alignment(n / 2)
    }
}

/// Whether `ptr` is aligned so far that the system allocator may have over-allocated its block.
pub open spec fn over_aligned(ptr: nat) -> bool {
    alignment(ptr) > MIN_ALIGN
}

/// Whether a block that starts at `base` can hold `ptr` right after the word that stores `base`:
/// alignment moved `ptr` forward over that word, and by no more than it takes to align it.
pub open spec fn carved(ptr: nat, base: nat) -> bool {
    WORD <= ptr - base < alignment(ptr) + WORD
}

proof fn lemma_alignment_of_product(k: nat, odd: nat)
    requires
        odd % 2 == 1,
    ensures
        alignment(pow2(k) * odd) == pow2(k),
    decreases k,
{
    if k == 0 {
        vstd::arithmetic::power2::lemma2_to64();
    } else {
        let half = pow2((k - 1) as nat);
        vstd::arithmetic::power2::lemma_pow2_unfold(k);
        lemma_alignment_of_product((k - 1) as nat, odd);
        vstd::arithmetic::power2::lemma_pow2_pos((k - 1) as nat);
        assert(pow2(k) * odd == 2 * (half * odd)) by (nonlinear_arith)
            requires
                pow2(k) == 2 * half,
        ;
        assert(half * odd > 0) by (nonlinear_arith)
            requires
                half > 0,
                odd > 0,
        ;
        assert((pow2(k) * odd) / 2 == half * odd);
    }
}

proof fn lemma_alignment_divides(n: nat)
    requires
        n > 0,
    ensures
        alignment(n) > 0,
        is_pow2(alignment(n) as int),
        n % alignment(n) == 0,
        alignment(n) <= n,
    decreases n,
{
    reveal(is_pow2);
    if n % 2 == 0 {
        let half = n / 2;
        lemma_alignment_divides(half);
        let a = alignment(half);
        vstd::arithmetic::div_mod::lemma_fundamental_div_mod(half as int, a as int);
        let q = half as int / a as int;
        assert(n == q * (2 * a)) by (nonlinear_arith)
            requires
                half == a * q,
                n == 2 * half,
        ;
        vstd::arithmetic::div_mod::lemma_mod_multiples_basic(q, 2 * a as int);
    }
}

proof fn lemma_dividing_power_is_bounded(n: nat, d: nat)
    requires
        n > 0,
        is_pow2(d as int),
        n % d == 0,
    ensures
        d <= alignment(n),
    decreases d,
{
    reveal(is_pow2);
    lemma_alignment_divides(n);
    if d > 1 {
        let p = d / 2;
        vstd::arithmetic::div_mod::lemma_fundamental_div_mod(n as int, d as int);
        let q = n as int / d as int;
        assert(n == 2 * (q * p)) by (nonlinear_arith)
            requires
                n == d * q,
                d == 2 * p,
        ;
        vstd::arithmetic::div_mod::lemma_mod_multiples_basic(q, p as int);
        lemma_dividing_power_is_bounded(n / 2, p);
    }
}

/// A smaller power of two divides a larger one.
proof fn lemma_powers_divide(small: nat, large: nat)
    requires
        is_pow2(small as int),
        is_pow2(large as int),
        small <= large,
    ensures
        large % small == 0,
    decreases large,
{
    reveal(is_pow2);
    if small > 1 {
        let s = small / 2;
        let l = large / 2;
        lemma_powers_divide(s, l);
        vstd::arithmetic::div_mod::lemma_fundamental_div_mod(l as int, s as int);
        let q = l as int / s as int;
        assert(large == q * small) by (nonlinear_arith)
            requires
                l == s * q,
                large == 2 * l,
                small == 2 * s,
        ;
        vstd::arithmetic::div_mod::lemma_mod_multiples_basic(q, small as int);
    }
}

/// There is no power of two between one and its double.
proof fn lemma_next_power(a: nat, b: nat)
    requires
        is_pow2(a as int),
        is_pow2(b as int),
        a < b,
    ensures
        2 * a <= b,
    decreases b,
{
    reveal(is_pow2);
    if a > 1 {
        lemma_next_power(a / 2, b / 2);
    }
}

/// The alignment of a number is a power of two that divides it, and every power of two that
/// divides it is at most that large.
pub proof fn law_alignment_is_largest(n: nat)
    requires
        n > 0,
    ensures
        is_pow2(alignment(n) as int),
        n % alignment(n) == 0,
        alignment(n) <= n,
        forall|d: nat| #[trigger] is_pow2(d as int) && n % d == 0 ==> d <= alignment(n),
{
    lemma_alignment_divides(n);
    assert forall|d: nat| #[trigger] is_pow2(d as int) && n % d == 0 implies d <= alignment(
        n,
    ) by {
        lemma_dividing_power_is_bounded(n, d);
    }
}

/// The alignment of an address leaves room for one more word above it.
proof fn lemma_alignment_leaves_room(n: usize)
    requires
        n > 0,
    ensures
        alignment(n as nat) + WORD <= usize::MAX,
{
    let a = alignment(n as nat);
    lemma_alignment_divides(n as nat);
    let exponent: nat = if usize::BITS == 32 {
        31
    } else {
        63
    };
    let top = pow2(exponent);
    vstd::arithmetic::power2::lemma2_to64();
    vstd::arithmetic::power2::lemma2_to64_rest();
    vstd::arithmetic::power2::lemma_pow2(exponent);
    vstd::arithmetic::power2::is_pow2_equiv(top as int);
    if a > top {
        lemma_next_power(top, a);
    }
}

proof fn lemma_shift_is_alignment(x: u64)
    requires
        x != 0,
    ensures
        x.trailing_zeros() < 64,
        (1u64 << x.trailing_zeros()) == alignment(x as nat),
{
    let k = x.trailing_zeros();
    vstd::std_specs::bits::axiom_u64_trailing_zeros(x);
    let shift = k as u64;
    let rest = (64 - shift) as u64;
    assert((x >> shift) << shift == x) by (bit_vector)
        requires
            shift < 64,
            rest == 64 - shift,
            x << rest == 0,
    ;
    let odd = x >> shift;
    vstd::bits::lemma_u64_shr_is_div(x, shift);
    vstd::bits::lemma_u64_pow2_no_overflow(shift as nat);
    vstd::arithmetic::power2::lemma_pow2_pos(shift as nat);
    let p = pow2(shift as nat);
    assert(odd * p <= x) by (nonlinear_arith)
        requires
            odd == x as nat / p,
            p > 0,
    ;
    vstd::bits::lemma_u64_shl_is_mul(odd, shift);
    assert(odd % 2 == 1) by (bit_vector)
        requires
            odd & 1 == 1,
    ;
    assert(p * odd == odd * p) by (nonlinear_arith);
    lemma_alignment_of_product(shift as nat, odd as nat);
    vstd::bits::lemma_u64_shl_is_mul(1, shift);
}

/// The alignment of an address other than null.
pub fn natural_alignment(addr: usize) -> (align: usize)
    requires
        addr != 0,
    ensures
        align == alignment(addr as nat),
        align <= addr,
{
    proof {
        lemma_shift_is_alignment(addr as u64);
        lemma_alignment_divides(addr as nat);
    }
    (1u64 << (addr as u64).trailing_zeros()) as usize
}

/// Whether the block of `ptr` may start at `base`.
pub fn is_carved(ptr: Address, base: usize) -> (accepted: bool)
    ensures
        accepted == carved(ptr@ as nat, base as nat),
{
    let addr: usize = ptr.get();
    let align: usize = natural_alignment(addr);
    proof {
        lemma_alignment_leaves_room(addr);
    }
    match addr.checked_sub(base) {
        Some(distance) => WORD <= distance && distance < align + WORD,
        None => false,
    }
}

/// `d` divides what a multiple of `d` divides.
proof fn lemma_divides_transitively(d: nat, m: nat, n: nat)
    requires
        d > 0,
        m > 0,
        m % d == 0,
        n % m == 0,
    ensures
        n % d == 0,
{
    vstd::arithmetic::div_mod::lemma_fundamental_div_mod(m as int, d as int);
    vstd::arithmetic::div_mod::lemma_fundamental_div_mod(n as int, m as int);
    let a = m as int / d as int;
    let b = n as int / m as int;
    assert(n == (a * b) * d) by (nonlinear_arith)
        requires
            n == m * b,
            m == d * a,
    ;
    vstd::arithmetic::div_mod::lemma_mod_multiples_basic(a * b, d as int);
}

/// A power of two whose double does not divide `n` is no smaller than the alignment of `n`.
proof fn lemma_alignment_below(n: nat, a: nat)
    requires
        n > 0,
        is_pow2(a as int),
        n % (2 * a) != 0,
    ensures
        alignment(n) <= a,
{
    lemma_alignment_divides(n);
    if alignment(n) > a {
        lemma_next_power(a, alignment(n));
        assert(is_pow2(2 * a as int)) by {
            reveal(is_pow2);
        }
        assert(a > 0) by {
            reveal(is_pow2);
        }
        lemma_powers_divide(2 * a, alignment(n));
        lemma_divides_transitively(2 * a, alignment(n), n);
    }
}

/// A pointer is aligned beyond `MIN_ALIGN` exactly if it is a multiple of twice that.
pub proof fn law_over_aligned_by_multiple(ptr: nat)
    requires
        ptr > 0,
    ensures
        over_aligned(ptr) <==> ptr % (2 * MIN_ALIGN as nat) == 0,
{
    let min = MIN_ALIGN as nat;
    assert(is_pow2(min as int) && is_pow2(2 * min as int)) by {
        reveal_with_fuel(is_pow2, 7);
    }
    if ptr % (2 * min) == 0 {
        lemma_dividing_power_is_bounded(ptr, 2 * min);
    } else {
        lemma_alignment_below(ptr, min);
    }
}

/// The base of a block that `ptr` was carved out of lies at least one word before `ptr`. It is less
/// than one word further away than any power of two whose double does not divide `ptr`; and whatever
/// is less than one word further away than some power of two that divides `ptr` can be such a base.
pub proof fn law_carved_by_distance(ptr: nat, base: nat, align: nat)
    requires
        ptr > 0,
        is_pow2(align as int),
    ensures
        ptr - base < WORD ==> !carved(ptr, base),
        ptr % (2 * align) != 0 && ptr - base >= align + WORD ==> !carved(ptr, base),
        ptr % align == 0 && WORD <= ptr - base < align + WORD ==> carved(ptr, base),
{
    if ptr % (2 * align) != 0 {
        lemma_alignment_below(ptr, align);
    }
    if ptr % align == 0 {
        lemma_dividing_power_is_bounded(ptr, align);
    }
}

/// The system allocator carves a block of an alignment beyond `MIN_ALIGN` out of a larger one:
/// it moves forward from the base, which the heap aligned to `MIN_ALIGN`, to the next multiple
/// of the alignment. The base of such a block is never turned away.
pub proof fn law_system_base_is_accepted(base: nat, align: nat)
    requires
        is_pow2(align as int),
        align > MIN_ALIGN,
        base % MIN_ALIGN as nat == 0,
    ensures
        over_aligned((base + (align - base % align)) as nat),
        carved((base + (align - base % align)) as nat, base),
{
    let min = MIN_ALIGN as nat;
    let ptr = (base + (align - base % align)) as nat;
    let distance = align - base % align;
    vstd::arithmetic::div_mod::lemma_fundamental_div_mod(base as int, align as int);
    let q = base as int / align as int;
    assert(ptr == (q + 1) * align) by (nonlinear_arith)
        requires
            ptr == base + align - base % align,
            base == align * q + base % align,
    ;
    vstd::arithmetic::div_mod::lemma_mod_multiples_basic(q + 1, align as int);
    lemma_dividing_power_is_bounded(ptr, align);
    reveal(is_pow2);
    assert(is_pow2(min as int)) by {
        reveal_with_fuel(is_pow2, 6);
    }
    lemma_powers_divide(min, align);
    vstd::arithmetic::div_mod::lemma_fundamental_div_mod(align as int, min as int);
    vstd::arithmetic::div_mod::lemma_fundamental_div_mod(base as int, min as int);
    let a = align as int / min as int;
    let b = base as int / min as int;
    let multiple = (q + 1) * a - b;
    assert(distance == min * multiple) by (nonlinear_arith)
        requires
            ptr == (q + 1) * align,
            distance == ptr - base,
            align == min * a,
            base == min * b,
            multiple == (q + 1) * a - b,
    ;
    assert(distance >= min) by (nonlinear_arith)
        requires
            distance == min * multiple,
            distance > 0,
            min > 0,
    ;
}

} // verus!
