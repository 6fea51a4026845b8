//! What holds of every line that records a foreign pointer.
use crate::foreign::{lines, owner_text, region_text, ForeignPointer};
use crate::hex::{digits, hex, prefixed_hex};
use crate::region::Region;
use vstd::prelude::*;

verus! {

/// The value of a hexadecimal digit; negative for any other character.
pub open spec fn digit_value(c: char) -> int {
    if '0' <= c <= '9' {
        c as int - '0' as int
    } else if 'a' <= c <= 'f' {
        c as int - 'a' as int + 10
    } else {
        -1
    }
}

/// The number that a sequence of hexadecimal digits stands for.
pub open spec fn value(s: Seq<char>) -> int
    decreases s.len(),
{
    if s.len() == 0 {
        0
    } else {
        value(s.drop_last()) * 16 + digit_value(s.last())
    }
}

/// The digits of a number read back as that number. They are hexadecimal digits and nothing else,
/// and no zero leads them, but for zero itself.
pub proof fn law_hex_reads_back(n: nat)
    ensures
        hex(n).len() > 0,
        value(hex(n)) == n,
        forall|i: int| 0 <= i < hex(n).len() ==> digit_value(#[trigger] hex(n)[i]) >= 0,
        hex(n).len() > 1 ==> hex(n)[0] != '0',
    decreases n,
{
    reveal_strlit("0123456789abcdef");
    let d = digits()[(n % 16) as int];
    assert(digit_value(d) == n % 16);
    if n < 16 {
        assert(hex(n).drop_last() =~= Seq::<char>::empty());
        assert(value(Seq::<char>::empty()) == 0);
    } else {
        law_hex_reads_back(n / 16);
        assert(hex(n).drop_last() =~= hex(n / 16));
        if hex(n / 16).len() == 1 {
            assert(hex(n / 16).drop_last() =~= Seq::<char>::empty());
            assert(value(Seq::<char>::empty()) == 0);
            assert(digit_value(hex(n / 16)[0]) == n / 16);
        }
    }
}

/// A number is written behind `0x`, by digits that read back as that number.
pub proof fn law_prefixed_hex_reads_back(n: nat)
    ensures
        prefixed_hex(n).len() > 2,
        prefixed_hex(n)[0] == '0',
        prefixed_hex(n)[1] == 'x',
        value(prefixed_hex(n).skip(2)) == n,
        forall|i: int|
            2 <= i < prefixed_hex(n).len() ==> digit_value(#[trigger] prefixed_hex(n)[i]) >= 0,
        prefixed_hex(n).len() > 3 ==> prefixed_hex(n)[2] != '0',
{
    reveal_strlit("0x");
    law_hex_reads_back(n);
    assert(prefixed_hex(n).skip(2) =~= hex(n));
}

/// A line names the pointer; then its region, or that it is unmapped; then its owner, or that no
/// heap owns it. What is known of the region is written whether or not the owner is known, and what
/// is known of the owner whether or not the pointer is mapped.
pub proof fn law_line(pointer: ForeignPointer)
    ensures
        pointer.region is None && pointer.owner is None ==> pointer.text() == prefixed_hex(
            pointer.ptr as nat,
        ) + ": unmapped, no heap"@,
        pointer.region is None ==> (pointer.owner matches Some(heap) ==> pointer.text()
            == prefixed_hex(pointer.ptr as nat) + ": unmapped, heap "@ + prefixed_hex(
            heap as nat,
        )),
        pointer.region matches Some(r) ==> (pointer.owner is None ==> pointer.text()
            == prefixed_hex(pointer.ptr as nat) + ": base="@ + prefixed_hex(
            r.allocation_base as nat,
        ) + " region="@ + prefixed_hex(r.region_size as nat) + " state="@ + prefixed_hex(
            r.state as nat,
        ) + " type="@ + prefixed_hex(r.kind as nat) + " protect="@ + prefixed_hex(
            r.protect as nat,
        ) + ", no heap"@),
        pointer.region matches Some(r) ==> (pointer.owner matches Some(heap) ==> pointer.text()
            == prefixed_hex(pointer.ptr as nat) + ": base="@ + prefixed_hex(
            r.allocation_base as nat,
        ) + " region="@ + prefixed_hex(r.region_size as nat) + " state="@ + prefixed_hex(
            r.state as nat,
        ) + " type="@ + prefixed_hex(r.kind as nat) + " protect="@ + prefixed_hex(
            r.protect as nat,
        ) + ", heap "@ + prefixed_hex(heap as nat)),
{
    reveal_strlit(": ");
    reveal_strlit(", ");
    reveal_strlit("unmapped");
    reveal_strlit("no heap");
    reveal_strlit("heap ");
    reveal_strlit("base=");
    reveal_strlit(": base=");
    reveal_strlit(", no heap");
    reveal_strlit(", heap ");
    reveal_strlit(": unmapped, no heap");
    reveal_strlit(": unmapped, heap ");
    assert(": "@ + "base="@ =~= ": base="@);
    assert(": "@ + "unmapped"@ + ", "@ + "no heap"@ =~= ": unmapped, no heap"@);
    assert(": "@ + "unmapped"@ + ", "@ + "heap "@ =~= ": unmapped, heap "@);
    assert(", "@ + "no heap"@ =~= ", no heap"@);
    assert(", "@ + "heap "@ =~= ", heap "@);
    let ptr = prefixed_hex(pointer.ptr as nat);
    match (pointer.region, pointer.owner) {
        (None, None) => {
            assert(pointer.text() =~= ptr + (": "@ + "unmapped"@ + ", "@ + "no heap"@));
        },
        (None, Some(heap)) => {
            let owner = prefixed_hex(heap as nat);
            assert(pointer.text() =~= ptr + (": "@ + "unmapped"@ + ", "@ + "heap "@) + owner);
        },
        (Some(r), None) => {
            let base = prefixed_hex(r.allocation_base as nat);
            let size = prefixed_hex(r.region_size as nat);
            let state = prefixed_hex(r.state as nat);
            let kind = prefixed_hex(r.kind as nat);
            let protect = prefixed_hex(r.protect as nat);
            assert(pointer.text() =~= ptr + (": "@ + "base="@) + base + " region="@ + size
                + " state="@ + state + " type="@ + kind + " protect="@ + protect + (", "@
                + "no heap"@));
        },
        (Some(r), Some(heap)) => {
            let base = prefixed_hex(r.allocation_base as nat);
            let size = prefixed_hex(r.region_size as nat);
            let state = prefixed_hex(r.state as nat);
            let kind = prefixed_hex(r.kind as nat);
            let protect = prefixed_hex(r.protect as nat);
            let owner = prefixed_hex(heap as nat);
            assert(pointer.text() =~= ptr + (": "@ + "base="@) + base + " region="@ + size
                + " state="@ + state + " type="@ + kind + " protect="@ + protect + (", "@
                + "heap "@) + owner);
        },
    }
}

/// Where two texts agree that go on with something other than a digit after a number, the numbers
/// agree, and so does what follows.
proof fn lemma_number(a: nat, rest_a: Seq<char>, b: nat, rest_b: Seq<char>)
    requires
        prefixed_hex(a) + rest_a == prefixed_hex(b) + rest_b,
        rest_a.len() > 0 ==> digit_value(rest_a[0]) < 0,
        rest_b.len() > 0 ==> digit_value(rest_b[0]) < 0,
    ensures
        a == b,
        rest_a == rest_b,
{
    law_prefixed_hex_reads_back(a);
    law_prefixed_hex_reads_back(b);
    let x = prefixed_hex(a) + rest_a;
    let y = prefixed_hex(b) + rest_b;
    let m = prefixed_hex(a).len() as int;
    let n = prefixed_hex(b).len() as int;
    if m < n {
        assert(y[m] == prefixed_hex(b)[m]);
        assert(x.len() == m + rest_a.len());
        assert(x[m] == rest_a[0]);
    } else if n < m {
        assert(x[n] == prefixed_hex(a)[n]);
        assert(y.len() == n + rest_b.len());
        assert(y[n] == rest_b[0]);
    }
    assert(prefixed_hex(a) =~= x.take(m));
    assert(prefixed_hex(b) =~= y.take(n));
    assert(rest_a =~= x.skip(m));
    assert(rest_b =~= y.skip(n));
}

/// Where two texts agree that begin with the same words, what follows agrees.
proof fn lemma_words(words: Seq<char>, rest_a: Seq<char>, rest_b: Seq<char>)
    requires
        words + rest_a == words + rest_b,
    ensures
        rest_a == rest_b,
{
    assert(rest_a =~= (words + rest_a).skip(words.len() as int));
    assert(rest_b =~= (words + rest_b).skip(words.len() as int));
}

/// What follows the region in a line.
spec fn tail(pointer: ForeignPointer) -> Seq<char> {
    ", "@ + owner_text(pointer.owner)
}

proof fn lemma_same_owner(a: ForeignPointer, b: ForeignPointer)
    requires
        tail(a) == tail(b),
    ensures
        a.owner == b.owner,
{
    reveal_strlit("heap ");
    reveal_strlit("no heap");
    lemma_words(", "@, owner_text(a.owner), owner_text(b.owner));
    let x = owner_text(a.owner);
    let y = owner_text(b.owner);
    match (a.owner, b.owner) {
        (Some(h), Some(k)) => {
            lemma_words("heap "@, prefixed_hex(h as nat), prefixed_hex(k as nat));
            let none = Seq::<char>::empty();
            assert(prefixed_hex(h as nat) + none =~= prefixed_hex(h as nat));
            assert(prefixed_hex(k as nat) + none =~= prefixed_hex(k as nat));
            lemma_number(h as nat, none, k as nat, none);
        },
        (Some(_), None) => {
            assert(x[0] == 'h');
            assert(y[0] == 'n');
        },
        (None, Some(_)) => {
            assert(x[0] == 'n');
            assert(y[0] == 'h');
        },
        (None, None) => {},
    }
}

/// A number behind a label, and what follows it.
spec fn field(label: Seq<char>, n: nat, rest: Seq<char>) -> Seq<char> {
    label + (prefixed_hex(n) + rest)
}

/// Where two texts agree that begin with the same label, the numbers behind it agree, and so does
/// what follows, if it goes on with something other than a digit.
proof fn lemma_field(label: Seq<char>, a: nat, rest_a: Seq<char>, b: nat, rest_b: Seq<char>)
    requires
        field(label, a, rest_a) == field(label, b, rest_b),
        rest_a.len() > 0 ==> digit_value(rest_a[0]) < 0,
        rest_b.len() > 0 ==> digit_value(rest_b[0]) < 0,
    ensures
        a == b,
        rest_a == rest_b,
{
    lemma_words(label, prefixed_hex(a) + rest_a, prefixed_hex(b) + rest_b);
    lemma_number(a, rest_a, b, rest_b);
}

proof fn lemma_field_starts(label: Seq<char>, n: nat, rest: Seq<char>)
    requires
        label.len() > 0,
    ensures
        field(label, n, rest).len() > 0,
        field(label, n, rest)[0] == label[0],
{
}

proof fn lemma_next_field(text: Seq<char>, label: Seq<char>, n: nat, rest: Seq<char>)
    ensures
        (text + label + prefixed_hex(n)) + rest == text + field(label, n, rest),
{
    assert((text + label + prefixed_hex(n)) + rest =~= text + field(label, n, rest));
}

/// The text of a region and what follows it, one field inside the other.
spec fn fields(r: Region, rest: Seq<char>) -> Seq<char> {
    field(
        "base="@,
        r.allocation_base as nat,
        field(
            " region="@,
            r.region_size as nat,
            field(
                " state="@,
                r.state as nat,
                field(" type="@, r.kind as nat, field(" protect="@, r.protect as nat, rest)),
            ),
        ),
    )
}

proof fn lemma_fields(r: Region, rest: Seq<char>)
    ensures
        region_text(Some(r)) + rest == fields(r, rest),
{
    let base = "base="@ + prefixed_hex(r.allocation_base as nat);
    let size = base + " region="@ + prefixed_hex(r.region_size as nat);
    let state = size + " state="@ + prefixed_hex(r.state as nat);
    let kind = state + " type="@ + prefixed_hex(r.kind as nat);
    lemma_next_field(kind, " protect="@, r.protect as nat, rest);
    let after_kind = field(" protect="@, r.protect as nat, rest);
    lemma_next_field(state, " type="@, r.kind as nat, after_kind);
    let after_state = field(" type="@, r.kind as nat, after_kind);
    lemma_next_field(size, " state="@, r.state as nat, after_state);
    let after_size = field(" state="@, r.state as nat, after_state);
    lemma_next_field(base, " region="@, r.region_size as nat, after_size);
    let after_base = field(" region="@, r.region_size as nat, after_size);
    assert(base + after_base =~= field("base="@, r.allocation_base as nat, after_base));
}

proof fn lemma_same_fields(r: Region, rest_r: Seq<char>, s: Region, rest_s: Seq<char>)
    requires
        fields(r, rest_r) == fields(s, rest_s),
        rest_r.len() > 0 ==> digit_value(rest_r[0]) < 0,
        rest_s.len() > 0 ==> digit_value(rest_s[0]) < 0,
    ensures
        r == s,
        rest_r == rest_s,
{
    reveal_strlit(" region=");
    reveal_strlit(" state=");
    reveal_strlit(" type=");
    reveal_strlit(" protect=");
    let protect_r = field(" protect="@, r.protect as nat, rest_r);
    let protect_s = field(" protect="@, s.protect as nat, rest_s);
    let kind_r = field(" type="@, r.kind as nat, protect_r);
    let kind_s = field(" type="@, s.kind as nat, protect_s);
    let state_r = field(" state="@, r.state as nat, kind_r);
    let state_s = field(" state="@, s.state as nat, kind_s);
    let size_r = field(" region="@, r.region_size as nat, state_r);
    let size_s = field(" region="@, s.region_size as nat, state_s);
    lemma_field_starts(" region="@, r.region_size as nat, state_r);
    lemma_field_starts(" region="@, s.region_size as nat, state_s);
    lemma_field("base="@, r.allocation_base as nat, size_r, s.allocation_base as nat, size_s);
    lemma_field_starts(" state="@, r.state as nat, kind_r);
    lemma_field_starts(" state="@, s.state as nat, kind_s);
    lemma_field(" region="@, r.region_size as nat, state_r, s.region_size as nat, state_s);
    lemma_field_starts(" type="@, r.kind as nat, protect_r);
    lemma_field_starts(" type="@, s.kind as nat, protect_s);
    lemma_field(" state="@, r.state as nat, kind_r, s.state as nat, kind_s);
    lemma_field_starts(" protect="@, r.protect as nat, rest_r);
    lemma_field_starts(" protect="@, s.protect as nat, rest_s);
    lemma_field(" type="@, r.kind as nat, protect_r, s.kind as nat, protect_s);
    lemma_field(" protect="@, r.protect as nat, rest_r, s.protect as nat, rest_s);
}

proof fn lemma_region_starts(region: Option<Region>, rest: Seq<char>)
    ensures
        (region_text(region) + rest).len() > 0,
        region is Some ==> (region_text(region) + rest)[0] == 'b',
        region is None ==> (region_text(region) + rest)[0] == 'u',
{
    reveal_strlit("unmapped");
    reveal_strlit("base=");
    match region {
        Some(r) => {
            lemma_fields(r, rest);
        },
        None => {},
    }
}

proof fn lemma_same_region(a: ForeignPointer, b: ForeignPointer)
    requires
        region_text(a.region) + tail(a) == region_text(b.region) + tail(b),
    ensures
        a.region == b.region,
        tail(a) == tail(b),
{
    lemma_region_starts(a.region, tail(a));
    lemma_region_starts(b.region, tail(b));
    match (a.region, b.region) {
        (Some(r), Some(s)) => {
            reveal_strlit(", ");
            lemma_fields(r, tail(a));
            lemma_fields(s, tail(b));
            assert(tail(a)[0] == ',');
            assert(tail(b)[0] == ',');
            lemma_same_fields(r, tail(a), s, tail(b));
        },
        (None, None) => {
            lemma_words("unmapped"@, tail(a), tail(b));
        },
        _ => {},
    }
}

/// A line tells everything that was found out: no two pointers with a different address, region or
/// owner are written alike.
pub proof fn law_lines_tell_pointers_apart(a: ForeignPointer, b: ForeignPointer)
    requires
        a.text() == b.text(),
    ensures
        a == b,
{
    reveal_strlit(": ");
    let rest_a = region_text(a.region) + tail(a);
    let rest_b = region_text(b.region) + tail(b);
    assert(a.text() =~= prefixed_hex(a.ptr as nat) + (": "@ + rest_a));
    assert(b.text() =~= prefixed_hex(b.ptr as nat) + (": "@ + rest_b));
    lemma_number(a.ptr as nat, ": "@ + rest_a, b.ptr as nat, ": "@ + rest_b);
    lemma_words(": "@, rest_a, rest_b);
    lemma_same_region(a, b);
    lemma_same_owner(a, b);
}

/// The lines of a list of strings are those strings, each in its place.
pub proof fn law_lines_in_place(strings: Seq<String>)
    ensures
        lines(strings).len() == strings.len(),
        forall|i: int| 0 <= i < strings.len() ==> #[trigger] lines(strings)[i] == strings[i]@,
{
}

} // verus!
