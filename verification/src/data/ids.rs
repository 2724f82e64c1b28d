//! How ids are written in the store: the 26-character Crockford base-32 text
//! of a ULID, through the `ulid` crate.

use vstd::prelude::*;

verus! {

broadcast use vstd::string::group_string_axioms;

/// The Crockford base-32 alphabet, digit value `k` written as its `k`-th character.
pub open spec fn crockford_alphabet() -> Seq<char> {
    "0123456789ABCDEFGHJKMNPQRSTVWXYZ"@
}

/// The ASCII uppercase of a character; other characters are kept.
pub open spec fn ascii_upper_char(c: char) -> char {
    if 'a' <= c && c <= 'z' {
        ((c as int) - 32) as char
    } else {
        c
    }
}

/// The value of a Crockford base-32 digit, read in either case; `None` for any
/// other character (including `I`, `L`, `O` and `U`).
pub open spec fn crockford_value(c: char) -> Option<nat> {
    let u = ascii_upper_char(c);
    if '0' <= c && c <= '9' {
        Some((c as int - '0' as int) as nat)
    } else if 'A' <= u && u <= 'H' {
        Some((u as int - 'A' as int + 10) as nat)
    } else if u == 'J' || u == 'K' {
        Some((u as int - 'J' as int + 18) as nat)
    } else if u == 'M' || u == 'N' {
        Some((u as int - 'M' as int + 20) as nat)
    } else if 'P' <= u && u <= 'T' {
        Some((u as int - 'P' as int + 22) as nat)
    } else if 'V' <= u && u <= 'Z' {
        Some((u as int - 'V' as int + 27) as nat)
    } else {
        None
    }
}

/// The last `n` base-32 digits of `u`, most significant first.
pub open spec fn base32_digits(u: nat, n: nat) -> Seq<char>
    decreases n,
{
    if n == 0 {
        Seq::empty()
    } else {
        base32_digits(u / 32, (n - 1) as nat).push(crockford_alphabet()[(u % 32) as int])
    }
}

/// The text of an id: its 26 base-32 digits, most significant first.
pub open spec fn ulid_text(id: u128) -> Seq<char> {
    base32_digits(id as nat, 26)
}

/// The number a text of base-32 digits stands for.
pub open spec fn base32_value(s: Seq<char>) -> nat
    decreases s.len(),
{
    if s.len() == 0 {
        0
    } else {
        base32_value(s.drop_last()) * 32 + match crockford_value(s.last()) {
            Some(v) => v,
            None => 0,
        }
    }
}

/// Whether every character of `s` is a base-32 digit.
pub open spec fn all_base32(s: Seq<char>) -> bool {
    forall|i: int| 0 <= i < s.len() ==> #[trigger] crockford_value(s[i]) is Some
}

/// The id a text stands for: 26 base-32 digits in either case; bits beyond
/// the 128 of an id are dropped.
pub open spec fn ulid_parse(s: Seq<char>) -> Option<u128> {
    if s.len() == 26 && all_base32(s) {
        Some((base32_value(s) % 0x1_0000_0000_0000_0000_0000_0000_0000_0000nat) as u128)
    } else {
        None
    }
}

/// `Ulid::to_string`: the 26-character base-32 text of an id.
#[verifier::external_body]
pub(crate) fn ulid_to_text(id: u128) -> (r: String)
    ensures
        r@ == ulid_text(id),
{
    ulid::Ulid(id).to_string()
}

/// `Ulid::from_string`: the id a text stands for, or `None` when the text is not
/// 26 base-32 digits.
#[verifier::external_body]
pub(crate) fn ulid_from_text(s: &str) -> (r: Option<u128>)
    ensures
        r == ulid_parse(s@),
{
    ulid::Ulid::from_string(s).ok().map(|u| u.0)
}

/// `32` to the power `n`.
pub open spec fn pow32(n: nat) -> nat
    decreases n,
{
    if n == 0 {
        1
    } else {
        32 * pow32((n - 1) as nat)
    }
}

/// Each character of the alphabet reads back as its own position.
proof fn lemma_alphabet_values(k: int)
    requires
        0 <= k < 32,
    ensures
        crockford_value(crockford_alphabet()[k]) == Some(k as nat),
{
    reveal_strlit("0123456789ABCDEFGHJKMNPQRSTVWXYZ");
    let a = crockford_alphabet();
    if k == 0 { assert(a[0] == '0'); } else if k == 1 { assert(a[1] == '1'); }
    else if k == 2 { assert(a[2] == '2'); } else if k == 3 { assert(a[3] == '3'); }
    else if k == 4 { assert(a[4] == '4'); } else if k == 5 { assert(a[5] == '5'); }
    else if k == 6 { assert(a[6] == '6'); } else if k == 7 { assert(a[7] == '7'); }
    else if k == 8 { assert(a[8] == '8'); } else if k == 9 { assert(a[9] == '9'); }
    else if k == 10 { assert(a[10] == 'A'); } else if k == 11 { assert(a[11] == 'B'); }
    else if k == 12 { assert(a[12] == 'C'); } else if k == 13 { assert(a[13] == 'D'); }
    else if k == 14 { assert(a[14] == 'E'); } else if k == 15 { assert(a[15] == 'F'); }
    else if k == 16 { assert(a[16] == 'G'); } else if k == 17 { assert(a[17] == 'H'); }
    else if k == 18 { assert(a[18] == 'J'); } else if k == 19 { assert(a[19] == 'K'); }
    else if k == 20 { assert(a[20] == 'M'); } else if k == 21 { assert(a[21] == 'N'); }
    else if k == 22 { assert(a[22] == 'P'); } else if k == 23 { assert(a[23] == 'Q'); }
    else if k == 24 { assert(a[24] == 'R'); } else if k == 25 { assert(a[25] == 'S'); }
    else if k == 26 { assert(a[26] == 'T'); } else if k == 27 { assert(a[27] == 'V'); }
    else if k == 28 { assert(a[28] == 'W'); } else if k == 29 { assert(a[29] == 'X'); }
    else if k == 30 { assert(a[30] == 'Y'); } else { assert(a[31] == 'Z'); }
}

/// The digits of `u` are `n` base-32 digits that stand for `u` modulo `32^n`.
proof fn lemma_base32_digits(u: nat, n: nat)
    ensures
        base32_digits(u, n).len() == n,
        all_base32(base32_digits(u, n)),
        base32_value(base32_digits(u, n)) == u % pow32(n),
    decreases n,
{
    if n == 0 {
        assert(u % 1 == 0) by (nonlinear_arith);
    } else {
        let d = base32_digits(u, n);
        let rest = base32_digits(u / 32, (n - 1) as nat);
        lemma_base32_digits(u / 32, (n - 1) as nat);
        lemma_alphabet_values((u % 32) as int);
        assert(d.drop_last() =~= rest);
        assert forall|i: int| 0 <= i < d.len() implies #[trigger] crockford_value(d[i]) is Some by {
            if i < d.len() - 1 {
                assert(d[i] == rest[i]);
            }
        }
        lemma_pow32_positive((n - 1) as nat);
        vstd::arithmetic::div_mod::lemma_mod_breakdown(u as int, 32, pow32((n - 1) as nat) as int);
    }
}

/// Powers of 32 are positive.
proof fn lemma_pow32_positive(n: nat)
    ensures
        pow32(n) > 0,
    decreases n,
{
    if n > 0 {
        lemma_pow32_positive((n - 1) as nat);
    }
}

/// Reading back the text of an id gives the id: `ulid_parse(ulid_text(id)) == Some(id)`.
pub proof fn lemma_ulid_text_roundtrip(id: u128)
    ensures
        ulid_parse(ulid_text(id)) == Some(id),
{
    lemma_base32_digits(id as nat, 26);
    reveal_with_fuel(pow32, 27);
    assert(pow32(26) == 0x4_0000_0000_0000_0000_0000_0000_0000_0000nat);
    assert((id as nat) % pow32(26) == id as nat);
    assert((id as nat) % 0x1_0000_0000_0000_0000_0000_0000_0000_0000nat == id as nat);
}

} // verus!
