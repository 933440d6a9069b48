//! Identifiers: UUIDs held as 128-bit numbers, their text forms, and the
//! `uuid` crate's parser and generators.

use vstd::prelude::*;
use crate::text::{hex_fixed, lemma_hex_fixed_determines, lemma_hex_fixed_len, pow16, push_char, push_hex_fixed};

verus! {

/// The canonical text form of a UUID: 32 lowercase hexadecimal digits in
/// groups of 8, 4, 4, 4 and 12, joined by hyphens.
pub open spec fn hyphenated(u: u128) -> Seq<char> {
    let v = u as nat;
    hex_fixed(v / 0x1_0000_0000_0000_0000_0000_0000, 8) + seq!['-']
        + hex_fixed(v / 0x1_0000_0000_0000_0000_0000, 4) + seq!['-']
        + hex_fixed(v / 0x1_0000_0000_0000_0000, 4) + seq!['-']
        + hex_fixed(v / 0x1_0000_0000_0000, 4) + seq!['-']
        + hex_fixed(v, 12)
}

/// The first group of the canonical form: the UUID's eight leading hex digits.
pub open spec fn first_group(u: u128) -> Seq<char> {
    hex_fixed(u as nat / 0x1_0000_0000_0000_0000_0000_0000, 8)
}

/// The compact text form of a UUID: its 32 lowercase hexadecimal digits.
pub open spec fn simple(u: u128) -> Seq<char> {
    hex_fixed(u as nat, 32)
}

/// The version number that a UUID carries in its thirteenth hex digit.
pub open spec fn version_of(u: u128) -> nat {
    (u as nat / 0x1_0000_0000_0000_0000_000) % 16
}

/// Two numbers with the same quotient and remainder by `m` are equal.
proof fn lemma_quotient_remainder(p: nat, q: nat, m: nat)
    requires
        m > 0,
        p / m == q / m,
        p % m == q % m,
    ensures
        p == q,
{
    vstd::arithmetic::div_mod::lemma_fundamental_div_mod(p as int, m as int);
    vstd::arithmetic::div_mod::lemma_fundamental_div_mod(q as int, m as int);
}

/// A step down one group: knowing `x / (d * m)` and `(x / d) % m` gives `x / d`.
proof fn lemma_group_step(x: nat, y: nat, d: nat, m: nat)
    requires
        d > 0,
        m > 0,
        x / (d * m) == y / (d * m),
        (x / d) % m == (y / d) % m,
    ensures
        x / d == y / d,
{
    vstd::arithmetic::div_mod::lemma_div_denominator(x as int, d as int, m as int);
    vstd::arithmetic::div_mod::lemma_div_denominator(y as int, d as int, m as int);
    lemma_quotient_remainder(x / d, y / d, m);
}

/// The five groups of the canonical form determine the number.
proof fn lemma_groups_determine(x: nat, y: nat)
    requires
        x < 0x1_0000_0000_0000_0000_0000_0000_0000_0000,
        y < 0x1_0000_0000_0000_0000_0000_0000_0000_0000,
        (x / 0x1_0000_0000_0000_0000_0000_0000) % 0x1_0000_0000 == (y / 0x1_0000_0000_0000_0000_0000_0000) % 0x1_0000_0000,
        (x / 0x1_0000_0000_0000_0000_0000) % 0x1_0000 == (y / 0x1_0000_0000_0000_0000_0000) % 0x1_0000,
        (x / 0x1_0000_0000_0000_0000) % 0x1_0000 == (y / 0x1_0000_0000_0000_0000) % 0x1_0000,
        (x / 0x1_0000_0000_0000) % 0x1_0000 == (y / 0x1_0000_0000_0000) % 0x1_0000,
        x % 0x1_0000_0000_0000 == y % 0x1_0000_0000_0000,
    ensures
        x == y,
{
    let top: nat = 0x1_0000_0000_0000_0000_0000_0000;
    vstd::arithmetic::div_mod::lemma_multiply_divide_lt(x as int, top as int, 0x1_0000_0000);
    vstd::arithmetic::div_mod::lemma_multiply_divide_lt(y as int, top as int, 0x1_0000_0000);
    vstd::arithmetic::div_mod::lemma_small_mod(x / top, 0x1_0000_0000);
    vstd::arithmetic::div_mod::lemma_small_mod(y / top, 0x1_0000_0000);
    assert(x / top == y / top);
    assert(0x1_0000_0000_0000_0000_0000nat * 0x1_0000nat == top);
    lemma_group_step(x, y, 0x1_0000_0000_0000_0000_0000, 0x1_0000);
    assert(0x1_0000_0000_0000_0000nat * 0x1_0000nat == 0x1_0000_0000_0000_0000_0000nat);
    lemma_group_step(x, y, 0x1_0000_0000_0000_0000, 0x1_0000);
    assert(0x1_0000_0000_0000nat * 0x1_0000nat == 0x1_0000_0000_0000_0000nat);
    lemma_group_step(x, y, 0x1_0000_0000_0000, 0x1_0000);
    lemma_quotient_remainder(x, y, 0x1_0000_0000_0000);
}

/// The pieces of the canonical form, each at its place.
proof fn lemma_hyphenated_groups(u: u128)
    ensures
        hyphenated(u).len() == 36,
        hyphenated(u).subrange(0, 8) == hex_fixed(u as nat / 0x1_0000_0000_0000_0000_0000_0000, 8),
        hyphenated(u).subrange(9, 13) == hex_fixed(u as nat / 0x1_0000_0000_0000_0000_0000, 4),
        hyphenated(u).subrange(14, 18) == hex_fixed(u as nat / 0x1_0000_0000_0000_0000, 4),
        hyphenated(u).subrange(19, 23) == hex_fixed(u as nat / 0x1_0000_0000_0000, 4),
        hyphenated(u).subrange(24, 36) == hex_fixed(u as nat, 12),
{
    let x = u as nat;
    lemma_hex_fixed_len(x / 0x1_0000_0000_0000_0000_0000_0000, 8);
    lemma_hex_fixed_len(x / 0x1_0000_0000_0000_0000_0000, 4);
    lemma_hex_fixed_len(x / 0x1_0000_0000_0000_0000, 4);
    lemma_hex_fixed_len(x / 0x1_0000_0000_0000, 4);
    lemma_hex_fixed_len(x, 12);
    let h = hyphenated(u);
    assert(h.subrange(0, 8) =~= hex_fixed(x / 0x1_0000_0000_0000_0000_0000_0000, 8));
    assert(h.subrange(9, 13) =~= hex_fixed(x / 0x1_0000_0000_0000_0000_0000, 4));
    assert(h.subrange(14, 18) =~= hex_fixed(x / 0x1_0000_0000_0000_0000, 4));
    assert(h.subrange(19, 23) =~= hex_fixed(x / 0x1_0000_0000_0000, 4));
    assert(h.subrange(24, 36) =~= hex_fixed(x, 12));
}

/// The hyphenated form of a UUID is 36 characters long.
pub proof fn lemma_hyphenated_len(u: u128)
    ensures
        hyphenated(u).len() == 36,
{
    lemma_hyphenated_groups(u);
}

/// Distinct UUIDs have distinct canonical text forms.
pub proof fn lemma_hyphenated_injective(a: u128, b: u128)
    requires
        hyphenated(a) == hyphenated(b),
    ensures
        a == b,
{
    let x = a as nat;
    let y = b as nat;
    lemma_hyphenated_groups(a);
    lemma_hyphenated_groups(b);
    lemma_hex_fixed_determines(x / 0x1_0000_0000_0000_0000_0000_0000, y / 0x1_0000_0000_0000_0000_0000_0000, 8);
    lemma_hex_fixed_determines(x / 0x1_0000_0000_0000_0000_0000, y / 0x1_0000_0000_0000_0000_0000, 4);
    lemma_hex_fixed_determines(x / 0x1_0000_0000_0000_0000, y / 0x1_0000_0000_0000_0000, 4);
    lemma_hex_fixed_determines(x / 0x1_0000_0000_0000, y / 0x1_0000_0000_0000, 4);
    lemma_hex_fixed_determines(x, y, 12);
    assert(pow16(4) == 0x1_0000 && pow16(8) == 0x1_0000_0000 && pow16(12) == 0x1_0000_0000_0000) by {
        reveal_with_fuel(pow16, 13);
    }
    lemma_groups_determine(x, y);
}

/// What `uuid::Uuid::parse_str` makes of a text: the UUID's value, or the
/// text of its error.
pub uninterp spec fn uuid_parse(s: Seq<char>) -> Result<u128, Seq<char>>;

/// `uuid::Uuid::parse_str`, with the result taken as its 128-bit value. The
/// result is named by `uuid_parse`; the parser accepts both text forms that
/// this crate writes (`hyphenated`, `simple`), so on them it gives back the
/// UUID they were written from.
#[verifier::external_body]
pub(crate) fn parse_uuid(s: &str) -> (r: Result<u128, String>)
    ensures
        r is Ok ==> uuid_parse(s@) == Ok::<u128, Seq<char>>(r->Ok_0),
        r is Err ==> uuid_parse(s@) == Err::<u128, Seq<char>>(r->Err_0@),
        (exists|u: u128| s@ == hyphenated(u)) ==> r is Ok && s@ == hyphenated(r->Ok_0),
        (exists|u: u128| s@ == simple(u)) ==> r is Ok && s@ == simple(r->Ok_0),
{
    match uuid::Uuid::parse_str(s) {
        Ok(u) => Ok(u.as_u128()),
        Err(e) => Err(e.to_string()),
    }
}

/// Reads a UUID from a text, as the `uuid` crate's parser does; the
/// canonical text of a UUID reads back as that UUID.
pub(crate) fn read_uuid(s: &str) -> (r: Result<u128, String>)
    ensures
        r is Ok ==> uuid_parse(s@) == Ok::<u128, Seq<char>>(r->Ok_0),
        r is Err ==> uuid_parse(s@) == Err::<u128, Seq<char>>(r->Err_0@),
        forall|u: u128| #[trigger] hyphenated(u) == s@ ==> r == Ok::<u128, String>(u),
{
    let r = parse_uuid(s);
    proof {
        assert forall|u: u128| #[trigger] hyphenated(u) == s@ implies r == Ok::<u128, String>(u) by {
            assert(s@ == hyphenated(u));
            lemma_hyphenated_injective(u, r->Ok_0);
        }
    }
    r
}

/// `uuid::Uuid::new_v4`: a random UUID, of version 4.
#[verifier::external_body]
pub(crate) fn new_v4() -> (u: u128)
    ensures
        version_of(u) == 4,
{
    uuid::Uuid::new_v4().as_u128()
}

/// `uuid::Uuid::now_v7`: a UUID made of the current time and random bits,
/// of version 7.
#[verifier::external_body]
pub(crate) fn now_v7() -> (u: u128)
    ensures
        version_of(u) == 7,
{
    uuid::Uuid::now_v7().as_u128()
}

/// Appends the canonical text form of a UUID.
pub(crate) fn push_uuid(out: &mut String, u: u128)
    ensures
        final(out)@ == old(out)@ + hyphenated(u),
{
    push_hex_fixed(out, u / 0x1_0000_0000_0000_0000_0000_0000, 8);
    push_char(out, '-');
    push_hex_fixed(out, u / 0x1_0000_0000_0000_0000_0000, 4);
    push_char(out, '-');
    push_hex_fixed(out, u / 0x1_0000_0000_0000_0000, 4);
    push_char(out, '-');
    push_hex_fixed(out, u / 0x1_0000_0000_0000, 4);
    push_char(out, '-');
    push_hex_fixed(out, u, 12);
    assert(final(out)@ =~= old(out)@ + hyphenated(u));
}

/// The canonical text form of a UUID, as its `Display` writes it.
pub fn uuid_to_string(u: u128) -> (s: String)
    ensures
        s@ == hyphenated(u),
{
    let mut s = String::new();
    push_uuid(&mut s, u);
    assert(s@ =~= hyphenated(u));
    s
}

/// The compact text form of a UUID.
pub fn uuid_to_simple_string(u: u128) -> (s: String)
    ensures
        s@ == simple(u),
{
    let mut s = String::new();
    push_hex_fixed(&mut s, u, 32);
    assert(s@ =~= simple(u));
    s
}

} // verus!
