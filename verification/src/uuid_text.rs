//! The written forms of a UUID: 32 hexadecimal digits, alone (simple), in
//! groups of 8-4-4-4-12 joined by hyphens (hyphenated), hyphenated inside
//! braces, or hyphenated behind a `urn:uuid:` prefix in any letter case.
//! Hexadecimal letters may be upper or lower case.

use vstd::prelude::*;
use crate::outside::parsed_uuid;

verus! {

/// The value of a hexadecimal digit, or `None` for any other character.
pub open spec fn hex_value(c: char) -> Option<nat> {
    if '0' <= c && c <= '9' {
        Some((c as u32 - '0' as u32) as nat)
    } else if 'a' <= c && c <= 'f' {
        Some((c as u32 - 'a' as u32 + 10) as nat)
    } else if 'A' <= c && c <= 'F' {
        Some((c as u32 - 'A' as u32 + 10) as nat)
    } else {
        None
    }
}

/// Whether every character of `d` is a hexadecimal digit.
pub open spec fn all_hex(d: Seq<char>) -> bool {
    forall|i: int| 0 <= i < d.len() ==> (#[trigger] hex_value(d[i])) is Some
}

/// The number that the hexadecimal digits `d` write, most significant first.
pub open spec fn hex_number(d: Seq<char>) -> nat
    decreases d.len(),
{
    if d.len() == 0 {
        0
    } else {
        hex_number(d.drop_last()) * 16 + hex_value(d.last()).unwrap_or(0)
    }
}

/// The 32 digits of a hyphenated UUID `h` (36 characters, hyphens at
/// positions 8, 13, 18 and 23), or `None` when `h` is not of that shape.
pub open spec fn hyphenated_digits(h: Seq<char>) -> Option<Seq<char>> {
    if h.len() == 36 && h[8] == '-' && h[13] == '-' && h[18] == '-' && h[23] == '-' {
        Some(h.subrange(0, 8) + h.subrange(9, 13) + h.subrange(14, 18) + h.subrange(19, 23)
            + h.subrange(24, 36))
    } else {
        None
    }
}

/// Whether the nine characters of `p` are `urn:uuid:`, each letter in
/// either case.
pub open spec fn urn_prefix(p: Seq<char>) -> bool {
    let lower = seq!['u', 'r', 'n', ':', 'u', 'u', 'i', 'd', ':'];
    let upper = seq!['U', 'R', 'N', ':', 'U', 'U', 'I', 'D', ':'];
    p.len() == 9 && forall|i: int| 0 <= i < 9 ==> (#[trigger] p[i] == lower[i] || p[i] == upper[i])
}

/// The 32 digit positions of `t` when it has one of the four forms of a
/// UUID by its separators, or `None` when it has none of them.
pub open spec fn uuid_digits(t: Seq<char>) -> Option<Seq<char>> {
    if t.len() == 32 {
        Some(t)
    } else if t.len() == 36 {
        hyphenated_digits(t)
    } else if t.len() == 38 && t[0] == '{' && t[37] == '}' {
        hyphenated_digits(t.subrange(1, 37))
    } else if t.len() == 45 && urn_prefix(t.subrange(0, 9)) {
        hyphenated_digits(t.subrange(9, 45))
    } else {
        None
    }
}

/// The 128-bit value that `t` writes, when `t` is a UUID in one of its
/// forms, or `None`.
pub open spec fn uuid_text_bits(t: Seq<char>) -> Option<u128> {
    match uuid_digits(t) {
        Some(d) => if all_hex(d) {
            Some(hex_number(d) as u128)
        } else {
            None
        },
        None => None,
    }
}

/// The hyphenated form of 32 digits: groups of 8, 4, 4, 4 and 12 joined by
/// hyphens.
pub open spec fn hyphenated_form(d: Seq<char>) -> Seq<char> {
    d.subrange(0, 8) + seq!['-'] + d.subrange(8, 12) + seq!['-'] + d.subrange(12, 16) + seq!['-']
        + d.subrange(16, 20) + seq!['-'] + d.subrange(20, 32)
}

/// The 32 hexadecimal digits `d` name one identifier in every form: alone,
/// hyphenated, hyphenated in braces, and hyphenated behind `urn:uuid:`.
pub proof fn law_uuid_forms_read_alike(d: Seq<char>)
    requires
        d.len() == 32,
        all_hex(d),
    ensures
        parsed_uuid(d) is Some,
        parsed_uuid(hyphenated_form(d)) == parsed_uuid(d),
        parsed_uuid(seq!['{'] + hyphenated_form(d) + seq!['}']) == parsed_uuid(d),
        parsed_uuid(seq!['u', 'r', 'n', ':', 'u', 'u', 'i', 'd', ':'] + hyphenated_form(d)) == parsed_uuid(d),
{
    let h = hyphenated_form(d);
    assert(h.len() == 36);
    assert(hyphenated_digits(h) == Some(d)) by {
        assert(h.subrange(0, 8) + h.subrange(9, 13) + h.subrange(14, 18) + h.subrange(19, 23)
            + h.subrange(24, 36) =~= d);
    }
    let b = seq!['{'] + h + seq!['}'];
    assert(b.subrange(1, 37) =~= h);
    let prefix = seq!['u', 'r', 'n', ':', 'u', 'u', 'i', 'd', ':'];
    let u = prefix + h;
    assert(u.subrange(0, 9) =~= prefix);
    assert(u.subrange(9, 45) =~= h);
    assert(urn_prefix(prefix));
}

/// Only a text of 32, 36, 38 or 45 characters can read as an identifier.
pub proof fn law_uuid_text_lengths(t: Seq<char>)
    ensures
        parsed_uuid(t) is Some ==> t.len() == 32 || t.len() == 36 || t.len() == 38 || t.len() == 45,
{
}

} // verus!
