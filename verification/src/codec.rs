//! The two text forms of 32-byte key material: fixed-length hexadecimal and
//! the checksummed bech32 form with a human-readable prefix.

use vstd::prelude::*;

verus! {

/// The value of a hexadecimal digit, in either case.
pub open spec fn hex_digit(c: char) -> Option<int> {
    let n = c as u32 as int;
    if 48 <= n <= 57 {
        Some(n - 48)
    } else if 97 <= n <= 102 {
        Some(n - 87)
    } else if 65 <= n <= 70 {
        Some(n - 55)
    } else {
        None
    }
}

/// `text` is exactly `2 * n` hexadecimal digits.
pub open spec fn is_hex_text(text: Seq<char>, n: nat) -> bool {
    &&& text.len() == 2 * n
    &&& forall|i: int| 0 <= i < text.len() ==> hex_digit(#[trigger] text[i]) is Some
}

/// The bytes that a text of hexadecimal digits spells, two digits per byte,
/// the high digit first.
pub open spec fn hex_bytes(text: Seq<char>) -> Seq<u8> {
    Seq::new(
        text.len() / 2,
        |i: int| (16 * hex_digit(text[2 * i]).unwrap() + hex_digit(text[2 * i + 1]).unwrap()) as u8,
    )
}

/// What `bech32::decode` makes of a text: the prefix in lower case, the
/// 5-bit groups of the data part without the checksum, and whether the
/// checksum is the bech32 one (not that of bech32m); `None` where it
/// rejects the text.
pub uninterp spec fn bech32_decoding(text: Seq<char>) -> Option<(Seq<char>, Seq<u8>, bool)>;

/// Bit `j` of the bit string that 5-bit groups spell, the high bit of each
/// group first.
pub open spec fn group_bit(groups: Seq<u8>, j: int) -> int {
    let shift = 4 - j % 5;
    let weight: int = if shift == 0 {
        1
    } else if shift == 1 {
        2
    } else if shift == 2 {
        4
    } else if shift == 3 {
        8
    } else {
        16
    };
    (groups[j / 5] as int / weight) % 2
}

/// Byte `i` of that bit string: its bits `8 * i` to `8 * i + 7`, the high
/// bit first.
pub open spec fn regrouped_byte(groups: Seq<u8>, i: int) -> int {
    128 * group_bit(groups, 8 * i) + 64 * group_bit(groups, 8 * i + 1) + 32 * group_bit(
        groups,
        8 * i + 2,
    ) + 16 * group_bit(groups, 8 * i + 3) + 8 * group_bit(groups, 8 * i + 4) + 4 * group_bit(
        groups,
        8 * i + 5,
    ) + 2 * group_bit(groups, 8 * i + 6) + group_bit(groups, 8 * i + 7)
}

/// The bytes that 5-bit groups regroup into without padding: every group
/// is below 32, fewer than 5 bits are left over after the last whole byte,
/// and those bits are zero. Otherwise there are none.
pub open spec fn regrouped_bytes(groups: Seq<u8>) -> Option<Seq<u8>> {
    let bits = 5 * groups.len();
    let spare = bits % 8;
    if (forall|i: int| 0 <= i < groups.len() ==> #[trigger] groups[i] < 32) && spare < 5 && (
    forall|j: int| bits - spare <= j < bits ==> #[trigger] group_bit(groups, j) == 0) {
        Some(Seq::new((bits / 8) as nat, |i: int| regrouped_byte(groups, i) as u8))
    } else {
        None
    }
}

/// A letter in lower case, where it is an upper-case ASCII letter; any
/// other character unchanged.
pub open spec fn ascii_lower(c: char) -> int {
    let n = c as u32 as int;
    if 65 <= n <= 90 {
        n + 32
    } else {
        n
    }
}

/// `text` begins with `prefix`, in either case, and goes on after it.
pub open spec fn spells_prefix(text: Seq<char>, prefix: Seq<char>) -> bool {
    &&& prefix.len() < text.len()
    &&& forall|i: int|
        0 <= i < prefix.len() ==> ascii_lower(#[trigger] text[i]) == prefix[i] as u32 as int
}

/// The bytes that a bech32 text carries under `prefix`: the text begins with
/// the prefix and decodes, its checksum is the bech32 one, its prefix is
/// `prefix`, and its 5-bit groups regroup into bytes.
pub open spec fn bech32_payload(text: Seq<char>, prefix: Seq<char>) -> Option<Seq<u8>> {
    match bech32_decoding(text) {
        Some((hrp, groups, checksum_bech32)) => if checksum_bech32 && hrp == prefix
            && spells_prefix(text, prefix) {
            regrouped_bytes(groups)
        } else {
            None
        },
        None => None,
    }
}

/// Calls `bech32::decode`. The result is the named decoding of the text:
/// the prefix, each 5-bit group as a `u8`, and `true` for the bech32
/// checksum variant. The prefix it hands out is what stands in the text
/// before the last `1`, in lower case, so the text begins with it.
#[verifier::external_body]
pub(crate) fn bech32_decode(text: &str) -> (r: Option<(String, Vec<u8>, bool)>)
    ensures
        match r {
            Some(d) => bech32_decoding(text@) == Some((d.0@, d.1@, d.2)) && spells_prefix(
                text@,
                d.0@,
            ),
            None => bech32_decoding(text@) is None,
        },
{
    match bech32::decode(text) {
        Ok((hrp, data, variant)) => {
            let groups: Vec<u8> = data.iter().map(|g| g.to_u8()).collect();
            match variant {
                bech32::Variant::Bech32 => Some((hrp, groups, true)),
                bech32::Variant::Bech32m => Some((hrp, groups, false)),
            }
        },
        Err(_) => None,
    }
}

/// Calls `bech32::convert_bits` from 5 to 8 bits without padding, which is
/// what `FromBase32` does for a byte vector. It strings the groups' bits
/// together and cuts them into bytes, and rejects a group of 32 or more,
/// five or more bits left over, and left-over bits that are not zero.
#[verifier::external_body]
pub(crate) fn regroup_bits(groups: &Vec<u8>) -> (r: Option<Vec<u8>>)
    ensures
        match r {
            Some(bytes) => regrouped_bytes(groups@) == Some(bytes@),
            None => regrouped_bytes(groups@) is None,
        },
{
    bech32::convert_bits(groups.as_slice(), 5, 8, false).ok()
}

/// Whether a decoded text is accepted under `prefix`: its checksum is the
/// bech32 one and its prefix is exactly `prefix`.
pub fn prefix_accepted(hrp: &String, checksum_bech32: bool, prefix: &str) -> (r: bool)
    ensures
        r == (checksum_bech32 && hrp@ == prefix@),
{
    let wanted = prefix.to_owned();
    checksum_bech32 && *hrp == wanted
}

/// Decodes a bech32 text and hands out the bytes it carries, if it carries
/// any under `prefix`.
pub fn decode_payload(text: &str, prefix: &str) -> (r: Option<Vec<u8>>)
    ensures
        match r {
            Some(bytes) => bech32_payload(text@, prefix@) == Some(bytes@),
            None => bech32_payload(text@, prefix@) is None,
        },
{
    match bech32_decode(text) {
        Some((hrp, groups, checksum_bech32)) => {
            if prefix_accepted(&hrp, checksum_bech32, prefix) {
                regroup_bits(&groups)
            } else {
                None
            }
        },
        None => None,
    }
}

} // verus!
