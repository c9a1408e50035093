//! The version code served to peers that ask for bootstrap information.

use vstd::prelude::*;

verus! {

/// Leading part of every version code. Related implementations number their
/// versions from `1...` and `2...`; this one starts at `3`.
pub const VERSION_BASE: u32 = 3_000_000_000;

/// Exclusive bound of each of the three version components.
pub const COMPONENT_LIMIT: u32 = 1000;

/// The version code of the triple `(major, minor, patch)` as a mathematical
/// integer: `3AAABBBCCC` in decimal digits.
pub open spec fn version_code(major: int, minor: int, patch: int) -> int {
    3_000_000_000 + major * 1_000_000 + minor * 1_000 + patch
}

/// Whether a triple can be encoded: each component is below one thousand.
pub open spec fn valid_triple(major: int, minor: int, patch: int) -> bool {
    &&& 0 <= major < 1000
    &&& 0 <= minor < 1000
    &&& 0 <= patch < 1000
}

/// Encodes a version triple as the code `3AAABBBCCC`.
pub fn version(major: u32, minor: u32, patch: u32) -> (code: u32)
    requires
        valid_triple(major as int, minor as int, patch as int),
    ensures
        code as int == version_code(major as int, minor as int, patch as int),
{
    VERSION_BASE + major * 1_000_000 + minor * 1_000 + patch
}

/// The major component of a version code.
pub open spec fn major_of(code: int) -> int {
    (code - 3_000_000_000) / 1_000_000
}

/// The minor component of a version code.
pub open spec fn minor_of(code: int) -> int {
    (code - 3_000_000_000) / 1_000 % 1_000
}

/// The patch component of a version code.
pub open spec fn patch_of(code: int) -> int {
    (code - 3_000_000_000) % 1_000
}

/// Whether an integer is the code of some version: ten decimal digits, the
/// first of them `3`.
pub open spec fn is_version_code(code: int) -> bool {
    3_000_000_000 <= code <= 3_999_999_999
}

/// Splits a version code into its triple. An integer that no triple
/// encodes gives `None`.
pub fn decode_version(code: u32) -> (triple: Option<(u32, u32, u32)>)
    ensures
        match triple {
            Some((major, minor, patch)) => {
                &&& is_version_code(code as int)
                &&& major == major_of(code as int)
                &&& minor == minor_of(code as int)
                &&& patch == patch_of(code as int)
            },
            None => !is_version_code(code as int),
        },
{
    if code < VERSION_BASE || code > 3_999_999_999 {
        return None;
    }
    let rest: u32 = code - VERSION_BASE;
    Some((rest / 1_000_000, rest / 1_000 % 1_000, rest % 1_000))
}

/// Every code is a ten-digit number whose first digit is `3`, and so fits
/// in 32 bits.
pub proof fn lemma_version_leading_digit(major: int, minor: int, patch: int)
    requires
        valid_triple(major, minor, patch),
    ensures
        is_version_code(version_code(major, minor, patch)),
        version_code(major, minor, patch) / 1_000_000_000 == 3,
        version_code(major, minor, patch) <= u32::MAX,
{
}

/// Decoding the code of a triple gives the triple back.
pub proof fn lemma_version_round_trip(major: int, minor: int, patch: int)
    requires
        valid_triple(major, minor, patch),
    ensures
        major_of(version_code(major, minor, patch)) == major,
        minor_of(version_code(major, minor, patch)) == minor,
        patch_of(version_code(major, minor, patch)) == patch,
{
}

/// Encoding what a code decodes to gives the code back, and what it
/// decodes to is a valid triple.
pub proof fn lemma_version_decode_encode(code: int)
    requires
        is_version_code(code),
    ensures
        valid_triple(major_of(code), minor_of(code), patch_of(code)),
        version_code(major_of(code), minor_of(code), patch_of(code)) == code,
{
}

/// No two distinct triples share a code.
pub proof fn lemma_version_is_injective(
    major: int,
    minor: int,
    patch: int,
    other_major: int,
    other_minor: int,
    other_patch: int,
)
    requires
        valid_triple(major, minor, patch),
        valid_triple(other_major, other_minor, other_patch),
        version_code(major, minor, patch) == version_code(other_major, other_minor, other_patch),
    ensures
        major == other_major,
        minor == other_minor,
        patch == other_patch,
{
    lemma_version_round_trip(major, minor, patch);
    lemma_version_round_trip(other_major, other_minor, other_patch);
}

} // verus!
