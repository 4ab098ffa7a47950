//! Identifiers: random version-4 UUIDs held as `u128`, their canonical
//! hyphenated text, and parsing of that text.

use vstd::prelude::*;

verus! {

/// The lower-case hexadecimal digit of a value below 16.
pub open spec fn hex_digit(n: u128) -> char
    recommends
        n < 16,
{
    seq!['0', '1', '2', '3', '4', '5', '6', '7', '8', '9', 'a', 'b', 'c', 'd', 'e', 'f'][n as int]
}

/// The `k`-th hexadecimal digit of `u`, counting from the most significant one (`0 <= k < 32`).
pub open spec fn nibble(u: u128, k: int) -> u128 {
    (u >> ((4 * (31 - k)) as u128)) & 0xf
}

/// How many of the four hyphens of the canonical text stand before position `i`.
pub open spec fn hyphens_before(i: int) -> int {
    if i > 23 {
        4
    } else if i > 18 {
        3
    } else if i > 13 {
        2
    } else if i > 8 {
        1
    } else {
        0
    }
}

/// Whether position `i` of the canonical text holds a hyphen.
pub open spec fn is_hyphen_position(i: int) -> bool {
    i == 8 || i == 13 || i == 18 || i == 23
}

/// The canonical text of a UUID: its 32 lower-case hex digits, most significant
/// first, in groups of 8-4-4-4-12 separated by hyphens.
pub open spec fn uuid_text(u: u128) -> Seq<char> {
    Seq::new(
        36,
        |i: int|
            if is_hyphen_position(i) {
                '-'
            } else {
                hex_digit(nibble(u, i - hyphens_before(i)))
            },
    )
}

/// Where the `k`-th hex digit (from the most significant) stands in the canonical text.
pub open spec fn digit_position(k: int) -> int {
    k + if k >= 20 {
        4int
    } else if k >= 16 {
        3int
    } else if k >= 12 {
        2int
    } else if k >= 8 {
        1int
    } else {
        0int
    }
}

proof fn lemma_hex_digit_injective(a: u128, b: u128)
    requires
        a < 16,
        b < 16,
        hex_digit(a) == hex_digit(b),
    ensures
        a == b,
{
    let digits = seq!['0', '1', '2', '3', '4', '5', '6', '7', '8', '9', 'a', 'b', 'c', 'd', 'e', 'f'];
    assert(hex_digit(a) == digits[a as int]);
    assert(hex_digit(b) == digits[b as int]);
}

proof fn lemma_nibbles_determine(u: u128, v: u128)
    requires
            (u >> 0u128) & 0xf == (v >> 0u128) & 0xf,
            (u >> 4u128) & 0xf == (v >> 4u128) & 0xf,
            (u >> 8u128) & 0xf == (v >> 8u128) & 0xf,
            (u >> 12u128) & 0xf == (v >> 12u128) & 0xf,
            (u >> 16u128) & 0xf == (v >> 16u128) & 0xf,
            (u >> 20u128) & 0xf == (v >> 20u128) & 0xf,
            (u >> 24u128) & 0xf == (v >> 24u128) & 0xf,
            (u >> 28u128) & 0xf == (v >> 28u128) & 0xf,
            (u >> 32u128) & 0xf == (v >> 32u128) & 0xf,
            (u >> 36u128) & 0xf == (v >> 36u128) & 0xf,
            (u >> 40u128) & 0xf == (v >> 40u128) & 0xf,
            (u >> 44u128) & 0xf == (v >> 44u128) & 0xf,
            (u >> 48u128) & 0xf == (v >> 48u128) & 0xf,
            (u >> 52u128) & 0xf == (v >> 52u128) & 0xf,
            (u >> 56u128) & 0xf == (v >> 56u128) & 0xf,
            (u >> 60u128) & 0xf == (v >> 60u128) & 0xf,
            (u >> 64u128) & 0xf == (v >> 64u128) & 0xf,
            (u >> 68u128) & 0xf == (v >> 68u128) & 0xf,
            (u >> 72u128) & 0xf == (v >> 72u128) & 0xf,
            (u >> 76u128) & 0xf == (v >> 76u128) & 0xf,
            (u >> 80u128) & 0xf == (v >> 80u128) & 0xf,
            (u >> 84u128) & 0xf == (v >> 84u128) & 0xf,
            (u >> 88u128) & 0xf == (v >> 88u128) & 0xf,
            (u >> 92u128) & 0xf == (v >> 92u128) & 0xf,
            (u >> 96u128) & 0xf == (v >> 96u128) & 0xf,
            (u >> 100u128) & 0xf == (v >> 100u128) & 0xf,
            (u >> 104u128) & 0xf == (v >> 104u128) & 0xf,
            (u >> 108u128) & 0xf == (v >> 108u128) & 0xf,
            (u >> 112u128) & 0xf == (v >> 112u128) & 0xf,
            (u >> 116u128) & 0xf == (v >> 116u128) & 0xf,
            (u >> 120u128) & 0xf == (v >> 120u128) & 0xf,
            (u >> 124u128) & 0xf == (v >> 124u128) & 0xf,
    ensures
        u == v,
{
    assert(u == v) by (bit_vector)
        requires
            (u >> 0u128) & 0xf == (v >> 0u128) & 0xf,
            (u >> 4u128) & 0xf == (v >> 4u128) & 0xf,
            (u >> 8u128) & 0xf == (v >> 8u128) & 0xf,
            (u >> 12u128) & 0xf == (v >> 12u128) & 0xf,
            (u >> 16u128) & 0xf == (v >> 16u128) & 0xf,
            (u >> 20u128) & 0xf == (v >> 20u128) & 0xf,
            (u >> 24u128) & 0xf == (v >> 24u128) & 0xf,
            (u >> 28u128) & 0xf == (v >> 28u128) & 0xf,
            (u >> 32u128) & 0xf == (v >> 32u128) & 0xf,
            (u >> 36u128) & 0xf == (v >> 36u128) & 0xf,
            (u >> 40u128) & 0xf == (v >> 40u128) & 0xf,
            (u >> 44u128) & 0xf == (v >> 44u128) & 0xf,
            (u >> 48u128) & 0xf == (v >> 48u128) & 0xf,
            (u >> 52u128) & 0xf == (v >> 52u128) & 0xf,
            (u >> 56u128) & 0xf == (v >> 56u128) & 0xf,
            (u >> 60u128) & 0xf == (v >> 60u128) & 0xf,
            (u >> 64u128) & 0xf == (v >> 64u128) & 0xf,
            (u >> 68u128) & 0xf == (v >> 68u128) & 0xf,
            (u >> 72u128) & 0xf == (v >> 72u128) & 0xf,
            (u >> 76u128) & 0xf == (v >> 76u128) & 0xf,
            (u >> 80u128) & 0xf == (v >> 80u128) & 0xf,
            (u >> 84u128) & 0xf == (v >> 84u128) & 0xf,
            (u >> 88u128) & 0xf == (v >> 88u128) & 0xf,
            (u >> 92u128) & 0xf == (v >> 92u128) & 0xf,
            (u >> 96u128) & 0xf == (v >> 96u128) & 0xf,
            (u >> 100u128) & 0xf == (v >> 100u128) & 0xf,
            (u >> 104u128) & 0xf == (v >> 104u128) & 0xf,
            (u >> 108u128) & 0xf == (v >> 108u128) & 0xf,
            (u >> 112u128) & 0xf == (v >> 112u128) & 0xf,
            (u >> 116u128) & 0xf == (v >> 116u128) & 0xf,
            (u >> 120u128) & 0xf == (v >> 120u128) & 0xf,
            (u >> 124u128) & 0xf == (v >> 124u128) & 0xf;
}

/// The canonical text names its UUID: two UUIDs with the same text are equal,
/// so the identifier read back from a queued text is the one that was written.
pub proof fn law_uuid_text_injective(u: u128, v: u128)
    requires
        uuid_text(u) == uuid_text(v),
    ensures
        u == v,
{
    assert forall|k: int| 0 <= k < 32 implies nibble(u, k) == nibble(v, k) by {
        let p: int = digit_position(k);
        assert(!is_hyphen_position(p) && p - hyphens_before(p) == k && 0 <= p < 36);
        assert(uuid_text(u)[p] == uuid_text(v)[p]);
        let a: u128 = nibble(u, k);
        let b: u128 = nibble(v, k);
        assert(uuid_text(u)[p] == hex_digit(a));
        assert(uuid_text(v)[p] == hex_digit(b));
        let sh: u128 = (4 * (31 - k)) as u128;
        assert((u >> sh) & 0xf < 16) by (bit_vector);
        assert((v >> sh) & 0xf < 16) by (bit_vector);
        assert(a == (u >> sh) & 0xf);
        assert(b == (v >> sh) & 0xf);
        lemma_hex_digit_injective(a, b);
    }
    assert(nibble(u, 31) == nibble(v, 31));
    assert(nibble(u, 30) == nibble(v, 30));
    assert(nibble(u, 29) == nibble(v, 29));
    assert(nibble(u, 28) == nibble(v, 28));
    assert(nibble(u, 27) == nibble(v, 27));
    assert(nibble(u, 26) == nibble(v, 26));
    assert(nibble(u, 25) == nibble(v, 25));
    assert(nibble(u, 24) == nibble(v, 24));
    assert(nibble(u, 23) == nibble(v, 23));
    assert(nibble(u, 22) == nibble(v, 22));
    assert(nibble(u, 21) == nibble(v, 21));
    assert(nibble(u, 20) == nibble(v, 20));
    assert(nibble(u, 19) == nibble(v, 19));
    assert(nibble(u, 18) == nibble(v, 18));
    assert(nibble(u, 17) == nibble(v, 17));
    assert(nibble(u, 16) == nibble(v, 16));
    assert(nibble(u, 15) == nibble(v, 15));
    assert(nibble(u, 14) == nibble(v, 14));
    assert(nibble(u, 13) == nibble(v, 13));
    assert(nibble(u, 12) == nibble(v, 12));
    assert(nibble(u, 11) == nibble(v, 11));
    assert(nibble(u, 10) == nibble(v, 10));
    assert(nibble(u, 9) == nibble(v, 9));
    assert(nibble(u, 8) == nibble(v, 8));
    assert(nibble(u, 7) == nibble(v, 7));
    assert(nibble(u, 6) == nibble(v, 6));
    assert(nibble(u, 5) == nibble(v, 5));
    assert(nibble(u, 4) == nibble(v, 4));
    assert(nibble(u, 3) == nibble(v, 3));
    assert(nibble(u, 2) == nibble(v, 2));
    assert(nibble(u, 1) == nibble(v, 1));
    assert(nibble(u, 0) == nibble(v, 0));
    lemma_nibbles_determine(u, v);
}

/// Distinct UUIDs have distinct texts.
pub proof fn law_distinct_uuids_distinct_texts(u: u128, v: u128)
    requires
        u != v,
    ensures
        uuid_text(u) != uuid_text(v),
{
    if uuid_text(u) == uuid_text(v) {
        law_uuid_text_injective(u, v);
    }
}

/// The version field (bits 76..80) of a UUID.
pub open spec fn uuid_version(u: u128) -> u128 {
    (u >> 76u128) & 0xf
}

/// The variant field (bits 62..64) of a UUID.
pub open spec fn uuid_variant(u: u128) -> u128 {
    (u >> 62u128) & 0x3
}

/// What `uuid::Uuid::parse_str` makes of a text: `Some` of the UUID it reads, or `None`
/// where it reports an error. It reads every format the `uuid` crate writes
/// (simple, hyphenated, braced, URN) in either letter case.
pub uninterp spec fn uuid_from_text(s: Seq<char>) -> Option<u128>;

/// Whether a parse result gives back `u` for the canonical text of every `u`.
pub open spec fn reads_canonical_text(s: Seq<char>, r: Result<u128, uuid::Error>) -> bool {
    forall|u: u128| s == uuid_text(u) ==> r == Ok::<u128, uuid::Error>(u)
}

#[verifier::external_type_specification]
#[verifier::external_body]
pub struct ExUuidError(uuid::Error);

/// Calls `uuid::Uuid::new_v4`. The value is random; what holds of every outcome is
/// that its version field is 4 and its variant field is the RFC 4122 one
/// (binary `10`): the source masks those bits in after drawing the random value.
#[verifier::external_body]
pub(crate) fn random_uuid() -> (r: u128)
    ensures
        uuid_version(r) == 4,
        uuid_variant(r) == 2,
{
    uuid::Uuid::new_v4().as_u128()
}

/// Calls `to_string` on `uuid::Uuid::from_u128(id)`. Its `Display` writes the
/// lower-case hyphenated form of the big-endian bytes, which is `uuid_text(id)`.
#[verifier::external_body]
pub(crate) fn uuid_to_text(id: u128) -> (r: String)
    ensures
        r@ == uuid_text(id),
{
    uuid::Uuid::from_u128(id).to_string()
}

/// Calls `uuid::Uuid::parse_str`. Its result is named by `uuid_from_text`; the
/// one fact stated beside the name is the one its documentation gives: every
/// text this crate writes is read back, so the canonical text of `u` gives `u`.
#[verifier::external_body]
pub(crate) fn parse_uuid(s: &str) -> (r: Result<u128, uuid::Error>)
    ensures
        r is Ok <==> uuid_from_text(s@) is Some,
        r matches Ok(u) ==> uuid_from_text(s@) == Some(u),
        reads_canonical_text(s@, r),
{
    match uuid::Uuid::parse_str(s) {
        Ok(u) => Ok(u.as_u128()),
        Err(e) => Err(e),
    }
}

} // verus!
