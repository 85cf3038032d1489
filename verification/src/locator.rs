//! Identifiers, blob file names and public locators.
//!
//! An image is known by a random UUID. Its blob is a flat file named by the
//! hyphenated form of that UUID with a fixed extension, and its public
//! locator is that file name under `/img/`.

use vstd::prelude::*;
use vstd::string::*;

verus! {

/// The sixteen lower-case hexadecimal digits, in order.
pub open spec fn hex_digits() -> Seq<char> {
    seq!['0', '1', '2', '3', '4', '5', '6', '7', '8', '9', 'a', 'b', 'c', 'd', 'e', 'f']
}

/// The `k`-th of the 32 four-bit groups of `id`, the most significant first.
pub open spec fn nibble(id: u128, k: int) -> int {
    ((id >> ((124 - 4 * k) as u128)) & 0xf) as int
}

/// How many hyphens stand before position `pos` of a hyphenated UUID.
pub open spec fn hyphens_before(pos: int) -> int {
    if pos < 8 {
        0
    } else if pos < 13 {
        1
    } else if pos < 18 {
        2
    } else if pos < 23 {
        3
    } else {
        4
    }
}

/// The character at position `pos` of the hyphenated form of `id`.
pub open spec fn hyphenated_char(id: u128, pos: int) -> char {
    if pos == 8 || pos == 13 || pos == 18 || pos == 23 {
        '-'
    } else {
        hex_digits()[nibble(id, pos - hyphens_before(pos))]
    }
}

/// The hyphenated form of a UUID: its 32 hexadecimal digits in lower case,
/// most significant first, in groups of 8, 4, 4, 4 and 12 with a hyphen
/// between groups.
pub open spec fn hyphenated_text(id: u128) -> Seq<char> {
    Seq::new(36, |pos: int| hyphenated_char(id, pos))
}

/// Whether `id` carries the marks of a random UUID: version 4 in bits
/// 76 to 79 and the RFC 4122 variant in bits 62 and 63.
pub open spec fn is_random_uuid(id: u128) -> bool {
    id & 0x0000_0000_0000_f000_c000_0000_0000_0000 == 0x0000_0000_0000_4000_8000_0000_0000_0000
}

/// `uuid::Uuid::new_v4`, handed out as its 128-bit value.
///
/// Trusted: the outside function fills sixteen bytes from the operating
/// system's generator and then sets the version and variant fields, so
/// every value it returns carries those marks. Nothing is claimed about
/// which value comes back, nor that two calls differ. Where the system's
/// generator fails, the outside function does not return.
#[verifier::external_body]
pub(crate) fn random_uuid() -> (id: u128)
    ensures
        is_random_uuid(id),
{
    uuid::Uuid::new_v4().as_u128()
}

/// `uuid::Uuid::to_hyphenated`, rendered as a string.
///
/// Trusted: the outside formatter writes the sixteen bytes of the UUID,
/// first to last, as two lower-case hexadecimal digits each, and puts a
/// hyphen after the fourth, sixth, eighth and tenth byte.
#[verifier::external_body]
fn uuid_hyphenated(id: u128) -> (text: String)
    ensures
        text@ == hyphenated_text(id),
{
    uuid::Uuid::from_u128(id).to_hyphenated().to_string()
}

/// The name of the blob file of image `id`.
pub open spec fn blob_name_text(id: u128) -> Seq<char> {
    hyphenated_text(id) + ".jpeg"@
}

/// The public locator of image `id`.
pub open spec fn locator_text(id: u128) -> Seq<char> {
    "/img/"@ + blob_name_text(id)
}

/// The name under which the blob store keeps image `id`.
pub fn blob_file_name(id: u128) -> (name: String)
    ensures
        name@ == blob_name_text(id),
{
    uuid_hyphenated(id).concat(".jpeg")
}

/// The locator under which image `id` is served.
pub fn public_locator(id: u128) -> (locator: String)
    ensures
        locator@ == locator_text(id),
{
    let name = blob_file_name(id);
    String::from_str("/img/").concat(name.as_str())
}

/// Where the `k`-th hexadecimal digit of a hyphenated UUID stands.
pub open spec fn digit_position(k: int) -> int {
    if k < 8 {
        k
    } else if k < 12 {
        k + 1
    } else if k < 16 {
        k + 2
    } else if k < 20 {
        k + 3
    } else {
        k + 4
    }
}

proof fn nibble_is_below_sixteen(id: u128, k: int)
    requires
        0 <= k < 32,
    ensures
        0 <= nibble(id, k) < 16,
{
    let shift: u128 = (124 - 4 * k) as u128;
    assert((id >> shift) & 0xf < 16) by (bit_vector);
}

proof fn same_text_same_nibble(a: u128, b: u128, k: int)
    requires
        hyphenated_text(a) == hyphenated_text(b),
        0 <= k < 32,
    ensures
        nibble(a, k) == nibble(b, k),
{
    // Both texts show the same digit at the position of the `k`-th one,
    // and a digit shows one value only.
    let pos: int = digit_position(k);
    assert(hyphenated_text(a)[pos] == hyphenated_char(a, pos));
    assert(hyphenated_text(b)[pos] == hyphenated_char(b, pos));
    nibble_is_below_sixteen(a, k);
    nibble_is_below_sixteen(b, k);
}

/// Two identifiers with the same hyphenated form are the same.
pub proof fn hyphenated_text_is_injective(a: u128, b: u128)
    requires
        hyphenated_text(a) == hyphenated_text(b),
    ensures
        a == b,
{
    assert forall|k: int| 0 <= k < 32 implies nibble(a, k) == nibble(b, k) by {
        same_text_same_nibble(a, b, k);
    }
    assert(nibble(a, 0) == nibble(b, 0) && nibble(a, 1) == nibble(b, 1));
    assert(nibble(a, 2) == nibble(b, 2) && nibble(a, 3) == nibble(b, 3));
    assert(nibble(a, 4) == nibble(b, 4) && nibble(a, 5) == nibble(b, 5));
    assert(nibble(a, 6) == nibble(b, 6) && nibble(a, 7) == nibble(b, 7));
    assert(nibble(a, 8) == nibble(b, 8) && nibble(a, 9) == nibble(b, 9));
    assert(nibble(a, 10) == nibble(b, 10) && nibble(a, 11) == nibble(b, 11));
    assert(nibble(a, 12) == nibble(b, 12) && nibble(a, 13) == nibble(b, 13));
    assert(nibble(a, 14) == nibble(b, 14) && nibble(a, 15) == nibble(b, 15));
    assert(nibble(a, 16) == nibble(b, 16) && nibble(a, 17) == nibble(b, 17));
    assert(nibble(a, 18) == nibble(b, 18) && nibble(a, 19) == nibble(b, 19));
    assert(nibble(a, 20) == nibble(b, 20) && nibble(a, 21) == nibble(b, 21));
    assert(nibble(a, 22) == nibble(b, 22) && nibble(a, 23) == nibble(b, 23));
    assert(nibble(a, 24) == nibble(b, 24) && nibble(a, 25) == nibble(b, 25));
    assert(nibble(a, 26) == nibble(b, 26) && nibble(a, 27) == nibble(b, 27));
    assert(nibble(a, 28) == nibble(b, 28) && nibble(a, 29) == nibble(b, 29));
    assert(nibble(a, 30) == nibble(b, 30) && nibble(a, 31) == nibble(b, 31));
    assert(a == b) by (bit_vector)
        requires
            (a >> 124u128) & 0xf == (b >> 124u128) & 0xf,
            (a >> 120u128) & 0xf == (b >> 120u128) & 0xf,
            (a >> 116u128) & 0xf == (b >> 116u128) & 0xf,
            (a >> 112u128) & 0xf == (b >> 112u128) & 0xf,
            (a >> 108u128) & 0xf == (b >> 108u128) & 0xf,
            (a >> 104u128) & 0xf == (b >> 104u128) & 0xf,
            (a >> 100u128) & 0xf == (b >> 100u128) & 0xf,
            (a >> 96u128) & 0xf == (b >> 96u128) & 0xf,
            (a >> 92u128) & 0xf == (b >> 92u128) & 0xf,
            (a >> 88u128) & 0xf == (b >> 88u128) & 0xf,
            (a >> 84u128) & 0xf == (b >> 84u128) & 0xf,
            (a >> 80u128) & 0xf == (b >> 80u128) & 0xf,
            (a >> 76u128) & 0xf == (b >> 76u128) & 0xf,
            (a >> 72u128) & 0xf == (b >> 72u128) & 0xf,
            (a >> 68u128) & 0xf == (b >> 68u128) & 0xf,
            (a >> 64u128) & 0xf == (b >> 64u128) & 0xf,
            (a >> 60u128) & 0xf == (b >> 60u128) & 0xf,
            (a >> 56u128) & 0xf == (b >> 56u128) & 0xf,
            (a >> 52u128) & 0xf == (b >> 52u128) & 0xf,
            (a >> 48u128) & 0xf == (b >> 48u128) & 0xf,
            (a >> 44u128) & 0xf == (b >> 44u128) & 0xf,
            (a >> 40u128) & 0xf == (b >> 40u128) & 0xf,
            (a >> 36u128) & 0xf == (b >> 36u128) & 0xf,
            (a >> 32u128) & 0xf == (b >> 32u128) & 0xf,
            (a >> 28u128) & 0xf == (b >> 28u128) & 0xf,
            (a >> 24u128) & 0xf == (b >> 24u128) & 0xf,
            (a >> 20u128) & 0xf == (b >> 20u128) & 0xf,
            (a >> 16u128) & 0xf == (b >> 16u128) & 0xf,
            (a >> 12u128) & 0xf == (b >> 12u128) & 0xf,
            (a >> 8u128) & 0xf == (b >> 8u128) & 0xf,
            (a >> 4u128) & 0xf == (b >> 4u128) & 0xf,
            (a >> 0u128) & 0xf == (b >> 0u128) & 0xf,
    ;
}

/// A locator names one image: two images with the same locator, or with
/// the same blob file name, are the same image. So the bytes found under
/// a locator are those stored under the identifier it was made from.
pub proof fn locator_names_one_image(a: u128, b: u128)
    requires
        locator_text(a) == locator_text(b) || blob_name_text(a) == blob_name_text(b),
    ensures
        a == b,
{
    reveal_strlit("/img/");
    reveal_strlit(".jpeg");
    if locator_text(a) == locator_text(b) {
        assert(blob_name_text(a) =~= locator_text(a).subrange(5, 46));
        assert(blob_name_text(b) =~= locator_text(b).subrange(5, 46));
    }
    assert(hyphenated_text(a) =~= blob_name_text(a).subrange(0, 36));
    assert(hyphenated_text(b) =~= blob_name_text(b).subrange(0, 36));
    hyphenated_text_is_injective(a, b);
}

} // verus!
