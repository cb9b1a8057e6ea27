//! Identifiers: version-7 UUIDs and their textual form.
use vstd::prelude::*;
use crate::secret_hash::hex_digit;
use crate::text::push_char;

verus! {

/// The version field of a UUID held as its 128-bit big-endian value.
pub open spec fn uuid_version(id: u128) -> u128 {
    (id >> 76u32) & 0xF
}

/// The two variant bits of a UUID held as its 128-bit big-endian value
/// (`0b10` for the RFC 9562 layout).
pub open spec fn uuid_variant(id: u128) -> u128 {
    (id >> 62u32) & 0x3
}

/// A version-7 UUID with the RFC variant.
pub open spec fn is_uuid_v7(id: u128) -> bool {
    uuid_version(id) == 7 && uuid_variant(id) == 2
}

/// Trusted: `uuid::Uuid::now_v7()`, taken as its 128-bit big-endian value
/// (`Uuid::as_u128`). The value is made of the clock and random bits; what the
/// source always sets is the version nibble (7) and the RFC variant (`0b10`)
/// (`encode_unix_timestamp_millis` in `timestamp.rs`).
#[verifier::external_body]
pub(crate) fn new_uuid_v7() -> (id: u128)
    ensures
        uuid_version(id) == 7,
        uuid_variant(id) == 2,
{
    uuid::Uuid::now_v7().as_u128()
}

/// A fresh version-7 UUID other than `first`: a new draw, which `uuid` makes
/// increase from one call to the next; should it ever equal `first`, its
/// lowest random bit is flipped, which leaves it a version-7 UUID.
pub fn new_uuid_v7_besides(first: u128) -> (id: u128)
    ensures
        is_uuid_v7(id),
        id != first,
{
    let drawn = new_uuid_v7();
    if drawn != first {
        drawn
    } else {
        let other = drawn ^ 1u128;
        assert(((other >> 76u32) & 0xF) == ((drawn >> 76u32) & 0xF) && ((other >> 62u32) & 0x3) == ((
        drawn >> 62u32) & 0x3) && other != drawn) by (bit_vector)
            requires
                other == drawn ^ 1u128,
        ;
        other
    }
}

/// The `k`-th hexadecimal digit (from the most significant) of `id`, `0 <= k < 32`.
pub open spec fn uuid_nibble(id: u128, k: int) -> u8 {
    ((id >> ((124 - 4 * k) as u32)) & 0xF) as u8
}

/// The positions of the hyphens in the hyphenated form.
pub open spec fn is_hyphen_position(p: int) -> bool {
    p == 8 || p == 13 || p == 18 || p == 23
}

/// How many hyphens stand before the `k`-th digit.
pub open spec fn hyphens_before(k: int) -> int {
    if k < 8 {
        0
    } else if k < 12 {
        1
    } else if k < 16 {
        2
    } else if k < 20 {
        3
    } else {
        4
    }
}

/// How many hyphens stand before the text of the first `k` digits ends.
spec fn hyphens_within(k: int) -> int {
    if k <= 8 {
        0
    } else {
        hyphens_before(k - 1)
    }
}

/// Which digit stands at position `p` of the hyphenated form.
pub open spec fn digit_at_position(p: int) -> int {
    if p < 8 {
        p
    } else if p < 13 {
        p - 1
    } else if p < 18 {
        p - 2
    } else if p < 23 {
        p - 3
    } else {
        p - 4
    }
}

/// The hyphenated lowercase form of a UUID (`8-4-4-4-12` hexadecimal digits),
/// as `Display` for `uuid::Uuid` writes it.
pub open spec fn uuid_text(id: u128) -> Seq<char> {
    Seq::new(
        36,
        |p: int|
            if is_hyphen_position(p) {
                '-'
            } else {
                hex_digit(uuid_nibble(id, digit_at_position(p)))
            },
    )
}

fn hex_digit_char(n: u8) -> (c: char)
    requires
        n < 16,
    ensures
        c == hex_digit(n),
{
    if n < 10 {
        (48u8 + n) as char
    } else {
        (97u8 + (n - 10)) as char
    }
}

/// Writes a UUID in its hyphenated lowercase form.
pub fn format_uuid(id: u128) -> (res: String)
    ensures
        res@ == uuid_text(id),
{
    let mut res = String::new();
    let mut k: u32 = 0;
    while k < 32
        invariant
            k <= 32,
            res@ == uuid_text(id).take(k + hyphens_within(k as int)),
        decreases 32 - k,
    {
        if k == 8 || k == 12 || k == 16 || k == 20 {
            push_char(&mut res, '-');
        }
        let shift: u32 = 124 - 4 * k;
        assert(((id >> shift) & 0xF) < 16) by (bit_vector);
        let n: u8 = ((id >> shift) & 0xF) as u8;
        let ghost p: int = k + hyphens_before(k as int);
        assert(digit_at_position(p) == k);
        assert(!is_hyphen_position(p));
        assert(n == uuid_nibble(id, k as int));
        push_char(&mut res, hex_digit_char(n));
        assert(res@ =~= uuid_text(id).take(k + 1 + hyphens_within(k + 1)));
        k = k + 1;
    }
    assert(res@ =~= uuid_text(id));
    res
}

} // verus!
