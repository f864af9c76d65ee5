//! Job ids: random UUIDs, held as 128-bit numbers, and their text.
use vstd::prelude::*;

verus! {

/// The version field says "random" and the variant field says "RFC 9562".
pub open spec fn is_random_uuid(id: u128) -> bool {
    &&& (id >> 76u128) & 0xf == 4
    &&& (id >> 62u128) & 0x3 == 2
}

/// The lower-case hexadecimal digit of a number below 16.
pub open spec fn hex_digit(d: u128) -> char {
    if d < 10 {
        (48 + d) as char
    } else {
        (87 + d) as char
    }
}

/// The `k`th hexadecimal digit of an id, counted from the most significant of the 32.
pub open spec fn id_digit(id: u128, k: int) -> char {
    hex_digit((id >> ((4 * (31 - k)) as u128)) & 0xf)
}

/// The text of an id: its 32 hexadecimal digits in groups of 8, 4, 4, 4 and 12 with
/// hyphens between the groups.
pub open spec fn id_text(id: u128) -> Seq<char> {
    Seq::new(
        36,
        |i: int|
            if i < 8 {
                id_digit(id, i)
            } else if i == 8 {
                '-'
            } else if i < 13 {
                id_digit(id, i - 1)
            } else if i == 13 {
                '-'
            } else if i < 18 {
                id_digit(id, i - 2)
            } else if i == 18 {
                '-'
            } else if i < 23 {
                id_digit(id, i - 3)
            } else if i == 23 {
                '-'
            } else {
                id_digit(id, i - 4)
            },
    )
}

/// `uuid::Uuid::new_v4` and `uuid::Uuid::as_u128`: a random UUID as a number. Of its bits only
/// the version and the variant are fixed; that two ids differ is a matter of chance and is
/// not said. The call panics where the operating system has no random bytes to give.
#[verifier::external_body]
pub(crate) fn fresh_id() -> (id: u128)
    ensures
        is_random_uuid(id),
{
    uuid::Uuid::new_v4().as_u128()
}

/// The `Display` form of `uuid::Uuid`, of the UUID that `uuid::Uuid::from_u128` makes of
/// the number: lower-case hexadecimal digits, hyphenated.
#[verifier::external_body]
pub(crate) fn show_id(id: u128) -> (r: String)
    ensures
        r@ == id_text(id),
{
    uuid::Uuid::from_u128(id).to_string()
}

proof fn lemma_same_nibble(a: u128, b: u128, k: int)
    requires
        0 <= k < 32,
        id_digit(a, k) == id_digit(b, k),
    ensures
        (a >> ((4 * (31 - k)) as u128)) & 0xf == (b >> ((4 * (31 - k)) as u128)) & 0xf,
{
    let x = a >> ((4 * (31 - k)) as u128);
    let y = b >> ((4 * (31 - k)) as u128);
    assert(x & 0xf < 16) by (bit_vector);
    assert(y & 0xf < 16) by (bit_vector);
}

proof fn lemma_same_front(a: u128, b: u128, k: int)
    requires
        0 <= k < 32,
        forall|j: int| 0 <= j < 32 ==> #[trigger] id_digit(a, j) == id_digit(b, j),
    ensures
        a >> ((4 * (31 - k)) as u128) == b >> ((4 * (31 - k)) as u128),
    decreases k,
{
    assert(id_digit(a, k) == id_digit(b, k));
    lemma_same_nibble(a, b, k);
    let s = (4 * (31 - k)) as u128;
    if k == 0 {
        assert(a >> 124u128 == b >> 124u128) by (bit_vector)
            requires
                (a >> 124u128) & 0xf == (b >> 124u128) & 0xf,
        ;
    } else {
        lemma_same_front(a, b, k - 1);
        let t = (s + 4) as u128;
        assert(a >> s == b >> s) by (bit_vector)
            requires
                s <= 120,
                t == s + 4,
                a >> t == b >> t,
                (a >> s) & 0xf == (b >> s) & 0xf,
        ;
    }
}

/// Different ids have different texts.
pub proof fn id_text_injective(a: u128, b: u128)
    ensures
        id_text(a) == id_text(b) ==> a == b,
{
    if id_text(a) == id_text(b) {
        assert forall|k: int| 0 <= k < 32 implies #[trigger] id_digit(a, k) == id_digit(b, k) by {
            let i = if k < 8 {
                k
            } else if k < 12 {
                k + 1
            } else if k < 16 {
                k + 2
            } else if k < 20 {
                k + 3
            } else {
                k + 4
            };
            assert(id_text(a)[i] == id_digit(a, k));
            assert(id_text(b)[i] == id_digit(b, k));
        }
        lemma_same_front(a, b, 31);
        assert(a == b) by (bit_vector)
            requires
                a >> 0u128 == b >> 0u128,
        ;
    }
}

/// An id's text is ASCII without a slash or a dot.
pub proof fn id_text_is_plain(id: u128)
    ensures
        id_text(id).len() == 36,
        forall|i: int|
            0 <= i < 36 ==> {
                ||| #[trigger] id_text(id)[i] == '-'
                ||| '0' <= id_text(id)[i] <= '9'
                ||| 'a' <= id_text(id)[i] <= 'f'
            },
{
    assert forall|k: int| true implies {
        ||| '0' <= #[trigger] id_digit(id, k) <= '9'
        ||| 'a' <= id_digit(id, k) <= 'f'
    } by {
        let x = id >> ((4 * (31 - k)) as u128);
        assert(x & 0xf < 16) by (bit_vector);
    }
}

/// The text of an id: hyphens at four fixed places, and between them the 32 hexadecimal digits of
/// the number, from the most significant one on, with letters in lower case.
pub proof fn id_text_spells_the_number(id: u128, k: int)
    requires
        0 <= k < 32,
    ensures
        id_text(id)[8] == '-',
        id_text(id)[13] == '-',
        id_text(id)[18] == '-',
        id_text(id)[23] == '-',
        ({
            let digit = (id >> ((124 - 4 * k) as u128)) & 15;
            let shown = id_text(id)[if k < 8 {
                k
            } else if k < 12 {
                k + 1
            } else if k < 16 {
                k + 2
            } else if k < 20 {
                k + 3
            } else {
                k + 4
            }];
            if digit < 10 {
                shown as int == '0' as int + digit
            } else {
                digit < 16 && shown as int == 'a' as int + digit - 10
            }
        }),
{
    let x = id >> ((124 - 4 * k) as u128);
    assert(x & 15 < 16) by (bit_vector);
    assert(4 * (31 - k) == 124 - 4 * k);
}

/// The fields of a random id: the version is 4, and the variant is the one with the bits 10.
pub proof fn random_ids(id: u128)
    ensures
        is_random_uuid(id) <==> (id >> 76u128) & 15 == 4 && (id >> 62u128) & 3 == 2,
{
}

} // verus!
