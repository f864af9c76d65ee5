//! Text and byte helpers: UTF-8, white space and decimal numbers.
use vstd::prelude::*;
use vstd::slice::*;
use vstd::string::*;
use vstd::utf8::*;

verus! {

/// The characters with the Unicode property `White_Space`.
pub open spec fn white_space(c: char) -> bool {
    ||| '\u{9}' <= c <= '\u{d}'
    ||| c == '\u{20}'
    ||| c == '\u{85}'
    ||| c == '\u{a0}'
    ||| c == '\u{1680}'
    ||| '\u{2000}' <= c <= '\u{200a}'
    ||| c == '\u{2028}'
    ||| c == '\u{2029}'
    ||| c == '\u{202f}'
    ||| c == '\u{205f}'
    ||| c == '\u{3000}'
}

/// `s` without its leading white space.
pub open spec fn without_leading(s: Seq<char>) -> Seq<char>
    decreases s.len(),
{
    if s.len() > 0 && white_space(s[0]) {
        without_leading(s.drop_first())
    } else {
        s
    }
}

/// `s` without its trailing white space.
pub open spec fn without_trailing(s: Seq<char>) -> Seq<char>
    decreases s.len(),
{
    if s.len() > 0 && white_space(s.last()) {
        without_trailing(s.drop_last())
    } else {
        s
    }
}

/// Every character of `s` is white space; so it is of the empty text.
pub open spec fn blank(s: Seq<char>) -> bool {
    forall|i: int| 0 <= i < s.len() ==> white_space(#[trigger] s[i])
}

proof fn lemma_leading_empty_iff_blank(s: Seq<char>)
    ensures
        without_leading(s).len() == 0 <==> blank(s),
        blank(s) || !white_space(without_leading(s)[0]),
    decreases s.len(),
{
    if s.len() > 0 && white_space(s[0]) {
        let rest = s.drop_first();
        lemma_leading_empty_iff_blank(rest);
        assert forall|i: int| blank(rest) && 0 <= i < s.len() implies white_space(
            #[trigger] s[i],
        ) by {
            if i > 0 {
                assert(rest[i - 1] == s[i]);
            }
        }
        assert(forall|i: int| 0 <= i < rest.len() ==> rest[i] == s[i + 1]);
    }
}

proof fn lemma_trailing_keeps_front(s: Seq<char>)
    requires
        s.len() == 0 || !white_space(s[0]),
    ensures
        without_trailing(s).len() == 0 <==> s.len() == 0,
    decreases s.len(),
{
    if s.len() > 0 && white_space(s.last()) {
        assert(s.len() > 1);
        assert(s.drop_last()[0] == s[0]);
        lemma_trailing_keeps_front(s.drop_last());
    }
}

/// `str::trim`: the text between the leading and the trailing characters that have the
/// Unicode property `White_Space`.
#[verifier::external_body]
fn trim(s: &str) -> (r: &str)
    ensures
        r@ == without_trailing(without_leading(s@)),
{
    s.trim()
}

/// Whether nothing is left of the text when white space is trimmed off its ends.
pub fn is_blank(s: &str) -> (r: bool)
    ensures
        r == blank(s@),
{
    let trimmed: &str = trim(s);
    proof {
        lemma_leading_empty_iff_blank(s@);
        lemma_trailing_keeps_front(without_leading(s@));
    }
    trimmed.is_empty()
}

/// The text that `String::from_utf8_lossy` makes of bytes that are not UTF-8.
pub uninterp spec fn utf8_lossy(bytes: Seq<u8>) -> Seq<char>;

/// `String::from_utf8_lossy`: it decodes valid UTF-8 exactly; of other bytes it makes a text
/// that is a function of the bytes alone. Where in that text the replacement characters
/// U+FFFD stand is not said.
#[verifier::external_body]
fn lossy(bytes: &[u8]) -> (r: String)
    ensures
        valid_utf8(bytes@) ==> r@ == decode_utf8(bytes@),
        !valid_utf8(bytes@) ==> r@ == utf8_lossy(bytes@),
{
    String::from_utf8_lossy(bytes).into_owned()
}

/// The text that bytes are shown as.
pub open spec fn shown(bytes: Seq<u8>) -> Seq<char> {
    if valid_utf8(bytes) {
        decode_utf8(bytes)
    } else {
        utf8_lossy(bytes)
    }
}

/// The text that bytes are shown as: what they spell, with replacement characters where
/// they are not UTF-8.
pub fn show(bytes: &[u8]) -> (r: String)
    ensures
        r@ == shown(bytes@),
{
    lossy(bytes)
}

/// A text is shown as itself.
pub proof fn shown_text(s: Seq<char>)
    ensures
        shown(encode_utf8(s)) == s,
{
    encode_utf8_valid_utf8(s);
    encode_utf8_decode_utf8(s);
}

/// `std::str::from_utf8`: it succeeds on exactly the byte strings that are valid UTF-8.
#[verifier::external_body]
pub(crate) fn is_utf8(bytes: &[u8]) -> (r: bool)
    ensures
        r == valid_utf8(bytes@),
{
    std::str::from_utf8(bytes).is_ok()
}

/// The UTF-8 bytes of a text.
pub fn bytes_of(s: &str) -> (r: Vec<u8>)
    ensures
        r@ == encode_utf8(s@),
{
    slice_to_vec(s.as_bytes())
}

/// A copy of a byte string.
pub fn copy_bytes(bytes: &Vec<u8>) -> (r: Vec<u8>)
    ensures
        r@ == bytes@,
{
    slice_to_vec(bytes.as_slice())
}

/// The decimal digits of `n`, as ASCII bytes, without leading zeros.
pub open spec fn decimal(n: nat) -> Seq<u8>
    decreases n,
{
    if n < 10 {
        seq![(48 + n) as u8]
    } else {
        decimal(n / 10).push((48 + n % 10) as u8)
    }
}

/// The decimal digits of a number, as ASCII bytes.
pub fn decimal_bytes(n: u32) -> (r: Vec<u8>)
    ensures
        r@ == decimal(n as nat),
    decreases n,
{
    if n < 10 {
        let digit: u8 = 48 + n as u8;
        vec![digit]
    } else {
        let mut front: Vec<u8> = decimal_bytes(n / 10);
        let digit: u8 = 48 + (n % 10) as u8;
        front.push(digit);
        front
    }
}

/// Different numbers have different decimal digits.
pub proof fn decimal_injective(a: nat, b: nat)
    ensures
        decimal(a) == decimal(b) ==> a == b,
    decreases a,
{
    if decimal(a) == decimal(b) {
        lemma_decimal_nonempty(a / 10);
        lemma_decimal_nonempty(b / 10);
        assert(decimal(a).last() == decimal(b).last());
        if a >= 10 && b >= 10 {
            assert(decimal(a).drop_last() =~= decimal(a / 10));
            assert(decimal(b).drop_last() =~= decimal(b / 10));
            decimal_injective(a / 10, b / 10);
        }
    }
}

proof fn lemma_decimal_nonempty(n: nat)
    ensures
        decimal(n).len() > 0,
{
}

/// The digits of a number are ASCII digits.
pub proof fn decimal_is_digits(n: nat)
    ensures
        forall|i: int| 0 <= i < decimal(n).len() ==> 48 <= #[trigger] decimal(n)[i] <= 57,
    decreases n,
{
    if n >= 10 {
        decimal_is_digits(n / 10);
        assert forall|i: int| 0 <= i < decimal(n).len() implies 48 <= #[trigger] decimal(
            n,
        )[i] <= 57 by {
            if i < decimal(n / 10).len() {
                assert(decimal(n)[i] == decimal(n / 10)[i]);
            }
        }
    }
}

/// The bytes of two texts side by side are the bytes of the joined text.
pub proof fn encode_concat(a: Seq<char>, b: Seq<char>)
    ensures
        encode_utf8(a + b) == encode_utf8(a) + encode_utf8(b),
    decreases a.len(),
{
    if a.len() == 0 {
        assert(a + b =~= b);
        assert(encode_utf8(a) + encode_utf8(b) =~= encode_utf8(b));
    } else {
        assert((a + b).drop_first() =~= a.drop_first() + b);
        encode_concat(a.drop_first(), b);
        assert(encode_utf8(a + b) =~= encode_utf8(a) + encode_utf8(b));
    }
}

/// The decimal digits of a number: one digit is itself, and a further digit goes to the end.
pub proof fn decimal_digits(n: nat, digit: nat)
    requires
        digit < 10,
    ensures
        decimal(digit) == seq![(48 + digit) as u8],
        n > 0 ==> decimal(10 * n + digit) == decimal(n).push((48 + digit) as u8),
{
    assert((10 * n + digit) / 10 == n);
    assert((10 * n + digit) % 10 == digit);
}

/// Bytes that are UTF-8 are shown as the text that they spell; others as
/// `String::from_utf8_lossy` has it.
pub proof fn shown_bytes(bytes: Seq<u8>)
    ensures
        valid_utf8(bytes) ==> encode_utf8(shown(bytes)) == bytes,
        !valid_utf8(bytes) ==> shown(bytes) == utf8_lossy(bytes),
{
    if valid_utf8(bytes) {
        decode_utf8_encode_utf8(bytes);
    }
}

/// The characters that count as white space, by their code points.
pub proof fn white_space_characters(c: char)
    ensures
        white_space(c) <==> {
            ||| 9 <= c as int <= 13
            ||| c as int == 32
            ||| c as int == 133
            ||| c as int == 160
            ||| c as int == 5760
            ||| 8192 <= c as int <= 8202
            ||| c as int == 8232
            ||| c as int == 8233
            ||| c as int == 8239
            ||| c as int == 8287
            ||| c as int == 12288
        },
{
}

/// A text is blank exactly where no character in it is anything but white space.
pub proof fn blank_texts(s: Seq<char>, i: int)
    requires
        0 <= i < s.len(),
    ensures
        blank(s) ==> white_space(s[i]),
        blank(seq![]),
        blank(s) <==> white_space(s.first()) && blank(s.drop_first()),
{
    let rest = s.drop_first();
    assert forall|k: int| 0 <= k < rest.len() implies rest[k] == #[trigger] s[k + 1] by {}
    if white_space(s.first()) && blank(rest) {
        assert forall|k: int| 0 <= k < s.len() implies white_space(#[trigger] s[k]) by {
            if k > 0 {
                assert(rest[k - 1] == s[k]);
            }
        }
    }
    if blank(s) {
        assert forall|k: int| 0 <= k < rest.len() implies white_space(#[trigger] rest[k]) by {
            assert(rest[k] == s[k + 1]);
        }
    }
}

/// Trimming takes white space off both ends and nothing else.
pub proof fn trimmed_text(front: Seq<char>, s: Seq<char>, back: Seq<char>)
    requires
        blank(front),
        blank(back),
        s.len() > 0,
        !white_space(s.first()),
        !white_space(s.last()),
    ensures
        without_trailing(without_leading(front + s + back)) == s,
{
    lemma_leading_dropped(front, s + back);
    assert(front + s + back =~= front + (s + back));
    lemma_trailing_dropped(s, back);
}

proof fn lemma_leading_dropped(front: Seq<char>, rest: Seq<char>)
    requires
        blank(front),
        rest.len() > 0,
        !white_space(rest.first()),
    ensures
        without_leading(front + rest) == rest,
    decreases front.len(),
{
    if front.len() == 0 {
        assert(front + rest =~= rest);
    } else {
        let all = front + rest;
        assert(all[0] == front[0]);
        assert(all.drop_first() =~= front.drop_first() + rest);
        assert forall|i: int| 0 <= i < front.drop_first().len() implies white_space(
            #[trigger] front.drop_first()[i],
        ) by {
            assert(front.drop_first()[i] == front[i + 1]);
        }
        lemma_leading_dropped(front.drop_first(), rest);
    }
}

proof fn lemma_trailing_dropped(s: Seq<char>, back: Seq<char>)
    requires
        blank(back),
        s.len() > 0,
        !white_space(s.last()),
    ensures
        without_trailing(s + back) == s,
    decreases back.len(),
{
    if back.len() == 0 {
        assert(s + back =~= s);
    } else {
        let all = s + back;
        assert(all.last() == back.last());
        assert(all.drop_last() =~= s + back.drop_last());
        lemma_trailing_dropped(s, back.drop_last());
    }
}

} // verus!
