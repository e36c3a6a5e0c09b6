//! The running SHA-512 accumulator and the hexadecimal form of a digest.

use sha2::Digest;
use sha2::Sha512;
use vstd::prelude::*;
use vstd::std_specs::iter::IteratorSpec;
use vstd::string::StringExecFns;

verus! {

/// A SHA-512 computation in progress. It holds the `sha2::Sha512` value,
/// of which Verus sees only what the functions below state.
#[verifier::external_body]
pub struct HashAccumulator {
    inner: Sha512,
}

/// The SHA-512 digest of a message, as `sha2` computes it.
pub uninterp spec fn sha512(message: Seq<u8>) -> Seq<u8>;

/// The bytes that an accumulator has consumed so far, in order.
pub uninterp spec fn absorbed(hasher: HashAccumulator) -> Seq<u8>;

/// `Digest::new` of `sha2::Sha512`: a fresh accumulator has consumed
/// nothing.
#[verifier::external_body]
pub(crate) fn hasher_new() -> (hasher: HashAccumulator)
    ensures
        absorbed(hasher) == Seq::<u8>::empty(),
{
    HashAccumulator { inner: Sha512::new() }
}

/// `Digest::update` of `sha2::Sha512`: the accumulator consumes `chunk`
/// after what it had consumed before.
#[verifier::external_body]
pub(crate) fn hasher_update(hasher: &mut HashAccumulator, chunk: &[u8])
    ensures
        absorbed(*final(hasher)) == absorbed(*old(hasher)) + chunk@,
{
    hasher.inner.update(chunk);
}

/// `Digest::finalize` of `sha2::Sha512`: the SHA-512 digest of everything
/// consumed, that is of the chunks laid end to end. It has 64 bytes.
#[verifier::external_body]
pub(crate) fn hasher_finalize(hasher: HashAccumulator) -> (digest: Vec<u8>)
    ensures
        digest@ == sha512(absorbed(hasher)),
        digest@.len() == 64,
{
    hasher.inner.finalize().to_vec()
}

/// The lowercase hexadecimal digit for a value below sixteen.
pub open spec fn hex_digit(nibble: u8) -> char {
    if nibble < 10 {
        (48 + nibble) as u8 as char
    } else {
        (87 + nibble) as u8 as char
    }
}

/// The lowercase hexadecimal form of a byte string: two digits for each
/// byte, the high half first.
pub open spec fn hex(bytes: Seq<u8>) -> Seq<char> {
    Seq::new(
        2 * bytes.len(),
        |i: int|
            if i % 2 == 0 {
                hex_digit(bytes[i / 2] / 16)
            } else {
                hex_digit(bytes[i / 2] % 16)
            },
    )
}

/// A character with the letters `A` to `Z` brought to lower case.
pub open spec fn ascii_lower(c: char) -> char {
    if 'A' <= c <= 'Z' {
        (c as u8 + 32) as u8 as char
    } else {
        c
    }
}

/// Whether two strings are equal once the letters `A` to `Z` of both are
/// brought to lower case.
pub open spec fn eq_ignore_ascii_case(a: Seq<char>, b: Seq<char>) -> bool {
    &&& a.len() == b.len()
    &&& forall|i: int| 0 <= i < a.len() ==> ascii_lower(#[trigger] a[i]) == ascii_lower(b[i])
}

fn hex_digit_str(nibble: u8) -> (digit: &'static str)
    requires
        nibble < 16,
    ensures
        digit@ == seq![hex_digit(nibble)],
{
    proof {
        reveal_strlit("0");
        reveal_strlit("1");
        reveal_strlit("2");
        reveal_strlit("3");
        reveal_strlit("4");
        reveal_strlit("5");
        reveal_strlit("6");
        reveal_strlit("7");
        reveal_strlit("8");
        reveal_strlit("9");
        reveal_strlit("a");
        reveal_strlit("b");
        reveal_strlit("c");
        reveal_strlit("d");
        reveal_strlit("e");
        reveal_strlit("f");
    }
    let digit = match nibble {
        0 => "0",
        1 => "1",
        2 => "2",
        3 => "3",
        4 => "4",
        5 => "5",
        6 => "6",
        7 => "7",
        8 => "8",
        9 => "9",
        10 => "a",
        11 => "b",
        12 => "c",
        13 => "d",
        14 => "e",
        _ => "f",
    };
    assert(digit@ =~= seq![hex_digit(nibble)]);
    digit
}

/// Encodes bytes as lowercase hexadecimal.
pub fn to_hex(bytes: &[u8]) -> (text: String)
    ensures
        text@ == hex(bytes@),
{
    let mut text = String::new();
    let mut i: usize = 0;
    while i < bytes.len()
        invariant
            i <= bytes.len(),
            text@ == hex(bytes@.take(i as int)),
        decreases bytes.len() - i,
    {
        let byte = bytes[i];
        text.append(hex_digit_str(byte / 16));
        text.append(hex_digit_str(byte % 16));
        i += 1;
        assert(text@ =~= hex(bytes@.take(i as int)));
    }
    assert(bytes@.take(i as int) =~= bytes@);
    text
}

fn lower(c: char) -> (l: char)
    ensures
        l == ascii_lower(c),
{
    if 'A' <= c && c <= 'Z' {
        (c as u8 + 32) as char
    } else {
        c
    }
}

/// Compares two strings without regard to the case of ASCII letters.
pub fn matches_ignoring_case(a: &str, b: &str) -> (same: bool)
    ensures
        same == eq_ignore_ascii_case(a@, b@),
{
    broadcast use vstd::string::group_string_axioms;

    let mut left = a.chars();
    let mut right = b.chars();
    let ghost mut i: int = 0;
    loop
        invariant
            0 <= i <= a@.len(),
            i <= b@.len(),
            left.remaining() == a@.skip(i),
            right.remaining() == b@.skip(i),
            left.obeys_prophetic_iter_laws(),
            right.obeys_prophetic_iter_laws(),
            forall|j: int| 0 <= j < i ==> ascii_lower(#[trigger] a@[j]) == ascii_lower(b@[j]),
        decreases a@.len() - i,
    {
        match (left.next(), right.next()) {
            (None, None) => {
                return true;
            },
            (Some(x), Some(y)) => {
                assert(x == a@[i] && y == b@[i]);
                if lower(x) != lower(y) {
                    return false;
                }
                proof {
                    assert(a@.skip(i).drop_first() =~= a@.skip(i + 1));
                    assert(b@.skip(i).drop_first() =~= b@.skip(i + 1));
                    i = i + 1;
                }
            },
            _ => {
                return false;
            },
        }
    }
}

} // verus!
