//! The random names that files are given before they are removed.

use vstd::prelude::*;
use crate::path::{file_name, is_named, is_plain, SEPARATOR};
use crate::random::{fill, RandomError};

verus! {

/// The number of random bytes that go into one name.
pub const ENTROPY_LEN: usize = 32;

/// The length of a name: two digits for each random byte.
pub const NAME_LEN: usize = 64;

/// The lower-case hexadecimal digit of a value below 16.
pub open spec fn digit(nibble: u8) -> u8 {
    if nibble < 10 {
        (48 + nibble) as u8
    } else {
        (87 + nibble) as u8
    }
}

/// Whether a byte is a lower-case hexadecimal digit.
pub open spec fn is_digit(byte: u8) -> bool {
    48 <= byte <= 57 || 97 <= byte <= 102
}

/// The bytes written out in hexadecimal, high digit first.
pub open spec fn rendered(bytes: Seq<u8>) -> Seq<u8> {
    Seq::new(
        2 * bytes.len(),
        |i: int|
            if i % 2 == 0 {
                digit(bytes[i / 2] / 16)
            } else {
                digit(bytes[i / 2] % 16)
            },
    )
}

/// Whether a byte string has the shape of a generated name.
pub open spec fn is_name(name: Seq<u8>) -> bool {
    &&& name.len() == NAME_LEN
    &&& forall|i: int| 0 <= i < name.len() ==> is_digit(#[trigger] name[i])
}

/// The digit of a value below 16.
fn digit_of(nibble: u8) -> (d: u8)
    requires
        nibble < 16,
    ensures
        d == digit(nibble),
        is_digit(d),
{
    if nibble < 10 {
        48 + nibble
    } else {
        87 + nibble
    }
}

/// Writes the bytes out in hexadecimal.
pub fn render(bytes: &Vec<u8>) -> (text: Vec<u8>)
    ensures
        text@ == rendered(bytes@),
{
    let mut text: Vec<u8> = Vec::new();
    let mut i: usize = 0;
    while i < bytes.len()
        invariant
            i <= bytes@.len(),
            text@ == rendered(bytes@.subrange(0, i as int)),
        decreases bytes@.len() - i,
    {
        let byte: u8 = bytes[i];
        text.push(digit_of(byte / 16));
        text.push(digit_of(byte % 16));
        assert(text@ =~= rendered(bytes@.subrange(0, i + 1)));
        i = i + 1;
    }
    assert(bytes@.subrange(0, bytes@.len() as int) =~= bytes@);
    text
}

/// Rendered bytes are twice as many digits, none of them a separator.
pub proof fn lemma_rendered_shape(bytes: Seq<u8>)
    ensures
        rendered(bytes).len() == 2 * bytes.len(),
        forall|i: int| 0 <= i < rendered(bytes).len() ==> is_digit(#[trigger] rendered(bytes)[i]),
        is_plain(rendered(bytes)),
        bytes.len() == ENTROPY_LEN ==> is_name(rendered(bytes)),
{
    assert forall|i: int| 0 <= i < rendered(bytes).len() implies is_digit(
        #[trigger] rendered(bytes)[i],
    ) by {
        let byte = bytes[i / 2];
        assert(byte / 16 < 16 && byte % 16 < 16);
    }
    assert forall|i: int| 0 <= i < rendered(bytes).len() implies rendered(bytes)[i]
        != SEPARATOR by {
        assert(is_digit(rendered(bytes)[i]));
    }
}

/// Different bytes never render to the same text.
pub proof fn lemma_rendered_injective(a: Seq<u8>, b: Seq<u8>)
    requires
        rendered(a) == rendered(b),
    ensures
        a == b,
{
    assert(rendered(a).len() == 2 * a.len());
    assert(rendered(b).len() == 2 * b.len());
    assert forall|k: int| 0 <= k < a.len() implies a[k] == b[k] by {
        let x = a[k];
        let y = b[k];
        assert(rendered(a)[2 * k] == digit(x / 16));
        assert(rendered(b)[2 * k] == digit(y / 16));
        assert(rendered(a)[2 * k + 1] == digit(x % 16));
        assert(rendered(b)[2 * k + 1] == digit(y % 16));
        assert(x / 16 < 16 && x % 16 < 16 && y / 16 < 16 && y % 16 < 16);
        assert(x / 16 == y / 16);
        assert(x % 16 == y % 16);
    }
    assert(a =~= b);
}

/// The name that the given random bytes stand for, unless it is the last
/// component of `path`: a file is never renamed to the name it has.
pub fn candidate(entropy: &Vec<u8>, path: &Vec<u8>) -> (name: Option<Vec<u8>>)
    ensures
        name is Some <==> rendered(entropy@) != file_name(path@),
        name matches Some(n) ==> n@ == rendered(entropy@),
{
    let text = render(entropy);
    if is_named(path, &text) {
        None
    } else {
        Some(text)
    }
}

/// The name that a draw from the entropy source stands for: none where the
/// draw failed, and none where the bytes drawn give the very name that the
/// file at `path` already has; otherwise the bytes written out.
pub fn name_of_draw(drawn: Result<(), RandomError>, entropy: &Vec<u8>, path: &Vec<u8>) -> (name:
    Result<Vec<u8>, RandomError>)
    ensures
        name is Ok <==> drawn is Ok && rendered(entropy@) != file_name(path@),
        name matches Ok(n) ==> n@ == rendered(entropy@),
{
    match drawn {
        Err(e) => Err(e),
        Ok(()) => match candidate(entropy, path) {
            Some(n) => Ok(n),
            None => Err(RandomError {  }),
        },
    }
}

/// A fresh name for the file at `path`, from the system's entropy source.
/// It fails where the source fails, and where the source gives the very
/// name that the file already has.
pub fn random_name(path: &Vec<u8>) -> (name: Result<Vec<u8>, RandomError>)
    ensures
        name matches Ok(n) ==> is_name(n@) && is_plain(n@) && n@ != file_name(path@),
{
    let mut entropy: Vec<u8> = Vec::new();
    let mut i: usize = 0;
    while i < ENTROPY_LEN
        invariant
            i <= ENTROPY_LEN,
            entropy@.len() == i,
        decreases ENTROPY_LEN - i,
    {
        entropy.push(0u8);
        i = i + 1;
    }
    let drawn = fill(&mut entropy);
    proof {
        lemma_rendered_shape(entropy@);
    }
    name_of_draw(drawn, &entropy, path)
}

} // verus!
