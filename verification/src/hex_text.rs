use vstd::prelude::*;

verus! {

/// The lower-case hexadecimal digit for a value from 0 to 15.
pub open spec fn hex_digit(nibble: int) -> char {
    if nibble < 10 {
        ((0x30 + nibble) as u8) as char
    } else {
        ((0x61 + nibble - 10) as u8) as char
    }
}

/// The lower-case hexadecimal text of `bytes`: two digits for each byte, the
/// high half first.
pub open spec fn hex_text(bytes: Seq<u8>) -> Seq<char> {
    Seq::new(
        2 * bytes.len(),
        |k: int|
            hex_digit(
                if k % 2 == 0 {
                    bytes[k / 2] as int / 16
                } else {
                    bytes[k / 2] as int % 16
                },
            ),
    )
}

/// `hex::encode`: each byte becomes two lower-case hexadecimal digits, in the
/// order of the bytes.
#[verifier::external_body]
pub(crate) fn hex_encode(data: &[u8]) -> (text: String)
    ensures
        text@ == hex_text(data@),
{
    hex::encode(data)
}

} // verus!
