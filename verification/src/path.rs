//! The shape of a path: whether it denotes a directory.

use vstd::prelude::*;
use vstd::utf8::*;

verus! {

/// A path is directory-shaped when it is the root `/` or its last character
/// is `/`. Nothing is normalised: `a//` is a directory, `a\` is not.
pub open spec fn is_directory_shaped(path: Seq<char>) -> bool {
    path =~= seq!['/'] || (path.len() > 0 && path.last() == '/')
}

/// Whether `path` denotes a directory.
///
/// Looks at the last byte only: in UTF-8 the byte `0x2f` never occurs inside
/// the encoding of another character, so the last byte is `/` exactly when
/// the last character is.
pub fn is_directory_path(path: &str) -> (dir: bool)
    ensures
        dir == is_directory_shaped(path@),
{
    let bytes = path.as_bytes();
    let n: usize = bytes.len();
    proof {
        lemma_last_byte_is_slash(path@);
    }
    n > 0 && bytes[n - 1] == 0x2f
}

/// A one-byte scalar is encoded as itself.
proof fn lemma_single_byte_slash(scalar: u32)
    by (bit_vector)
    requires
        scalar <= 0x7f,
    ensures
        (scalar & 0x7F) as u8 == 0x2fu8 <==> scalar == 0x2fu32,
{
}

/// A continuation byte has its high bit set, so it is never `/`.
proof fn lemma_continuation_byte_not_slash(scalar: u32)
    by (bit_vector)
    ensures
        (0x80u8 | (scalar & 0x3F) as u8) != 0x2fu8,
{
}

/// The encoding of one character ends in the byte `/` exactly when the
/// character is `/`.
proof fn lemma_scalar_last_byte(c: char)
    ensures
        encode_scalar(c as u32).len() > 0,
        encode_scalar(c as u32).last() == 0x2fu8 <==> c == '/',
{
    let scalar = c as u32;
    if has_width_1_encoding(scalar) {
        lemma_single_byte_slash(scalar);
    } else {
        lemma_continuation_byte_not_slash(scalar);
    }
}

/// The encoding of a string is empty exactly when the string is, and ends in
/// the byte `/` exactly when the string ends in the character `/`.
proof fn lemma_last_byte_is_slash(chars: Seq<char>)
    ensures
        encode_utf8(chars).len() > 0 <==> chars.len() > 0,
        chars.len() > 0 ==> (encode_utf8(chars).last() == 0x2fu8 <==> chars.last() == '/'),
    decreases chars.len(),
{
    if chars.len() > 0 {
        let rest = chars.drop_first();
        lemma_scalar_last_byte(chars[0]);
        lemma_last_byte_is_slash(rest);
        if rest.len() > 0 {
            assert(chars.last() == rest.last());
        }
    }
}

} // verus!
