//! Paths as `file://` URLs, as the desktop's media-player interface passes
//! them.

use vstd::prelude::*;
use vstd::slice::slice_subrange;
use vstd::string::*;

verus! {

/// Whether `byte` stands for itself in a URL: a letter or a digit of
/// ASCII, or one of `-`, `.`, `_`, `~`.
pub open spec fn is_unreserved(byte: u8) -> bool {
    ||| 0x30 <= byte <= 0x39
    ||| 0x41 <= byte <= 0x5A
    ||| 0x61 <= byte <= 0x7A
    ||| byte == 0x2D
    ||| byte == 0x2E
    ||| byte == 0x5F
    ||| byte == 0x7E
}

/// The digit of the hexadecimal notation for `value`, in upper case.
pub open spec fn hex_digit(value: u8) -> char {
    if value < 10 {
        (0x30 + value) as char
    } else {
        (0x41 + value - 10) as char
    }
}

/// What `byte` becomes in a URL: itself, or a `%` and its two hexadecimal
/// digits.
pub open spec fn encoded_byte(byte: u8) -> Seq<char> {
    if is_unreserved(byte) {
        seq![byte as char]
    } else {
        seq!['%', hex_digit(byte / 16), hex_digit(byte % 16)]
    }
}

/// What `bytes` become in a URL, byte by byte.
pub open spec fn percent_encoded(bytes: Seq<u8>) -> Seq<char>
    decreases bytes.len(),
{
    if bytes.len() == 0 {
        Seq::empty()
    } else {
        percent_encoded(bytes.drop_last()) + encoded_byte(bytes.last())
    }
}

/// `urlencoding::encode_binary`: every byte but the letters and digits of
/// ASCII and `-`, `.`, `_`, `~` is replaced by a `%` and its two
/// hexadecimal digits in upper case.
#[verifier::external_body]
fn percent_encode(bytes: &[u8]) -> (text: String)
    ensures
        text@ == percent_encoded(bytes@),
{
    urlencoding::encode_binary(bytes).into_owned()
}

/// The bytes that `bytes` stand for in a URL, as
/// `urlencoding::decode_binary` reads them: a `%` with two hexadecimal
/// digits behind it is one byte, every other byte is itself.
pub uninterp spec fn percent_decoded(bytes: Seq<u8>) -> Seq<u8>;

/// `urlencoding::decode_binary`: the bytes that `bytes` stand for.
#[verifier::external_body]
fn percent_decode(bytes: &[u8]) -> (decoded: Vec<u8>)
    ensures
        decoded@ == percent_decoded(bytes@),
{
    urlencoding::decode_binary(bytes).into_owned()
}

/// The path part of a URL for a path with the given components: each
/// component encoded, with a `/` before it.
pub open spec fn encoded_path(components: Seq<Vec<u8>>, upto: nat) -> Seq<char>
    decreases upto,
{
    if upto == 0 || upto > components.len() {
        Seq::empty()
    } else {
        encoded_path(components, (upto - 1) as nat) + seq!['/'] + percent_encoded(
            components[upto - 1]@,
        )
    }
}

/// The `file://` URL of the absolute path with the given components.
pub open spec fn file_url_of(components: Seq<Vec<u8>>) -> Seq<char> {
    "file://"@ + encoded_path(components, components.len())
}

/// The `file://` URL of the absolute path with the given components: the
/// names between the separators of the path, from the root down.
pub fn encode_file_url(components: &Vec<Vec<u8>>) -> (url: String)
    ensures
        url@ == file_url_of(components@),
{
    let mut url = "file://".to_owned();
    let mut i: usize = 0;
    proof {
        reveal_strlit("/");
        assert(url@ =~= "file://"@ + encoded_path(components@, 0));
    }
    while i < components.len()
        invariant
            i <= components@.len(),
            "/"@ == seq!['/'],
            url@ == "file://"@ + encoded_path(components@, i as nat),
        decreases components@.len() - i,
    {
        url.append("/");
        let part = percent_encode(components[i].as_slice());
        url.append(part.as_str());
        i += 1;
        assert(url@ =~= "file://"@ + encoded_path(components@, i as nat));
    }
    url
}

/// The bytes of `file://`.
pub open spec fn scheme() -> Seq<u8> {
    seq![0x66u8, 0x69u8, 0x6Cu8, 0x65u8, 0x3Au8, 0x2Fu8, 0x2Fu8]
}

/// The path that a URL names, given the bytes of the URL: what stands
/// behind `file://`, decoded. A URL that does not begin with `file://`
/// names no path.
pub open spec fn spec_decode_file_url(url: Seq<u8>) -> Option<Seq<u8>> {
    if url.len() >= 7 && url.subrange(0, 7) == scheme() {
        Some(percent_decoded(url.subrange(7, url.len() as int)))
    } else {
        None
    }
}

/// The bytes of the path that `file_url` names, if it is a `file://` URL.
pub fn decode_file_url(file_url: &str) -> (path: Option<Vec<u8>>)
    ensures
        match path {
            Some(path) => spec_decode_file_url(file_url.spec_bytes()) == Some(path@),
            None => spec_decode_file_url(file_url.spec_bytes()) is None,
        },
{
    let bytes = file_url.as_bytes();
    if bytes.len() < 7 {
        return None;
    }
    let begins = bytes[0] == 0x66 && bytes[1] == 0x69 && bytes[2] == 0x6C && bytes[3] == 0x65
        && bytes[4] == 0x3A && bytes[5] == 0x2F && bytes[6] == 0x2F;
    if !begins {
        assert(bytes@.subrange(0, 7) != scheme()) by {
            if bytes@.subrange(0, 7) == scheme() {
                assert(forall|i: int| 0 <= i < 7 ==> bytes@.subrange(0, 7)[i] == scheme()[i]);
                assert(bytes@.subrange(0, 7)[0] == bytes@[0]);
                assert(bytes@.subrange(0, 7)[1] == bytes@[1]);
                assert(bytes@.subrange(0, 7)[2] == bytes@[2]);
                assert(bytes@.subrange(0, 7)[3] == bytes@[3]);
                assert(bytes@.subrange(0, 7)[4] == bytes@[4]);
                assert(bytes@.subrange(0, 7)[5] == bytes@[5]);
                assert(bytes@.subrange(0, 7)[6] == bytes@[6]);
            }
        }
        return None;
    }
    assert(bytes@.subrange(0, 7) =~= scheme());
    let rest = slice_subrange(bytes, 7, bytes.len());
    Some(percent_decode(rest))
}

} // verus!
