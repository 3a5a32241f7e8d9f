//! The items of the wire format: a length behind a marker, and text behind
//! its length. They are written and read by `rmp`.

use vstd::prelude::*;
use vstd::utf8::{decode_utf8, encode_utf8, valid_utf8};

verus! {

/// The markers of one kind of length: `limit` short forms that hold the
/// length in the marker itself, from `fix` on; for text a form with one byte
/// of length; a form with two bytes and a form with four.
pub struct Family {
    pub fix: u8,
    pub limit: nat,
    pub has_byte: bool,
    pub byte: u8,
    pub pair: u8,
    pub quad: u8,
}

/// The markers of a text's length.
pub open spec fn str_family() -> Family {
    Family { fix: 0xa0, limit: 32, has_byte: true, byte: 0xd9, pair: 0xda, quad: 0xdb }
}

/// The markers of an array's length.
pub open spec fn array_family() -> Family {
    Family { fix: 0x90, limit: 16, has_byte: false, byte: 0xd9, pair: 0xdc, quad: 0xdd }
}

/// The markers of a map's length.
pub open spec fn map_family() -> Family {
    Family { fix: 0x80, limit: 16, has_byte: false, byte: 0xd9, pair: 0xde, quad: 0xdf }
}

/// The greatest length that the format can hold.
pub open spec fn max_len() -> nat {
    0xffff_ffff
}

/// A length as it is written: in the shortest form that holds it, most
/// significant byte first.
pub open spec fn header(f: Family, len: nat) -> Seq<u8> {
    if len < f.limit {
        seq![(f.fix + len) as u8]
    } else if f.has_byte && len < 256 {
        seq![f.byte, len as u8]
    } else if len < 65536 {
        seq![f.pair, (len / 256) as u8, (len % 256) as u8]
    } else {
        seq![
            f.quad,
            (len / 16777216) as u8,
            (len / 65536 % 256) as u8,
            (len / 256 % 256) as u8,
            (len % 256) as u8,
        ]
    }
}

/// The length that stands at the start of `bytes` in any of the forms of
/// `f`, and the bytes behind it; `None` where the first byte is no marker of
/// `f` or the bytes end inside the length.
pub open spec fn head(f: Family, bytes: Seq<u8>) -> Option<(nat, Seq<u8>)> {
    if bytes.len() == 0 {
        None
    } else if f.fix <= bytes[0] < f.fix + f.limit {
        Some(((bytes[0] - f.fix) as nat, bytes.skip(1)))
    } else if f.has_byte && bytes[0] == f.byte {
        if bytes.len() < 2 {
            None
        } else {
            Some((bytes[1] as nat, bytes.skip(2)))
        }
    } else if bytes[0] == f.pair {
        if bytes.len() < 3 {
            None
        } else {
            Some(((bytes[1] * 256 + bytes[2]) as nat, bytes.skip(3)))
        }
    } else if bytes[0] == f.quad {
        if bytes.len() < 5 {
            None
        } else {
            Some(
                (
                    (bytes[1] * 16777216 + bytes[2] * 65536 + bytes[3] * 256 + bytes[4]) as nat,
                    bytes.skip(5),
                ),
            )
        }
    } else {
        None
    }
}

/// A text as it is written: the length of its UTF-8 form, then that form.
pub open spec fn text_bytes(text: Seq<char>) -> Seq<u8> {
    header(str_family(), encode_utf8(text).len()) + encode_utf8(text)
}

/// Whether a text is short enough to be written.
pub open spec fn fits(text: Seq<char>) -> bool {
    encode_utf8(text).len() <= max_len()
}

/// The text that stands at the start of `bytes`, and the bytes behind it;
/// `None` where no length stands there, the bytes end before the text does,
/// or the text is no UTF-8.
pub open spec fn text_at(bytes: Seq<u8>) -> Option<(Seq<char>, Seq<u8>)> {
    match head(str_family(), bytes) {
        Some((len, rest)) => if len <= rest.len() && valid_utf8(rest.take(len as int)) {
            Some((decode_utf8(rest.take(len as int)), rest.skip(len as int)))
        } else {
            None
        },
        None => None,
    }
}

/// Calls `rmp::encode::write_str` on a vector, which appends the length of
/// the text's UTF-8 form in the shortest form and then that form. Writing
/// to a vector does not fail. The call cuts a length down to 32 bits, so a
/// longer text is left out.
#[verifier::external_body]
pub(crate) fn write_str(buf: &mut Vec<u8>, text: &str)
    requires
        fits(text@),
    ensures
        final(buf)@ == old(buf)@ + text_bytes(text@),
{
    let _ = rmp::encode::write_str(buf, text);
}

/// Calls `rmp::encode::write_array_len` on a vector, which appends the
/// length in the shortest form of an array's length.
#[verifier::external_body]
pub(crate) fn write_array_len(buf: &mut Vec<u8>, len: u32)
    ensures
        final(buf)@ == old(buf)@ + header(array_family(), len as nat),
{
    let _ = rmp::encode::write_array_len(buf, len);
}

/// Calls `rmp::encode::write_map_len` on a vector, which appends the length
/// in the shortest form of a map's length.
#[verifier::external_body]
pub(crate) fn write_map_len(buf: &mut Vec<u8>, len: u32)
    ensures
        final(buf)@ == old(buf)@ + header(map_family(), len as nat),
{
    let _ = rmp::encode::write_map_len(buf, len);
}

/// Calls `rmp::decode::read_str_len` on a slice, which reads a text's
/// length in any of its four forms and leaves the slice behind it. Any
/// error of the call is `None` here.
#[verifier::external_body]
pub(crate) fn read_str_len<'a>(input: &'a [u8]) -> (r: Option<(u32, &'a [u8])>)
    ensures
        r matches Some((len, rest)) ==> head(str_family(), input@) == Some((len as nat, rest@)),
        r is None ==> head(str_family(), input@) is None,
{
    let mut rd = input;
    match rmp::decode::read_str_len(&mut rd) {
        Ok(len) => Some((len, rd)),
        Err(_) => None,
    }
}

/// Calls `rmp::decode::read_array_len` on a slice, which reads an array's
/// length in any of its three forms and leaves the slice behind it. Any
/// error of the call is `None` here.
#[verifier::external_body]
pub(crate) fn read_array_len<'a>(input: &'a [u8]) -> (r: Option<(u32, &'a [u8])>)
    ensures
        r matches Some((len, rest)) ==> head(array_family(), input@) == Some((len as nat, rest@)),
        r is None ==> head(array_family(), input@) is None,
{
    let mut rd = input;
    match rmp::decode::read_array_len(&mut rd) {
        Ok(len) => Some((len, rd)),
        Err(_) => None,
    }
}

/// Calls `rmp::decode::read_map_len` on a slice, which reads a map's length
/// in any of its three forms and leaves the slice behind it. Any error of
/// the call is `None` here.
#[verifier::external_body]
pub(crate) fn read_map_len<'a>(input: &'a [u8]) -> (r: Option<(u32, &'a [u8])>)
    ensures
        r matches Some((len, rest)) ==> head(map_family(), input@) == Some((len as nat, rest@)),
        r is None ==> head(map_family(), input@) is None,
{
    let mut rd = input;
    match rmp::decode::read_map_len(&mut rd) {
        Ok(len) => Some((len, rd)),
        Err(_) => None,
    }
}

/// Calls `std::str::from_utf8`, which accepts exactly the bytes that are
/// valid UTF-8 and gives the text that they encode, here as an owned string.
#[verifier::external_body]
pub(crate) fn text_of(bytes: &[u8]) -> (r: Option<String>)
    ensures
        r is Some <==> valid_utf8(bytes@),
        r matches Some(text) ==> text@ == decode_utf8(bytes@),
{
    match std::str::from_utf8(bytes) {
        Ok(text) => Some(text.to_owned()),
        Err(_) => None,
    }
}

/// Reads the text at the start of `input`.
pub fn read_text<'a>(input: &'a [u8]) -> (r: Option<(String, &'a [u8])>)
    ensures
        r matches Some((text, rest)) ==> text_at(input@) == Some((text@, rest@)),
        r is None ==> text_at(input@) is None,
{
    match read_str_len(input) {
        None => None,
        Some((len, rest)) => {
            let n: usize = len as usize;
            if n > rest.len() {
                return None;
            }
            let (data, tail) = rest.split_at(n);
            assert(data@ =~= rest@.take(n as int));
            assert(tail@ =~= rest@.skip(n as int));
            match text_of(data) {
                None => None,
                Some(text) => Some((text, tail)),
            }
        },
    }
}

/// A length that was written in one of the three kinds is read back as it
/// was, whatever stands behind it.
pub proof fn head_of_header(f: Family, len: nat, rest: Seq<u8>)
    requires
        f == str_family() || f == array_family() || f == map_family(),
        len <= max_len(),
    ensures
        head(f, header(f, len) + rest) == Some((len, rest)),
{
    let h = header(f, len);
    let b = h + rest;
    assert(b[0] == h[0]);
    if len < f.limit {
        assert(b.skip(1) =~= rest);
    } else if f.has_byte && len < 256 {
        assert(b[1] == h[1]);
        assert(b.skip(2) =~= rest);
    } else if len < 65536 {
        assert(b[1] == h[1] && b[2] == h[2]);
        assert(b.skip(3) =~= rest);
    } else {
        assert(b[1] == h[1] && b[2] == h[2] && b[3] == h[3] && b[4] == h[4]);
        assert(b.skip(5) =~= rest);
    }
}

/// A text that was written is read back as it was, whatever stands behind
/// it.
pub proof fn text_at_text_bytes(text: Seq<char>, rest: Seq<u8>)
    requires
        fits(text),
    ensures
        text_at(text_bytes(text) + rest) == Some((text, rest)),
{
    broadcast use vstd::utf8::encode_utf8_valid_utf8, vstd::utf8::encode_utf8_decode_utf8;

    let body = encode_utf8(text);
    let len = body.len();
    head_of_header(str_family(), len, body + rest);
    assert(text_bytes(text) + rest =~= header(str_family(), len) + (body + rest));
    assert((body + rest).take(len as int) =~= body);
    assert((body + rest).skip(len as int) =~= rest);
}

} // verus!
