//! The two messages on the wire. A message is a map from the names of its
//! fields to their values, the fields in the order of their declaration.

use crate::error::{ErrorModel, ProviderError};
use crate::shell::{texts_of, InvokeRequest, InvokeResponse, RequestModel, ResponseModel};
use crate::text::same_text;
use crate::wire::{
    array_family, fits, head, header, map_family, max_len, read_array_len, read_map_len,
    read_text, text_at, text_bytes, write_array_len, write_map_len, write_str,
};
use vstd::prelude::*;
use vstd::utf8::{encode_utf8, is_ascii_chars, is_ascii_chars_encode_utf8};

verus! {

/// The name of a request's first field.
pub open spec fn command_key() -> Seq<char> {
    "command"@
}

/// The name of a request's second field.
pub open spec fn args_key() -> Seq<char> {
    "args"@
}

/// The name of a response's field.
pub open spec fn output_key() -> Seq<char> {
    "output"@
}

/// The text of the error for a payload that has not the layout of the
/// message asked for.
pub open spec fn layout_fault() -> Seq<char> {
    "payload does not have the layout of the message"@
}

/// The text of the error for a message with a text or a list too long for
/// the format.
pub open spec fn length_fault() -> Seq<char> {
    "a length in the message exceeds 32 bits"@
}

/// Texts as they are written, one behind the other.
pub open spec fn texts_bytes(items: Seq<Seq<char>>) -> Seq<u8>
    decreases items.len(),
{
    if items.len() == 0 {
        Seq::empty()
    } else {
        texts_bytes(items.drop_last()) + text_bytes(items.last())
    }
}

/// The `count` texts that stand at the start of `bytes`, put behind `done`,
/// and the bytes behind them; `None` where fewer stand there.
pub open spec fn texts_at(bytes: Seq<u8>, count: nat, done: Seq<Seq<char>>) -> Option<
    (Seq<Seq<char>>, Seq<u8>),
>
    decreases count,
{
    if count == 0 {
        Some((done, bytes))
    } else {
        match text_at(bytes) {
            Some((text, rest)) => texts_at(rest, (count - 1) as nat, done.push(text)),
            None => None,
        }
    }
}

/// The bytes behind the text `key`, where `bytes` start with that text.
pub open spec fn key_at(bytes: Seq<u8>, key: Seq<char>) -> Option<Seq<u8>> {
    match text_at(bytes) {
        Some((text, rest)) => if text == key {
            Some(rest)
        } else {
            None
        },
        None => None,
    }
}

/// Whether every length in a request can be written.
pub open spec fn request_fits(request: RequestModel) -> bool {
    &&& fits(request.command)
    &&& request.args.len() <= max_len()
    &&& forall|i: int| 0 <= i < request.args.len() ==> fits(#[trigger] request.args[i])
}

/// Whether every length in a response can be written.
pub open spec fn response_fits(response: ResponseModel) -> bool {
    fits(response.output)
}

/// A request on the wire: a map of two entries, the command under its name
/// and the list of arguments under its name.
pub open spec fn request_bytes(request: RequestModel) -> Seq<u8> {
    header(map_family(), 2) + text_bytes(command_key()) + text_bytes(request.command) + text_bytes(
        args_key(),
    ) + header(array_family(), request.args.len()) + texts_bytes(request.args)
}

/// A response on the wire: a map of one entry, the output under its name.
pub open spec fn response_bytes(response: ResponseModel) -> Seq<u8> {
    header(map_family(), 1) + text_bytes(output_key()) + text_bytes(response.output)
}

/// The list of arguments that `bytes` hold from their start to their end.
pub open spec fn args_at(bytes: Seq<u8>) -> Option<Seq<Seq<char>>> {
    match head(array_family(), bytes) {
        Some((count, rest)) => match texts_at(rest, count, Seq::empty()) {
            Some((args, end)) => if end.len() == 0 {
                Some(args)
            } else {
                None
            },
            None => None,
        },
        None => None,
    }
}

/// The request that `bytes` hold, where they have exactly its layout: the
/// two fields under their names, in their order, and nothing behind them.
pub open spec fn request_at(bytes: Seq<u8>) -> Option<RequestModel> {
    match head(map_family(), bytes) {
        Some((fields, b1)) => match key_at(b1, command_key()) {
            Some(b2) => match text_at(b2) {
                Some((command, b3)) => match key_at(b3, args_key()) {
                    Some(b4) => match args_at(b4) {
                        Some(args) => if fields == 2 {
                            Some(RequestModel { command, args })
                        } else {
                            None
                        },
                        None => None,
                    },
                    None => None,
                },
                None => None,
            },
            None => None,
        },
        None => None,
    }
}

/// The response that `bytes` hold, where they have exactly its layout: the
/// one field under its name, and nothing behind it.
pub open spec fn response_at(bytes: Seq<u8>) -> Option<ResponseModel> {
    match head(map_family(), bytes) {
        Some((fields, b1)) => match key_at(b1, output_key()) {
            Some(b2) => match text_at(b2) {
                Some((output, end)) => if fields == 1 && end.len() == 0 {
                    Some(ResponseModel { output })
                } else {
                    None
                },
                None => None,
            },
            None => None,
        },
        None => None,
    }
}

/// Where `count` texts are read and one more stands behind them, `count + 1`
/// texts are read: the same and that one.
pub proof fn texts_at_one_more(
    bytes: Seq<u8>,
    count: nat,
    done: Seq<Seq<char>>,
    found: Seq<Seq<char>>,
    mid: Seq<u8>,
    text: Seq<char>,
    rest: Seq<u8>,
)
    requires
        texts_at(bytes, count, done) == Some((found, mid)),
        text_at(mid) == Some((text, rest)),
    ensures
        texts_at(bytes, count + 1, done) == Some((found.push(text), rest)),
    decreases count,
{
    if count == 0 {
        assert(texts_at(rest, 0, done.push(text)) == Some((done.push(text), rest)));
    } else {
        let (first, behind) = text_at(bytes).unwrap();
        texts_at_one_more(behind, (count - 1) as nat, done.push(first), found, mid, text, rest);
    }
}

/// The names of the fields are short enough to be written.
pub proof fn keys_fit()
    ensures
        fits(command_key()),
        fits(args_key()),
        fits(output_key()),
{
    reveal_strlit("command");
    reveal_strlit("args");
    reveal_strlit("output");
    assert(is_ascii_chars(command_key()));
    assert(is_ascii_chars(args_key()));
    assert(is_ascii_chars(output_key()));
    is_ascii_chars_encode_utf8(command_key());
    is_ascii_chars_encode_utf8(args_key());
    is_ascii_chars_encode_utf8(output_key());
}

/// Whether a text is short enough to be written.
pub fn text_fits(text: &str) -> (r: bool)
    ensures
        r == fits(text@),
{
    text.as_bytes().len() <= 0xffff_ffff
}

/// Whether every length in a request can be written.
pub fn fits_wire(request: &InvokeRequest) -> (r: bool)
    ensures
        r == request_fits(request@),
{
    if !text_fits(request.command.as_str()) || request.args.len() > 0xffff_ffff {
        return false;
    }
    let mut i: usize = 0;
    while i < request.args.len()
        invariant
            i <= request.args.len(),
            forall|j: int| 0 <= j < i ==> fits(#[trigger] request@.args[j]),
        decreases request.args.len() - i,
    {
        if !text_fits(request.args[i].as_str()) {
            assert(!fits(request@.args[i as int]));
            return false;
        }
        i = i + 1;
    }
    true
}

/// Writes a request. It fails on a request with a length that the format
/// cannot hold, and on no other.
pub fn encode_request(request: &InvokeRequest) -> (r: Result<Vec<u8>, ProviderError>)
    ensures
        request_fits(request@) ==> (r matches Ok(bytes) && bytes@ == request_bytes(request@)),
        !request_fits(request@) ==> (r matches Err(error) && error@ == ErrorModel::Encode(
            length_fault(),
        )),
{
    if !fits_wire(request) {
        return Err(ProviderError::Encode("a length in the message exceeds 32 bits".to_owned()));
    }
    proof {
        keys_fit();
    }
    let mut buf: Vec<u8> = Vec::new();
    write_map_len(&mut buf, 2);
    write_str(&mut buf, "command");
    write_str(&mut buf, request.command.as_str());
    write_str(&mut buf, "args");
    write_array_len(&mut buf, request.args.len() as u32);
    let ghost base = buf@;
    let mut i: usize = 0;
    while i < request.args.len()
        invariant
            i <= request.args.len(),
            request_fits(request@),
            buf@ == base + texts_bytes(request@.args.take(i as int)),
        decreases request.args.len() - i,
    {
        proof {
            let next = request@.args.take(i + 1);
            assert(next.drop_last() =~= request@.args.take(i as int));
            assert(next.last() == request@.args[i as int]);
        }
        write_str(&mut buf, request.args[i].as_str());
        i = i + 1;
    }
    proof {
        assert(request@.args.take(i as int) =~= request@.args);
        assert(base =~= header(map_family(), 2) + text_bytes(command_key()) + text_bytes(
            request@.command,
        ) + text_bytes(args_key()) + header(array_family(), request@.args.len()));
    }
    Ok(buf)
}

/// Writes a response. It fails on an output too long for the format, and on
/// no other.
pub fn encode_response(response: &InvokeResponse) -> (r: Result<Vec<u8>, ProviderError>)
    ensures
        response_fits(response@) ==> (r matches Ok(bytes) && bytes@ == response_bytes(response@)),
        !response_fits(response@) ==> (r matches Err(error) && error@ == ErrorModel::Encode(
            length_fault(),
        )),
{
    if !text_fits(response.output.as_str()) {
        return Err(ProviderError::Encode("a length in the message exceeds 32 bits".to_owned()));
    }
    proof {
        keys_fit();
    }
    let mut buf: Vec<u8> = Vec::new();
    write_map_len(&mut buf, 1);
    write_str(&mut buf, "output");
    write_str(&mut buf, response.output.as_str());
    assert(buf@ =~= response_bytes(response@));
    Ok(buf)
}

/// Reads `count` texts from the start of `input`.
pub fn read_texts<'a>(input: &'a [u8], count: u32) -> (r: Option<(Vec<String>, &'a [u8])>)
    ensures
        r matches Some((texts, rest)) ==> texts_at(input@, count as nat, Seq::empty()) == Some(
            (texts_of(texts@), rest@),
        ),
        r is None ==> texts_at(input@, count as nat, Seq::empty()) is None,
{
    let mut texts: Vec<String> = Vec::new();
    let mut rest = input;
    let mut i: u32 = 0;
    assert(texts_of(texts@) =~= Seq::empty());
    while i < count
        invariant
            i <= count,
            texts_at(input@, count as nat, Seq::empty()) == texts_at(
                rest@,
                (count - i) as nat,
                texts_of(texts@),
            ),
        decreases count - i,
    {
        match read_text(rest) {
            None => {
                return None;
            },
            Some((text, tail)) => {
                assert(texts_of(texts@.push(text)) =~= texts_of(texts@).push(text@));
                texts.push(text);
                rest = tail;
            },
        }
        i = i + 1;
    }
    Some((texts, rest))
}

/// Reads the text `key` from the start of `input`.
fn read_key<'a>(input: &'a [u8], key: &str) -> (r: Option<&'a [u8]>)
    ensures
        r matches Some(rest) ==> key_at(input@, key@) == Some(rest@),
        r is None ==> key_at(input@, key@) is None,
{
    match read_text(input) {
        None => None,
        Some((text, rest)) => if same_text(text.as_str(), key) {
            Some(rest)
        } else {
            None
        },
    }
}

/// Reads the list of arguments that fills `input`.
fn read_args(input: &[u8]) -> (r: Option<Vec<String>>)
    ensures
        r matches Some(args) ==> args_at(input@) == Some(texts_of(args@)),
        r is None ==> args_at(input@) is None,
{
    match read_array_len(input) {
        None => None,
        Some((count, rest)) => match read_texts(rest, count) {
            None => None,
            Some((args, end)) => if end.len() == 0 {
                Some(args)
            } else {
                None
            },
        },
    }
}

/// Reads the request that `input` holds, if any.
pub fn read_request(input: &[u8]) -> (r: Option<InvokeRequest>)
    ensures
        r matches Some(request) ==> request_at(input@) == Some(request@),
        r is None ==> request_at(input@) is None,
{
    let (fields, b1) = match read_map_len(input) {
        None => { return None; },
        Some(found) => found,
    };
    let b2 = match read_key(b1, "command") {
        None => { return None; },
        Some(found) => found,
    };
    let (command, b3) = match read_text(b2) {
        None => { return None; },
        Some(found) => found,
    };
    let b4 = match read_key(b3, "args") {
        None => { return None; },
        Some(found) => found,
    };
    let args = match read_args(b4) {
        None => { return None; },
        Some(found) => found,
    };
    if fields != 2 {
        return None;
    }
    Some(InvokeRequest::new(command, args))
}

/// Reads a request. It fails on every payload that has not exactly the
/// layout of a request.
pub fn decode_request(input: &[u8]) -> (r: Result<InvokeRequest, ProviderError>)
    ensures
        r matches Ok(request) ==> request_at(input@) == Some(request@),
        r matches Err(error) ==> request_at(input@) is None && error@ == ErrorModel::Decode(
            layout_fault(),
        ),
{
    match read_request(input) {
        Some(request) => Ok(request),
        None => Err(
            ProviderError::Decode("payload does not have the layout of the message".to_owned()),
        ),
    }
}

/// Reads a response. It fails on every payload that has not exactly the
/// layout of a response.
pub fn decode_response(input: &[u8]) -> (r: Result<InvokeResponse, ProviderError>)
    ensures
        r matches Ok(response) ==> response_at(input@) == Some(response@),
        r matches Err(error) ==> response_at(input@) is None && error@ == ErrorModel::Decode(
            layout_fault(),
        ),
{
    let fault = "payload does not have the layout of the message";
    let (fields, b1) = match read_map_len(input) {
        None => { return Err(ProviderError::Decode(fault.to_owned())); },
        Some(found) => found,
    };
    let b2 = match read_key(b1, "output") {
        None => { return Err(ProviderError::Decode(fault.to_owned())); },
        Some(found) => found,
    };
    let (output, end) = match read_text(b2) {
        None => { return Err(ProviderError::Decode(fault.to_owned())); },
        Some(found) => found,
    };
    if fields != 1 || end.len() != 0 {
        return Err(ProviderError::Decode(fault.to_owned()));
    }
    Ok(InvokeResponse::new(output))
}

} // verus!
