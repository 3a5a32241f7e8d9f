//! What holds of every call: of the dispatch policy, of the messages on the
//! wire, and of the ways an invoke call can end.

use crate::binding::{bind_operation, configuration_bytes, nesting_fault, system_actor};
use crate::depth::{item_at, shallow, shallow_from, Item};
use crate::codec::{
    args_at, args_key, command_key, keys_fit, output_key, request_at, request_bytes,
    request_fits, response_at, response_bytes, response_fits, texts_at, texts_at_one_more,
    texts_bytes,
};
use crate::error::ErrorModel;
use crate::invoke::{concluded, OutcomeModel};
use crate::provider::{dispatch, invoked, StepModel};
use crate::shell::{invoke_operation, RequestModel, ResponseModel};
use crate::wire::{max_len, str_family, 
    array_family, fits, head_of_header, header, map_family, text_at_text_bytes, text_bytes,
};
use vstd::prelude::*;
use vstd::utf8::encode_utf8;

verus! {

/// The binding operation and the invoke operation have different tags.
pub proof fn operations_differ()
    ensures
        bind_operation() != invoke_operation(),
{
    reveal_strlit("BindActor");
    reveal_strlit("Invoke");
    assert(bind_operation().len() == 9);
    assert(invoke_operation().len() == 6);
}

/// A binding call from the system actor whose payload is shallow and
/// decodes ends in an empty reply.
pub proof fn system_binding_is_acknowledged(actor: Seq<char>, op: Seq<char>, payload: Seq<u8>)
    requires
        op == bind_operation(),
        actor == system_actor(),
        shallow(payload),
    ensures
        dispatch(actor, op, payload, None) == Ok::<StepModel, ErrorModel>(StepModel::Reply(Seq::empty())),
{
}

/// A binding call from the system actor whose payload is nested too
/// deeply ends in a decode error, whatever the decoder would make of it.
pub proof fn deep_binding_is_a_decode_error(
    actor: Seq<char>,
    op: Seq<char>,
    payload: Seq<u8>,
    fault: Option<Seq<char>>,
)
    requires
        op == bind_operation(),
        actor == system_actor(),
        !shallow(payload),
    ensures
        dispatch(actor, op, payload, fault) == Err::<StepModel, ErrorModel>(
            ErrorModel::Decode(nesting_fault()),
        ),
{
}

/// A binding call from the system actor whose payload is shallow and does
/// not decode ends in a decode error with the decoder's text.
pub proof fn undecodable_binding_is_a_decode_error(
    actor: Seq<char>,
    op: Seq<char>,
    payload: Seq<u8>,
    text: Seq<char>,
)
    requires
        op == bind_operation(),
        actor == system_actor(),
        shallow(payload),
    ensures
        dispatch(actor, op, payload, Some(text)) == Err::<StepModel, ErrorModel>(ErrorModel::Decode(text)),
{
}

/// A binding call from any actor but the system actor is refused, whatever
/// its payload holds.
pub proof fn foreign_binding_is_refused(
    actor: Seq<char>,
    op: Seq<char>,
    payload: Seq<u8>,
    fault: Option<Seq<char>>,
)
    requires
        op == bind_operation(),
        actor != system_actor(),
    ensures
        dispatch(actor, op, payload, fault) == Err::<StepModel, ErrorModel>(ErrorModel::BadDispatch(op)),
{
    operations_differ();
}

/// A call with an operation that is neither binding nor invoke is refused,
/// whoever the actor is and whatever its payload holds.
pub proof fn unknown_operation_is_refused(
    actor: Seq<char>,
    op: Seq<char>,
    payload: Seq<u8>,
    fault: Option<Seq<char>>,
)
    requires
        op != bind_operation(),
        op != invoke_operation(),
    ensures
        dispatch(actor, op, payload, fault) == Err::<StepModel, ErrorModel>(ErrorModel::BadDispatch(op)),
{
}

/// An invoke call goes on as its payload says, whoever the actor is: no
/// identity is asked of it.
pub proof fn invoke_is_open_to_every_actor(
    actor: Seq<char>,
    payload: Seq<u8>,
    fault: Option<Seq<char>>,
)
    ensures
        dispatch(actor, invoke_operation(), payload, fault) == invoked(payload),
{
    operations_differ();
}

/// Texts that were written one behind the other are read back as they were,
/// whatever stands behind them and whatever was read before them.
pub proof fn texts_round_trip(items: Seq<Seq<char>>, rest: Seq<u8>, done: Seq<Seq<char>>)
    requires
        forall|i: int| 0 <= i < items.len() ==> fits(#[trigger] items[i]),
    ensures
        texts_at(texts_bytes(items) + rest, items.len(), done) == Some((done + items, rest)),
    decreases items.len(),
{
    if items.len() == 0 {
        assert(texts_bytes(items) + rest =~= rest);
        assert(done + items =~= done);
    } else {
        let front = items.drop_last();
        let last = items.last();
        let tail = text_bytes(last) + rest;
        assert(texts_bytes(items) + rest =~= texts_bytes(front) + tail);
        texts_round_trip(front, tail, done);
        text_at_text_bytes(last, rest);
        texts_at_one_more(texts_bytes(front) + tail, front.len(), done, done + front, tail, last, rest);
        assert((done + front).push(last) =~= done + items);
    }
}

/// A request that can be written is read back from its bytes as it was.
pub proof fn request_round_trip(request: RequestModel)
    requires
        request_fits(request),
    ensures
        request_at(request_bytes(request)) == Some(request),
{
    keys_fit();
    let s5 = texts_bytes(request.args);
    let s4 = header(array_family(), request.args.len()) + s5;
    let s3 = text_bytes(args_key()) + s4;
    let s2 = text_bytes(request.command) + s3;
    let s1 = text_bytes(command_key()) + s2;
    assert(request_bytes(request) =~= header(map_family(), 2) + s1);
    head_of_header(map_family(), 2, s1);
    text_at_text_bytes(command_key(), s2);
    text_at_text_bytes(request.command, s3);
    text_at_text_bytes(args_key(), s4);
    head_of_header(array_family(), request.args.len(), s5);
    texts_round_trip(request.args, Seq::empty(), Seq::empty());
    assert(s5 + Seq::<u8>::empty() =~= s5);
    assert(Seq::<Seq<char>>::empty() + request.args =~= request.args);
    assert(args_at(s4) == Some(request.args));
}

/// A response that can be written is read back from its bytes as it was.
pub proof fn response_round_trip(response: ResponseModel)
    requires
        response_fits(response),
    ensures
        response_at(response_bytes(response)) == Some(response),
{
    keys_fit();
    let s2 = text_bytes(response.output);
    let s1 = text_bytes(output_key()) + s2;
    assert(response_bytes(response) =~= header(map_family(), 1) + s1);
    head_of_header(map_family(), 1, s1);
    text_at_text_bytes(output_key(), s2);
    text_at_text_bytes(response.output, Seq::empty());
    assert(s2 + Seq::<u8>::empty() =~= s2);
}

/// An invoke call whose payload is a request as it is written launches that
/// request and no other, whoever the actor is.
pub proof fn written_request_is_launched(
    actor: Seq<char>,
    request: RequestModel,
    fault: Option<Seq<char>>,
)
    requires
        request_fits(request),
    ensures
        dispatch(actor, invoke_operation(), request_bytes(request), fault) == Ok::<
            StepModel,
            ErrorModel,
        >(StepModel::Launch(request)),
{
    operations_differ();
    request_round_trip(request);
}

/// The reply to a command that ran to its end is read back as a response
/// with the command's output, where that output can be written.
pub proof fn reply_holds_the_output(stdout: Seq<u8>, captured: Seq<char>)
    requires
        fits(captured),
    ensures
        concluded(OutcomeModel::Exited(stdout), captured) matches Ok(bytes) && response_at(bytes)
            == Some(ResponseModel { output: captured }),
{
    response_round_trip(ResponseModel { output: captured });
}

/// A command that could not be started, or that ran out of time, ends the
/// call in an error, whatever it was asked to write.
pub proof fn failed_launch_is_an_error(outcome: OutcomeModel, captured: Seq<char>)
    requires
        !(outcome is Exited),
    ensures
        concluded(outcome, captured) is Err,
        outcome matches OutcomeModel::NotStarted(reason) ==> concluded(outcome, captured) == Err::<
            Seq<u8>,
            ErrorModel,
        >(ErrorModel::ProcessLaunch(reason)),
        outcome is TimedOut ==> concluded(outcome, captured) == Err::<Seq<u8>, ErrorModel>(
            ErrorModel::Timeout,
        ),
{
}

/// A written text is one item of the walk, with nothing inside, that ends
/// where the text does.
pub proof fn written_text_is_one_item(bytes: Seq<u8>, pos: int, text: Seq<char>)
    requires
        fits(text),
        0 <= pos,
        pos + text_bytes(text).len() <= bytes.len(),
        bytes.subrange(pos, pos + text_bytes(text).len()) == text_bytes(text),
    ensures
        item_at(bytes, pos) == Some(
            Item { end: pos + text_bytes(text).len(), container: false, children: 0 },
        ),
{
    let written = text_bytes(text);
    let n = encode_utf8(text).len();
    let window = bytes.subrange(pos, pos + written.len());
    assert(window[0] == bytes[pos]);
    if n < 32 {
    } else if n < 256 {
        assert(window[1] == bytes[pos + 1]);
    } else if n < 65536 {
        assert(window[1] == bytes[pos + 1]);
        assert(window[2] == bytes[pos + 2]);
    } else {
        assert(window[1] == bytes[pos + 1]);
        assert(window[2] == bytes[pos + 2]);
        assert(window[3] == bytes[pos + 3]);
        assert(window[4] == bytes[pos + 4]);
    }
}

/// The written length of a map is one item of the walk: it opens the map,
/// with a key and a value inside for each entry.
pub proof fn written_map_opens(bytes: Seq<u8>, pos: int, entries: nat)
    requires
        entries <= max_len(),
        0 <= pos,
        pos + header(map_family(), entries).len() <= bytes.len(),
        bytes.subrange(pos, pos + header(map_family(), entries).len()) == header(
            map_family(),
            entries,
        ),
    ensures
        item_at(bytes, pos) == Some(
            Item {
                end: pos + header(map_family(), entries).len(),
                container: true,
                children: 2 * entries,
            },
        ),
{
    let written = header(map_family(), entries);
    let window = bytes.subrange(pos, pos + written.len());
    assert(window[0] == bytes[pos]);
    if entries < 16 {
    } else if entries < 65536 {
        assert(window[1] == bytes[pos + 1]);
        assert(window[2] == bytes[pos + 2]);
    } else {
        assert(window[1] == bytes[pos + 1]);
        assert(window[2] == bytes[pos + 2]);
        assert(window[3] == bytes[pos + 3]);
        assert(window[4] == bytes[pos + 4]);
    }
}

/// The walk steps over one written text: it goes on behind it, with one
/// value fewer to begin.
pub proof fn text_steps(bytes: Seq<u8>, pos: int, text: Seq<char>, open: Seq<nat>)
    requires
        fits(text),
        0 <= pos,
        pos + text_bytes(text).len() <= bytes.len(),
        bytes.subrange(pos, pos + text_bytes(text).len()) == text_bytes(text),
        open.len() > 0,
        open.last() > 0,
    ensures
        shallow_from(bytes, pos, open) == shallow_from(
            bytes,
            pos + text_bytes(text).len(),
            open.update(open.len() - 1, (open.last() - 1) as nat),
        ),
{
    written_text_is_one_item(bytes, pos, text);
}

/// The walk steps over written texts without opening anything: it goes on
/// behind them, with as many fewer values to begin.
pub proof fn walk_steps_over_texts(
    bytes: Seq<u8>,
    pos: int,
    items: Seq<Seq<char>>,
    open: Seq<nat>,
)
    requires
        forall|i: int| 0 <= i < items.len() ==> fits(#[trigger] items[i]),
        0 <= pos,
        pos + texts_bytes(items).len() <= bytes.len(),
        bytes.subrange(pos, pos + texts_bytes(items).len()) == texts_bytes(items),
        open.len() > 0,
        open.last() >= items.len(),
    ensures
        shallow_from(bytes, pos, open) == shallow_from(
            bytes,
            pos + texts_bytes(items).len(),
            open.update(open.len() - 1, (open.last() - items.len()) as nat),
        ),
    decreases items.len(),
{
    if items.len() == 0 {
        assert(open.update(open.len() - 1, (open.last() - items.len()) as nat) =~= open);
    } else {
        let front = items.drop_last();
        let last = items.last();
        let mid = pos + texts_bytes(front).len();
        let end = pos + texts_bytes(items).len();
        assert(bytes.subrange(pos, mid) =~= texts_bytes(front)) by {
            assert(bytes.subrange(pos, mid) =~= bytes.subrange(pos, end).subrange(
                0,
                texts_bytes(front).len() as int,
            ));
        }
        assert(bytes.subrange(mid, end) =~= text_bytes(last)) by {
            assert(bytes.subrange(mid, end) =~= bytes.subrange(pos, end).subrange(
                texts_bytes(front).len() as int,
                texts_bytes(items).len() as int,
            ));
        }
        walk_steps_over_texts(bytes, pos, front, open);
        let before = open.update(open.len() - 1, (open.last() - front.len()) as nat);
        written_text_is_one_item(bytes, mid, last);
        assert(before.update(before.len() - 1, (before.last() - 1) as nat) =~= open.update(
            open.len() - 1,
            (open.last() - items.len()) as nat,
        ));
    }
}

/// A binding message in the layout of two levels is shallow, whatever its
/// texts hold and however many settings it has.
pub proof fn configuration_is_shallow(module: Seq<char>, settings: Seq<Seq<char>>)
    requires
        fits(module),
        settings.len() % 2 == 0,
        settings.len() / 2 <= max_len(),
        forall|i: int| 0 <= i < settings.len() ==> fits(#[trigger] settings[i]),
    ensures
        shallow(configuration_bytes(module, settings)),
{
    reveal_strlit("module");
    reveal_strlit("values");
    assert(vstd::utf8::is_ascii_chars("module"@));
    assert(vstd::utf8::is_ascii_chars("values"@));
    vstd::utf8::is_ascii_chars_encode_utf8("module"@);
    vstd::utf8::is_ascii_chars_encode_utf8("values"@);
    let bytes = configuration_bytes(module, settings);
    let entries = settings.len() / 2;
    let h2 = header(map_family(), 2);
    let k1 = text_bytes("module"@);
    let m = text_bytes(module);
    let k2 = text_bytes("values"@);
    let hn = header(map_family(), entries);
    let t = texts_bytes(settings);
    let p1 = h2.len() as int;
    let p2 = p1 + k1.len();
    let p3 = p2 + m.len();
    let p4 = p3 + k2.len();
    let p5 = p4 + hn.len();
    assert(bytes.len() == p5 + t.len());
    assert(bytes.subrange(0, p1) =~= h2);
    assert(bytes.subrange(p1, p2) =~= k1);
    assert(bytes.subrange(p2, p3) =~= m);
    assert(bytes.subrange(p3, p4) =~= k2);
    assert(bytes.subrange(p4, p5) =~= hn);
    assert(bytes.subrange(p5, p5 + t.len()) =~= t);

    let s0 = seq![1nat];
    written_map_opens(bytes, 0, 2);
    let s1 = s0.update(0, 0nat).push(4nat);
    assert(shallow_from(bytes, 0, s0) == shallow_from(bytes, p1, s1));
    text_steps(bytes, p1, "module"@, s1);
    let s2 = s1.update(1, 3nat);
    text_steps(bytes, p2, module, s2);
    let s3 = s2.update(1, 2nat);
    text_steps(bytes, p3, "values"@, s3);
    let s4 = s3.update(1, 1nat);
    written_map_opens(bytes, p4, entries);
    let s5 = s4.update(1, 0nat).push(2 * entries);
    assert(shallow_from(bytes, p4, s4) == shallow_from(bytes, p5, s5));
    walk_steps_over_texts(bytes, p5, settings, s5);
    let s6 = s5.update(2, 0nat);
    let end = bytes.len() as int;
    let e1 = seq![0nat];
    let e2 = seq![0nat, 0nat];
    assert(e1.drop_last() =~= Seq::<nat>::empty());
    assert(e2.drop_last() =~= e1);
    assert(s6.drop_last() =~= e2);
    assert(shallow_from(bytes, end, Seq::<nat>::empty()));
    assert(shallow_from(bytes, end, e1));
    assert(shallow_from(bytes, end, e2));
    assert(shallow_from(bytes, end, s6));
}

/// A binding call from the system actor whose payload has the layout of
/// two levels and decodes ends in an empty reply, whatever its texts hold.
pub proof fn two_level_binding_is_acknowledged(module: Seq<char>, settings: Seq<Seq<char>>)
    requires
        fits(module),
        settings.len() % 2 == 0,
        settings.len() / 2 <= max_len(),
        forall|i: int| 0 <= i < settings.len() ==> fits(#[trigger] settings[i]),
    ensures
        dispatch(system_actor(), bind_operation(), configuration_bytes(module, settings), None)
            == Ok::<StepModel, ErrorModel>(StepModel::Reply(Seq::empty())),
{
    configuration_is_shallow(module, settings);
}

} // verus!
