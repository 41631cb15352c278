//! What holds between writing and reading: a written message is read back
//! as it was given, and a response is accepted exactly when its data header
//! is that of a response.

use vstd::prelude::*;
use crate::ipc::buffer::IPC_BUFFER_SIZE;
use crate::ipc::descriptor::{buffer_words, receive_static_words, send_static_words};
use crate::ipc::header::{
    lemma_command_type_round_trip, lemma_special_word_fields, lemma_word_1_fields,
    lemma_word_2_fields, CommandType, DataHeader, COMMAND_HEADER_SIZE, DATA_HEADER_SIZE,
    DATA_PADDING, HANDLE_SIZE, OUT_DATA_HEADER_MAGIC, PROCESS_ID_SIZE,
};
use crate::ipc::layout::{
    command_end, command_fits, content_size, data_word_count, data_words_offset,
    descriptor_words,
    exchange_buffers_offset, handles_offset, has_special_header, lemma_round_up,
    message_data_size, message_fits, move_handles_offset, payload_offset, pointer_sizes_offset,
    receive_buffers_offset, receive_statics_offset, send_buffers_offset, send_statics_offset,
};
use crate::ipc::message::{
    command_header_of, command_image, domain_header_of, head_words, in_data_header,
    message_image, special_header_of, with_domain_header, with_pointer_sizes, MessageShape,
};
use crate::ipc::params::{InParamsView, OutParamsView};
use crate::ipc::response::{
    message_response_params, response_copy_handle_count, response_copy_handles,
    response_data_header, response_data_header_in_bounds, response_data_header_offset,
    response_data_words_offset, response_objects_in_bounds,
    response_handles_offset, response_has_process_id, response_has_special_header,
    response_header, response_move_handle_count, response_move_handles, response_object_count,
    response_outcome, response_params, response_special_header, CommandError,
};
use crate::ipc::wire::{
    halves_at, halves_bytes, lemma_halves_at_written, lemma_halves_bytes_len,
    lemma_u32_at_apart, lemma_u32_at_in_words, lemma_u32_at_written, lemma_u32_round_trip,
    u32_bytes, lemma_words_at_apart, lemma_words_at_in_words,
    lemma_words_at_written, lemma_words_bytes_len, splice, u32_at, words_at, words_bytes,
};

verus! {

/// The handles and descriptors of a message, cut at the lengths of its
/// sections, give the sections back.
pub proof fn lemma_descriptor_words_parts(p: InParamsView)
    ensures
        ({
            let words = descriptor_words(p);
            let c = p.copy_handles.len() as int;
            let m = c + p.move_handles.len();
            let s = m + 2 * p.send_statics.len();
            let x = s + 3 * p.send_buffers.len();
            let y = x + 3 * p.receive_buffers.len();
            let z = y + 3 * p.exchange_buffers.len();
            &&& words.len() == z
            &&& handles_offset(p) + 4 * z == data_words_offset(p)
            &&& words.subrange(0, c) == p.copy_handles
            &&& words.subrange(c, m) == p.move_handles
            &&& words.subrange(m, s) == send_static_words(p.send_statics)
            &&& words.subrange(s, x) == buffer_words(p.send_buffers)
            &&& words.subrange(x, y) == buffer_words(p.receive_buffers)
            &&& words.subrange(y, z) == buffer_words(p.exchange_buffers)
        }),
{
    let words = descriptor_words(p);
    let c = p.copy_handles.len() as int;
    let m = c + p.move_handles.len();
    let s = m + 2 * p.send_statics.len();
    let x = s + 3 * p.send_buffers.len();
    let y = x + 3 * p.receive_buffers.len();
    let z = y + 3 * p.exchange_buffers.len();
    let a1 = p.copy_handles;
    let a2 = p.move_handles;
    let a3 = send_static_words(p.send_statics);
    let a4 = buffer_words(p.send_buffers);
    let a5 = buffer_words(p.receive_buffers);
    let a6 = buffer_words(p.exchange_buffers);
    assert(words == a1 + a2 + a3 + a4 + a5 + a6);
    assert(words.subrange(0, c) =~= a1);
    assert(words.subrange(c, m) =~= a2);
    assert(words.subrange(m, s) =~= a3);
    assert(words.subrange(s, x) =~= a4);
    assert(words.subrange(x, y) =~= a5);
    assert(words.subrange(y, z) =~= a6);
}

/// The lengths of the parts that the opening of a message is made of, and
/// where they lie.
pub proof fn lemma_command_pieces(p: InParamsView, kind: CommandType, data_size: int)
    requires
        command_fits(p, data_size),
    ensures
        ({
            let head = head_words(p, kind, data_size);
            &&& head.len() == if has_special_header(p) {
                3int
            } else {
                2int
            }
            &&& words_bytes(head).len() == 4 * head.len()
            &&& 4 * head.len() <= handles_offset(p)
            &&& words_bytes(descriptor_words(p)).len() == 4 * descriptor_words(p).len()
            &&& handles_offset(p) + 4 * descriptor_words(p).len() == data_words_offset(p)
            &&& data_words_offset(p) <= receive_statics_offset(p, data_size)
            &&& words_bytes(receive_static_words(p.receive_statics)).len() == 8
                * p.receive_statics.len()
            &&& receive_statics_offset(p, data_size) + 8 * p.receive_statics.len()
                <= IPC_BUFFER_SIZE
        }),
{
    lemma_words_bytes_len(head_words(p, kind, data_size));
    lemma_words_bytes_len(descriptor_words(p));
    lemma_words_bytes_len(receive_static_words(p.receive_statics));
    lemma_descriptor_words_parts(p);
}

/// Word `k` of the opening words of a written message is read back from its
/// place.
pub proof fn lemma_head_word(b: Seq<u8>, p: InParamsView, kind: CommandType, data_size: int, k: int)
    requires
        b.len() == IPC_BUFFER_SIZE,
        command_fits(p, data_size),
        0 <= k < head_words(p, kind, data_size).len(),
    ensures
        u32_at(command_image(b, p, kind, data_size), 4 * k) == head_words(p, kind, data_size)[k],
{
    let head = head_words(p, kind, data_size);
    let b1 = splice(b, 0, words_bytes(head));
    let b2 = splice(b1, handles_offset(p), words_bytes(descriptor_words(p)));
    lemma_command_pieces(p, kind, data_size);
    lemma_u32_at_in_words(b, 0, head, k);
    lemma_u32_at_apart(b1, handles_offset(p), words_bytes(descriptor_words(p)), 4 * k);
    lemma_u32_at_apart(
        b2,
        receive_statics_offset(p, data_size),
        words_bytes(receive_static_words(p.receive_statics)),
        4 * k,
    );
}

/// A part of the handles and descriptors of a written message is read back
/// from its place.
pub proof fn lemma_descriptor_words(
    b: Seq<u8>,
    p: InParamsView,
    kind: CommandType,
    data_size: int,
    k: int,
    n: nat,
)
    requires
        b.len() == IPC_BUFFER_SIZE,
        command_fits(p, data_size),
        0 <= k,
        k + n <= descriptor_words(p).len(),
    ensures
        words_at(command_image(b, p, kind, data_size), handles_offset(p) + 4 * k, n)
            == descriptor_words(p).subrange(k, k + n),
{
    let head = head_words(p, kind, data_size);
    let b1 = splice(b, 0, words_bytes(head));
    let b2 = splice(b1, handles_offset(p), words_bytes(descriptor_words(p)));
    lemma_command_pieces(p, kind, data_size);
    lemma_words_at_in_words(b1, handles_offset(p), descriptor_words(p), k, n);
    lemma_words_at_apart(
        b2,
        receive_statics_offset(p, data_size),
        words_bytes(receive_static_words(p.receive_statics)),
        handles_offset(p) + 4 * k,
        n,
    );
}

/// The headers of a written message are read back as they were built, and
/// their fields are those of the parameters. In particular the message has a
/// special header exactly if a process id is asked for or there is a handle.
pub proof fn lemma_command_headers(b: Seq<u8>, p: InParamsView, kind: CommandType, data_size: int)
    requires
        b.len() == IPC_BUFFER_SIZE,
        command_fits(p, data_size),
    ensures
        ({
            let image = command_image(b, p, kind, data_size);
            let header = response_header(image);
            let special = response_special_header(image);
            &&& header == command_header_of(p, kind, data_size)
            &&& header.command_type() == Some(kind)
            &&& header.send_static_count() == p.send_statics.len()
            &&& header.send_buffer_count() == p.send_buffers.len()
            &&& header.receive_buffer_count() == p.receive_buffers.len()
            &&& header.exchange_buffer_count() == p.exchange_buffers.len()
            &&& header.receive_static_count() == p.receive_statics.len()
            &&& header.data_word_count() == data_word_count(data_size)
            &&& header.has_special_header() == (p.send_process_id || p.copy_handles.len()
                + p.move_handles.len() > 0)
            &&& header.has_special_header() ==> {
                &&& special == special_header_of(p)
                &&& special.send_process_id() == p.send_process_id
                &&& special.copy_handle_count() == p.copy_handles.len()
                &&& special.move_handle_count() == p.move_handles.len()
            }
        }),
{
    lemma_command_pieces(p, kind, data_size);
    lemma_head_word(b, p, kind, data_size, 0);
    lemma_head_word(b, p, kind, data_size, 1);
    lemma_word_1_fields(
        kind.tag(),
        p.send_statics.len() as u32,
        p.send_buffers.len() as u32,
        p.receive_buffers.len() as u32,
        p.exchange_buffers.len() as u32,
    );
    lemma_word_2_fields(
        data_word_count(data_size) as u32,
        p.receive_statics.len() as u32,
        has_special_header(p),
    );
    lemma_command_type_round_trip(kind);
    if has_special_header(p) {
        lemma_head_word(b, p, kind, data_size, 2);
        lemma_special_word_fields(
            p.send_process_id,
            p.copy_handles.len() as u32,
            p.move_handles.len() as u32,
        );
    }
}

/// Every section of handles and descriptors of a written message is read
/// back from its place as it was given.
pub proof fn lemma_command_sections(b: Seq<u8>, p: InParamsView, kind: CommandType, data_size: int)
    requires
        b.len() == IPC_BUFFER_SIZE,
        command_fits(p, data_size),
    ensures
        ({
            let image = command_image(b, p, kind, data_size);
            &&& words_at(image, handles_offset(p), p.copy_handles.len()) == p.copy_handles
            &&& words_at(image, move_handles_offset(p), p.move_handles.len()) == p.move_handles
            &&& words_at(image, send_statics_offset(p), 2 * p.send_statics.len())
                == send_static_words(p.send_statics)
            &&& words_at(image, send_buffers_offset(p), 3 * p.send_buffers.len()) == buffer_words(
                p.send_buffers,
            )
            &&& words_at(image, receive_buffers_offset(p), 3 * p.receive_buffers.len())
                == buffer_words(p.receive_buffers)
            &&& words_at(image, exchange_buffers_offset(p), 3 * p.exchange_buffers.len())
                == buffer_words(p.exchange_buffers)
            &&& words_at(
                image,
                receive_statics_offset(p, data_size),
                2 * p.receive_statics.len(),
            ) == receive_static_words(p.receive_statics)
        }),
{
    lemma_command_pieces(p, kind, data_size);
    lemma_descriptor_words_parts(p);
    let words = descriptor_words(p);
    let c = p.copy_handles.len() as int;
    let m = c + p.move_handles.len();
    let s = m + 2 * p.send_statics.len();
    let x = s + 3 * p.send_buffers.len();
    let y = x + 3 * p.receive_buffers.len();
    let z = y + 3 * p.exchange_buffers.len();
    lemma_descriptor_words(b, p, kind, data_size, 0, c as nat);
    lemma_descriptor_words(b, p, kind, data_size, c, (m - c) as nat);
    lemma_descriptor_words(b, p, kind, data_size, m, (s - m) as nat);
    lemma_descriptor_words(b, p, kind, data_size, s, (x - s) as nat);
    lemma_descriptor_words(b, p, kind, data_size, x, (y - x) as nat);
    lemma_descriptor_words(b, p, kind, data_size, y, (z - y) as nat);
    let head = head_words(p, kind, data_size);
    let b1 = splice(b, 0, words_bytes(head));
    let b2 = splice(b1, handles_offset(p), words_bytes(words));
    lemma_words_at_written(
        b2,
        receive_statics_offset(p, data_size),
        receive_static_words(p.receive_statics),
    );
}

/// Writing the opening of a message leaves the slot of the process id, the
/// data words and everything behind the message as they were.
pub proof fn lemma_command_kept(
    b: Seq<u8>,
    p: InParamsView,
    kind: CommandType,
    data_size: int,
    i: int,
)
    requires
        b.len() == IPC_BUFFER_SIZE,
        command_fits(p, data_size),
        0 <= i < IPC_BUFFER_SIZE,
        ({
            ||| p.send_process_id && handles_offset(p) - PROCESS_ID_SIZE <= i < handles_offset(
                p,
            )
            ||| data_words_offset(p) <= i < receive_statics_offset(p, data_size)
            ||| command_end(p, data_size) <= i
        }),
    ensures
        command_image(b, p, kind, data_size)[i] == b[i],
{
    lemma_command_pieces(p, kind, data_size);
}

/// Reading the opening of a written message finds the handles that were
/// given, at the place where they were written, and finds the data words
/// behind the send-static descriptors.
pub proof fn lemma_command_round_trip(b: Seq<u8>, p: InParamsView, kind: CommandType, data_size: int)
    requires
        b.len() == IPC_BUFFER_SIZE,
        command_fits(p, data_size),
    ensures
        ({
            let image = command_image(b, p, kind, data_size);
            &&& response_has_special_header(image) == has_special_header(p)
            &&& response_has_process_id(image) == p.send_process_id
            &&& response_handles_offset(image) == handles_offset(p)
            &&& response_copy_handles(image) == p.copy_handles
            &&& response_move_handles(image) == p.move_handles
            &&& response_handles_end(image) == send_statics_offset(p)
            &&& response_data_words_offset(image) == send_buffers_offset(p)
        }),
{
    let image = command_image(b, p, kind, data_size);
    lemma_command_headers(b, p, kind, data_size);
    lemma_command_sections(b, p, kind, data_size);
    assert(response_has_special_header(image) == has_special_header(p));
    assert(response_has_process_id(image) == p.send_process_id);
    assert(response_handles_offset(image) == handles_offset(p));
    assert(response_copy_handle_count(image) == p.copy_handles.len());
    assert(response_move_handle_count(image) == p.move_handles.len());
}

/// What a request or a control call writes into the data words lies behind
/// their padding and before their end.
pub proof fn lemma_message_bounds(p: InParamsView, is_domain: bool, has_data_header: bool)
    requires
        message_fits(p, is_domain, has_data_header),
    ensures
        ({
            let start = data_words_offset(p);
            let size = message_data_size(p, is_domain, has_data_header);
            let table = start + pointer_sizes_offset(p, is_domain, has_data_header);
            &&& COMMAND_HEADER_SIZE <= handles_offset(p) <= send_statics_offset(p) <= start
            &&& start + DATA_PADDING <= payload_offset(p, is_domain, has_data_header)
            &&& payload_offset(p, is_domain, has_data_header) + p.data_size <= start
                + content_size(p, is_domain, has_data_header) <= table
            &&& table + 2 * p.out_pointer_sizes.len() == start + size
            &&& start + size <= receive_statics_offset(p, size) <= IPC_BUFFER_SIZE
            &&& is_domain ==> p.object_count <= 0x40
            &&& p.data_size <= 0x100
            &&& halves_bytes(p.out_pointer_sizes).len() == 2 * p.out_pointer_sizes.len()
        }),
{
    lemma_round_up(content_size(p, is_domain, has_data_header), 8);
    lemma_halves_bytes_len(p.out_pointer_sizes);
}

/// A byte before the end of the padding of the data words, or behind the
/// data, is the same in a written request or control call as in the opening
/// part of it alone.
pub proof fn lemma_message_frame(b: Seq<u8>, p: InParamsView, shape: MessageShape, i: int)
    requires
        b.len() == IPC_BUFFER_SIZE,
        message_fits(p, shape.domain is Some, shape.request_id is Some),
        0 <= i < IPC_BUFFER_SIZE,
        i < data_words_offset(p) + DATA_PADDING || data_words_offset(p) + message_data_size(
            p,
            shape.domain is Some,
            shape.request_id is Some,
        ) <= i,
    ensures
        message_image(b, p, shape).len() == IPC_BUFFER_SIZE,
        message_image(b, p, shape)[i] == command_image(
            b,
            p,
            shape.kind,
            message_data_size(p, shape.domain is Some, shape.request_id is Some),
        )[i],
{
    lemma_message_bounds(p, shape.domain is Some, shape.request_id is Some);
    match shape.domain {
        Some((object_id, kind)) => {
            lemma_words_bytes_len(domain_header_of(p, object_id, kind).words());
        },
        None => {},
    }
    match shape.request_id {
        Some(id) => {
            lemma_words_bytes_len(in_data_header(id).words());
        },
        None => {},
    }
}

/// Whether two buffers hold the same bytes before `end`.
pub open spec fn same_before(s: Seq<u8>, t: Seq<u8>, end: int) -> bool {
    forall|i: int| 0 <= i < end ==> s[i] == t[i]
}

/// Where the handles of a response end.
pub open spec fn response_handles_end(b: Seq<u8>) -> int {
    response_handles_offset(b) + HANDLE_SIZE * response_copy_handle_count(b) + HANDLE_SIZE
        * response_move_handle_count(b)
}

/// What the headers of a response hold depends on the bytes up to the end of
/// its handles alone.
pub proof fn lemma_response_params_depend(s: Seq<u8>, t: Seq<u8>, prev: OutParamsView)
    requires
        s.len() == IPC_BUFFER_SIZE,
        t.len() == IPC_BUFFER_SIZE,
        same_before(s, t, response_handles_end(s)),
    ensures
        response_header(s) == response_header(t),
        response_has_special_header(s) ==> response_special_header(s) == response_special_header(
            t,
        ),
        response_has_process_id(s) == response_has_process_id(t),
        response_copy_handles(s) == response_copy_handles(t),
        response_move_handles(s) == response_move_handles(t),
        response_handles_end(s) == response_handles_end(t),
        response_data_words_offset(s) == response_data_words_offset(t),
        response_params(s, prev) == response_params(t, prev),
{
    assert(response_header(s) == response_header(t));
    if response_has_special_header(s) {
        assert(response_special_header(s) == response_special_header(t));
    }
    assert(response_copy_handles(s) =~= response_copy_handles(t));
    assert(response_move_handles(s) =~= response_move_handles(t));
}

/// The headers of a written request or control call are those of its
/// parameters: it has a special header exactly if a process id is asked for
/// or there is a handle, and reading its opening finds the handles that were
/// given.
pub proof fn lemma_message_opening(b: Seq<u8>, p: InParamsView, shape: MessageShape)
    requires
        b.len() == IPC_BUFFER_SIZE,
        message_fits(p, shape.domain is Some, shape.request_id is Some),
    ensures
        ({
            let image = message_image(b, p, shape);
            let size = message_data_size(p, shape.domain is Some, shape.request_id is Some);
            let header = response_header(image);
            &&& header == command_header_of(p, shape.kind, size)
            &&& header.command_type() == Some(shape.kind)
            &&& header.data_word_count() == data_word_count(size)
            &&& header.has_special_header() == (p.send_process_id || p.copy_handles.len()
                + p.move_handles.len() > 0)
            &&& response_has_process_id(image) == p.send_process_id
            &&& response_copy_handles(image) == p.copy_handles
            &&& response_move_handles(image) == p.move_handles
            &&& response_data_words_offset(image) == send_buffers_offset(p)
        }),
{
    let is_domain = shape.domain is Some;
    let has_data_header = shape.request_id is Some;
    let size = message_data_size(p, is_domain, has_data_header);
    let image = message_image(b, p, shape);
    let opening = command_image(b, p, shape.kind, size);
    lemma_message_bounds(p, is_domain, has_data_header);
    lemma_command_pieces(p, shape.kind, size);
    lemma_command_headers(b, p, shape.kind, size);
    lemma_command_round_trip(b, p, shape.kind, size);
    assert forall|i: int| 0 <= i < response_handles_end(opening) implies opening[i] == image[i] by {
        lemma_message_frame(b, p, shape, i);
    }
    lemma_message_frame(b, p, shape, 0);
    lemma_response_params_depend(opening, image, OutParamsView::empty());
}

/// A written request or control call holds its table of pointer sizes at the
/// place that the layout gives it.
pub proof fn lemma_message_pointer_sizes(b: Seq<u8>, p: InParamsView, shape: MessageShape)
    requires
        b.len() == IPC_BUFFER_SIZE,
        message_fits(p, shape.domain is Some, shape.request_id is Some),
    ensures
        halves_at(
            message_image(b, p, shape),
            data_words_offset(p) + pointer_sizes_offset(
                p,
                shape.domain is Some,
                shape.request_id is Some,
            ),
            p.out_pointer_sizes.len(),
        ) == p.out_pointer_sizes,
{
    let is_domain = shape.domain is Some;
    let has_data_header = shape.request_id is Some;
    let size = message_data_size(p, is_domain, has_data_header);
    let table = data_words_offset(p) + pointer_sizes_offset(p, is_domain, has_data_header);
    let n = p.out_pointer_sizes.len();
    let image = message_image(b, p, shape);
    let b1 = command_image(b, p, shape.kind, size);
    let b2 = with_pointer_sizes(b1, p, is_domain, has_data_header);
    let b3 = with_domain_header(b2, p, shape.domain);
    lemma_message_bounds(p, is_domain, has_data_header);
    lemma_command_pieces(p, shape.kind, size);
    lemma_halves_at_written(b1, table, p.out_pointer_sizes);
    match shape.domain {
        Some((object_id, kind)) => {
            lemma_words_bytes_len(domain_header_of(p, object_id, kind).words());
        },
        None => {},
    }
    assert(halves_at(b3, table, n) =~= halves_at(b2, table, n));
    match shape.request_id {
        Some(id) => {
            lemma_words_bytes_len(in_data_header(id).words());
        },
        None => {},
    }
    assert(halves_at(image, table, n) =~= halves_at(b3, table, n));
}

/// A written request or control call holds, just before its payload, the
/// data header with the magic of a request and the id that was given, and
/// behind the padding of its data words, if it goes to a domain, the domain
/// header with the fields that were given.
pub proof fn lemma_message_headers(b: Seq<u8>, p: InParamsView, shape: MessageShape)
    requires
        b.len() == IPC_BUFFER_SIZE,
        message_fits(p, shape.domain is Some, shape.request_id is Some),
    ensures
        shape.request_id matches Some(id) ==> words_at(
            message_image(b, p, shape),
            payload_offset(p, shape.domain is Some, true) - DATA_HEADER_SIZE,
            4,
        ) == in_data_header(id).words(),
        shape.domain matches Some((object_id, kind)) ==> words_at(
            message_image(b, p, shape),
            data_words_offset(p) + DATA_PADDING,
            4,
        ) == domain_header_of(p, object_id, kind).words(),
{
    let is_domain = shape.domain is Some;
    let has_data_header = shape.request_id is Some;
    let size = message_data_size(p, is_domain, has_data_header);
    let start = data_words_offset(p);
    let image = message_image(b, p, shape);
    let b1 = command_image(b, p, shape.kind, size);
    let b2 = with_pointer_sizes(b1, p, is_domain, has_data_header);
    let b3 = with_domain_header(b2, p, shape.domain);
    lemma_message_bounds(p, is_domain, has_data_header);
    lemma_command_pieces(p, shape.kind, size);
    match shape.request_id {
        Some(id) => {
            lemma_words_bytes_len(in_data_header(id).words());
            lemma_words_at_written(
                b3,
                payload_offset(p, is_domain, true) - DATA_HEADER_SIZE,
                in_data_header(id).words(),
            );
        },
        None => {},
    }
    match shape.domain {
        Some((object_id, kind)) => {
            let words = domain_header_of(p, object_id, kind).words();
            lemma_words_bytes_len(words);
            lemma_words_at_written(b2, start + DATA_PADDING, words);
            assert(words_at(image, start + DATA_PADDING, 4) =~= words_at(
                b3,
                start + DATA_PADDING,
                4,
            ));
        },
        None => {},
    }
}

/// Writing a request or a control call leaves the padding of the data words,
/// the payload and the room for the object ids as they were, for the caller
/// to fill.
pub proof fn lemma_message_payload_kept(b: Seq<u8>, p: InParamsView, shape: MessageShape, i: int)
    requires
        b.len() == IPC_BUFFER_SIZE,
        message_fits(p, shape.domain is Some, shape.request_id is Some),
        data_words_offset(p) <= i < data_words_offset(p) + DATA_PADDING || payload_offset(
            p,
            shape.domain is Some,
            shape.request_id is Some,
        ) <= i < data_words_offset(p) + content_size(
            p,
            shape.domain is Some,
            shape.request_id is Some,
        ),
    ensures
        message_image(b, p, shape)[i] == b[i],
{
    let is_domain = shape.domain is Some;
    let has_data_header = shape.request_id is Some;
    let size = message_data_size(p, is_domain, has_data_header);
    lemma_message_bounds(p, is_domain, has_data_header);
    lemma_command_pieces(p, shape.kind, size);
    match shape.domain {
        Some((object_id, kind)) => {
            lemma_words_bytes_len(domain_header_of(p, object_id, kind).words());
        },
        None => {},
    }
    match shape.request_id {
        Some(id) => {
            lemma_words_bytes_len(in_data_header(id).words());
        },
        None => {},
    }
}

/// The data header of a response with the given status.
pub open spec fn out_data_header(status: u32) -> DataHeader {
    DataHeader { magic: OUT_DATA_HEADER_MAGIC, version: 0, value: status, token: 0 }
}

/// The words of a domain header of a response that announces no object ids.
pub open spec fn empty_domain_out_words() -> Seq<u32> {
    seq![0u32, 0u32, 0u32, 0u32]
}

/// The buffer `image`, which holds a written request or control call with a
/// data header, once an answer is laid over it: the data header of a response
/// with `status` stands where that of the request stood, and for a domain a
/// domain header that announces no object ids stands where that of the
/// request stood.
pub open spec fn answered(image: Seq<u8>, p: InParamsView, is_domain: bool, status: u32) -> Seq<u8> {
    let b1 = splice(
        image,
        payload_offset(p, is_domain, true) - DATA_HEADER_SIZE,
        words_bytes(out_data_header(status).words()),
    );
    if is_domain {
        splice(b1, data_words_offset(p) + DATA_PADDING, words_bytes(empty_domain_out_words()))
    } else {
        b1
    }
}

/// An answer that is laid over a written request leaves its opening as it
/// was: the headers and handles are read as they were written.
pub proof fn lemma_answered_opening(
    b: Seq<u8>,
    p: InParamsView,
    shape: MessageShape,
    status: u32,
    prev: OutParamsView,
)
    requires
        b.len() == IPC_BUFFER_SIZE,
        shape.request_id is Some,
        message_fits(p, shape.domain is Some, true),
    ensures
        ({
            let is_domain = shape.domain is Some;
            let image = answered(message_image(b, p, shape), p, is_domain, status);
            let params = response_params(image, prev);
            &&& image.len() == IPC_BUFFER_SIZE
            &&& params.copy_handles == p.copy_handles
            &&& params.move_handles == p.move_handles
            &&& params.data_words_offset == send_buffers_offset(p)
            &&& response_data_words_offset(image) == send_buffers_offset(p)
        }),
{
    let is_domain = shape.domain is Some;
    let size = message_data_size(p, is_domain, true);
    let written = message_image(b, p, shape);
    let opening = command_image(b, p, shape.kind, size);
    let image = answered(written, p, is_domain, status);
    lemma_message_bounds(p, is_domain, true);
    lemma_command_pieces(p, shape.kind, size);
    lemma_command_round_trip(b, p, shape.kind, size);
    lemma_words_bytes_len(out_data_header(status).words());
    lemma_words_bytes_len(empty_domain_out_words());
    lemma_message_frame(b, p, shape, 0);
    assert(same_before(opening, image, response_handles_end(opening))) by {
        assert forall|i: int| 0 <= i < response_handles_end(opening) implies opening[i]
            == image[i] by {
            lemma_message_frame(b, p, shape, i);
        }
    }
    lemma_response_params_depend(opening, image, prev);
}

/// An answer that is laid over a written request is read as it was laid: its
/// data header is found where that of the request stood, and for a domain
/// its domain header announces no object ids.
pub proof fn lemma_answered_data_header(written: Seq<u8>, p: InParamsView, is_domain: bool, status: u32)
    requires
        written.len() == IPC_BUFFER_SIZE,
        message_fits(p, is_domain, true),
    ensures
        ({
            let image = answered(written, p, is_domain, status);
            let at = payload_offset(p, is_domain, true) - DATA_HEADER_SIZE;
            &&& words_at(image, at, 4) == out_data_header(status).words()
            &&& is_domain ==> u32_at(image, data_words_offset(p) + DATA_PADDING) == 0
        }),
{
    let start = data_words_offset(p);
    let at = payload_offset(p, is_domain, true) - DATA_HEADER_SIZE;
    let header = out_data_header(status).words();
    let b1 = splice(written, at, words_bytes(header));
    lemma_message_bounds(p, is_domain, true);
    lemma_words_bytes_len(header);
    lemma_words_bytes_len(empty_domain_out_words());
    lemma_words_at_written(written, at, header);
    if is_domain {
        lemma_words_at_apart(b1, start + DATA_PADDING, words_bytes(empty_domain_out_words()), at, 4);
        lemma_u32_at_in_words(b1, start + DATA_PADDING, empty_domain_out_words(), 0);
    }
}

/// A request is written with its handles and a payload, and an answer with
/// the status `status` is laid over it. Reading the buffer as a response then
/// finds the handles that were written and the status of the answer; the call
/// succeeds exactly if the status is zero, and then the start of the payload
/// that is read is the one that was written, with room for the payload
/// between it and the end of the data words. This holds of a message that
/// carries no descriptors of buffers that are sent, received or exchanged: a
/// response carries none, so that the reader counts none.
pub proof fn lemma_request_round_trip(
    b: Seq<u8>,
    p: InParamsView,
    shape: MessageShape,
    status: u32,
    prev: OutParamsView,
)
    requires
        b.len() == IPC_BUFFER_SIZE,
        shape.request_id is Some,
        message_fits(p, shape.domain is Some, true),
        p.send_buffers.len() == 0,
        p.receive_buffers.len() == 0,
        p.exchange_buffers.len() == 0,
        shape.domain is Some ==> payload_offset(p, true, true) + prev.data_size <= IPC_BUFFER_SIZE,
    ensures
        ({
            let is_domain = shape.domain is Some;
            let image = answered(message_image(b, p, shape), p, is_domain, status);
            let out = message_response_params(image, is_domain, prev);
            &&& response_outcome(image, is_domain, prev.data_size) == if status == 0 {
                Ok::<(), CommandError>(())
            } else {
                Err::<(), CommandError>(CommandError::RemoteStatus(status))
            }
            &&& out.copy_handles == p.copy_handles
            &&& out.copy_handles.len() == p.copy_handles.len()
            &&& out.move_handles == p.move_handles
            &&& out.move_handles.len() == p.move_handles.len()
            &&& out.data_words_offset == data_words_offset(p)
            &&& out.status == status
            &&& status == 0 ==> out.data_offset == payload_offset(p, is_domain, true)
            &&& payload_offset(p, is_domain, true) + p.data_size <= receive_statics_offset(
                p,
                message_data_size(p, is_domain, true),
            ) <= IPC_BUFFER_SIZE
        }),
{
    let is_domain = shape.domain is Some;
    let written = message_image(b, p, shape);
    let image = answered(written, p, is_domain, status);
    let at = payload_offset(p, is_domain, true) - DATA_HEADER_SIZE;
    lemma_message_bounds(p, is_domain, true);
    lemma_message_frame(b, p, shape, 0);
    lemma_answered_opening(b, p, shape, status, prev);
    lemma_answered_data_header(written, p, is_domain, status);
    assert(response_data_header_offset(image, is_domain) == at);
    let header = words_at(image, at, 4);
    assert(response_data_header(image, is_domain) == out_data_header(status)) by {
        assert(header[0] == u32_at(image, at));
        assert(header[1] == u32_at(image, at + 4));
        assert(header[2] == u32_at(image, at + 8));
        assert(header[3] == u32_at(image, at + 12));
    }
    if is_domain {
        assert(response_object_count(image) == 0);
    }
}

/// A response whose data header lies within the buffer and does not carry
/// the magic of a response fails as such, whatever else it holds, and no
/// status is taken from it.
pub proof fn lemma_magic_failure(b: Seq<u8>, is_domain: bool, prev: OutParamsView)
    requires
        response_data_header_in_bounds(b, is_domain),
        response_data_header(b, is_domain).magic != OUT_DATA_HEADER_MAGIC,
    ensures
        response_outcome(b, is_domain, prev.data_size) == Err::<(), CommandError>(
            CommandError::InvalidOutDataHeaderMagic,
        ),
        message_response_params(b, is_domain, prev).status == prev.status,
        message_response_params(b, is_domain, prev).data_offset == prev.data_offset,
{
}

/// The buffer `b` with the magic of the data header of its response replaced
/// by `magic`.
pub open spec fn with_magic(b: Seq<u8>, is_domain: bool, magic: u32) -> Seq<u8> {
    splice(b, response_data_header_offset(b, is_domain), u32_bytes(magic))
}

/// Replacing the magic in the data header of a response by anything but the
/// magic of a response makes the reading fail for that reason, and no status
/// is taken from the response.
pub proof fn lemma_corrupted_magic(b: Seq<u8>, is_domain: bool, magic: u32, prev: OutParamsView)
    requires
        b.len() == IPC_BUFFER_SIZE,
        response_data_header_in_bounds(b, is_domain),
        magic != OUT_DATA_HEADER_MAGIC,
    ensures
        response_outcome(with_magic(b, is_domain, magic), is_domain, prev.data_size) == Err::<
            (),
            CommandError,
        >(CommandError::InvalidOutDataHeaderMagic),
        message_response_params(with_magic(b, is_domain, magic), is_domain, prev).status
            == prev.status,
{
    let at = response_data_header_offset(b, is_domain);
    let t = with_magic(b, is_domain, magic);
    lemma_u32_round_trip(magic);
    assert(same_before(b, t, response_handles_end(b)));
    lemma_response_params_depend(b, t, prev);
    lemma_u32_at_written(b, at, magic);
}

/// A response whose data header is that of a response and holds a status
/// that is not zero fails with that status, unchanged.
pub proof fn lemma_status_propagation(b: Seq<u8>, is_domain: bool, prev: OutParamsView)
    requires
        response_data_header_in_bounds(b, is_domain),
        response_data_header(b, is_domain).magic == OUT_DATA_HEADER_MAGIC,
        response_data_header(b, is_domain).value != 0,
    ensures
        response_outcome(b, is_domain, prev.data_size) == Err::<(), CommandError>(
            CommandError::RemoteStatus(response_data_header(b, is_domain).value),
        ),
        message_response_params(b, is_domain, prev).status == response_data_header(
            b,
            is_domain,
        ).value,
{
}

/// Reading a response succeeds exactly if its data header lies within the
/// buffer, carries the magic of a response and a status of zero, and, for a
/// domain, the object ids that it announces lie within the buffer.
pub proof fn lemma_outcome_ok(b: Seq<u8>, is_domain: bool, data_size: u32)
    ensures
        response_outcome(b, is_domain, data_size) is Ok <==> {
            &&& response_data_header_in_bounds(b, is_domain)
            &&& response_data_header(b, is_domain).magic == OUT_DATA_HEADER_MAGIC
            &&& response_data_header(b, is_domain).value == 0
            &&& is_domain ==> response_objects_in_bounds(b, data_size)
        },
{
}

} // verus!
