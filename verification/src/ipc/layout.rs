//! Where each section of a message lies in the command buffer, and when a
//! message fits there.
//!
//! A message opens with the command header. The special header follows if
//! there is one, then the slot for the process id if one is asked for, the
//! copy handles, the move handles and the descriptors of what is sent,
//! received and exchanged. Then come the data words, and after them the
//! receive-static descriptors. The data words of a request or a control call
//! open with a fixed padding; a domain header, a data header, the payload and
//! the domain object ids follow, and a table of pointer sizes ends them.

use vstd::prelude::*;
use crate::ipc::buffer::IPC_BUFFER_SIZE;
use crate::ipc::descriptor::{
    buffer_words, send_static_words, BUFFER_DESCRIPTOR_SIZE, RECEIVE_STATIC_DESCRIPTOR_SIZE,
    SEND_STATIC_DESCRIPTOR_SIZE,
};
use crate::ipc::header::{
    COMMAND_HEADER_SIZE, DATA_HEADER_SIZE, DATA_PADDING, DOMAIN_IN_HEADER_SIZE, HANDLE_SIZE,
    MAX_COUNT, MAX_RECEIVE_STATIC_COUNT, OBJECT_ID_SIZE, PROCESS_ID_SIZE, SPECIAL_HEADER_SIZE,
};
use crate::ipc::params::{InParams, InParamsView};

verus! {

/// Boundary, in bytes, at which the table of pointer sizes begins within the
/// data words.
pub const POINTER_SIZES_ALIGNMENT: usize = 8;

/// Size in bytes of one entry of the table of pointer sizes.
pub const POINTER_SIZE_ENTRY_SIZE: usize = 2;

/// Size in bytes of one data word.
pub const DATA_WORD_SIZE: usize = 4;

/// The least multiple of `align` that is not below `x`.
pub open spec fn round_up(x: int, align: int) -> int {
    ((x + align - 1) / align) * align
}

/// Whether a message with these parameters carries a special header.
pub open spec fn has_special_header(p: InParamsView) -> bool {
    p.send_process_id || p.copy_handles.len() > 0 || p.move_handles.len() > 0
}

/// Where the copy handles begin: after the command header, the special header
/// and the slot for the process id.
pub open spec fn handles_offset(p: InParamsView) -> int {
    COMMAND_HEADER_SIZE + if has_special_header(p) {
        SPECIAL_HEADER_SIZE + if p.send_process_id {
            PROCESS_ID_SIZE as int
        } else {
            0
        }
    } else {
        0
    }
}

/// Where the move handles begin.
pub open spec fn move_handles_offset(p: InParamsView) -> int {
    handles_offset(p) + HANDLE_SIZE * p.copy_handles.len()
}

/// Where the send-static descriptors begin.
pub open spec fn send_statics_offset(p: InParamsView) -> int {
    move_handles_offset(p) + HANDLE_SIZE * p.move_handles.len()
}

/// Where the descriptors of the buffers that are sent begin.
pub open spec fn send_buffers_offset(p: InParamsView) -> int {
    send_statics_offset(p) + SEND_STATIC_DESCRIPTOR_SIZE * p.send_statics.len()
}

/// Where the descriptors of the buffers that receive begin.
pub open spec fn receive_buffers_offset(p: InParamsView) -> int {
    send_buffers_offset(p) + BUFFER_DESCRIPTOR_SIZE * p.send_buffers.len()
}

/// Where the descriptors of the buffers that are exchanged begin.
pub open spec fn exchange_buffers_offset(p: InParamsView) -> int {
    receive_buffers_offset(p) + BUFFER_DESCRIPTOR_SIZE * p.receive_buffers.len()
}

/// Where the data words begin.
pub open spec fn data_words_offset(p: InParamsView) -> int {
    exchange_buffers_offset(p) + BUFFER_DESCRIPTOR_SIZE * p.exchange_buffers.len()
}

/// The number of words that hold `data_size` bytes.
pub open spec fn data_word_count(data_size: int) -> int {
    (data_size + 3) / 4
}

/// The length in bytes of the data words that hold `data_size` bytes.
pub open spec fn data_section_size(data_size: int) -> int {
    DATA_WORD_SIZE * data_word_count(data_size)
}

/// Where the receive-static descriptors begin: after the data words.
pub open spec fn receive_statics_offset(p: InParamsView, data_size: int) -> int {
    data_words_offset(p) + data_section_size(data_size)
}

/// Where the message ends.
pub open spec fn command_end(p: InParamsView, data_size: int) -> int {
    receive_statics_offset(p, data_size) + RECEIVE_STATIC_DESCRIPTOR_SIZE * p.receive_statics.len()
}

/// Whether the counts of the parameters fit the fields that the headers give
/// them.
pub open spec fn counts_fit(p: InParamsView) -> bool {
    &&& p.copy_handles.len() <= MAX_COUNT
    &&& p.move_handles.len() <= MAX_COUNT
    &&& p.send_statics.len() <= MAX_COUNT
    &&& p.send_buffers.len() <= MAX_COUNT
    &&& p.receive_buffers.len() <= MAX_COUNT
    &&& p.exchange_buffers.len() <= MAX_COUNT
    &&& p.receive_statics.len() <= MAX_RECEIVE_STATIC_COUNT
}

/// Whether a message with these parameters and `data_size` bytes of data
/// fits the command buffer.
pub open spec fn command_fits(p: InParamsView, data_size: int) -> bool {
    &&& counts_fit(p)
    &&& 0 <= data_size
    &&& command_end(p, data_size) <= IPC_BUFFER_SIZE
}

/// The words that follow the slot of the process id: the handles and the
/// descriptors of what is sent, received and exchanged.
pub open spec fn descriptor_words(p: InParamsView) -> Seq<u32> {
    p.copy_handles + p.move_handles + send_static_words(p.send_statics) + buffer_words(
        p.send_buffers,
    ) + buffer_words(p.receive_buffers) + buffer_words(p.exchange_buffers)
}

/// The bytes that the data of a request or a control call take, the table of
/// pointer sizes left out: the padding, the domain header and the object ids
/// if the session is a domain, the data header if there is one, and the
/// payload.
pub open spec fn content_size(p: InParamsView, is_domain: bool, has_data_header: bool) -> int {
    DATA_PADDING + p.data_size + (if has_data_header {
        DATA_HEADER_SIZE as int
    } else {
        0
    }) + (if is_domain {
        DOMAIN_IN_HEADER_SIZE + OBJECT_ID_SIZE * p.object_count
    } else {
        0
    })
}

/// Where the table of pointer sizes begins, counted from the start of the
/// data words.
pub open spec fn pointer_sizes_offset(p: InParamsView, is_domain: bool, has_data_header: bool) -> int {
    round_up(content_size(p, is_domain, has_data_header), POINTER_SIZES_ALIGNMENT as int)
}

/// The size in bytes of the data of a request or a control call.
pub open spec fn message_data_size(p: InParamsView, is_domain: bool, has_data_header: bool) -> int {
    pointer_sizes_offset(p, is_domain, has_data_header) + POINTER_SIZE_ENTRY_SIZE
        * p.out_pointer_sizes.len()
}

/// Whether a request or a control call with these parameters fits the
/// command buffer.
pub open spec fn message_fits(p: InParamsView, is_domain: bool, has_data_header: bool) -> bool {
    command_fits(p, message_data_size(p, is_domain, has_data_header))
}

/// Where the payload of a request or a control call begins: after the
/// padding, the domain header and the data header.
pub open spec fn payload_offset(p: InParamsView, is_domain: bool, has_data_header: bool) -> int {
    data_words_offset(p) + DATA_PADDING + (if is_domain {
        DOMAIN_IN_HEADER_SIZE as int
    } else {
        0
    }) + (if has_data_header {
        DATA_HEADER_SIZE as int
    } else {
        0
    })
}

/// The size that the domain header of a request announces: that of a data
/// header and of the payload.
pub open spec fn domain_data_size(p: InParamsView) -> int {
    DATA_HEADER_SIZE + p.data_size
}

/// Where the object ids of a request to a domain begin: a data header and a
/// payload after the domain header.
pub open spec fn objects_offset(p: InParamsView) -> int {
    data_words_offset(p) + DATA_PADDING + DOMAIN_IN_HEADER_SIZE + domain_data_size(p)
}

/// Rounding up gives the least multiple of the alignment that is not below
/// the value.
pub proof fn lemma_round_up(x: int, align: int)
    requires
        0 <= x,
        0 < align,
    ensures
        round_up(x, align) % align == 0,
        x <= round_up(x, align) < x + align,
        x % align == 0 ==> round_up(x, align) == x,
{
    let q = (x + align - 1) / align;
    vstd::arithmetic::div_mod::lemma_fundamental_div_mod(x + align - 1, align);
    vstd::arithmetic::div_mod::lemma_mod_multiples_basic(q, align);
    vstd::arithmetic::mul::lemma_mul_is_commutative(q, align);
    vstd::arithmetic::div_mod::lemma_mod_bound(x + align - 1, align);
    if x % align == 0 {
        vstd::arithmetic::div_mod::lemma_fundamental_div_mod(x, align);
        vstd::arithmetic::div_mod::lemma_fundamental_div_mod_converse(
            x + align - 1,
            align,
            x / align,
            align - 1,
        );
    }
}

/// The data words are whole words that hold the data and no word more, and
/// they begin at a word boundary.
pub proof fn lemma_data_section_aligned(p: InParamsView, data_size: int)
    requires
        0 <= data_size,
    ensures
        data_section_size(data_size) % 4 == 0,
        data_size <= data_section_size(data_size) < data_size + 4,
        data_words_offset(p) % 4 == 0,
        receive_statics_offset(p, data_size) % 4 == 0,
{
}

/// For every request and control call the data words are a multiple of four
/// bytes long, and the table of pointer sizes begins a multiple of eight
/// bytes after their start, behind everything else that the data hold.
pub proof fn lemma_message_alignment(p: InParamsView, is_domain: bool, has_data_header: bool)
    ensures
        data_section_size(message_data_size(p, is_domain, has_data_header)) % 4 == 0,
        pointer_sizes_offset(p, is_domain, has_data_header) % 8 == 0,
        content_size(p, is_domain, has_data_header) <= pointer_sizes_offset(
            p,
            is_domain,
            has_data_header,
        ) < content_size(p, is_domain, has_data_header) + 8,
        message_data_size(p, is_domain, has_data_header) <= data_section_size(
            message_data_size(p, is_domain, has_data_header),
        ),
{
    lemma_round_up(content_size(p, is_domain, has_data_header), 8);
}

/// With the same parameters, the payload of a request to a domain begins
/// exactly one domain header after that of a request to a session that is no
/// domain, and its data are longer by that header and the object ids.
pub proof fn lemma_domain_offsets(p: InParamsView, has_data_header: bool)
    ensures
        payload_offset(p, true, has_data_header) == payload_offset(p, false, has_data_header)
            + DOMAIN_IN_HEADER_SIZE,
        content_size(p, true, has_data_header) == content_size(p, false, has_data_header)
            + DOMAIN_IN_HEADER_SIZE + OBJECT_ID_SIZE * p.object_count,
        has_data_header ==> objects_offset(p) + OBJECT_ID_SIZE * p.object_count
            == data_words_offset(p) + content_size(p, true, has_data_header),
{
}

/// A request to a domain that appends no object ids has its payload exactly
/// one domain header, and four bytes for each of its object ids, after that
/// of the same request to a session that is no domain.
pub proof fn lemma_domain_payload_offset(p: InParamsView, has_data_header: bool)
    requires
        p.object_count == 0,
    ensures
        payload_offset(p, true, has_data_header) == payload_offset(p, false, has_data_header)
            + DOMAIN_IN_HEADER_SIZE + OBJECT_ID_SIZE * p.object_count,
{
}

/// Whether a message with these parameters and `data_size` bytes of data
/// fits the command buffer.
pub fn can_write_command(p: &InParams, data_size: u32) -> (ok: bool)
    ensures
        ok == command_fits(p@, data_size as int),
{
    if p.copy_handles.len() > MAX_COUNT || p.move_handles.len() > MAX_COUNT
        || p.send_statics.len() > MAX_COUNT || p.send_buffers.len() > MAX_COUNT
        || p.receive_buffers.len() > MAX_COUNT || p.exchange_buffers.len() > MAX_COUNT
        || p.receive_statics.len() > MAX_RECEIVE_STATIC_COUNT {
        return false;
    }
    if data_size > 0x100 {
        return false;
    }
    let words: usize = (data_size as usize + 3) / 4;
    let end: usize = compute_data_words_offset(p) + DATA_WORD_SIZE * words
        + RECEIVE_STATIC_DESCRIPTOR_SIZE * p.receive_statics.len();
    end <= IPC_BUFFER_SIZE
}

/// Where the data words of a message with these parameters begin.
pub fn compute_data_words_offset(p: &InParams) -> (offset: usize)
    requires
        counts_fit(p@),
    ensures
        offset == data_words_offset(p@),
        offset <= 1000,
{
    let mut offset: usize = COMMAND_HEADER_SIZE;
    if p.send_process_id || p.copy_handles.len() > 0 || p.move_handles.len() > 0 {
        offset = offset + SPECIAL_HEADER_SIZE;
        if p.send_process_id {
            offset = offset + PROCESS_ID_SIZE;
        }
    }
    offset = offset + HANDLE_SIZE * p.copy_handles.len();
    offset = offset + HANDLE_SIZE * p.move_handles.len();
    offset = offset + SEND_STATIC_DESCRIPTOR_SIZE * p.send_statics.len();
    offset = offset + BUFFER_DESCRIPTOR_SIZE * p.send_buffers.len();
    offset = offset + BUFFER_DESCRIPTOR_SIZE * p.receive_buffers.len();
    offset = offset + BUFFER_DESCRIPTOR_SIZE * p.exchange_buffers.len();
    offset
}

/// The size in bytes of the data of a request or a control call with these
/// parameters, if the message fits the command buffer.
pub fn compute_message_data_size(p: &InParams, is_domain: bool, has_data_header: bool) -> (size:
    Option<u32>)
    ensures
        size is Some <==> message_fits(p@, is_domain, has_data_header),
        size matches Some(n) ==> n == message_data_size(p@, is_domain, has_data_header),
{
    if p.data_size > 0x100 || p.out_pointer_sizes.len() > 0x100 || (is_domain && p.object_count
        > 0x100) {
        proof {
            lemma_round_up(content_size(p@, is_domain, has_data_header), 8);
        }
        return None;
    }
    let mut content: usize = DATA_PADDING + p.data_size as usize;
    if has_data_header {
        content = content + DATA_HEADER_SIZE;
    }
    if is_domain {
        content = content + DOMAIN_IN_HEADER_SIZE + OBJECT_ID_SIZE * p.object_count;
    }
    let table: usize = ((content + 7) / 8) * 8;
    let size: usize = table + POINTER_SIZE_ENTRY_SIZE * p.out_pointer_sizes.len();
    let size: u32 = size as u32;
    if can_write_command(p, size) {
        Some(size)
    } else {
        None
    }
}

/// Whether a request or a control call with these parameters fits the
/// command buffer.
pub fn can_write_message(p: &InParams, is_domain: bool, has_data_header: bool) -> (ok: bool)
    ensures
        ok == message_fits(p@, is_domain, has_data_header),
{
    compute_message_data_size(p, is_domain, has_data_header).is_some()
}

} // verus!
