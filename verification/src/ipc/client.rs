//! Writing a command into the command buffer and reading the response out of
//! it. A call writes its message, hands the buffer to the transport, and
//! reads what came back, in that order and one call at a time.

use vstd::prelude::*;
use crate::ipc::buffer::{IpcBuffer, IPC_BUFFER_SIZE};
use crate::ipc::descriptor::{
    flatten_buffers, flatten_receive_statics, flatten_send_statics, SEND_STATIC_DESCRIPTOR_SIZE,
};
use crate::ipc::header::{
    CommandHeader, CommandSpecialHeader, CommandType, DataHeader, DomainCommandType,
    DomainInDataHeader, COMMAND_HEADER_SIZE, DATA_HEADER_SIZE, DATA_PADDING,
    DOMAIN_IN_HEADER_SIZE, DOMAIN_OUT_HEADER_SIZE, HANDLE_SIZE, IN_DATA_HEADER_MAGIC,
    OBJECT_ID_SIZE, OUT_DATA_HEADER_MAGIC, PROCESS_ID_SIZE, SPECIAL_HEADER_SIZE,
};
use crate::ipc::layout::{
    command_fits, compute_data_words_offset, content_size, data_words_offset, descriptor_words,
    handles_offset, lemma_data_section_aligned, payload_offset,
    lemma_message_alignment, lemma_round_up, message_data_size, message_fits,
    pointer_sizes_offset, DATA_WORD_SIZE, POINTER_SIZE_ENTRY_SIZE,
};
use crate::ipc::message::{
    command_image, control_shape, head_words, message_image, message_params, request_shape,
    with_data_header, with_domain_header, with_pointer_sizes, MessageShape,
};
use crate::ipc::params::{CommandContext, CommandContextView, InParams, InParamsView};
use crate::ipc::laws::{
    lemma_command_headers, lemma_command_pieces, lemma_message_bounds, lemma_message_opening,
};
use crate::ipc::response::{
    message_response_params, response_data_header, response_data_header_in_bounds,
    response_has_special_header, response_outcome, response_params, CommandError,
};

verus! {

/// The control calls, which go to a session itself and not to a service
/// behind it.
#[derive(Clone, Copy, Debug, PartialEq, Eq, Structural)]
pub enum ControlRequestId {
    ConvertCurrentObjectToDomain,
    CopyFromCurrentDomain,
    CloneCurrentObject,
    QueryPointerBufferSize,
    CloneCurrentObjectEx,
}

impl ControlRequestId {
    /// The number that stands for this call in a data header.
    pub open spec fn id(self) -> u32 {
        match self {
            ControlRequestId::ConvertCurrentObjectToDomain => 0,
            ControlRequestId::CopyFromCurrentDomain => 1,
            ControlRequestId::CloneCurrentObject => 2,
            ControlRequestId::QueryPointerBufferSize => 3,
            ControlRequestId::CloneCurrentObjectEx => 4,
        }
    }

    pub fn to_id(self) -> (id: u32)
        ensures
            id == self.id(),
    {
        match self {
            ControlRequestId::ConvertCurrentObjectToDomain => 0,
            ControlRequestId::CopyFromCurrentDomain => 1,
            ControlRequestId::CloneCurrentObject => 2,
            ControlRequestId::QueryPointerBufferSize => 3,
            ControlRequestId::CloneCurrentObjectEx => 4,
        }
    }
}

/// Appends the words of `src` to `dst`.
fn append_words(dst: &mut Vec<u32>, src: &Vec<u32>)
    ensures
        final(dst)@ == old(dst)@ + src@,
{
    let n: usize = src.len();
    let mut i: usize = 0;
    while i < n
        invariant
            n == src.len(),
            i <= n,
            dst@ == old(dst)@ + src@.take(i as int),
        decreases n - i,
    {
        dst.push(src[i]);
        assert(dst@ =~= old(dst)@ + src@.take(i + 1));
        i = i + 1;
    }
    assert(src@.take(n as int) =~= src@);
}

/// The words that open a message of the given kind: the command header, and
/// the special header if the parameters call for one.
fn build_head_words(p: &InParams, command_type: CommandType, data_size: u32) -> (head: Vec<u32>)
    requires
        command_fits(p@, data_size as int),
    ensures
        head@ == head_words(p@, command_type, data_size as int),
{
    let copy_count: usize = p.copy_handles.len();
    let move_count: usize = p.move_handles.len();
    let has_special_header: bool = p.send_process_id || copy_count > 0 || move_count > 0;
    let header: CommandHeader = CommandHeader::new(
        command_type,
        p.send_statics.len() as u32,
        p.send_buffers.len() as u32,
        p.receive_buffers.len() as u32,
        p.exchange_buffers.len() as u32,
        (data_size + 3) / 4,
        p.receive_statics.len() as u32,
        has_special_header,
    );
    let mut head: Vec<u32> = Vec::new();
    head.push(header.bits_1);
    head.push(header.bits_2);
    if has_special_header {
        let special: CommandSpecialHeader = CommandSpecialHeader::new(
            p.send_process_id,
            copy_count as u32,
            move_count as u32,
        );
        head.push(special.bits);
    }
    assert(head@ =~= head_words(p@, command_type, data_size as int));
    head
}

/// The words of the handles and of the descriptors of what is sent, received
/// and exchanged, in the order in which a message carries them.
fn build_descriptor_words(p: &InParams) -> (words: Vec<u32>)
    ensures
        words@ == descriptor_words(p@),
{
    let mut words: Vec<u32> = Vec::new();
    append_words(&mut words, &p.copy_handles);
    append_words(&mut words, &p.move_handles);
    let send_statics: Vec<u32> = flatten_send_statics(&p.send_statics);
    append_words(&mut words, &send_statics);
    let send_buffers: Vec<u32> = flatten_buffers(&p.send_buffers);
    append_words(&mut words, &send_buffers);
    let receive_buffers: Vec<u32> = flatten_buffers(&p.receive_buffers);
    append_words(&mut words, &receive_buffers);
    let exchange_buffers: Vec<u32> = flatten_buffers(&p.exchange_buffers);
    append_words(&mut words, &exchange_buffers);
    assert(words@ =~= descriptor_words(p@));
    words
}

/// Where the handles of a message with these parameters begin.
fn compute_handles_offset(p: &InParams) -> (offset: usize)
    ensures
        offset == handles_offset(p@),
{
    let mut offset: usize = COMMAND_HEADER_SIZE;
    if p.send_process_id || p.copy_handles.len() > 0 || p.move_handles.len() > 0 {
        offset = offset + SPECIAL_HEADER_SIZE;
        if p.send_process_id {
            offset = offset + PROCESS_ID_SIZE;
        }
    }
    offset
}

/// Writes the opening of a message into `buf` and gives the offset at which
/// its data words begin.
fn write_opening(buf: &mut IpcBuffer, p: &InParams, command_type: CommandType, data_size: u32) -> (start:
    usize)
    requires
        command_fits(p@, data_size as int),
    ensures
        final(buf)@ == command_image(old(buf)@, p@, command_type, data_size as int),
        start == data_words_offset(p@),
{
    proof {
        lemma_command_pieces(p@, command_type, data_size as int);
    }
    let head: Vec<u32> = build_head_words(p, command_type, data_size);
    buf.write_words(0, &head);

    let offset: usize = compute_handles_offset(p);
    let words: Vec<u32> = build_descriptor_words(p);
    buf.write_words(offset, &words);
    let start: usize = offset + DATA_WORD_SIZE * words.len();

    let data_word_count: usize = (data_size as usize + 3) / 4;
    let receive_statics: Vec<u32> = flatten_receive_statics(&p.receive_statics);
    buf.write_words(start + DATA_WORD_SIZE * data_word_count, &receive_statics);
    start
}

/// Writes the part that every command opens with: the command header, the
/// special header if the parameters call for one, the handles and the
/// descriptors. `data_size` bytes, rounded up to whole words, are kept free
/// for the data; where they begin is recorded in the parameters.
pub fn write_command_on_ipc_buffer(
    ctx: &mut CommandContext,
    buf: &mut IpcBuffer,
    command_type: CommandType,
    data_size: u32,
)
    requires
        command_fits(old(ctx).in_params@, data_size as int),
    ensures
        final(buf)@ == command_image(
            old(buf)@,
            old(ctx).in_params@,
            command_type,
            data_size as int,
        ),
        final(ctx)@ == (CommandContextView {
            in_params: InParamsView {
                data_words_offset: data_words_offset(old(ctx).in_params@) as usize,
                ..old(ctx).in_params@
            },
            ..old(ctx)@
        }),
        response_has_special_header(final(buf)@) == (old(ctx).in_params.send_process_id || old(
            ctx,
        ).in_params.copy_handles.len() + old(ctx).in_params.move_handles.len() > 0),
{
    proof {
        lemma_command_headers(buf@, ctx.in_params@, command_type, data_size as int);
    }
    let start: usize = write_opening(buf, &ctx.in_params, command_type, data_size);
    ctx.in_params.data_words_offset = start;
}

/// Reads the part that every response opens with: the command header, the
/// special header if the command header announces one, the process id if the
/// special header announces one, and the handles. Where the data words begin
/// is recorded in the parameters. Nothing is checked here, and nothing can
/// fail: whatever the headers announce, what is read lies within the buffer.
pub fn read_command_response_from_ipc_buffer(ctx: &mut CommandContext, buf: &IpcBuffer)
    ensures
        final(ctx)@ == (CommandContextView {
            out_params: response_params(buf@, old(ctx).out_params@),
            ..old(ctx)@
        }),
{
    let header: CommandHeader = CommandHeader {
        bits_1: buf.read_u32(0),
        bits_2: buf.read_u32(4),
    };
    let mut offset: usize = COMMAND_HEADER_SIZE;
    let mut copy_handle_count: usize = 0;
    let mut move_handle_count: usize = 0;
    if header.get_has_special_header() {
        let special: CommandSpecialHeader = CommandSpecialHeader { bits: buf.read_u32(offset) };
        copy_handle_count = special.get_copy_handle_count() as usize;
        move_handle_count = special.get_move_handle_count() as usize;
        offset = offset + SPECIAL_HEADER_SIZE;
        if special.get_send_process_id() {
            ctx.out_params.process_id = buf.read_u64(offset);
            offset = offset + PROCESS_ID_SIZE;
        }
    }
    ctx.out_params.copy_handles = buf.read_words(offset, copy_handle_count);
    offset = offset + HANDLE_SIZE * copy_handle_count;
    ctx.out_params.move_handles = buf.read_words(offset, move_handle_count);
    offset = offset + HANDLE_SIZE * move_handle_count;
    offset = offset + SEND_STATIC_DESCRIPTOR_SIZE * (header.get_send_static_count() as usize);
    ctx.out_params.data_words_offset = offset;
}

/// Where the table of pointer sizes of a request or a control call begins
/// within its data words, and how many bytes its data take.
fn message_sizes(p: &InParams, is_domain: bool, has_data_header: bool) -> (sizes: (usize, usize))
    requires
        message_fits(p@, is_domain, has_data_header),
    ensures
        sizes.0 == pointer_sizes_offset(p@, is_domain, has_data_header),
        sizes.1 == message_data_size(p@, is_domain, has_data_header),
        command_fits(p@, sizes.1 as int),
        sizes.1 <= IPC_BUFFER_SIZE,
{
    proof {
        lemma_message_bounds(p@, is_domain, has_data_header);
        lemma_round_up(content_size(p@, is_domain, has_data_header), 8);
    }
    let mut content: usize = DATA_PADDING + p.data_size as usize;
    if has_data_header {
        content = content + DATA_HEADER_SIZE;
    }
    if is_domain {
        content = content + DOMAIN_IN_HEADER_SIZE + OBJECT_ID_SIZE * p.object_count;
    }
    let table: usize = ((content + 7) / 8) * 8;
    (table, table + POINTER_SIZE_ENTRY_SIZE * p.out_pointer_sizes.len())
}

/// Writes what a request or a control call holds in its data words besides
/// the payload: the table of pointer sizes, the domain header and the data
/// header. Gives the offset at which the payload begins.
fn write_data_headers(
    buf: &mut IpcBuffer,
    p: &InParams,
    table: usize,
    domain: Option<(u32, DomainCommandType)>,
    request_id: Option<u32>,
) -> (data_offset: usize)
    requires
        message_fits(p@, domain is Some, request_id is Some),
        table == pointer_sizes_offset(p@, domain is Some, request_id is Some),
    ensures
        final(buf)@ == with_data_header(
            with_domain_header(
                with_pointer_sizes(old(buf)@, p@, domain is Some, request_id is Some),
                p@,
                domain,
            ),
            p@,
            domain is Some,
            request_id,
        ),
        data_offset == payload_offset(p@, domain is Some, request_id is Some),
{
    proof {
        lemma_message_bounds(p@, domain is Some, request_id is Some);
    }
    let start: usize = compute_data_words_offset(p);
    buf.write_halves(start + table, &p.out_pointer_sizes);
    let mut data_offset: usize = start + DATA_PADDING;
    match domain {
        Some((object_id, domain_command_type)) => {
            let left_data_size: usize = DATA_HEADER_SIZE + p.data_size as usize;
            let header: DomainInDataHeader = DomainInDataHeader::new(
                domain_command_type,
                p.object_count as u8,
                left_data_size as u16,
                object_id,
                0,
            );
            let words: Vec<u32> = header.to_words();
            buf.write_words(data_offset, &words);
            data_offset = data_offset + DOMAIN_IN_HEADER_SIZE;
        },
        None => {},
    }
    match request_id {
        Some(id) => {
            let header: DataHeader = DataHeader::new(IN_DATA_HEADER_MAGIC, 0, id, 0);
            let words: Vec<u32> = header.to_words();
            buf.write_words(data_offset, &words);
            data_offset = data_offset + DATA_HEADER_SIZE;
        },
        None => {},
    }
    data_offset
}

/// Writes a request or a control call of the given shape.
fn write_message(
    ctx: &mut CommandContext,
    buf: &mut IpcBuffer,
    kind: CommandType,
    domain: Option<(u32, DomainCommandType)>,
    request_id: Option<u32>,
)
    requires
        message_fits(old(ctx).in_params@, domain is Some, request_id is Some),
    ensures
        final(buf)@ == message_image(
            old(buf)@,
            old(ctx).in_params@,
            MessageShape { kind, domain, request_id },
        ),
        final(ctx)@ == (CommandContextView {
            in_params: message_params(old(ctx).in_params@, domain is Some, request_id is Some),
            ..old(ctx)@
        }),
{
    proof {
        lemma_message_bounds(ctx.in_params@, domain is Some, request_id is Some);
    }
    let (table, data_size) = message_sizes(&ctx.in_params, domain.is_some(), request_id.is_some());
    let start: usize = write_opening(buf, &ctx.in_params, kind, data_size as u32);
    let data_offset: usize = write_data_headers(buf, &ctx.in_params, table, domain, request_id);
    ctx.in_params.data_words_offset = start;
    ctx.in_params.out_pointer_sizes_offset = start + table;
    if domain.is_some() {
        ctx.in_params.objects_offset = start + DATA_PADDING + DOMAIN_IN_HEADER_SIZE
            + DATA_HEADER_SIZE + ctx.in_params.data_size as usize;
    }
    ctx.in_params.data_offset = data_offset;
}

/// Reads the response to a request or a control call.
fn read_message(ctx: &mut CommandContext, buf: &IpcBuffer, is_domain: bool) -> (res: Result<
    (),
    CommandError,
>)
    ensures
        res == response_outcome(buf@, is_domain, old(ctx).out_params.data_size),
        final(ctx)@ == (CommandContextView {
            out_params: message_response_params(buf@, is_domain, old(ctx).out_params@),
            ..old(ctx)@
        }),
{
    read_command_response_from_ipc_buffer(ctx, buf);
    let mut data_offset: usize = ctx.out_params.data_words_offset + DATA_PADDING;
    let domain_header_offset: usize = data_offset;
    if is_domain {
        data_offset = data_offset + DOMAIN_OUT_HEADER_SIZE;
    }
    if data_offset + DATA_HEADER_SIZE > IPC_BUFFER_SIZE {
        return Err(CommandError::ResponseOutOfBounds);
    }
    let mut objects_fit: bool = true;
    if is_domain {
        let object_count: u64 = buf.read_u32(domain_header_offset) as u64;
        let objects_offset: u64 = data_offset as u64 + DATA_HEADER_SIZE as u64
            + ctx.out_params.data_size as u64;
        if objects_offset + OBJECT_ID_SIZE as u64 * object_count <= IPC_BUFFER_SIZE as u64 {
            ctx.out_params.objects = buf.read_words(objects_offset as usize, object_count as usize);
        } else {
            objects_fit = false;
        }
    }
    let header: DataHeader = DataHeader::new(
        buf.read_u32(data_offset),
        buf.read_u32(data_offset + 4),
        buf.read_u32(data_offset + 8),
        buf.read_u32(data_offset + 12),
    );
    if header.magic != OUT_DATA_HEADER_MAGIC {
        return Err(CommandError::InvalidOutDataHeaderMagic);
    }
    ctx.out_params.status = header.value;
    if header.value != 0 {
        return Err(CommandError::RemoteStatus(header.value));
    }
    if !objects_fit {
        return Err(CommandError::ResponseOutOfBounds);
    }
    ctx.out_params.data_offset = data_offset + DATA_HEADER_SIZE;
    Ok(())
}

/// Writes a request to the session of `ctx`. A request that carries an id has
/// a data header with that id; a request to a domain has a domain header that
/// names the object and says what is asked of it. The parameters then say
/// where the caller is to put the payload and the object ids.
pub fn write_request_command_on_ipc_buffer(
    ctx: &mut CommandContext,
    buf: &mut IpcBuffer,
    request_id: Option<u32>,
    domain_command_type: DomainCommandType,
)
    requires
        message_fits(old(ctx).in_params@, old(ctx).session.is_domain, request_id is Some),
    ensures
        final(buf)@ == message_image(
            old(buf)@,
            old(ctx).in_params@,
            request_shape(old(ctx).session, request_id, domain_command_type),
        ),
        final(ctx)@ == (CommandContextView {
            in_params: message_params(
                old(ctx).in_params@,
                old(ctx).session.is_domain,
                request_id is Some,
            ),
            ..old(ctx)@
        }),
        final(ctx).in_params.data_words_offset % 4 == 0,
        (final(ctx).in_params.out_pointer_sizes_offset - final(ctx).in_params.data_words_offset)
            % 8 == 0,
        response_has_special_header(final(buf)@) == (old(ctx).in_params.send_process_id || old(
            ctx,
        ).in_params.copy_handles.len() + old(ctx).in_params.move_handles.len() > 0),
{
    proof {
        lemma_message_alignment(ctx.in_params@, ctx.session.is_domain, request_id is Some);
        lemma_data_section_aligned(ctx.in_params@, 0);
        lemma_message_opening(
            buf@,
            ctx.in_params@,
            request_shape(ctx.session, request_id, domain_command_type),
        );
    }
    let domain: Option<(u32, DomainCommandType)> = if ctx.session.is_domain {
        Some((ctx.session.object_id, domain_command_type))
    } else {
        None
    };
    write_message(ctx, buf, CommandType::Request, domain, request_id);
}

/// Reads the response to a request to the session of `ctx`: its opening, for
/// a domain the object ids that its domain header announces, and its data
/// header. The call fails unless the data header carries the magic of a
/// response; then the status in it, if it is not zero, is the error of the
/// call. On success the parameters say where the payload begins. A response
/// that announces a data header or object ids outside the buffer fails as
/// such, and what lies outside is not read.
pub fn read_request_command_response_from_ipc_buffer(ctx: &mut CommandContext, buf: &IpcBuffer)
    -> (res: Result<(), CommandError>)
    ensures
        res == response_outcome(buf@, old(ctx).session.is_domain, old(ctx).out_params.data_size),
        final(ctx)@ == (CommandContextView {
            out_params: message_response_params(
                buf@,
                old(ctx).session.is_domain,
                old(ctx).out_params@,
            ),
            ..old(ctx)@
        }),
        response_data_header_in_bounds(buf@, old(ctx).session.is_domain) && response_data_header(
            buf@,
            old(ctx).session.is_domain,
        ).magic != OUT_DATA_HEADER_MAGIC ==> res == Err::<(), CommandError>(
            CommandError::InvalidOutDataHeaderMagic,
        ) && final(ctx).out_params.status == old(ctx).out_params.status,
        response_data_header_in_bounds(buf@, old(ctx).session.is_domain) && response_data_header(
            buf@,
            old(ctx).session.is_domain,
        ).magic == OUT_DATA_HEADER_MAGIC && response_data_header(
            buf@,
            old(ctx).session.is_domain,
        ).value != 0 ==> res == Err::<(), CommandError>(
            CommandError::RemoteStatus(
                response_data_header(buf@, old(ctx).session.is_domain).value,
            ),
        ),
{
    let is_domain: bool = ctx.session.is_domain;
    read_message(ctx, buf, is_domain)
}

/// Writes the control call `request_id`. A control call always carries a data
/// header and never a domain header, whatever the session is.
pub fn write_control_command_on_ipc_buffer(
    ctx: &mut CommandContext,
    buf: &mut IpcBuffer,
    request_id: ControlRequestId,
)
    requires
        message_fits(old(ctx).in_params@, false, true),
    ensures
        final(buf)@ == message_image(
            old(buf)@,
            old(ctx).in_params@,
            control_shape(request_id.id()),
        ),
        final(ctx)@ == (CommandContextView {
            in_params: message_params(old(ctx).in_params@, false, true),
            ..old(ctx)@
        }),
        final(ctx).in_params.data_words_offset % 4 == 0,
        (final(ctx).in_params.out_pointer_sizes_offset - final(ctx).in_params.data_words_offset)
            % 8 == 0,
        response_has_special_header(final(buf)@) == (old(ctx).in_params.send_process_id || old(
            ctx,
        ).in_params.copy_handles.len() + old(ctx).in_params.move_handles.len() > 0),
{
    proof {
        lemma_message_alignment(ctx.in_params@, false, true);
        lemma_data_section_aligned(ctx.in_params@, 0);
        lemma_message_opening(buf@, ctx.in_params@, control_shape(request_id.id()));
    }
    write_message(ctx, buf, CommandType::Control, None, Some(request_id.to_id()));
}

/// Reads the response to a control call. It fails as the reading of a
/// response to a request does.
pub fn read_control_command_response_from_ipc_buffer(ctx: &mut CommandContext, buf: &IpcBuffer)
    -> (res: Result<(), CommandError>)
    ensures
        res == response_outcome(buf@, false, old(ctx).out_params.data_size),
        final(ctx)@ == (CommandContextView {
            out_params: message_response_params(buf@, false, old(ctx).out_params@),
            ..old(ctx)@
        }),
        response_data_header_in_bounds(buf@, false) && response_data_header(buf@, false).magic
            != OUT_DATA_HEADER_MAGIC ==> res == Err::<(), CommandError>(
            CommandError::InvalidOutDataHeaderMagic,
        ) && final(ctx).out_params.status == old(ctx).out_params.status,
        response_data_header_in_bounds(buf@, false) && response_data_header(buf@, false).magic
            == OUT_DATA_HEADER_MAGIC && response_data_header(buf@, false).value != 0 ==> res
            == Err::<(), CommandError>(
            CommandError::RemoteStatus(response_data_header(buf@, false).value),
        ),
{
    read_message(ctx, buf, false)
}

/// Writes the command that closes the session: a command of kind `Close`
/// without data. No response to it is read.
pub fn write_close_command_on_ipc_buffer(ctx: &mut CommandContext, buf: &mut IpcBuffer)
    requires
        command_fits(old(ctx).in_params@, 0),
    ensures
        final(buf)@ == command_image(old(buf)@, old(ctx).in_params@, CommandType::Close, 0),
        final(ctx)@ == (CommandContextView {
            in_params: InParamsView {
                data_words_offset: data_words_offset(old(ctx).in_params@) as usize,
                ..old(ctx).in_params@
            },
            ..old(ctx)@
        }),
        response_has_special_header(final(buf)@) == (old(ctx).in_params.send_process_id || old(
            ctx,
        ).in_params.copy_handles.len() + old(ctx).in_params.move_handles.len() > 0),
{
    write_command_on_ipc_buffer(ctx, buf, CommandType::Close, 0);
}

} // verus!
