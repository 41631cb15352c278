use nx::ipc::buffer::IpcBuffer;
use nx::ipc::client::{
    read_control_command_response_from_ipc_buffer, write_control_command_on_ipc_buffer,
    ControlRequestId,
};
use nx::ipc::header::{CommandHeader, CommandType, IN_DATA_HEADER_MAGIC, OUT_DATA_HEADER_MAGIC};
use nx::ipc::layout::can_write_message;
use nx::ipc::params::{CommandContext, Session};
use nx::ipc::response::CommandError;

fn header_of(buf: &IpcBuffer) -> CommandHeader {
    CommandHeader { bits_1: buf.read_u32(0), bits_2: buf.read_u32(4) }
}

#[test]
fn control_query_pointer_buffer_size_layout() {
    let mut ctx = CommandContext::new(Session::new());
    let mut buf = IpcBuffer::new();
    assert!(can_write_message(&ctx.in_params, false, true));
    write_control_command_on_ipc_buffer(
        &mut ctx,
        &mut buf,
        ControlRequestId::QueryPointerBufferSize,
    );
    let header = header_of(&buf);
    assert!(!header.get_has_special_header());
    assert_eq!(header.get_command_type(), Some(CommandType::Control));
    // command header, padding, data header
    assert_eq!(ctx.in_params.data_words_offset, 8);
    assert_eq!(ctx.in_params.data_offset, 8 + 16 + 16);
    assert_eq!(buf.read_u32(24), IN_DATA_HEADER_MAGIC);
    assert_eq!(buf.read_u32(28), 0);
    assert_eq!(buf.read_u32(32), 3);
    assert_eq!(buf.read_u32(36), 0);
    // 16 bytes of padding and a data header: 8 words
    assert_eq!(header.get_data_word_count(), 8);
    assert_eq!(buf.read_u32(0), 5);
    assert_eq!(buf.read_u32(4), 8);
}

#[test]
fn control_ids_are_written_as_numbered() {
    let ids = [
        (ControlRequestId::ConvertCurrentObjectToDomain, 0u32),
        (ControlRequestId::CopyFromCurrentDomain, 1),
        (ControlRequestId::CloneCurrentObject, 2),
        (ControlRequestId::QueryPointerBufferSize, 3),
        (ControlRequestId::CloneCurrentObjectEx, 4),
    ];
    for (id, number) in ids {
        assert_eq!(id.to_id(), number);
        let mut ctx = CommandContext::new(Session::new());
        let mut buf = IpcBuffer::new();
        write_control_command_on_ipc_buffer(&mut ctx, &mut buf, id);
        assert_eq!(buf.read_u32(32), number);
    }
}

#[test]
fn control_ignores_the_domain_of_the_session() {
    let mut plain = CommandContext::new(Session::new());
    let mut domain = CommandContext::new(Session::domain(77));
    let mut a = IpcBuffer::new();
    let mut b = IpcBuffer::new();
    write_control_command_on_ipc_buffer(&mut plain, &mut a, ControlRequestId::CloneCurrentObject);
    write_control_command_on_ipc_buffer(&mut domain, &mut b, ControlRequestId::CloneCurrentObject);
    assert_eq!(a.bytes, b.bytes);
    assert_eq!(plain.in_params.data_offset, domain.in_params.data_offset);
}

#[test]
fn control_with_payload_and_handles() {
    let mut ctx = CommandContext::new(Session::new());
    ctx.in_params.copy_handles.push(0xAAAA_0001);
    ctx.in_params.data_size = 4;
    assert!(can_write_message(&ctx.in_params, false, true));
    let mut buf = IpcBuffer::new();
    write_control_command_on_ipc_buffer(&mut ctx, &mut buf, ControlRequestId::CloneCurrentObjectEx);
    let header = header_of(&buf);
    assert!(header.get_has_special_header());
    // special header: one copy handle
    assert_eq!(buf.read_u32(8), 2);
    assert_eq!(buf.read_u32(12), 0xAAAA_0001);
    assert_eq!(ctx.in_params.data_words_offset, 16);
    assert_eq!(ctx.in_params.data_offset, 16 + 16 + 16);
    // 36 bytes of content, rounded up to 40 for the table of pointer sizes
    assert_eq!(ctx.in_params.out_pointer_sizes_offset, 16 + 40);
    assert_eq!(header.get_data_word_count(), 10);
    assert_eq!(buf.read_u32(40), 4);
}

#[test]
fn control_response_is_read() {
    let mut ctx = CommandContext::new(Session::new());
    let mut buf = IpcBuffer::new();
    write_control_command_on_ipc_buffer(
        &mut ctx,
        &mut buf,
        ControlRequestId::QueryPointerBufferSize,
    );
    buf.write_u32(24, OUT_DATA_HEADER_MAGIC);
    buf.write_u32(32, 0);
    buf.write_u32(40, 0x1234);
    assert_eq!(read_control_command_response_from_ipc_buffer(&mut ctx, &buf), Ok(()));
    assert_eq!(ctx.out_params.data_offset, 40);
    assert_eq!(ctx.out_params.data_words_offset, 8);
    assert_eq!(ctx.out_params.status, 0);
    assert_eq!(buf.read_u32(ctx.out_params.data_offset), 0x1234);
}

#[test]
fn control_response_with_request_magic_fails() {
    let mut ctx = CommandContext::new(Session::new());
    let mut buf = IpcBuffer::new();
    write_control_command_on_ipc_buffer(
        &mut ctx,
        &mut buf,
        ControlRequestId::QueryPointerBufferSize,
    );
    ctx.out_params.data_offset = 999;
    assert_eq!(
        read_control_command_response_from_ipc_buffer(&mut ctx, &buf),
        Err(CommandError::InvalidOutDataHeaderMagic)
    );
    assert_eq!(ctx.out_params.data_offset, 999);
}

#[test]
fn control_response_status_is_propagated() {
    let mut ctx = CommandContext::new(Session::domain(5));
    let mut buf = IpcBuffer::new();
    buf.write_u32(24, OUT_DATA_HEADER_MAGIC);
    buf.write_u32(32, 0xF601);
    assert_eq!(
        read_control_command_response_from_ipc_buffer(&mut ctx, &buf),
        Err(CommandError::RemoteStatus(0xF601))
    );
    assert_eq!(ctx.out_params.status, 0xF601);
}
