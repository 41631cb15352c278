use nx::ipc::buffer::IpcBuffer;
use nx::ipc::client::{
    read_command_response_from_ipc_buffer, read_control_command_response_from_ipc_buffer,
    read_request_command_response_from_ipc_buffer,
};
use nx::ipc::header::{
    CommandHeader, CommandSpecialHeader, CommandType, DomainOutDataHeader, OUT_DATA_HEADER_MAGIC,
};
use nx::ipc::params::{CommandContext, Session};
use nx::ipc::response::CommandError;

fn response(is_domain: bool, status: u32) -> IpcBuffer {
    let mut buf = IpcBuffer::new();
    let header = CommandHeader::new(CommandType::Request, 0, 0, 0, 0, 12, 0, false);
    buf.write_u32(0, header.bits_1);
    buf.write_u32(4, header.bits_2);
    let at = if is_domain { 40 } else { 24 };
    buf.write_u32(at, OUT_DATA_HEADER_MAGIC);
    buf.write_u32(at + 8, status);
    buf
}

#[test]
fn plain_response_is_read() {
    let buf = response(false, 0);
    let mut ctx = CommandContext::new(Session::new());
    ctx.out_params.objects = vec![1, 2, 3];
    assert_eq!(read_request_command_response_from_ipc_buffer(&mut ctx, &buf), Ok(()));
    assert_eq!(ctx.out_params.data_words_offset, 8);
    assert_eq!(ctx.out_params.data_offset, 40);
    assert!(ctx.out_params.copy_handles.is_empty());
    assert!(ctx.out_params.move_handles.is_empty());
    // no domain, no object ids
    assert_eq!(ctx.out_params.objects, vec![1, 2, 3]);
}

#[test]
fn status_is_propagated_unchanged() {
    let buf = response(false, 0x0815);
    let mut ctx = CommandContext::new(Session::new());
    ctx.out_params.data_offset = 7;
    assert_eq!(
        read_request_command_response_from_ipc_buffer(&mut ctx, &buf),
        Err(CommandError::RemoteStatus(0x0815))
    );
    assert_eq!(ctx.out_params.status, 0x0815);
    assert_eq!(ctx.out_params.data_offset, 7);

    let buf = response(true, 0x0815);
    let mut ctx = CommandContext::new(Session::domain(1));
    assert_eq!(
        read_request_command_response_from_ipc_buffer(&mut ctx, &buf),
        Err(CommandError::RemoteStatus(0x0815))
    );
    let mut ctx = CommandContext::new(Session::new());
    assert_eq!(
        read_control_command_response_from_ipc_buffer(&mut ctx, &response(false, u32::MAX)),
        Err(CommandError::RemoteStatus(u32::MAX))
    );
}

#[test]
fn corrupted_magic_fails_and_gives_no_status() {
    for flipped in [0u32, 1, 8, 31] {
        let mut buf = response(false, 0x0815);
        buf.write_u32(24, OUT_DATA_HEADER_MAGIC ^ (1 << flipped));
        let mut ctx = CommandContext::new(Session::new());
        ctx.out_params.status = 0x5555;
        assert_eq!(
            read_request_command_response_from_ipc_buffer(&mut ctx, &buf),
            Err(CommandError::InvalidOutDataHeaderMagic)
        );
        assert_eq!(ctx.out_params.status, 0x5555);
        assert_eq!(
            read_control_command_response_from_ipc_buffer(&mut ctx, &buf),
            Err(CommandError::InvalidOutDataHeaderMagic)
        );
    }
    // a zeroed buffer is no response
    let mut ctx = CommandContext::new(Session::new());
    assert_eq!(
        read_request_command_response_from_ipc_buffer(&mut ctx, &IpcBuffer::new()),
        Err(CommandError::InvalidOutDataHeaderMagic)
    );
    // the magic is looked for behind the domain header of a domain
    let mut ctx = CommandContext::new(Session::domain(1));
    assert_eq!(
        read_request_command_response_from_ipc_buffer(&mut ctx, &response(false, 0)),
        Err(CommandError::InvalidOutDataHeaderMagic)
    );
}

#[test]
fn handles_and_process_id_are_read() {
    let mut buf = IpcBuffer::new();
    let header = CommandHeader::new(CommandType::Request, 2, 0, 0, 0, 10, 0, true);
    let special = CommandSpecialHeader::new(true, 2, 1);
    buf.write_u32(0, header.bits_1);
    buf.write_u32(4, header.bits_2);
    buf.write_u32(8, special.bits);
    buf.write_u32(12, 0x9ABC_DEF0);
    buf.write_u32(16, 0x1234_5678);
    buf.write_u32(20, 0xC1);
    buf.write_u32(24, 0xC2);
    buf.write_u32(28, 0xD1);
    let mut ctx = CommandContext::new(Session::new());
    read_command_response_from_ipc_buffer(&mut ctx, &buf);
    assert_eq!(ctx.out_params.process_id, 0x1234_5678_9ABC_DEF0);
    assert_eq!(ctx.out_params.copy_handles, vec![0xC1, 0xC2]);
    assert_eq!(ctx.out_params.move_handles, vec![0xD1]);
    // two send statics are skipped
    assert_eq!(ctx.out_params.data_words_offset, 32 + 16);

    buf.write_u32(48 + 16, OUT_DATA_HEADER_MAGIC);
    assert_eq!(read_request_command_response_from_ipc_buffer(&mut ctx, &buf), Ok(()));
    assert_eq!(ctx.out_params.data_offset, 48 + 32);
}

#[test]
fn handles_without_process_id_are_read() {
    let mut buf = IpcBuffer::new();
    buf.write_u32(4, 0x8000_0000);
    buf.write_u32(8, CommandSpecialHeader::new(false, 1, 2).bits);
    buf.write_u32(12, 0xC1);
    buf.write_u32(16, 0xD1);
    buf.write_u32(20, 0xD2);
    let mut ctx = CommandContext::new(Session::new());
    ctx.out_params.process_id = 99;
    read_command_response_from_ipc_buffer(&mut ctx, &buf);
    assert_eq!(ctx.out_params.process_id, 99);
    assert_eq!(ctx.out_params.copy_handles, vec![0xC1]);
    assert_eq!(ctx.out_params.move_handles, vec![0xD1, 0xD2]);
    assert_eq!(ctx.out_params.data_words_offset, 24);
}

#[test]
fn special_header_word_is_ignored_without_the_flag() {
    let mut buf = IpcBuffer::new();
    buf.write_u32(8, CommandSpecialHeader::new(true, 3, 3).bits);
    let mut ctx = CommandContext::new(Session::new());
    ctx.out_params.copy_handles = vec![1];
    read_command_response_from_ipc_buffer(&mut ctx, &buf);
    assert!(ctx.out_params.copy_handles.is_empty());
    assert!(ctx.out_params.move_handles.is_empty());
    assert_eq!(ctx.out_params.data_words_offset, 8);
}

#[test]
fn domain_response_returns_its_objects() {
    let mut buf = response(true, 0);
    let header = DomainOutDataHeader::new(2);
    assert_eq!(header.to_words(), vec![2, 0, 0, 0]);
    buf.write_words(24, &header.to_words());
    // payload of eight bytes at 56, then the object ids
    buf.write_u32(64, 0x100);
    buf.write_u32(68, 0x200);
    let mut ctx = CommandContext::new(Session::domain(1));
    ctx.out_params.data_size = 8;
    assert_eq!(read_request_command_response_from_ipc_buffer(&mut ctx, &buf), Ok(()));
    assert_eq!(ctx.out_params.objects, vec![0x100, 0x200]);
    assert_eq!(ctx.out_params.data_offset, 56);
}

#[test]
fn domain_objects_up_to_the_end_of_the_buffer() {
    let mut buf = response(true, 0);
    buf.write_u32(24, 50);
    buf.write_u32(252, 0xFFFF_0001);
    let mut ctx = CommandContext::new(Session::domain(1));
    assert_eq!(read_request_command_response_from_ipc_buffer(&mut ctx, &buf), Ok(()));
    assert_eq!(ctx.out_params.objects.len(), 50);
    assert_eq!(ctx.out_params.objects[49], 0xFFFF_0001);

    buf.write_u32(24, 51);
    let mut ctx = CommandContext::new(Session::domain(1));
    ctx.out_params.objects = vec![7];
    assert_eq!(
        read_request_command_response_from_ipc_buffer(&mut ctx, &buf),
        Err(CommandError::ResponseOutOfBounds)
    );
    assert_eq!(ctx.out_params.objects, vec![7]);
    assert_eq!(ctx.out_params.status, 0);
}

#[test]
fn domain_objects_out_of_bounds() {
    let mut buf = response(true, 0);
    buf.write_u32(24, u32::MAX);
    let mut ctx = CommandContext::new(Session::domain(1));
    assert_eq!(
        read_request_command_response_from_ipc_buffer(&mut ctx, &buf),
        Err(CommandError::ResponseOutOfBounds)
    );
    buf.write_u32(24, 0);
    ctx.out_params.data_size = u32::MAX;
    assert_eq!(
        read_request_command_response_from_ipc_buffer(&mut ctx, &buf),
        Err(CommandError::ResponseOutOfBounds)
    );
    ctx.out_params.data_size = 200;
    assert_eq!(read_request_command_response_from_ipc_buffer(&mut ctx, &buf), Ok(()));
    assert!(ctx.out_params.objects.is_empty());
    ctx.out_params.data_size = 201;
    assert_eq!(
        read_request_command_response_from_ipc_buffer(&mut ctx, &buf),
        Err(CommandError::ResponseOutOfBounds)
    );
}

#[test]
fn status_comes_before_the_objects() {
    let mut buf = response(true, 0x0815);
    buf.write_u32(24, u32::MAX);
    let mut ctx = CommandContext::new(Session::domain(1));
    assert_eq!(
        read_request_command_response_from_ipc_buffer(&mut ctx, &buf),
        Err(CommandError::RemoteStatus(0x0815))
    );
}

#[test]
fn data_header_out_of_bounds() {
    let mut buf = IpcBuffer::new();
    // fifteen copy handles, fifteen move handles and fifteen send statics: the data
    // words would begin at 8 + 4 + 8 + 60 + 60 + 120
    let header = CommandHeader::new(CommandType::Request, 15, 0, 0, 0, 0, 0, true);
    buf.write_u32(0, header.bits_1);
    buf.write_u32(4, header.bits_2);
    buf.write_u32(8, CommandSpecialHeader::new(true, 15, 15).bits);
    for i in 0..30 {
        buf.write_u32(20 + 4 * i, 0x1000 + i as u32);
    }
    let mut ctx = CommandContext::new(Session::new());
    assert_eq!(
        read_request_command_response_from_ipc_buffer(&mut ctx, &buf),
        Err(CommandError::ResponseOutOfBounds)
    );
    // what the headers hold is read all the same
    assert_eq!(ctx.out_params.data_words_offset, 260);
    assert_eq!(ctx.out_params.copy_handles.len(), 15);
    assert_eq!(ctx.out_params.move_handles.len(), 15);
    assert_eq!(ctx.out_params.copy_handles[0], 0x1000);
    assert_eq!(ctx.out_params.move_handles[14], 0x1000 + 29);
}

#[test]
fn data_header_at_the_end_of_the_buffer() {
    let mut buf = IpcBuffer::new();
    // 8 + 4 + 4 * 15 + 4 * 15 + 8 * 11 = 220: 16 bytes of padding, then the header
    let header = CommandHeader::new(CommandType::Request, 11, 0, 0, 0, 0, 0, true);
    buf.write_u32(0, header.bits_1);
    buf.write_u32(4, header.bits_2);
    buf.write_u32(8, CommandSpecialHeader::new(false, 15, 15).bits);
    buf.write_u32(236, OUT_DATA_HEADER_MAGIC);
    buf.write_u32(244, 0x77);
    let mut ctx = CommandContext::new(Session::new());
    assert_eq!(
        read_request_command_response_from_ipc_buffer(&mut ctx, &buf),
        Err(CommandError::RemoteStatus(0x77))
    );
    let mut ctx = CommandContext::new(Session::domain(1));
    assert_eq!(
        read_request_command_response_from_ipc_buffer(&mut ctx, &buf),
        Err(CommandError::ResponseOutOfBounds)
    );
}

#[test]
fn objects_are_read_before_the_data_header_is_judged() {
    let mut buf = response(true, 0x0815);
    buf.write_u32(24, 1);
    buf.write_u32(56, 0x4242);
    let mut ctx = CommandContext::new(Session::domain(1));
    assert_eq!(
        read_request_command_response_from_ipc_buffer(&mut ctx, &buf),
        Err(CommandError::RemoteStatus(0x0815))
    );
    assert_eq!(ctx.out_params.objects, vec![0x4242]);
    assert_eq!(ctx.out_params.data_offset, 0);

    buf.write_u32(40, 0);
    buf.write_u32(56, 0x4343);
    ctx.out_params.status = 0x66;
    assert_eq!(
        read_request_command_response_from_ipc_buffer(&mut ctx, &buf),
        Err(CommandError::InvalidOutDataHeaderMagic)
    );
    assert_eq!(ctx.out_params.objects, vec![0x4343]);
    assert_eq!(ctx.out_params.status, 0x66);
}
