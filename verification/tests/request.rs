use nx::ipc::buffer::IpcBuffer;
use nx::ipc::client::{
    read_command_response_from_ipc_buffer, read_request_command_response_from_ipc_buffer,
    write_close_command_on_ipc_buffer, write_command_on_ipc_buffer,
    write_request_command_on_ipc_buffer,
};
use nx::ipc::descriptor::{
    BufferDescriptor, BufferFlags, ReceiveStaticDescriptor, SendStaticDescriptor,
};
use nx::ipc::header::{
    CommandHeader, CommandSpecialHeader, CommandType, DataHeader, DomainCommandType,
    DomainOutDataHeader, IN_DATA_HEADER_MAGIC, OUT_DATA_HEADER_MAGIC,
};
use nx::ipc::response::CommandError;
use nx::ipc::layout::{can_write_command, can_write_message, compute_message_data_size};
use nx::ipc::params::{CommandContext, Session};

fn header_of(buf: &IpcBuffer) -> CommandHeader {
    CommandHeader { bits_1: buf.read_u32(0), bits_2: buf.read_u32(4) }
}

fn filled(byte: u8) -> IpcBuffer {
    IpcBuffer { bytes: [byte; 256] }
}

#[test]
fn request_with_process_id_and_handles() {
    let mut ctx = CommandContext::new(Session::new());
    ctx.in_params.send_process_id = true;
    ctx.in_params.copy_handles = vec![0x11, 0x22];
    ctx.in_params.move_handles = vec![0x33];
    ctx.in_params.data_size = 8;
    assert!(can_write_message(&ctx.in_params, false, true));
    let mut buf = filled(0xEE);
    write_request_command_on_ipc_buffer(&mut ctx, &mut buf, Some(7), DomainCommandType::Invalid);

    assert_eq!(buf.read_u32(0), 4);
    // ten data words, special header flag
    assert_eq!(buf.read_u32(4), 0x8000_000A);
    // process id flag, two copy handles, one move handle
    assert_eq!(buf.read_u32(8), 1 + 2 * 2 + 32);
    // the slot of the process id is left as it was
    assert_eq!(buf.read_u64(12), 0xEEEE_EEEE_EEEE_EEEE);
    assert_eq!(buf.read_u32(20), 0x11);
    assert_eq!(buf.read_u32(24), 0x22);
    assert_eq!(buf.read_u32(28), 0x33);
    assert_eq!(ctx.in_params.data_words_offset, 32);
    // the padding is left as it was
    assert_eq!(buf.read_bytes(32, 16), vec![0xEE; 16]);
    assert_eq!(buf.read_u32(48), IN_DATA_HEADER_MAGIC);
    assert_eq!(buf.read_u32(52), 0);
    assert_eq!(buf.read_u32(56), 7);
    assert_eq!(buf.read_u32(60), 0);
    assert_eq!(ctx.in_params.data_offset, 64);
    // the payload is left for the caller
    assert_eq!(buf.read_bytes(64, 8), vec![0xEE; 8]);
    assert_eq!(ctx.in_params.out_pointer_sizes_offset, 32 + 40);
    // nothing behind the data words is touched
    assert_eq!(buf.read_bytes(72, 256 - 72), vec![0xEE; 256 - 72]);
}

#[test]
fn request_to_a_domain() {
    let mut ctx = CommandContext::new(Session::domain(0xABCD));
    ctx.in_params.data_size = 4;
    ctx.in_params.object_count = 1;
    ctx.in_params.out_pointer_sizes = vec![0x20];
    assert_eq!(compute_message_data_size(&ctx.in_params, true, true), Some(58));
    let mut buf = IpcBuffer::new();
    write_request_command_on_ipc_buffer(
        &mut ctx,
        &mut buf,
        Some(1),
        DomainCommandType::SendMessage,
    );
    let header = header_of(&buf);
    assert!(!header.get_has_special_header());
    assert_eq!(header.get_command_type(), Some(CommandType::Request));
    assert_eq!(header.get_data_word_count(), 15);
    assert_eq!(ctx.in_params.data_words_offset, 8);
    // domain header: send message, one object, a data header and four bytes
    assert_eq!(buf.read_u8(24), 1);
    assert_eq!(buf.read_u8(25), 1);
    assert_eq!(buf.read_u16(26), 20);
    assert_eq!(buf.read_u32(24), 0x0014_0101);
    assert_eq!(buf.read_u32(28), 0xABCD);
    assert_eq!(buf.read_u32(32), 0);
    assert_eq!(buf.read_u32(36), 0);
    assert_eq!(buf.read_u32(40), IN_DATA_HEADER_MAGIC);
    assert_eq!(buf.read_u32(48), 1);
    assert_eq!(ctx.in_params.data_offset, 56);
    assert_eq!(ctx.in_params.objects_offset, 60);
    assert_eq!(ctx.in_params.out_pointer_sizes_offset, 64);
    assert_eq!(buf.read_u16(64), 0x20);
}

#[test]
fn request_without_id_has_no_data_header() {
    let mut ctx = CommandContext::new(Session::domain(9));
    let mut buf = filled(0x55);
    assert!(can_write_message(&ctx.in_params, true, false));
    write_request_command_on_ipc_buffer(&mut ctx, &mut buf, None, DomainCommandType::Close);
    // padding and domain header: 32 bytes
    assert_eq!(header_of(&buf).get_data_word_count(), 8);
    assert_eq!(buf.read_u32(24), 0x0010_0002);
    assert_eq!(buf.read_u32(28), 9);
    assert_eq!(ctx.in_params.data_offset, 40);
    assert_eq!(buf.read_bytes(40, 216), vec![0x55; 216]);
}

#[test]
fn domain_payload_lies_one_domain_header_further() {
    for payload in [0u32, 1, 4, 7, 24] {
        for objects in [0usize, 1, 2, 3] {
            let mut plain = CommandContext::new(Session::new());
            let mut domain = CommandContext::new(Session::domain(1));
            plain.in_params.data_size = payload;
            plain.in_params.object_count = objects;
            domain.in_params.data_size = payload;
            domain.in_params.object_count = objects;
            let mut a = IpcBuffer::new();
            let mut b = IpcBuffer::new();
            write_request_command_on_ipc_buffer(
                &mut plain,
                &mut a,
                Some(1),
                DomainCommandType::SendMessage,
            );
            write_request_command_on_ipc_buffer(
                &mut domain,
                &mut b,
                Some(1),
                DomainCommandType::SendMessage,
            );
            assert_eq!(domain.in_params.data_offset, plain.in_params.data_offset + 16);
            // the object ids follow the payload
            assert_eq!(
                domain.in_params.objects_offset,
                domain.in_params.data_offset + payload as usize
            );
            // the end of what the data hold moves by the domain header and the object ids
            assert_eq!(
                domain.in_params.objects_offset + 4 * objects,
                plain.in_params.data_offset + payload as usize + 16 + 4 * objects
            );
            let plain_size = compute_message_data_size(&plain.in_params, false, true).unwrap();
            let domain_size = compute_message_data_size(&domain.in_params, true, true).unwrap();
            let unrounded = 16 + 4 * objects as u32;
            assert!(domain_size >= plain_size + unrounded - 4);
            assert!(domain_size <= plain_size + unrounded + 4);
            if objects == 0 {
                assert_eq!(
                    domain.in_params.data_offset,
                    plain.in_params.data_offset + 16 + 4 * objects
                );
            }
        }
    }
}

#[test]
fn special_header_is_there_exactly_when_called_for() {
    for pid in [false, true] {
        for copies in 0usize..3 {
            for moves in 0usize..3 {
                let mut ctx = CommandContext::new(Session::new());
                ctx.in_params.send_process_id = pid;
                ctx.in_params.copy_handles = vec![0xC0; copies];
                ctx.in_params.move_handles = vec![0xD0; moves];
                let mut buf = IpcBuffer::new();
                write_request_command_on_ipc_buffer(
                    &mut ctx,
                    &mut buf,
                    Some(0),
                    DomainCommandType::Invalid,
                );
                let header = header_of(&buf);
                assert_eq!(header.get_has_special_header(), pid || copies + moves > 0);
                if header.get_has_special_header() {
                    let special = CommandSpecialHeader { bits: buf.read_u32(8) };
                    assert_eq!(special.get_send_process_id(), pid);
                    assert_eq!(special.get_copy_handle_count() as usize, copies);
                    assert_eq!(special.get_move_handle_count() as usize, moves);
                }
                // the reader finds it, or its absence, again
                buf.write_u32(ctx.in_params.data_offset - 16, OUT_DATA_HEADER_MAGIC);
                buf.write_u32(ctx.in_params.data_offset - 8, 0);
                assert_eq!(read_request_command_response_from_ipc_buffer(&mut ctx, &buf), Ok(()));
                assert_eq!(ctx.out_params.copy_handles.len(), copies);
                assert_eq!(ctx.out_params.move_handles.len(), moves);
                assert_eq!(ctx.out_params.data_words_offset, ctx.in_params.data_words_offset);
            }
        }
    }
}

#[test]
fn data_words_and_table_are_aligned() {
    for payload in 0u32..40 {
        for pointers in 0usize..4 {
            for domain in [false, true] {
                for buffers in 0usize..2 {
                    let session = if domain { Session::domain(3) } else { Session::new() };
                    let mut ctx = CommandContext::new(session);
                    ctx.in_params.data_size = payload;
                    ctx.in_params.object_count = payload as usize % 3;
                    ctx.in_params.out_pointer_sizes = vec![8; pointers];
                    ctx.in_params.send_buffers =
                        vec![BufferDescriptor::new(0x1000, 0x10, BufferFlags::Normal); buffers];
                    assert!(can_write_message(&ctx.in_params, domain, true));
                    let size = compute_message_data_size(&ctx.in_params, domain, true).unwrap();
                    let mut buf = IpcBuffer::new();
                    write_request_command_on_ipc_buffer(
                        &mut ctx,
                        &mut buf,
                        Some(2),
                        DomainCommandType::SendMessage,
                    );
                    let words = header_of(&buf).get_data_word_count();
                    assert_eq!(words, (size + 3) / 4);
                    assert!(4 * words >= size && 4 * words < size + 4);
                    assert_eq!(ctx.in_params.data_words_offset % 4, 0);
                    let table =
                        ctx.in_params.out_pointer_sizes_offset - ctx.in_params.data_words_offset;
                    assert_eq!(table % 8, 0);
                    assert_eq!(table as u32 + 2 * pointers as u32, size);
                }
            }
        }
    }
}

#[test]
fn round_trip_of_handles_and_payload() {
    for copies in 0usize..4 {
        for moves in 0usize..4 {
            for payload in [0u32, 3, 16] {
                let mut ctx = CommandContext::new(Session::new());
                ctx.in_params.copy_handles = (0..copies as u32).map(|i| 0x100 + i).collect();
                ctx.in_params.move_handles = (0..moves as u32).map(|i| 0x200 + i).collect();
                ctx.in_params.data_size = payload;
                ctx.out_params.data_size = payload;
                assert!(can_write_message(&ctx.in_params, false, true));
                let mut buf = IpcBuffer::new();
                write_request_command_on_ipc_buffer(
                    &mut ctx,
                    &mut buf,
                    Some(42),
                    DomainCommandType::Invalid,
                );
                let data: Vec<u8> = (0..payload as u8).map(|i| 0xA0 + i).collect();
                buf.write_bytes(ctx.in_params.data_offset, &data);
                // the answer: the data header of a response with status 0
                let at = ctx.in_params.data_offset - 16;
                buf.write_u32(at, OUT_DATA_HEADER_MAGIC);
                buf.write_u32(at + 8, 0);

                assert_eq!(read_request_command_response_from_ipc_buffer(&mut ctx, &buf), Ok(()));
                assert_eq!(ctx.out_params.copy_handles.len(), copies);
                assert_eq!(ctx.out_params.move_handles.len(), moves);
                assert_eq!(ctx.out_params.copy_handles, ctx.in_params.copy_handles);
                assert_eq!(ctx.out_params.move_handles, ctx.in_params.move_handles);
                assert_eq!(ctx.out_params.data_offset, ctx.in_params.data_offset);
                assert_eq!(ctx.out_params.status, 0);
                let words = header_of(&buf).get_data_word_count() as usize;
                assert!(
                    ctx.out_params.data_offset + payload as usize
                        <= ctx.out_params.data_words_offset + 4 * words
                );
                assert_eq!(buf.read_bytes(ctx.out_params.data_offset, payload as usize), data);
            }
        }
    }
}

#[test]
fn every_descriptor_is_copied_in_order() {
    let mut ctx = CommandContext::new(Session::new());
    ctx.in_params.send_statics = vec![SendStaticDescriptor { bits: 0x1, address_low: 0x2 }];
    ctx.in_params.send_buffers =
        vec![BufferDescriptor { size_low: 0x3, address_low: 0x4, bits: 0x5 }];
    ctx.in_params.receive_buffers =
        vec![BufferDescriptor { size_low: 0x6, address_low: 0x7, bits: 0x8 }];
    ctx.in_params.exchange_buffers =
        vec![BufferDescriptor { size_low: 0x9, address_low: 0xA, bits: 0xB }];
    ctx.in_params.receive_statics =
        vec![ReceiveStaticDescriptor { address_low: 0xC, bits: 0xD }];
    assert!(can_write_command(&ctx.in_params, 6));
    let mut buf = filled(0x77);
    write_command_on_ipc_buffer(&mut ctx, &mut buf, CommandType::Request, 6);
    let header = header_of(&buf);
    assert_eq!(buf.read_u32(0), 0x1111_0004);
    // two data words, one receive static
    assert_eq!(buf.read_u32(4), 2 + (3 << 10));
    assert_eq!(header.get_send_static_count(), 1);
    assert_eq!(header.get_send_buffer_count(), 1);
    assert_eq!(header.get_receive_buffer_count(), 1);
    assert_eq!(header.get_exchange_buffer_count(), 1);
    assert_eq!(header.get_receive_static_count(), 1);
    assert_eq!(buf.read_words(8, 11), (1u32..=11).collect::<Vec<u32>>());
    assert_eq!(ctx.in_params.data_words_offset, 8 + 8 + 36);
    // the data words are kept free
    assert_eq!(buf.read_bytes(52, 8), vec![0x77; 8]);
    assert_eq!(buf.read_words(60, 2), vec![0xC, 0xD]);
    assert_eq!(buf.read_bytes(68, 256 - 68), vec![0x77; 256 - 68]);
}

#[test]
fn close_has_no_data() {
    let mut ctx = CommandContext::new(Session::new());
    assert!(can_write_command(&ctx.in_params, 0));
    let mut buf = filled(0x99);
    write_close_command_on_ipc_buffer(&mut ctx, &mut buf);
    assert_eq!(buf.read_u32(0), 2);
    assert_eq!(buf.read_u32(4), 0);
    assert_eq!(ctx.in_params.data_words_offset, 8);
    assert_eq!(buf.read_bytes(8, 248), vec![0x99; 248]);
}

#[test]
fn close_carries_the_handles_of_the_context() {
    let mut ctx = CommandContext::new(Session::domain(4));
    ctx.in_params.move_handles = vec![0xBEEF];
    let mut buf = IpcBuffer::new();
    write_close_command_on_ipc_buffer(&mut ctx, &mut buf);
    assert_eq!(header_of(&buf).get_command_type(), Some(CommandType::Close));
    assert_eq!(buf.read_u32(4), 0x8000_0000);
    assert_eq!(buf.read_u32(8), 32);
    assert_eq!(buf.read_u32(12), 0xBEEF);
    assert_eq!(ctx.in_params.data_words_offset, 16);
}

#[test]
fn what_does_not_fit_is_told_beforehand() {
    let mut ctx = CommandContext::new(Session::new());
    // 8 + 32 + 208 = 248 bytes
    ctx.in_params.data_size = 208;
    assert!(can_write_message(&ctx.in_params, false, true));
    assert_eq!(compute_message_data_size(&ctx.in_params, false, true), Some(240));
    ctx.in_params.data_size = 217;
    assert!(!can_write_message(&ctx.in_params, false, true));
    assert_eq!(compute_message_data_size(&ctx.in_params, false, true), None);
    ctx.in_params.data_size = u32::MAX;
    assert!(!can_write_message(&ctx.in_params, false, true));
    assert!(!can_write_command(&ctx.in_params, u32::MAX));

    let mut ctx = CommandContext::new(Session::new());
    ctx.in_params.copy_handles = vec![0; 16];
    assert!(!can_write_command(&ctx.in_params, 0));
    ctx.in_params.copy_handles = vec![0; 15];
    assert!(can_write_command(&ctx.in_params, 0));
    ctx.in_params.receive_statics = vec![ReceiveStaticDescriptor::empty(); 14];
    assert!(!can_write_command(&ctx.in_params, 0));
    ctx.in_params.receive_statics = vec![ReceiveStaticDescriptor::empty(); 13];
    assert!(can_write_command(&ctx.in_params, 0));
    // 8 + 4 + 60 bytes before the data words, 104 behind them
    assert!(can_write_command(&ctx.in_params, 80));
    assert!(!can_write_command(&ctx.in_params, 81));

    let mut ctx = CommandContext::new(Session::domain(1));
    ctx.in_params.object_count = usize::MAX;
    assert!(!can_write_message(&ctx.in_params, true, true));
    assert!(can_write_message(&ctx.in_params, false, true));
}

#[test]
fn a_full_buffer_is_written_to_its_last_byte() {
    let mut ctx = CommandContext::new(Session::new());
    ctx.in_params.receive_statics = vec![ReceiveStaticDescriptor { address_low: 1, bits: 2 }];
    ctx.in_params.data_size = 208;
    assert!(can_write_message(&ctx.in_params, false, true));
    let mut buf = IpcBuffer::new();
    write_request_command_on_ipc_buffer(&mut ctx, &mut buf, Some(5), DomainCommandType::Invalid);
    // 8 + 240 = 248 bytes, then the receive static
    assert_eq!(buf.read_u32(248), 1);
    assert_eq!(buf.read_u32(252), 2);
}

#[test]
fn round_trip_through_a_domain() {
    for status in [0u32, 0x0815] {
        let mut ctx = CommandContext::new(Session::domain(0x77));
        ctx.in_params.send_process_id = true;
        ctx.in_params.copy_handles = vec![0xAB];
        ctx.in_params.send_statics = vec![SendStaticDescriptor::new(0x8000, 0x10, 0)];
        ctx.in_params.data_size = 12;
        ctx.in_params.object_count = 2;
        ctx.out_params.data_size = 12;
        assert!(can_write_message(&ctx.in_params, true, true));
        let mut buf = IpcBuffer::new();
        write_request_command_on_ipc_buffer(
            &mut ctx,
            &mut buf,
            Some(3),
            DomainCommandType::SendMessage,
        );
        assert_eq!(ctx.in_params.data_words_offset, 8 + 4 + 8 + 4 + 8);
        // the answer: no object ids, and the data header of a response
        let start = ctx.in_params.data_words_offset;
        buf.write_words(start + 16, &DomainOutDataHeader::new(0).to_words());
        buf.write_words(start + 32, &DataHeader::new(OUT_DATA_HEADER_MAGIC, 0, status, 0).to_words());
        let outcome = read_request_command_response_from_ipc_buffer(&mut ctx, &buf);
        if status == 0 {
            assert_eq!(outcome, Ok(()));
            assert_eq!(ctx.out_params.data_offset, ctx.in_params.data_offset);
        } else {
            assert_eq!(outcome, Err(CommandError::RemoteStatus(status)));
        }
        assert_eq!(ctx.out_params.copy_handles, vec![0xAB]);
        assert!(ctx.out_params.move_handles.is_empty());
        assert!(ctx.out_params.objects.is_empty());
        assert_eq!(ctx.out_params.data_words_offset, start);
        assert_eq!(ctx.out_params.status, status);
    }
}

#[test]
fn buffer_descriptors_are_not_counted_by_the_reader() {
    let mut ctx = CommandContext::new(Session::new());
    ctx.in_params.send_buffers = vec![BufferDescriptor::new(0x4000, 0x20, BufferFlags::Normal)];
    let mut buf = IpcBuffer::new();
    write_request_command_on_ipc_buffer(&mut ctx, &mut buf, Some(3), DomainCommandType::Invalid);
    assert_eq!(ctx.in_params.data_words_offset, 20);
    let mut reader = CommandContext::new(Session::new());
    read_command_response_from_ipc_buffer(&mut reader, &buf);
    assert_eq!(reader.out_params.data_words_offset, 8);
}
