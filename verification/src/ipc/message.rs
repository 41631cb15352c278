//! What the command buffer holds once a message is written: the bytes of
//! each section at the place that the layout gives it, and everything else as
//! it was.

use vstd::prelude::*;
use crate::ipc::descriptor::receive_static_words;
use crate::ipc::header::{
    CommandHeader, CommandSpecialHeader, CommandType, DataHeader, DomainCommandType,
    DomainInDataHeader, DATA_HEADER_SIZE, DATA_PADDING, IN_DATA_HEADER_MAGIC,
};
use crate::ipc::layout::{
    data_word_count, data_words_offset, descriptor_words, domain_data_size, handles_offset,
    has_special_header, message_data_size, objects_offset, payload_offset, pointer_sizes_offset,
    receive_statics_offset,
};
use crate::ipc::params::{InParamsView, Session};
use crate::ipc::wire::{halves_bytes, splice, words_bytes};

verus! {

/// The command header of a message of the given kind with these parameters
/// and `data_size` bytes of data.
pub open spec fn command_header_of(p: InParamsView, kind: CommandType, data_size: int)
    -> CommandHeader {
    CommandHeader {
        bits_1: CommandHeader::word_1(
            kind.tag(),
            p.send_statics.len() as u32,
            p.send_buffers.len() as u32,
            p.receive_buffers.len() as u32,
            p.exchange_buffers.len() as u32,
        ) as u32,
        bits_2: CommandHeader::word_2(
            data_word_count(data_size) as u32,
            p.receive_statics.len() as u32,
            has_special_header(p),
        ) as u32,
    }
}

/// The special header of a message with these parameters.
pub open spec fn special_header_of(p: InParamsView) -> CommandSpecialHeader {
    CommandSpecialHeader {
        bits: CommandSpecialHeader::word(
            p.send_process_id,
            p.copy_handles.len() as u32,
            p.move_handles.len() as u32,
        ) as u32,
    }
}

/// The words that open a message: the command header, and the special header
/// if the message has one.
pub open spec fn head_words(p: InParamsView, kind: CommandType, data_size: int) -> Seq<u32> {
    if has_special_header(p) {
        command_header_of(p, kind, data_size).words() + special_header_of(p).words()
    } else {
        command_header_of(p, kind, data_size).words()
    }
}

/// The buffer `b` once a message of the given kind is written to it: the
/// opening words at the start, the handles and descriptors behind the slot of
/// the process id, the receive-static descriptors behind the data words. The
/// slot of the process id and the data words are left as they were.
pub open spec fn command_image(b: Seq<u8>, p: InParamsView, kind: CommandType, data_size: int)
    -> Seq<u8> {
    let b1 = splice(b, 0, words_bytes(head_words(p, kind, data_size)));
    let b2 = splice(b1, handles_offset(p), words_bytes(descriptor_words(p)));
    splice(
        b2,
        receive_statics_offset(p, data_size),
        words_bytes(receive_static_words(p.receive_statics)),
    )
}

/// The domain header of a request of kind `kind` to the object `object_id`.
pub open spec fn domain_header_of(p: InParamsView, object_id: u32, kind: DomainCommandType)
    -> DomainInDataHeader {
    DomainInDataHeader {
        command_type: kind,
        object_count: p.object_count as u8,
        data_size: domain_data_size(p) as u16,
        domain_object_id: object_id,
        pad: 0,
        token: 0,
    }
}

/// The data header of a request with the id `request_id`.
pub open spec fn in_data_header(request_id: u32) -> DataHeader {
    DataHeader { magic: IN_DATA_HEADER_MAGIC, version: 0, value: request_id, token: 0 }
}

/// What a request or a control call is made of besides its parameters: the
/// kind of the command, the object of a domain that it is for and what it
/// asks of the domain, if the session is a domain, and the id of the request,
/// if it carries a data header.
pub struct MessageShape {
    pub kind: CommandType,
    pub domain: Option<(u32, DomainCommandType)>,
    pub request_id: Option<u32>,
}

/// The buffer `b` with the table of pointer sizes of `p` at its place in the
/// data words.
pub open spec fn with_pointer_sizes(
    b: Seq<u8>,
    p: InParamsView,
    is_domain: bool,
    has_data_header: bool,
) -> Seq<u8> {
    splice(
        b,
        data_words_offset(p) + pointer_sizes_offset(p, is_domain, has_data_header),
        halves_bytes(p.out_pointer_sizes),
    )
}

/// The buffer `b` with the domain header of a request behind the padding of
/// the data words, if the request goes to a domain.
pub open spec fn with_domain_header(
    b: Seq<u8>,
    p: InParamsView,
    domain: Option<(u32, DomainCommandType)>,
) -> Seq<u8> {
    match domain {
        Some((object_id, kind)) => splice(
            b,
            data_words_offset(p) + DATA_PADDING,
            words_bytes(domain_header_of(p, object_id, kind).words()),
        ),
        None => b,
    }
}

/// The buffer `b` with the data header of a request just before the payload,
/// if the request carries an id.
pub open spec fn with_data_header(
    b: Seq<u8>,
    p: InParamsView,
    is_domain: bool,
    request_id: Option<u32>,
) -> Seq<u8> {
    match request_id {
        Some(id) => splice(
            b,
            payload_offset(p, is_domain, true) - DATA_HEADER_SIZE,
            words_bytes(in_data_header(id).words()),
        ),
        None => b,
    }
}

/// The buffer `b` once a request or a control call is written to it: the
/// message as `command_image` gives it, with the table of pointer sizes, the
/// domain header and the data header at their places in the data words. The
/// padding, the payload and the object ids are left as they were.
pub open spec fn message_image(b: Seq<u8>, p: InParamsView, shape: MessageShape) -> Seq<u8> {
    let is_domain = shape.domain is Some;
    let has_data_header = shape.request_id is Some;
    let opening = command_image(
        b,
        p,
        shape.kind,
        message_data_size(p, is_domain, has_data_header),
    );
    with_data_header(
        with_domain_header(
            with_pointer_sizes(opening, p, is_domain, has_data_header),
            p,
            shape.domain,
        ),
        p,
        is_domain,
        shape.request_id,
    )
}

/// The parameters `p` once a request or a control call is written: the
/// offsets say where its sections lie. The offset of the object ids is set
/// for a domain only.
pub open spec fn message_params(p: InParamsView, is_domain: bool, has_data_header: bool)
    -> InParamsView {
    InParamsView {
        data_words_offset: data_words_offset(p) as usize,
        data_offset: payload_offset(p, is_domain, has_data_header) as usize,
        objects_offset: if is_domain {
            objects_offset(p) as usize
        } else {
            p.objects_offset
        },
        out_pointer_sizes_offset: (data_words_offset(p) + pointer_sizes_offset(
            p,
            is_domain,
            has_data_header,
        )) as usize,
        ..p
    }
}

/// The shape of a request to `session`.
pub open spec fn request_shape(
    session: Session,
    request_id: Option<u32>,
    domain_command_type: DomainCommandType,
) -> MessageShape {
    MessageShape {
        kind: CommandType::Request,
        domain: if session.is_domain {
            Some((session.object_id, domain_command_type))
        } else {
            None
        },
        request_id,
    }
}

/// The shape of a control call with the id `request_id`.
pub open spec fn control_shape(request_id: u32) -> MessageShape {
    MessageShape { kind: CommandType::Control, domain: None, request_id: Some(request_id) }
}

} // verus!
