//! What a response in the command buffer holds: the sections that its
//! headers announce, and the outcome of the call that it reports.

use vstd::prelude::*;
use crate::ipc::buffer::IPC_BUFFER_SIZE;
use crate::ipc::descriptor::SEND_STATIC_DESCRIPTOR_SIZE;
use crate::ipc::header::{
    CommandHeader, CommandSpecialHeader, DataHeader, COMMAND_HEADER_SIZE, DATA_HEADER_SIZE,
    DATA_PADDING, DOMAIN_OUT_HEADER_SIZE, HANDLE_SIZE, OBJECT_ID_SIZE, OUT_DATA_HEADER_MAGIC,
    PROCESS_ID_SIZE, SPECIAL_HEADER_SIZE,
};
use crate::ipc::params::OutParamsView;
use crate::ipc::wire::{u32_at, u64_at, words_at};

verus! {

/// Why reading a response failed.
#[derive(Clone, Copy, Debug, PartialEq, Eq, Structural)]
pub enum CommandError {
    /// The headers of the response announce a section that does not lie
    /// within the command buffer.
    ResponseOutOfBounds,
    /// The data header of the response does not carry the magic of a
    /// response.
    InvalidOutDataHeaderMagic,
    /// The remote side returned this status, which is not zero.
    RemoteStatus(u32),
}

/// The command header that opens the buffer.
pub open spec fn response_header(b: Seq<u8>) -> CommandHeader {
    CommandHeader { bits_1: u32_at(b, 0), bits_2: u32_at(b, 4) }
}

/// The special header that follows the command header, where there is one.
pub open spec fn response_special_header(b: Seq<u8>) -> CommandSpecialHeader {
    CommandSpecialHeader { bits: u32_at(b, COMMAND_HEADER_SIZE as int) }
}

/// Whether the response has a special header.
pub open spec fn response_has_special_header(b: Seq<u8>) -> bool {
    response_header(b).has_special_header()
}

/// Whether the response carries a process id.
pub open spec fn response_has_process_id(b: Seq<u8>) -> bool {
    response_has_special_header(b) && response_special_header(b).send_process_id()
}

/// The number of copy handles in the response.
pub open spec fn response_copy_handle_count(b: Seq<u8>) -> nat {
    if response_has_special_header(b) {
        response_special_header(b).copy_handle_count() as nat
    } else {
        0
    }
}

/// The number of move handles in the response.
pub open spec fn response_move_handle_count(b: Seq<u8>) -> nat {
    if response_has_special_header(b) {
        response_special_header(b).move_handle_count() as nat
    } else {
        0
    }
}

/// Where the copy handles of the response begin.
pub open spec fn response_handles_offset(b: Seq<u8>) -> int {
    COMMAND_HEADER_SIZE + if response_has_special_header(b) {
        SPECIAL_HEADER_SIZE + if response_has_process_id(b) {
            PROCESS_ID_SIZE as int
        } else {
            0
        }
    } else {
        0
    }
}

/// The copy handles of the response.
pub open spec fn response_copy_handles(b: Seq<u8>) -> Seq<u32> {
    words_at(b, response_handles_offset(b), response_copy_handle_count(b))
}

/// The move handles of the response.
pub open spec fn response_move_handles(b: Seq<u8>) -> Seq<u32> {
    words_at(
        b,
        response_handles_offset(b) + HANDLE_SIZE * response_copy_handle_count(b),
        response_move_handle_count(b),
    )
}

/// Where the data words of the response begin: behind the handles and the
/// send-static descriptors that the command header announces.
pub open spec fn response_data_words_offset(b: Seq<u8>) -> int {
    response_handles_offset(b) + HANDLE_SIZE * response_copy_handle_count(b) + HANDLE_SIZE
        * response_move_handle_count(b) + SEND_STATIC_DESCRIPTOR_SIZE
        * response_header(b).send_static_count()
}

/// The parameters `prev` once the headers of the response are read: the
/// handles, the start of the data words and, if the response carries one, the
/// process id.
pub open spec fn response_params(b: Seq<u8>, prev: OutParamsView) -> OutParamsView {
    OutParamsView {
        process_id: if response_has_process_id(b) {
            u64_at(b, COMMAND_HEADER_SIZE + SPECIAL_HEADER_SIZE)
        } else {
            prev.process_id
        },
        copy_handles: response_copy_handles(b),
        move_handles: response_move_handles(b),
        data_words_offset: response_data_words_offset(b) as usize,
        ..prev
    }
}

/// Where the data header of the response begins: behind the padding, and
/// behind the domain header if the session is a domain.
pub open spec fn response_data_header_offset(b: Seq<u8>, is_domain: bool) -> int {
    response_data_words_offset(b) + DATA_PADDING + if is_domain {
        DOMAIN_OUT_HEADER_SIZE as int
    } else {
        0
    }
}

/// Whether the data header of the response lies within the buffer.
pub open spec fn response_data_header_in_bounds(b: Seq<u8>, is_domain: bool) -> bool {
    response_data_header_offset(b, is_domain) + DATA_HEADER_SIZE <= IPC_BUFFER_SIZE
}

/// The data header of the response.
pub open spec fn response_data_header(b: Seq<u8>, is_domain: bool) -> DataHeader {
    let at = response_data_header_offset(b, is_domain);
    DataHeader {
        magic: u32_at(b, at),
        version: u32_at(b, at + 4),
        value: u32_at(b, at + 8),
        token: u32_at(b, at + 12),
    }
}

/// Where the payload of the response begins: behind the data header.
pub open spec fn response_payload_offset(b: Seq<u8>, is_domain: bool) -> int {
    response_data_header_offset(b, is_domain) + DATA_HEADER_SIZE
}

/// The number of object ids that the domain header of the response
/// announces.
pub open spec fn response_object_count(b: Seq<u8>) -> nat {
    u32_at(b, response_data_words_offset(b) + DATA_PADDING) as nat
}

/// Where the object ids of a response from a domain begin: behind a payload
/// of `data_size` bytes.
pub open spec fn response_objects_offset(b: Seq<u8>, data_size: u32) -> int {
    response_payload_offset(b, true) + data_size
}

/// Whether the object ids of a response from a domain lie within the buffer.
pub open spec fn response_objects_in_bounds(b: Seq<u8>, data_size: u32) -> bool {
    response_objects_offset(b, data_size) + OBJECT_ID_SIZE * response_object_count(b)
        <= IPC_BUFFER_SIZE
}

/// The object ids of a response from a domain.
pub open spec fn response_objects(b: Seq<u8>, data_size: u32) -> Seq<u32> {
    words_at(b, response_objects_offset(b, data_size), response_object_count(b))
}

/// The outcome of the call whose response the buffer holds. The data header
/// must lie within the buffer and carry the magic of a response; if it does,
/// a status that is not zero is the error of the call; if the status is zero,
/// the call succeeds, unless the object ids that a domain announces do not lie
/// within the buffer.
pub open spec fn response_outcome(b: Seq<u8>, is_domain: bool, data_size: u32) -> Result<
    (),
    CommandError,
> {
    if !response_data_header_in_bounds(b, is_domain) {
        Err(CommandError::ResponseOutOfBounds)
    } else if response_data_header(b, is_domain).magic != OUT_DATA_HEADER_MAGIC {
        Err(CommandError::InvalidOutDataHeaderMagic)
    } else if response_data_header(b, is_domain).value != 0 {
        Err(CommandError::RemoteStatus(response_data_header(b, is_domain).value))
    } else if is_domain && !response_objects_in_bounds(b, data_size) {
        Err(CommandError::ResponseOutOfBounds)
    } else {
        Ok(())
    }
}

/// The parameters `prev` once the response is read. What the headers hold is
/// taken over in every case. Nothing more is taken over if the data header
/// does not lie within the buffer. If it does, the object ids of a domain are
/// taken over if they lie within the buffer, the status if the data header
/// carries the magic of a response, and the start of the payload if the call
/// succeeded.
pub open spec fn message_response_params(b: Seq<u8>, is_domain: bool, prev: OutParamsView)
    -> OutParamsView {
    let raw = response_params(b, prev);
    let header = response_data_header(b, is_domain);
    if !response_data_header_in_bounds(b, is_domain) {
        raw
    } else {
        OutParamsView {
            objects: if is_domain && response_objects_in_bounds(b, prev.data_size) {
                response_objects(b, prev.data_size)
            } else {
                prev.objects
            },
            status: if header.magic == OUT_DATA_HEADER_MAGIC {
                header.value
            } else {
                prev.status
            },
            data_offset: if response_outcome(b, is_domain, prev.data_size) is Ok {
                response_payload_offset(b, is_domain) as usize
            } else {
                prev.data_offset
            },
            ..raw
        }
    }
}

} // verus!
