//! What a caller fills in before a call and reads after it: the session that
//! the call goes to, the parameters that go out and those that come back.

use vstd::prelude::*;
use crate::ipc::descriptor::{BufferDescriptor, ReceiveStaticDescriptor, SendStaticDescriptor};

verus! {

/// The session that a call goes to. A domain session shares one kernel
/// session among several objects; `object_id` names the object that is meant
/// and has a meaning only where `is_domain` holds.
#[derive(Clone, Copy, Debug, PartialEq, Eq, Structural)]
pub struct Session {
    pub object_id: u32,
    pub is_domain: bool,
}

impl Session {
    /// A session that is no domain.
    pub fn new() -> (session: Session)
        ensures
            session == (Session { object_id: 0, is_domain: false }),
    {
        Session { object_id: 0, is_domain: false }
    }

    /// The object `object_id` of a domain session.
    pub fn domain(object_id: u32) -> (session: Session)
        ensures
            session == (Session { object_id, is_domain: true }),
    {
        Session { object_id, is_domain: true }
    }
}

/// What goes out with a call. The four offsets at the end are filled in when
/// the message is written; the caller sets the rest.
#[derive(Clone, Debug)]
pub struct InParams {
    /// Whether the kernel is asked to put the caller's process id into the
    /// message.
    pub send_process_id: bool,
    /// Handles that the remote side gets a copy of.
    pub copy_handles: Vec<u32>,
    /// Handles that are moved to the remote side.
    pub move_handles: Vec<u32>,
    pub send_statics: Vec<SendStaticDescriptor>,
    pub send_buffers: Vec<BufferDescriptor>,
    pub receive_buffers: Vec<BufferDescriptor>,
    pub exchange_buffers: Vec<BufferDescriptor>,
    pub receive_statics: Vec<ReceiveStaticDescriptor>,
    /// Sizes that the remote side is to use for what it returns through
    /// pointers.
    pub out_pointer_sizes: Vec<u16>,
    /// Size in bytes of the payload, which the caller writes at
    /// `data_offset` once the message is laid out.
    pub data_size: u32,
    /// Number of domain object ids that the caller appends at
    /// `objects_offset`.
    pub object_count: usize,
    /// Where the data words begin.
    pub data_words_offset: usize,
    /// Where the payload begins.
    pub data_offset: usize,
    /// Where the domain object ids begin.
    pub objects_offset: usize,
    /// Where the table of pointer sizes begins.
    pub out_pointer_sizes_offset: usize,
}

/// An `InParams` as a mathematical value.
pub struct InParamsView {
    pub send_process_id: bool,
    pub copy_handles: Seq<u32>,
    pub move_handles: Seq<u32>,
    pub send_statics: Seq<SendStaticDescriptor>,
    pub send_buffers: Seq<BufferDescriptor>,
    pub receive_buffers: Seq<BufferDescriptor>,
    pub exchange_buffers: Seq<BufferDescriptor>,
    pub receive_statics: Seq<ReceiveStaticDescriptor>,
    pub out_pointer_sizes: Seq<u16>,
    pub data_size: u32,
    pub object_count: usize,
    pub data_words_offset: usize,
    pub data_offset: usize,
    pub objects_offset: usize,
    pub out_pointer_sizes_offset: usize,
}

impl View for InParams {
    type V = InParamsView;

    open spec fn view(&self) -> InParamsView {
        InParamsView {
            send_process_id: self.send_process_id,
            copy_handles: self.copy_handles@,
            move_handles: self.move_handles@,
            send_statics: self.send_statics@,
            send_buffers: self.send_buffers@,
            receive_buffers: self.receive_buffers@,
            exchange_buffers: self.exchange_buffers@,
            receive_statics: self.receive_statics@,
            out_pointer_sizes: self.out_pointer_sizes@,
            data_size: self.data_size,
            object_count: self.object_count,
            data_words_offset: self.data_words_offset,
            data_offset: self.data_offset,
            objects_offset: self.objects_offset,
            out_pointer_sizes_offset: self.out_pointer_sizes_offset,
        }
    }
}

impl InParamsView {
    /// Parameters that carry nothing.
    pub open spec fn empty() -> InParamsView {
        InParamsView {
            send_process_id: false,
            copy_handles: Seq::empty(),
            move_handles: Seq::empty(),
            send_statics: Seq::empty(),
            send_buffers: Seq::empty(),
            receive_buffers: Seq::empty(),
            exchange_buffers: Seq::empty(),
            receive_statics: Seq::empty(),
            out_pointer_sizes: Seq::empty(),
            data_size: 0,
            object_count: 0,
            data_words_offset: 0,
            data_offset: 0,
            objects_offset: 0,
            out_pointer_sizes_offset: 0,
        }
    }
}

impl InParams {
    /// Parameters that carry nothing.
    pub fn new() -> (params: InParams)
        ensures
            params@ == InParamsView::empty(),
    {
        InParams {
            send_process_id: false,
            copy_handles: Vec::new(),
            move_handles: Vec::new(),
            send_statics: Vec::new(),
            send_buffers: Vec::new(),
            receive_buffers: Vec::new(),
            exchange_buffers: Vec::new(),
            receive_statics: Vec::new(),
            out_pointer_sizes: Vec::new(),
            data_size: 0,
            object_count: 0,
            data_words_offset: 0,
            data_offset: 0,
            objects_offset: 0,
            out_pointer_sizes_offset: 0,
        }
    }
}

/// What comes back from a call. The caller sets `data_size`, the size of the
/// payload that it expects; reading the response fills in the rest.
#[derive(Clone, Debug)]
pub struct OutParams {
    /// The process id that the response carries, if it carries one.
    pub process_id: u64,
    pub copy_handles: Vec<u32>,
    pub move_handles: Vec<u32>,
    /// The domain object ids that the response returns.
    pub objects: Vec<u32>,
    /// Size in bytes of the payload that the caller expects.
    pub data_size: u32,
    /// Where the data words begin.
    pub data_words_offset: usize,
    /// Where the payload begins.
    pub data_offset: usize,
    /// The status that the remote side returned in the data header.
    pub status: u32,
}

/// An `OutParams` as a mathematical value.
pub struct OutParamsView {
    pub process_id: u64,
    pub copy_handles: Seq<u32>,
    pub move_handles: Seq<u32>,
    pub objects: Seq<u32>,
    pub data_size: u32,
    pub data_words_offset: usize,
    pub data_offset: usize,
    pub status: u32,
}

impl View for OutParams {
    type V = OutParamsView;

    open spec fn view(&self) -> OutParamsView {
        OutParamsView {
            process_id: self.process_id,
            copy_handles: self.copy_handles@,
            move_handles: self.move_handles@,
            objects: self.objects@,
            data_size: self.data_size,
            data_words_offset: self.data_words_offset,
            data_offset: self.data_offset,
            status: self.status,
        }
    }
}

impl OutParamsView {
    /// Parameters that hold nothing yet.
    pub open spec fn empty() -> OutParamsView {
        OutParamsView {
            process_id: 0,
            copy_handles: Seq::empty(),
            move_handles: Seq::empty(),
            objects: Seq::empty(),
            data_size: 0,
            data_words_offset: 0,
            data_offset: 0,
            status: 0,
        }
    }
}

impl OutParams {
    /// Parameters that hold nothing yet.
    pub fn new() -> (params: OutParams)
        ensures
            params@ == OutParamsView::empty(),
    {
        OutParams {
            process_id: 0,
            copy_handles: Vec::new(),
            move_handles: Vec::new(),
            objects: Vec::new(),
            data_size: 0,
            data_words_offset: 0,
            data_offset: 0,
            status: 0,
        }
    }
}

/// All that one call works on: the session, what goes out and what comes
/// back.
#[derive(Clone, Debug)]
pub struct CommandContext {
    pub session: Session,
    pub in_params: InParams,
    pub out_params: OutParams,
}

/// A `CommandContext` as a mathematical value.
pub struct CommandContextView {
    pub session: Session,
    pub in_params: InParamsView,
    pub out_params: OutParamsView,
}

impl View for CommandContext {
    type V = CommandContextView;

    open spec fn view(&self) -> CommandContextView {
        CommandContextView {
            session: self.session,
            in_params: self.in_params@,
            out_params: self.out_params@,
        }
    }
}

impl CommandContext {
    /// The context of a call to `session` that carries nothing yet.
    pub fn new(session: Session) -> (ctx: CommandContext)
        ensures
            ctx@ == (CommandContextView {
                session,
                in_params: InParamsView::empty(),
                out_params: OutParamsView::empty(),
            }),
    {
        CommandContext { session, in_params: InParams::new(), out_params: OutParams::new() }
    }
}

} // verus!
