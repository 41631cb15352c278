//! The records that head a message in the command buffer: the command header,
//! the special header, the data header and the two domain headers. Each is a
//! value built from named fields and laid out as 32-bit words.

use vstd::prelude::*;
use vstd::arithmetic::div_mod::lemma_fundamental_div_mod_converse;

verus! {

/// Size in bytes of the command header.
pub const COMMAND_HEADER_SIZE: usize = 8;

/// Size in bytes of the special header.
pub const SPECIAL_HEADER_SIZE: usize = 4;

/// Size in bytes of the slot that holds the process id.
pub const PROCESS_ID_SIZE: usize = 8;

/// Size in bytes of one handle.
pub const HANDLE_SIZE: usize = 4;

/// Size in bytes of the data header.
pub const DATA_HEADER_SIZE: usize = 16;

/// Size in bytes of the header that opens the data of a domain request.
pub const DOMAIN_IN_HEADER_SIZE: usize = 16;

/// Size in bytes of the header that opens the data of a domain response.
pub const DOMAIN_OUT_HEADER_SIZE: usize = 16;

/// Size in bytes of one domain object id.
pub const OBJECT_ID_SIZE: usize = 4;

/// Bytes of padding that open every data section.
pub const DATA_PADDING: usize = 16;

/// Magic of the data header of a request.
pub const IN_DATA_HEADER_MAGIC: u32 = 0x4943_4653;

/// Magic of the data header of a response.
pub const OUT_DATA_HEADER_MAGIC: u32 = 0x4F43_4653;

/// Largest count that a four-bit field of a header holds.
pub const MAX_COUNT: usize = 15;

/// Largest number of receive-static descriptors that a command header can
/// announce.
pub const MAX_RECEIVE_STATIC_COUNT: usize = 13;

/// Largest number of data words that a command header can announce.
pub const MAX_DATA_WORD_COUNT: u32 = 0x3FF;

/// The kind of a command, as the command header names it.
#[derive(Clone, Copy, Debug, PartialEq, Eq, Structural)]
pub enum CommandType {
    Invalid,
    LegacyRequest,
    Close,
    LegacyControl,
    Request,
    Control,
    RequestWithContext,
    ControlWithContext,
}

impl CommandType {
    /// The number that stands for this kind in a command header.
    pub open spec fn tag(self) -> u32 {
        match self {
            CommandType::Invalid => 0,
            CommandType::LegacyRequest => 1,
            CommandType::Close => 2,
            CommandType::LegacyControl => 3,
            CommandType::Request => 4,
            CommandType::Control => 5,
            CommandType::RequestWithContext => 6,
            CommandType::ControlWithContext => 7,
        }
    }

    /// The kind that `tag` stands for, if any.
    pub open spec fn of_tag(tag: u32) -> Option<CommandType> {
        if tag == 0 {
            Some(CommandType::Invalid)
        } else if tag == 1 {
            Some(CommandType::LegacyRequest)
        } else if tag == 2 {
            Some(CommandType::Close)
        } else if tag == 3 {
            Some(CommandType::LegacyControl)
        } else if tag == 4 {
            Some(CommandType::Request)
        } else if tag == 5 {
            Some(CommandType::Control)
        } else if tag == 6 {
            Some(CommandType::RequestWithContext)
        } else if tag == 7 {
            Some(CommandType::ControlWithContext)
        } else {
            None
        }
    }

    pub fn to_tag(self) -> (tag: u32)
        ensures
            tag == self.tag(),
    {
        match self {
            CommandType::Invalid => 0,
            CommandType::LegacyRequest => 1,
            CommandType::Close => 2,
            CommandType::LegacyControl => 3,
            CommandType::Request => 4,
            CommandType::Control => 5,
            CommandType::RequestWithContext => 6,
            CommandType::ControlWithContext => 7,
        }
    }

    pub fn from_tag(tag: u32) -> (kind: Option<CommandType>)
        ensures
            kind == CommandType::of_tag(tag),
    {
        if tag == 0 {
            Some(CommandType::Invalid)
        } else if tag == 1 {
            Some(CommandType::LegacyRequest)
        } else if tag == 2 {
            Some(CommandType::Close)
        } else if tag == 3 {
            Some(CommandType::LegacyControl)
        } else if tag == 4 {
            Some(CommandType::Request)
        } else if tag == 5 {
            Some(CommandType::Control)
        } else if tag == 6 {
            Some(CommandType::RequestWithContext)
        } else if tag == 7 {
            Some(CommandType::ControlWithContext)
        } else {
            None
        }
    }
}

/// Every kind is found again from its tag.
pub proof fn lemma_command_type_round_trip(kind: CommandType)
    ensures
        CommandType::of_tag(kind.tag()) == Some(kind),
{
}

/// How a count of receive-static descriptors is written in a command header:
/// none as 0, and `count` of them as `count + 2`.
pub open spec fn receive_static_field(count: u32) -> u32 {
    if count == 0 {
        0
    } else {
        (count + 2) as u32
    }
}

/// The count of receive-static descriptors that a field value announces.
pub open spec fn receive_static_count_of(field: u32) -> u32 {
    if field <= 2 {
        0
    } else {
        (field - 2) as u32
    }
}

/// The fields that the first word of a command header is made of are found
/// again in it.
pub proof fn lemma_word_1_fields(tag: u32, a: u32, b: u32, c: u32, d: u32)
    requires
        tag < 0x1_0000,
        a <= MAX_COUNT,
        b <= MAX_COUNT,
        c <= MAX_COUNT,
        d <= MAX_COUNT,
    ensures
        ({
            let w = CommandHeader::word_1(tag, a, b, c, d);
            &&& 0 <= w <= u32::MAX
            &&& w % 0x1_0000 == tag
            &&& (w / 0x1_0000) % 0x10 == a
            &&& (w / 0x10_0000) % 0x10 == b
            &&& (w / 0x100_0000) % 0x10 == c
            &&& w / 0x1000_0000 == d
        }),
{
    let w = CommandHeader::word_1(tag, a, b, c, d);
    lemma_fundamental_div_mod_converse(w, 0x1_0000, a + b * 0x10 + c * 0x100 + d * 0x1000, tag as int);
    lemma_fundamental_div_mod_converse(
        a + b * 0x10 + c * 0x100 + d * 0x1000,
        0x10,
        b + c * 0x10 + d * 0x100,
        a as int,
    );
    lemma_fundamental_div_mod_converse(w, 0x10_0000, b + c * 0x10 + d * 0x100, tag + a * 0x1_0000);
    lemma_fundamental_div_mod_converse(b + c * 0x10 + d * 0x100, 0x10, c + d * 0x10, b as int);
    lemma_fundamental_div_mod_converse(
        w,
        0x100_0000,
        c + d * 0x10,
        tag + a * 0x1_0000 + b * 0x10_0000,
    );
    lemma_fundamental_div_mod_converse(c + d * 0x10, 0x10, d as int, c as int);
    lemma_fundamental_div_mod_converse(
        w,
        0x1000_0000,
        d as int,
        tag + a * 0x1_0000 + b * 0x10_0000 + c * 0x100_0000,
    );
}

/// The fields that the second word of a command header is made of are found
/// again in it.
pub proof fn lemma_word_2_fields(data_word_count: u32, receive_static_count: u32, flag: bool)
    requires
        data_word_count <= MAX_DATA_WORD_COUNT,
        receive_static_count <= MAX_RECEIVE_STATIC_COUNT,
    ensures
        ({
            let w = CommandHeader::word_2(data_word_count, receive_static_count, flag);
            &&& 0 <= w <= u32::MAX
            &&& w % 0x400 == data_word_count
            &&& (w / 0x400) % 0x10 == receive_static_field(receive_static_count)
            &&& receive_static_count_of(receive_static_field(receive_static_count))
                == receive_static_count
            &&& (w >= 0x8000_0000) == flag
        }),
{
    let w = CommandHeader::word_2(data_word_count, receive_static_count, flag);
    let f = receive_static_field(receive_static_count);
    let high: int = if flag {
        0x20_0000
    } else {
        0
    };
    lemma_fundamental_div_mod_converse(w, 0x400, f + high, data_word_count as int);
    lemma_fundamental_div_mod_converse(f + high, 0x10, high / 0x10, f as int);
}

/// The fields that the word of a special header is made of are found again
/// in it.
pub proof fn lemma_special_word_fields(flag: bool, copies: u32, moves: u32)
    requires
        copies <= MAX_COUNT,
        moves <= MAX_COUNT,
    ensures
        ({
            let w = CommandSpecialHeader::word(flag, copies, moves);
            &&& 0 <= w <= u32::MAX
            &&& (w % 2 == 1) == flag
            &&& (w / 2) % 0x10 == copies
            &&& (w / 0x20) % 0x10 == moves
        }),
{
    let w = CommandSpecialHeader::word(flag, copies, moves);
    let low: int = if flag {
        1
    } else {
        0
    };
    lemma_fundamental_div_mod_converse(w, 2, copies + moves * 0x10, low);
    lemma_fundamental_div_mod_converse(copies + moves * 0x10, 0x10, moves as int, copies as int);
    lemma_fundamental_div_mod_converse(w, 0x20, moves as int, low + copies * 2);
    lemma_fundamental_div_mod_converse(moves as int, 0x10, 0, moves as int);
}

/// The command header: two words that name the kind of the command and say
/// how many descriptors and data words follow. The first word holds the kind
/// in bits 0 to 15, then in four bits each the counts of the send-static
/// descriptors and of the descriptors of the buffers that are sent, received
/// and exchanged. The second word holds the number of data words in bits 0 to
/// 9, the count of the receive-static descriptors in bits 10 to 13, and in bit
/// 31 whether a special header follows.
#[derive(Clone, Copy, Debug, PartialEq, Eq, Structural)]
pub struct CommandHeader {
    pub bits_1: u32,
    pub bits_2: u32,
}

impl CommandHeader {
    /// The first word of a header with the given fields.
    pub open spec fn word_1(
        tag: u32,
        send_static_count: u32,
        send_buffer_count: u32,
        receive_buffer_count: u32,
        exchange_buffer_count: u32,
    ) -> int {
        tag + send_static_count * 0x1_0000 + send_buffer_count * 0x10_0000 + receive_buffer_count
            * 0x100_0000 + exchange_buffer_count * 0x1000_0000
    }

    /// The second word of a header with the given fields.
    pub open spec fn word_2(
        data_word_count: u32,
        receive_static_count: u32,
        has_special_header: bool,
    ) -> int {
        data_word_count + receive_static_field(receive_static_count) * 0x400 + if has_special_header {
            0x8000_0000int
        } else {
            0int
        }
    }

    /// Whether the fields fit the widths that the header gives them.
    pub open spec fn fields_fit(
        send_static_count: u32,
        send_buffer_count: u32,
        receive_buffer_count: u32,
        exchange_buffer_count: u32,
        data_word_count: u32,
        receive_static_count: u32,
    ) -> bool {
        &&& send_static_count <= MAX_COUNT
        &&& send_buffer_count <= MAX_COUNT
        &&& receive_buffer_count <= MAX_COUNT
        &&& exchange_buffer_count <= MAX_COUNT
        &&& data_word_count <= MAX_DATA_WORD_COUNT
        &&& receive_static_count <= MAX_RECEIVE_STATIC_COUNT
    }

    pub open spec fn command_tag(self) -> u32 {
        self.bits_1 % 0x1_0000
    }

    pub open spec fn command_type(self) -> Option<CommandType> {
        CommandType::of_tag(self.command_tag())
    }

    pub open spec fn send_static_count(self) -> u32 {
        (self.bits_1 / 0x1_0000) % 0x10
    }

    pub open spec fn send_buffer_count(self) -> u32 {
        (self.bits_1 / 0x10_0000) % 0x10
    }

    pub open spec fn receive_buffer_count(self) -> u32 {
        (self.bits_1 / 0x100_0000) % 0x10
    }

    pub open spec fn exchange_buffer_count(self) -> u32 {
        self.bits_1 / 0x1000_0000
    }

    pub open spec fn data_word_count(self) -> u32 {
        self.bits_2 % 0x400
    }

    pub open spec fn receive_static_count(self) -> u32 {
        receive_static_count_of((self.bits_2 / 0x400) % 0x10)
    }

    pub open spec fn has_special_header(self) -> bool {
        self.bits_2 >= 0x8000_0000
    }

    /// The header as the words that are written to the buffer.
    pub open spec fn words(self) -> Seq<u32> {
        seq![self.bits_1, self.bits_2]
    }

    /// The header with the given fields.
    pub fn new(
        command_type: CommandType,
        send_static_count: u32,
        send_buffer_count: u32,
        receive_buffer_count: u32,
        exchange_buffer_count: u32,
        data_word_count: u32,
        receive_static_count: u32,
        has_special_header: bool,
    ) -> (header: CommandHeader)
        requires
            CommandHeader::fields_fit(
                send_static_count,
                send_buffer_count,
                receive_buffer_count,
                exchange_buffer_count,
                data_word_count,
                receive_static_count,
            ),
        ensures
            header.bits_1 == CommandHeader::word_1(
                command_type.tag(),
                send_static_count,
                send_buffer_count,
                receive_buffer_count,
                exchange_buffer_count,
            ),
            header.bits_2 == CommandHeader::word_2(
                data_word_count,
                receive_static_count,
                has_special_header,
            ),
            header.command_type() == Some(command_type),
            header.send_static_count() == send_static_count,
            header.send_buffer_count() == send_buffer_count,
            header.receive_buffer_count() == receive_buffer_count,
            header.exchange_buffer_count() == exchange_buffer_count,
            header.data_word_count() == data_word_count,
            header.receive_static_count() == receive_static_count,
            header.has_special_header() == has_special_header,
    {
        proof {
            lemma_word_1_fields(
                command_type.tag(),
                send_static_count,
                send_buffer_count,
                receive_buffer_count,
                exchange_buffer_count,
            );
            lemma_word_2_fields(data_word_count, receive_static_count, has_special_header);
            lemma_command_type_round_trip(command_type);
        }
        let bits_1: u32 = command_type.to_tag() + send_static_count * 0x1_0000 + send_buffer_count
            * 0x10_0000 + receive_buffer_count * 0x100_0000 + exchange_buffer_count * 0x1000_0000;
        let receive_static_type: u32 = if receive_static_count == 0 {
            0
        } else {
            receive_static_count + 2
        };
        let flag: u32 = if has_special_header {
            0x8000_0000
        } else {
            0
        };
        let bits_2: u32 = data_word_count + receive_static_type * 0x400 + flag;
        CommandHeader { bits_1, bits_2 }
    }

    pub fn get_command_type(&self) -> (kind: Option<CommandType>)
        ensures
            kind == self.command_type(),
    {
        CommandType::from_tag(self.bits_1 % 0x1_0000)
    }

    pub fn get_send_static_count(&self) -> (count: u32)
        ensures
            count == self.send_static_count(),
            count <= MAX_COUNT,
    {
        (self.bits_1 / 0x1_0000) % 0x10
    }

    pub fn get_send_buffer_count(&self) -> (count: u32)
        ensures
            count == self.send_buffer_count(),
            count <= MAX_COUNT,
    {
        (self.bits_1 / 0x10_0000) % 0x10
    }

    pub fn get_receive_buffer_count(&self) -> (count: u32)
        ensures
            count == self.receive_buffer_count(),
            count <= MAX_COUNT,
    {
        (self.bits_1 / 0x100_0000) % 0x10
    }

    pub fn get_exchange_buffer_count(&self) -> (count: u32)
        ensures
            count == self.exchange_buffer_count(),
            count <= MAX_COUNT,
    {
        self.bits_1 / 0x1000_0000
    }

    pub fn get_data_word_count(&self) -> (count: u32)
        ensures
            count == self.data_word_count(),
            count <= MAX_DATA_WORD_COUNT,
    {
        self.bits_2 % 0x400
    }

    pub fn get_receive_static_count(&self) -> (count: u32)
        ensures
            count == self.receive_static_count(),
            count <= MAX_RECEIVE_STATIC_COUNT,
    {
        let field: u32 = (self.bits_2 / 0x400) % 0x10;
        if field <= 2 {
            0
        } else {
            field - 2
        }
    }

    pub fn get_has_special_header(&self) -> (flag: bool)
        ensures
            flag == self.has_special_header(),
    {
        self.bits_2 >= 0x8000_0000
    }
}

/// The special header: one word that says whether a process id follows and
/// how many handles of each sort. Bit 0 holds the flag, bits 1 to 4 the
/// number of copy handles and bits 5 to 8 the number of move handles.
#[derive(Clone, Copy, Debug, PartialEq, Eq, Structural)]
pub struct CommandSpecialHeader {
    pub bits: u32,
}

impl CommandSpecialHeader {
    /// The word of a special header with the given fields.
    pub open spec fn word(send_process_id: bool, copy_handle_count: u32, move_handle_count: u32) -> int {
        (if send_process_id {
            1int
        } else {
            0int
        }) + copy_handle_count * 2 + move_handle_count * 0x20
    }

    pub open spec fn send_process_id(self) -> bool {
        self.bits % 2 == 1
    }

    pub open spec fn copy_handle_count(self) -> u32 {
        (self.bits / 2) % 0x10
    }

    pub open spec fn move_handle_count(self) -> u32 {
        (self.bits / 0x20) % 0x10
    }

    /// The header as the words that are written to the buffer.
    pub open spec fn words(self) -> Seq<u32> {
        seq![self.bits]
    }

    /// The special header with the given fields.
    pub fn new(send_process_id: bool, copy_handle_count: u32, move_handle_count: u32) -> (header:
        CommandSpecialHeader)
        requires
            copy_handle_count <= MAX_COUNT,
            move_handle_count <= MAX_COUNT,
        ensures
            header.bits == CommandSpecialHeader::word(
                send_process_id,
                copy_handle_count,
                move_handle_count,
            ),
            header.send_process_id() == send_process_id,
            header.copy_handle_count() == copy_handle_count,
            header.move_handle_count() == move_handle_count,
    {
        proof {
            lemma_special_word_fields(send_process_id, copy_handle_count, move_handle_count);
        }
        let flag: u32 = if send_process_id {
            1
        } else {
            0
        };
        CommandSpecialHeader { bits: flag + copy_handle_count * 2 + move_handle_count * 0x20 }
    }

    pub fn get_send_process_id(&self) -> (flag: bool)
        ensures
            flag == self.send_process_id(),
    {
        self.bits % 2 == 1
    }

    pub fn get_copy_handle_count(&self) -> (count: u32)
        ensures
            count == self.copy_handle_count(),
            count <= MAX_COUNT,
    {
        (self.bits / 2) % 0x10
    }

    pub fn get_move_handle_count(&self) -> (count: u32)
        ensures
            count == self.move_handle_count(),
            count <= MAX_COUNT,
    {
        (self.bits / 0x20) % 0x10
    }
}

/// The data header: the record that opens the payload of a request or a
/// response. In a request `value` is the request id, in a response the status
/// that the remote side returns.
#[derive(Clone, Copy, Debug, PartialEq, Eq, Structural)]
pub struct DataHeader {
    pub magic: u32,
    pub version: u32,
    pub value: u32,
    pub token: u32,
}

impl DataHeader {
    /// The header as the words that are written to the buffer.
    pub open spec fn words(self) -> Seq<u32> {
        seq![self.magic, self.version, self.value, self.token]
    }

    pub fn new(magic: u32, version: u32, value: u32, token: u32) -> (header: DataHeader)
        ensures
            header == (DataHeader { magic, version, value, token }),
    {
        DataHeader { magic, version, value, token }
    }

    /// The words that are written to the buffer.
    pub fn to_words(&self) -> (ws: Vec<u32>)
        ensures
            ws@ == self.words(),
    {
        let mut ws: Vec<u32> = Vec::new();
        ws.push(self.magic);
        ws.push(self.version);
        ws.push(self.value);
        ws.push(self.token);
        assert(ws@ =~= self.words());
        ws
    }
}

/// What a request asks of a domain.
#[derive(Clone, Copy, Debug, PartialEq, Eq, Structural)]
pub enum DomainCommandType {
    Invalid,
    SendMessage,
    Close,
}

impl DomainCommandType {
    /// The number that stands for this kind in a domain header.
    pub open spec fn tag(self) -> u8 {
        match self {
            DomainCommandType::Invalid => 0,
            DomainCommandType::SendMessage => 1,
            DomainCommandType::Close => 2,
        }
    }

    pub fn to_tag(self) -> (tag: u8)
        ensures
            tag == self.tag(),
    {
        match self {
            DomainCommandType::Invalid => 0,
            DomainCommandType::SendMessage => 1,
            DomainCommandType::Close => 2,
        }
    }
}

/// The header that opens the data of a request to a domain: it names the
/// object of the domain that the request is for.
#[derive(Clone, Copy, Debug, PartialEq, Eq, Structural)]
pub struct DomainInDataHeader {
    pub command_type: DomainCommandType,
    pub object_count: u8,
    pub data_size: u16,
    pub domain_object_id: u32,
    pub pad: u32,
    pub token: u32,
}

impl DomainInDataHeader {
    /// The first word: the kind in the lowest byte, then the object count,
    /// then the data size in the upper half.
    pub open spec fn first_word(self) -> u32 {
        (self.command_type.tag() + self.object_count * 0x100 + self.data_size * 0x1_0000) as u32
    }

    /// The header as the words that are written to the buffer.
    pub open spec fn words(self) -> Seq<u32> {
        seq![self.first_word(), self.domain_object_id, self.pad, self.token]
    }

    pub fn new(
        command_type: DomainCommandType,
        object_count: u8,
        data_size: u16,
        domain_object_id: u32,
        token: u32,
    ) -> (header: DomainInDataHeader)
        ensures
            header == (DomainInDataHeader {
                command_type,
                object_count,
                data_size,
                domain_object_id,
                pad: 0,
                token,
            }),
    {
        DomainInDataHeader { command_type, object_count, data_size, domain_object_id, pad: 0, token }
    }

    pub fn get_first_word(&self) -> (word: u32)
        ensures
            word == self.first_word(),
    {
        let tag: u32 = self.command_type.to_tag() as u32;
        let count: u32 = self.object_count as u32;
        let size: u32 = self.data_size as u32;
        tag + count * 0x100 + size * 0x1_0000
    }

    /// The words that are written to the buffer.
    pub fn to_words(&self) -> (ws: Vec<u32>)
        ensures
            ws@ == self.words(),
    {
        let mut ws: Vec<u32> = Vec::new();
        ws.push(self.get_first_word());
        ws.push(self.domain_object_id);
        ws.push(self.pad);
        ws.push(self.token);
        assert(ws@ =~= self.words());
        ws
    }
}

/// The header that opens the data of a response from a domain: it says how
/// many object ids the response returns.
#[derive(Clone, Copy, Debug, PartialEq, Eq)]
pub struct DomainOutDataHeader {
    pub out_object_count: u32,
    pub pad: [u32; 3],
}

impl DomainOutDataHeader {
    /// The header as the words that are written to the buffer.
    pub open spec fn words(self) -> Seq<u32> {
        seq![self.out_object_count, self.pad@[0], self.pad@[1], self.pad@[2]]
    }

    /// The header that announces `out_object_count` object ids.
    pub fn new(out_object_count: u32) -> (header: DomainOutDataHeader)
        ensures
            header.out_object_count == out_object_count,
            header.words() == seq![out_object_count, 0u32, 0u32, 0u32],
    {
        let header = DomainOutDataHeader { out_object_count, pad: [0u32; 3] };
        assert(header.words() =~= seq![out_object_count, 0u32, 0u32, 0u32]);
        header
    }

    /// The words that are written to the buffer.
    pub fn to_words(&self) -> (ws: Vec<u32>)
        ensures
            ws@ == self.words(),
    {
        let mut ws: Vec<u32> = Vec::new();
        ws.push(self.out_object_count);
        ws.push(self.pad[0]);
        ws.push(self.pad[1]);
        ws.push(self.pad[2]);
        assert(ws@ =~= self.words());
        ws
    }
}

} // verus!
