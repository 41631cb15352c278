//! The descriptors of the memory regions that a call shares with the remote
//! side. Each holds an address, a size and a tag, packed into the words that
//! the command buffer carries.

use vstd::prelude::*;
use vstd::arithmetic::div_mod::lemma_fundamental_div_mod_converse;

verus! {

/// Size in bytes of a send-static descriptor.
pub const SEND_STATIC_DESCRIPTOR_SIZE: usize = 8;

/// Size in bytes of a buffer descriptor.
pub const BUFFER_DESCRIPTOR_SIZE: usize = 12;

/// Size in bytes of a receive-static descriptor.
pub const RECEIVE_STATIC_DESCRIPTOR_SIZE: usize = 8;

/// How the remote side may access a shared buffer.
#[derive(Clone, Copy, Debug, PartialEq, Eq, Structural)]
pub enum BufferFlags {
    Normal,
    NonSecure,
    Invalid,
    NonDevice,
}

impl BufferFlags {
    /// The number that stands for this mode in a buffer descriptor.
    pub open spec fn tag(self) -> u32 {
        match self {
            BufferFlags::Normal => 0,
            BufferFlags::NonSecure => 1,
            BufferFlags::Invalid => 2,
            BufferFlags::NonDevice => 3,
        }
    }

    /// The mode that `tag` stands for; `tag` is below 4.
    pub open spec fn of_tag(tag: u32) -> BufferFlags {
        if tag == 0 {
            BufferFlags::Normal
        } else if tag == 1 {
            BufferFlags::NonSecure
        } else if tag == 2 {
            BufferFlags::Invalid
        } else {
            BufferFlags::NonDevice
        }
    }

    pub fn to_tag(self) -> (tag: u32)
        ensures
            tag == self.tag(),
            tag < 4,
    {
        match self {
            BufferFlags::Normal => 0,
            BufferFlags::NonSecure => 1,
            BufferFlags::Invalid => 2,
            BufferFlags::NonDevice => 3,
        }
    }

    pub fn from_tag(tag: u32) -> (flags: BufferFlags)
        requires
            tag < 4,
        ensures
            flags == BufferFlags::of_tag(tag),
            flags.tag() == tag,
    {
        if tag == 0 {
            BufferFlags::Normal
        } else if tag == 1 {
            BufferFlags::NonSecure
        } else if tag == 2 {
            BufferFlags::Invalid
        } else {
            BufferFlags::NonDevice
        }
    }
}

/// The descriptor of a buffer that is sent, received or exchanged: three
/// words. The first two hold the low words of size and address; the third
/// holds the mode in bits 0 to 1, bits 36 and up of the address from bit 2 on,
/// bits 32 to 35 of the size from bit 24 on and bits 32 to 35 of the address
/// from bit 28 on.
#[derive(Clone, Copy, Debug, PartialEq, Eq, Structural)]
pub struct BufferDescriptor {
    pub size_low: u32,
    pub address_low: u32,
    pub bits: u32,
}

impl BufferDescriptor {
    /// The first address that a buffer descriptor cannot hold.
    pub open spec fn address_limit() -> int {
        0x400_0000_0000_0000
    }

    /// The first size that a buffer descriptor cannot hold.
    pub open spec fn size_limit() -> int {
        0x10_0000_0000
    }

    /// The address that the descriptor holds.
    pub open spec fn address(self) -> u64 {
        (self.address_low + (self.bits / 0x1000_0000) * 0x1_0000_0000 + ((self.bits / 4)
            % 0x40_0000) * 0x10_0000_0000) as u64
    }

    /// The size that the descriptor holds.
    pub open spec fn size(self) -> u64 {
        (self.size_low + ((self.bits / 0x100_0000) % 0x10) * 0x1_0000_0000) as u64
    }

    /// The mode that the descriptor holds.
    pub open spec fn flags(self) -> BufferFlags {
        BufferFlags::of_tag(self.bits % 4)
    }

    /// The descriptor as the words that are written to the buffer.
    pub open spec fn words(self) -> Seq<u32> {
        seq![self.size_low, self.address_low, self.bits]
    }

    /// A descriptor with no buffer.
    pub fn empty() -> (descriptor: BufferDescriptor)
        ensures
            descriptor == (BufferDescriptor { size_low: 0, address_low: 0, bits: 0 }),
    {
        BufferDescriptor { size_low: 0, address_low: 0, bits: 0 }
    }

    /// The descriptor of the `size` bytes at `address`, to be accessed as
    /// `flags` says.
    pub fn new(address: u64, size: u64, flags: BufferFlags) -> (descriptor: BufferDescriptor)
        requires
            address < BufferDescriptor::address_limit(),
            size < BufferDescriptor::size_limit(),
        ensures
            descriptor.address() == address,
            descriptor.size() == size,
            descriptor.flags() == flags,
            descriptor.size_low == size % 0x1_0000_0000,
            descriptor.address_low == address % 0x1_0000_0000,
            descriptor.bits == flags.tag() + (address / 0x10_0000_0000) * 4 + (size
                / 0x1_0000_0000) * 0x100_0000 + ((address / 0x1_0000_0000) % 0x10) * 0x1000_0000,
    {
        let address_low: u32 = (address % 0x1_0000_0000) as u32;
        let address_mid: u32 = ((address / 0x1_0000_0000) % 0x10) as u32;
        let address_high: u32 = (address / 0x10_0000_0000) as u32;
        let size_low: u32 = (size % 0x1_0000_0000) as u32;
        let size_high: u32 = (size / 0x1_0000_0000) as u32;
        let tag: u32 = flags.to_tag();
        let bits: u32 = tag + address_high * 4 + size_high * 0x100_0000 + address_mid * 0x1000_0000;
        proof {
            let w = bits as int;
            lemma_fundamental_div_mod_converse(
                w,
                4,
                address_high + size_high * 0x40_0000 + address_mid * 0x400_0000,
                tag as int,
            );
            lemma_fundamental_div_mod_converse(
                address_high + size_high * 0x40_0000 + address_mid * 0x400_0000,
                0x40_0000,
                size_high + address_mid * 0x10,
                address_high as int,
            );
            lemma_fundamental_div_mod_converse(
                w,
                0x100_0000,
                size_high + address_mid * 0x10,
                tag + address_high * 4,
            );
            lemma_fundamental_div_mod_converse(
                size_high + address_mid * 0x10,
                0x10,
                address_mid as int,
                size_high as int,
            );
            lemma_fundamental_div_mod_converse(
                w,
                0x1000_0000,
                address_mid as int,
                tag + address_high * 4 + size_high * 0x100_0000,
            );
            lemma_fundamental_div_mod_converse(
                address as int,
                0x10_0000_0000,
                address_high as int,
                address_low + address_mid * 0x1_0000_0000,
            );
        }
        BufferDescriptor { size_low, address_low, bits }
    }

    pub fn get_address(&self) -> (address: u64)
        ensures
            address == self.address(),
    {
        let low: u64 = self.address_low as u64;
        let mid: u64 = (self.bits / 0x1000_0000) as u64;
        let high: u64 = ((self.bits / 4) % 0x40_0000) as u64;
        low + mid * 0x1_0000_0000 + high * 0x10_0000_0000
    }

    pub fn get_size(&self) -> (size: u64)
        ensures
            size == self.size(),
    {
        let low: u64 = self.size_low as u64;
        let high: u64 = ((self.bits / 0x100_0000) % 0x10) as u64;
        low + high * 0x1_0000_0000
    }

    pub fn get_flags(&self) -> (flags: BufferFlags)
        ensures
            flags == self.flags(),
    {
        BufferFlags::from_tag(self.bits % 4)
    }
}

/// The descriptor of a static buffer that is sent: two words. The first
/// holds the index of the buffer in bits 0 to 5, bits 36 to 41 of the address
/// from bit 6 on, bits 32 to 35 of the address from bit 12 on and the size in
/// the upper half; the second holds the low word of the address.
#[derive(Clone, Copy, Debug, PartialEq, Eq, Structural)]
pub struct SendStaticDescriptor {
    pub bits: u32,
    pub address_low: u32,
}

impl SendStaticDescriptor {
    /// The first address that a send-static descriptor cannot hold.
    pub open spec fn address_limit() -> int {
        0x400_0000_0000
    }

    /// The first index that a send-static descriptor cannot hold.
    pub open spec fn index_limit() -> int {
        0x40
    }

    /// The address that the descriptor holds.
    pub open spec fn address(self) -> u64 {
        (self.address_low + ((self.bits / 0x1000) % 0x10) * 0x1_0000_0000 + ((self.bits / 0x40)
            % 0x40) * 0x10_0000_0000) as u64
    }

    /// The size that the descriptor holds.
    pub open spec fn size(self) -> u16 {
        (self.bits / 0x1_0000) as u16
    }

    /// The index that the descriptor holds.
    pub open spec fn index(self) -> u32 {
        self.bits % 0x40
    }

    /// The descriptor as the words that are written to the buffer.
    pub open spec fn words(self) -> Seq<u32> {
        seq![self.bits, self.address_low]
    }

    /// A descriptor with no buffer.
    pub fn empty() -> (descriptor: SendStaticDescriptor)
        ensures
            descriptor == (SendStaticDescriptor { bits: 0, address_low: 0 }),
    {
        SendStaticDescriptor { bits: 0, address_low: 0 }
    }

    /// The descriptor of the `size` bytes at `address`, sent as the static
    /// buffer number `index`.
    pub fn new(address: u64, size: u16, index: u32) -> (descriptor: SendStaticDescriptor)
        requires
            address < SendStaticDescriptor::address_limit(),
            index < SendStaticDescriptor::index_limit(),
        ensures
            descriptor.address() == address,
            descriptor.size() == size,
            descriptor.index() == index,
            descriptor.address_low == address % 0x1_0000_0000,
            descriptor.bits == index + (address / 0x10_0000_0000) * 0x40 + ((address
                / 0x1_0000_0000) % 0x10) * 0x1000 + size * 0x1_0000,
    {
        let address_low: u32 = (address % 0x1_0000_0000) as u32;
        let address_mid: u32 = ((address / 0x1_0000_0000) % 0x10) as u32;
        let address_high: u32 = (address / 0x10_0000_0000) as u32;
        let wide: u32 = size as u32;
        let bits: u32 = index + address_high * 0x40 + address_mid * 0x1000 + wide * 0x1_0000;
        proof {
            let w = bits as int;
            lemma_fundamental_div_mod_converse(
                w,
                0x40,
                address_high + address_mid * 0x40 + wide * 0x400,
                index as int,
            );
            lemma_fundamental_div_mod_converse(
                address_high + address_mid * 0x40 + wide * 0x400,
                0x40,
                address_mid + wide * 0x10,
                address_high as int,
            );
            lemma_fundamental_div_mod_converse(
                w,
                0x1000,
                address_mid + wide * 0x10,
                index + address_high * 0x40,
            );
            lemma_fundamental_div_mod_converse(
                address_mid + wide * 0x10,
                0x10,
                wide as int,
                address_mid as int,
            );
            lemma_fundamental_div_mod_converse(
                w,
                0x1_0000,
                wide as int,
                index + address_high * 0x40 + address_mid * 0x1000,
            );
            lemma_fundamental_div_mod_converse(
                address as int,
                0x10_0000_0000,
                address_high as int,
                address_low + address_mid * 0x1_0000_0000,
            );
        }
        SendStaticDescriptor { bits, address_low }
    }

    pub fn get_address(&self) -> (address: u64)
        ensures
            address == self.address(),
    {
        let low: u64 = self.address_low as u64;
        let mid: u64 = ((self.bits / 0x1000) % 0x10) as u64;
        let high: u64 = ((self.bits / 0x40) % 0x40) as u64;
        low + mid * 0x1_0000_0000 + high * 0x10_0000_0000
    }

    pub fn get_size(&self) -> (size: u16)
        ensures
            size == self.size(),
    {
        (self.bits / 0x1_0000) as u16
    }

    pub fn get_index(&self) -> (index: u32)
        ensures
            index == self.index(),
    {
        self.bits % 0x40
    }
}

/// The descriptor of a static buffer that receives: two words. The first
/// holds the low word of the address; the second holds bits 32 to 47 of the
/// address in its lower half and the size in its upper half.
#[derive(Clone, Copy, Debug, PartialEq, Eq, Structural)]
pub struct ReceiveStaticDescriptor {
    pub address_low: u32,
    pub bits: u32,
}

impl ReceiveStaticDescriptor {
    /// The first address that a receive-static descriptor cannot hold.
    pub open spec fn address_limit() -> int {
        0x1_0000_0000_0000
    }

    /// The address that the descriptor holds.
    pub open spec fn address(self) -> u64 {
        (self.address_low + (self.bits % 0x1_0000) * 0x1_0000_0000) as u64
    }

    /// The size that the descriptor holds.
    pub open spec fn size(self) -> u16 {
        (self.bits / 0x1_0000) as u16
    }

    /// The descriptor as the words that are written to the buffer.
    pub open spec fn words(self) -> Seq<u32> {
        seq![self.address_low, self.bits]
    }

    /// A descriptor with no buffer.
    pub fn empty() -> (descriptor: ReceiveStaticDescriptor)
        ensures
            descriptor == (ReceiveStaticDescriptor { address_low: 0, bits: 0 }),
    {
        ReceiveStaticDescriptor { address_low: 0, bits: 0 }
    }

    /// The descriptor of the `size` bytes at `address`.
    pub fn new(address: u64, size: u16) -> (descriptor: ReceiveStaticDescriptor)
        requires
            address < ReceiveStaticDescriptor::address_limit(),
        ensures
            descriptor.address() == address,
            descriptor.size() == size,
            descriptor.address_low == address % 0x1_0000_0000,
            descriptor.bits == address / 0x1_0000_0000 + size * 0x1_0000,
    {
        let address_low: u32 = (address % 0x1_0000_0000) as u32;
        let address_high: u32 = (address / 0x1_0000_0000) as u32;
        let wide: u32 = size as u32;
        let bits: u32 = address_high + wide * 0x1_0000;
        proof {
            lemma_fundamental_div_mod_converse(
                bits as int,
                0x1_0000,
                wide as int,
                address_high as int,
            );
        }
        ReceiveStaticDescriptor { address_low, bits }
    }

    pub fn get_address(&self) -> (address: u64)
        ensures
            address == self.address(),
    {
        let low: u64 = self.address_low as u64;
        let high: u64 = (self.bits % 0x1_0000) as u64;
        low + high * 0x1_0000_0000
    }

    pub fn get_size(&self) -> (size: u16)
        ensures
            size == self.size(),
    {
        (self.bits / 0x1_0000) as u16
    }
}

/// The words of a sequence of send-static descriptors, one descriptor after
/// the other.
pub open spec fn send_static_words(ds: Seq<SendStaticDescriptor>) -> Seq<u32> {
    Seq::new(2 * ds.len(), |i: int| ds[i / 2].words()[i % 2])
}

/// The words of a sequence of buffer descriptors, one descriptor after the
/// other.
pub open spec fn buffer_words(ds: Seq<BufferDescriptor>) -> Seq<u32> {
    Seq::new(3 * ds.len(), |i: int| ds[i / 3].words()[i % 3])
}

/// The words of a sequence of receive-static descriptors, one descriptor
/// after the other.
pub open spec fn receive_static_words(ds: Seq<ReceiveStaticDescriptor>) -> Seq<u32> {
    Seq::new(2 * ds.len(), |i: int| ds[i / 2].words()[i % 2])
}

/// The words of the given send-static descriptors.
pub fn flatten_send_statics(ds: &Vec<SendStaticDescriptor>) -> (ws: Vec<u32>)
    ensures
        ws@ == send_static_words(ds@),
{
    let n: usize = ds.len();
    let mut ws: Vec<u32> = Vec::new();
    let mut i: usize = 0;
    while i < n
        invariant
            n == ds.len(),
            i <= n,
            ws@ == send_static_words(ds@.take(i as int)),
        decreases n - i,
    {
        let d: SendStaticDescriptor = ds[i];
        ws.push(d.bits);
        ws.push(d.address_low);
        proof {
            let next = send_static_words(ds@.take(i + 1));
            assert forall|k: int| 0 <= k < next.len() implies ws@[k] == next[k] by {
                if k < 2 * i {
                    assert(ds@.take(i as int)[k / 2] == ds@.take(i + 1)[k / 2]);
                }
            }
            assert(ws@ =~= next);
        }
        i = i + 1;
    }
    assert(ds@.take(n as int) =~= ds@);
    ws
}

/// The words of the given buffer descriptors.
pub fn flatten_buffers(ds: &Vec<BufferDescriptor>) -> (ws: Vec<u32>)
    ensures
        ws@ == buffer_words(ds@),
{
    let n: usize = ds.len();
    let mut ws: Vec<u32> = Vec::new();
    let mut i: usize = 0;
    while i < n
        invariant
            n == ds.len(),
            i <= n,
            ws@ == buffer_words(ds@.take(i as int)),
        decreases n - i,
    {
        let d: BufferDescriptor = ds[i];
        ws.push(d.size_low);
        ws.push(d.address_low);
        ws.push(d.bits);
        proof {
            let next = buffer_words(ds@.take(i + 1));
            assert forall|k: int| 0 <= k < next.len() implies ws@[k] == next[k] by {
                if k < 3 * i {
                    assert(ds@.take(i as int)[k / 3] == ds@.take(i + 1)[k / 3]);
                }
            }
            assert(ws@ =~= next);
        }
        i = i + 1;
    }
    assert(ds@.take(n as int) =~= ds@);
    ws
}

/// The words of the given receive-static descriptors.
pub fn flatten_receive_statics(ds: &Vec<ReceiveStaticDescriptor>) -> (ws: Vec<u32>)
    ensures
        ws@ == receive_static_words(ds@),
{
    let n: usize = ds.len();
    let mut ws: Vec<u32> = Vec::new();
    let mut i: usize = 0;
    while i < n
        invariant
            n == ds.len(),
            i <= n,
            ws@ == receive_static_words(ds@.take(i as int)),
        decreases n - i,
    {
        let d: ReceiveStaticDescriptor = ds[i];
        ws.push(d.address_low);
        ws.push(d.bits);
        proof {
            let next = receive_static_words(ds@.take(i + 1));
            assert forall|k: int| 0 <= k < next.len() implies ws@[k] == next[k] by {
                if k < 2 * i {
                    assert(ds@.take(i as int)[k / 2] == ds@.take(i + 1)[k / 2]);
                }
            }
            assert(ws@ =~= next);
        }
        i = i + 1;
    }
    assert(ds@.take(n as int) =~= ds@);
    ws
}

} // verus!
