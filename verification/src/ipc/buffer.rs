//! The command buffer: a byte region of fixed size that one call at a time
//! writes its message into and reads its response from.

use vstd::prelude::*;
use crate::ipc::wire::{
    halves_bytes, splice, u16_at, u16_bytes, u32_at, u32_bytes, u64_at, words_at, words_bytes,
};

verus! {

/// The size of the command buffer in bytes.
pub const IPC_BUFFER_SIZE: usize = 0x100;

/// The command buffer. Every offset is a byte offset from its start.
#[derive(Clone, Copy, Debug, PartialEq, Eq)]
pub struct IpcBuffer {
    pub bytes: [u8; 256],
}

impl View for IpcBuffer {
    type V = Seq<u8>;

    open spec fn view(&self) -> Seq<u8> {
        self.bytes@
    }
}

impl IpcBuffer {
    /// A buffer of zero bytes.
    pub fn new() -> (buf: IpcBuffer)
        ensures
            buf@ == Seq::new(IPC_BUFFER_SIZE as nat, |i: int| 0u8),
    {
        let buf = IpcBuffer { bytes: [0u8; 256] };
        assert(buf@ =~= Seq::new(IPC_BUFFER_SIZE as nat, |i: int| 0u8));
        buf
    }

    /// The byte at `off`.
    pub fn read_u8(&self, off: usize) -> (b: u8)
        requires
            off < IPC_BUFFER_SIZE,
        ensures
            b == self@[off as int],
    {
        self.bytes[off]
    }

    /// Stores `b` at `off`.
    pub fn write_u8(&mut self, off: usize, b: u8)
        requires
            off < IPC_BUFFER_SIZE,
        ensures
            final(self)@ == old(self)@.update(off as int, b),
    {
        self.bytes[off] = b;
    }

    /// The 16-bit value at `off`.
    pub fn read_u16(&self, off: usize) -> (x: u16)
        requires
            off + 2 <= IPC_BUFFER_SIZE,
        ensures
            x == u16_at(self@, off as int),
    {
        let b0: u16 = self.bytes[off] as u16;
        let b1: u16 = self.bytes[off + 1] as u16;
        b0 + b1 * 0x100
    }

    /// The 32-bit value at `off`.
    pub fn read_u32(&self, off: usize) -> (x: u32)
        requires
            off + 4 <= IPC_BUFFER_SIZE,
        ensures
            x == u32_at(self@, off as int),
    {
        let b0: u32 = self.bytes[off] as u32;
        let b1: u32 = self.bytes[off + 1] as u32;
        let b2: u32 = self.bytes[off + 2] as u32;
        let b3: u32 = self.bytes[off + 3] as u32;
        b0 + b1 * 0x100 + b2 * 0x1_0000 + b3 * 0x100_0000
    }

    /// The 64-bit value at `off`.
    pub fn read_u64(&self, off: usize) -> (x: u64)
        requires
            off + 8 <= IPC_BUFFER_SIZE,
        ensures
            x == u64_at(self@, off as int),
    {
        let low: u64 = self.read_u32(off) as u64;
        let high: u64 = self.read_u32(off + 4) as u64;
        low + high * 0x1_0000_0000
    }

    /// Stores the 16-bit value `x` at `off`.
    pub fn write_u16(&mut self, off: usize, x: u16)
        requires
            off + 2 <= IPC_BUFFER_SIZE,
        ensures
            final(self)@ == splice(old(self)@, off as int, u16_bytes(x)),
    {
        self.bytes[off] = (x % 0x100) as u8;
        self.bytes[off + 1] = (x / 0x100) as u8;
        assert(self@ =~= splice(old(self)@, off as int, u16_bytes(x)));
    }

    /// Stores the 32-bit value `x` at `off`.
    pub fn write_u32(&mut self, off: usize, x: u32)
        requires
            off + 4 <= IPC_BUFFER_SIZE,
        ensures
            final(self)@ == splice(old(self)@, off as int, u32_bytes(x)),
    {
        self.bytes[off] = (x % 0x100) as u8;
        self.bytes[off + 1] = ((x / 0x100) % 0x100) as u8;
        self.bytes[off + 2] = ((x / 0x1_0000) % 0x100) as u8;
        self.bytes[off + 3] = (x / 0x100_0000) as u8;
        assert(self@ =~= splice(old(self)@, off as int, u32_bytes(x)));
    }

    /// Stores the words of `ws` from `off` on.
    pub fn write_words(&mut self, off: usize, ws: &Vec<u32>)
        requires
            off + 4 * ws.len() <= IPC_BUFFER_SIZE,
        ensures
            final(self)@ == splice(old(self)@, off as int, words_bytes(ws@)),
    {
        let n: usize = ws.len();
        let mut i: usize = 0;
        proof {
            reveal(words_bytes);
            assert(self@ =~= splice(old(self)@, off as int, words_bytes(ws@.take(0))));
        }
        while i < n
            invariant
                n == ws.len(),
                i <= n,
                off + 4 * n <= IPC_BUFFER_SIZE,
                self@ == splice(old(self)@, off as int, words_bytes(ws@.take(i as int))),
            decreases n - i,
        {
            let ghost before = self@;
            self.write_u32(off + 4 * i, ws[i]);
            proof {
                reveal(words_bytes);
                let a = words_bytes(ws@.take(i as int));
                let b = words_bytes(ws@.take(i + 1));
                assert forall|k: int| 0 <= k < 256 implies self@[k] == splice(
                    old(self)@,
                    off as int,
                    b,
                )[k] by {
                    if off <= k < off + 4 * i {
                        assert(before[k] == a[k - off]);
                        assert(ws@.take(i as int)[(k - off) / 4] == ws@.take(i + 1)[(k - off) / 4]);
                    } else if off + 4 * i <= k < off + 4 * i + 4 {
                        assert((k - off) / 4 == i);
                        assert((k - off) % 4 == k - off - 4 * i);
                    }
                }
                assert(self@ =~= splice(old(self)@, off as int, b));
            }
            i = i + 1;
        }
        assert(ws@.take(n as int) =~= ws@);
    }

    /// The `n` words stored from `off` on.
    pub fn read_words(&self, off: usize, n: usize) -> (ws: Vec<u32>)
        requires
            off + 4 * n <= IPC_BUFFER_SIZE,
        ensures
            ws@ == words_at(self@, off as int, n as nat),
    {
        let mut ws: Vec<u32> = Vec::new();
        let mut i: usize = 0;
        while i < n
            invariant
                i <= n,
                off + 4 * n <= IPC_BUFFER_SIZE,
                ws@ == words_at(self@, off as int, i as nat),
            decreases n - i,
        {
            let w: u32 = self.read_u32(off + 4 * i);
            ws.push(w);
            assert(ws@ =~= words_at(self@, off as int, (i + 1) as nat));
            i = i + 1;
        }
        ws
    }

    /// Stores the 16-bit values of `hs` from `off` on.
    pub fn write_halves(&mut self, off: usize, hs: &Vec<u16>)
        requires
            off + 2 * hs.len() <= IPC_BUFFER_SIZE,
        ensures
            final(self)@ == splice(old(self)@, off as int, halves_bytes(hs@)),
    {
        let n: usize = hs.len();
        let mut i: usize = 0;
        proof {
            reveal(halves_bytes);
            assert(self@ =~= splice(old(self)@, off as int, halves_bytes(hs@.take(0))));
        }
        while i < n
            invariant
                n == hs.len(),
                i <= n,
                off + 2 * n <= IPC_BUFFER_SIZE,
                self@ == splice(old(self)@, off as int, halves_bytes(hs@.take(i as int))),
            decreases n - i,
        {
            let ghost before = self@;
            self.write_u16(off + 2 * i, hs[i]);
            proof {
                reveal(halves_bytes);
                let a = halves_bytes(hs@.take(i as int));
                let b = halves_bytes(hs@.take(i + 1));
                assert forall|k: int| 0 <= k < 256 implies self@[k] == splice(
                    old(self)@,
                    off as int,
                    b,
                )[k] by {
                    if off <= k < off + 2 * i {
                        assert(before[k] == a[k - off]);
                        assert(hs@.take(i as int)[(k - off) / 2] == hs@.take(i + 1)[(k - off) / 2]);
                    } else if off + 2 * i <= k < off + 2 * i + 2 {
                        assert((k - off) / 2 == i);
                        assert((k - off) % 2 == k - off - 2 * i);
                    }
                }
                assert(self@ =~= splice(old(self)@, off as int, b));
            }
            i = i + 1;
        }
        assert(hs@.take(n as int) =~= hs@);
    }

    /// Stores the bytes of `data` from `off` on.
    pub fn write_bytes(&mut self, off: usize, data: &Vec<u8>)
        requires
            off + data.len() <= IPC_BUFFER_SIZE,
        ensures
            final(self)@ == splice(old(self)@, off as int, data@),
    {
        let n: usize = data.len();
        let mut i: usize = 0;
        assert(self@ =~= splice(old(self)@, off as int, data@.take(0)));
        while i < n
            invariant
                n == data.len(),
                i <= n,
                off + n <= IPC_BUFFER_SIZE,
                self@ == splice(old(self)@, off as int, data@.take(i as int)),
            decreases n - i,
        {
            self.bytes[off + i] = data[i];
            assert(self@ =~= splice(old(self)@, off as int, data@.take(i + 1)));
            i = i + 1;
        }
        assert(data@.take(n as int) =~= data@);
    }

    /// The `n` bytes stored from `off` on.
    pub fn read_bytes(&self, off: usize, n: usize) -> (data: Vec<u8>)
        requires
            off + n <= IPC_BUFFER_SIZE,
        ensures
            data@ == self@.subrange(off as int, off + n),
    {
        let mut data: Vec<u8> = Vec::new();
        let mut i: usize = 0;
        while i < n
            invariant
                i <= n,
                off + n <= IPC_BUFFER_SIZE,
                data@ == self@.subrange(off as int, off + i),
            decreases n - i,
        {
            data.push(self.bytes[off + i]);
            assert(data@ =~= self@.subrange(off as int, off + i + 1));
            i = i + 1;
        }
        data
    }
}

} // verus!
