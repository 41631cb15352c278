//! The bookkeeping of a display surface: which driver a control code goes
//! to, how large its buffers are and where each lies, and which of its slots
//! have had their buffer requested. The calls to the drivers themselves are
//! made by the caller, which hands in what they returned.

use vstd::prelude::*;

verus! {

/// The number of slots that a surface has for its buffers.
pub const MAX_BUFFERS: usize = 8;

/// The drivers that a control code can go to.
#[derive(Clone, Copy, Debug, PartialEq, Eq, Structural)]
pub enum IoctlFd {
    NvHost,
    NvMap,
    NvHostCtrl,
}

/// The directions in which a control code passes its argument.
#[derive(Clone, Copy, Debug, PartialEq, Eq, Structural)]
pub struct IoctlMode {
    /// The argument is handed to the driver.
    pub input: bool,
    /// The driver writes the argument back.
    pub output: bool,
}

/// The sizes of the buffers that go with a control code whose argument takes
/// `size` bytes: the argument itself in each direction that the code uses,
/// and nothing in the other.
pub fn ioctl_buffer_sizes(mode: IoctlMode, size: usize) -> (sizes: (usize, usize))
    ensures
        sizes.0 == if mode.input {
            size
        } else {
            0
        },
        sizes.1 == if mode.output {
            size
        } else {
            0
        },
{
    let in_size: usize = if mode.input {
        size
    } else {
        0
    };
    let out_size: usize = if mode.output {
        size
    } else {
        0
    };
    (in_size, out_size)
}

/// What a surface knows of itself: its size in pixels, its buffers, and the
/// descriptors of the drivers that it talks to.
#[derive(Clone, Copy, Debug, PartialEq, Eq)]
pub struct Surface {
    pub width: u32,
    pub height: u32,
    /// Size in bytes of one buffer; zero until the surface is initialized.
    pub single_buffer_size: usize,
    pub buffer_count: u32,
    /// For each slot, whether its buffer has been requested.
    pub slot_has_requested: [bool; 8],
    pub nvhost_fd: u32,
    pub nvmap_fd: u32,
    pub nvhostctrl_fd: u32,
}

impl Surface {
    /// Whether `slot` is one of the slots of a surface.
    pub open spec fn is_slot(slot: i32) -> bool {
        0 <= slot < MAX_BUFFERS
    }

    /// The size in bytes of all buffers together.
    pub open spec fn total_size(self) -> int {
        self.buffer_count * self.single_buffer_size
    }

    /// A surface of `width` by `height` pixels with `buffer_count` buffers,
    /// not yet initialized: no buffer has a size, and none has been requested.
    pub fn new(
        nvhost_fd: u32,
        nvmap_fd: u32,
        nvhostctrl_fd: u32,
        buffer_count: u32,
        width: u32,
        height: u32,
    ) -> (surface: Surface)
        ensures
            surface.width == width,
            surface.height == height,
            surface.single_buffer_size == 0,
            surface.buffer_count == buffer_count,
            forall|slot: int| 0 <= slot < MAX_BUFFERS ==> !surface.slot_has_requested@[slot],
            surface.nvhost_fd == nvhost_fd,
            surface.nvmap_fd == nvmap_fd,
            surface.nvhostctrl_fd == nvhostctrl_fd,
    {
        Surface {
            width,
            height,
            single_buffer_size: 0,
            buffer_count,
            slot_has_requested: [false; 8],
            nvhost_fd,
            nvmap_fd,
            nvhostctrl_fd,
        }
    }

    /// The descriptor of the driver that a control code for `fd` goes to.
    pub fn ioctl_fd(&self, fd: IoctlFd) -> (descriptor: u32)
        ensures
            descriptor == match fd {
                IoctlFd::NvHost => self.nvhost_fd,
                IoctlFd::NvMap => self.nvmap_fd,
                IoctlFd::NvHostCtrl => self.nvhostctrl_fd,
            },
    {
        match fd {
            IoctlFd::NvHost => self.nvhost_fd,
            IoctlFd::NvMap => self.nvmap_fd,
            IoctlFd::NvHostCtrl => self.nvhostctrl_fd,
        }
    }

    /// Fixes the size of the buffers: each holds `aligned_height` rows of
    /// `aligned_width_bytes` bytes. Gives the size of all buffers together,
    /// which is what the surface allocates.
    pub fn initialize(&mut self, aligned_width_bytes: u32, aligned_height: u32) -> (buf_size: usize)
        requires
            aligned_width_bytes * aligned_height <= u32::MAX,
            old(self).buffer_count * (aligned_width_bytes * aligned_height) <= usize::MAX,
        ensures
            final(self).single_buffer_size == aligned_width_bytes * aligned_height,
            buf_size == final(self).total_size(),
            *final(self) == (Surface {
                single_buffer_size: final(self).single_buffer_size,
                ..*old(self)
            }),
    {
        let single: u32 = aligned_width_bytes * aligned_height;
        self.single_buffer_size = single as usize;
        self.buffer_count as usize * self.single_buffer_size
    }

    /// Where the buffer number `index` begins among the buffers of the
    /// surface, which lie one after the other.
    pub fn buffer_offset(&self, index: u32) -> (offset: u32)
        requires
            index < self.buffer_count,
            self.total_size() <= u32::MAX,
        ensures
            offset == index * self.single_buffer_size,
            offset + self.single_buffer_size <= self.total_size(),
    {
        assert(index * self.single_buffer_size + self.single_buffer_size
            <= self.buffer_count * self.single_buffer_size) by (nonlinear_arith)
            requires
                index < self.buffer_count,
        ;
        index * (self.single_buffer_size as u32)
    }

    /// Whether the buffer of `slot`, which was just dequeued, has yet to be
    /// requested.
    pub fn needs_request(&self, slot: i32) -> (needed: bool)
        requires
            Surface::is_slot(slot),
        ensures
            needed == !self.slot_has_requested@[slot as int],
    {
        !self.slot_has_requested[slot as usize]
    }

    /// Records that the buffer of `slot` has been requested.
    pub fn mark_requested(&mut self, slot: i32)
        requires
            Surface::is_slot(slot),
        ensures
            final(self).slot_has_requested@ == old(self).slot_has_requested@.update(
                slot as int,
                true,
            ),
            *final(self) == (Surface {
                slot_has_requested: final(self).slot_has_requested,
                ..*old(self)
            }),
    {
        self.slot_has_requested[slot as usize] = true;
    }

    /// Where the buffer of `slot` begins among the buffers of the surface,
    /// with its size.
    pub fn dequeue_buffer(&self, slot: i32) -> (region: (usize, usize))
        requires
            Surface::is_slot(slot),
            slot * self.single_buffer_size <= usize::MAX,
        ensures
            region.0 == slot * self.single_buffer_size,
            region.1 == self.single_buffer_size,
    {
        (slot as usize * self.single_buffer_size, self.single_buffer_size)
    }
}

} // verus!
