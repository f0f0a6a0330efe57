//! Host-to-device buffer model: sizing, alignment, the map-once
//! discipline, and the bound on writes — the single most safety-critical
//! contract here, since an overrun would corrupt adjacent GPU memory.
//!
//! The model holds the element data the host program uploads; the driver
//! allocation, the raw mapping and the flush call are the host program's,
//! directed by these contracts.

use vstd::prelude::*;

verus! {

/// Largest element size (bytes) the model accepts; a machine limit that
/// keeps every byte count inside a 64-bit size.
pub const MAX_INSTANCE_SIZE: u64 = 0x10000;

/// Largest alignment the model accepts; device minimum-offset alignments
/// are small powers of two, far below this.
pub const MAX_OFFSET_ALIGNMENT: u64 = 0x10000;

/// Largest element count the model accepts.
pub const MAX_INSTANCE_COUNT: usize = 0x1000_0000;

/// `instance_size` rounded up to the next multiple of
/// `min_offset_alignment`.
pub open spec fn spec_align_up(instance_size: u64, min_offset_alignment: u64) -> int {
    ((instance_size + min_offset_alignment - 1) / (min_offset_alignment as int))
        * min_offset_alignment
}

/// Offset and byte range of a buffer, as a descriptor write reports it.
#[derive(Debug, Clone, Copy, PartialEq, Eq, Structural)]
pub struct DescriptorBufferInfo {
    pub offset: u64,
    pub range: u64,
}

/// A buffer of `instance_count` elements of `instance_size` bytes each,
/// every element padded to `alignment_size`. `contents` models the
/// element data written through the mapping so far; `mapped` says the
/// host mapping is live; a non-`host_coherent` buffer needs an explicit
/// driver flush after writes.
#[derive(Debug, Clone)]
pub struct Buffer<T> {
    pub instance_count: usize,
    pub instance_size: u64,
    pub alignment_size: u64,
    pub buffer_size: u64,
    pub mapped: bool,
    pub host_coherent: bool,
    pub contents: Vec<T>,
}

impl<T: Copy> Buffer<T> {
    /// Model well-formedness: sizes within the machine limits, the
    /// padded element size and total size consistent, and never more
    /// elements written than allocated.
    pub open spec fn wf(&self) -> bool {
        &&& 0 < self.instance_size <= MAX_INSTANCE_SIZE
        &&& self.instance_size <= self.alignment_size <= MAX_INSTANCE_SIZE + MAX_OFFSET_ALIGNMENT
        &&& self.buffer_size == self.alignment_size * self.instance_count
        &&& self.instance_count <= MAX_INSTANCE_COUNT
        &&& self.contents@.len() <= self.instance_count
    }

    /// Rounds the element size up to the device's minimum offset
    /// alignment (1 when the usage imposes none).
    pub fn get_alignment(instance_size: u64, min_offset_alignment: u64) -> (r: u64)
        requires
            0 < instance_size <= MAX_INSTANCE_SIZE,
            0 < min_offset_alignment <= MAX_OFFSET_ALIGNMENT,
        ensures
            r == spec_align_up(instance_size, min_offset_alignment),
            instance_size <= r < instance_size + min_offset_alignment,
            r % min_offset_alignment == 0,
    {
        let q = (instance_size + min_offset_alignment - 1) / min_offset_alignment;
        proof {
            let s = instance_size as int;
            let a = min_offset_alignment as int;
            assert(a * (q as int) <= s + a - 1) by (nonlinear_arith)
                requires
                    0 < a,
                    q == (s + a - 1) / a,
            ;
            assert(s + a - 1 < a * ((q as int) + 1)) by (nonlinear_arith)
                requires
                    0 < a,
                    q == (s + a - 1) / a,
            ;
            assert(s <= (q as int) * a) by (nonlinear_arith)
                requires
                    0 < a,
                    s + a - 1 < a * ((q as int) + 1),
            ;
            assert(((q as int) * a) % a == 0) by (nonlinear_arith)
                requires
                    0 < a,
            ;
        }
        q * min_offset_alignment
    }

    /// A freshly allocated, unmapped, empty buffer for `instance_count`
    /// elements of `instance_size` bytes, padded to the device's minimum
    /// offset alignment.
    pub fn new(
        instance_count: usize,
        instance_size: u64,
        min_offset_alignment: u64,
        host_coherent: bool,
    ) -> (r: Buffer<T>)
        requires
            0 < instance_size <= MAX_INSTANCE_SIZE,
            0 < min_offset_alignment <= MAX_OFFSET_ALIGNMENT,
            instance_count <= MAX_INSTANCE_COUNT,
        ensures
            r.wf(),
            r.instance_count == instance_count,
            r.instance_size == instance_size,
            r.alignment_size == spec_align_up(instance_size, min_offset_alignment),
            r.host_coherent == host_coherent,
            !r.mapped,
            r.contents@.len() == 0,
    {
        let alignment_size = Self::get_alignment(instance_size, min_offset_alignment);
        proof {
            assert(alignment_size * instance_count <= (MAX_INSTANCE_SIZE + MAX_OFFSET_ALIGNMENT)
                * MAX_INSTANCE_COUNT) by (nonlinear_arith)
                requires
                    0 <= alignment_size <= MAX_INSTANCE_SIZE + MAX_OFFSET_ALIGNMENT,
                    0 <= instance_count <= MAX_INSTANCE_COUNT,
            ;
        }
        let buffer_size = alignment_size * (instance_count as u64);
        Buffer {
            instance_count,
            instance_size,
            alignment_size,
            buffer_size,
            mapped: false,
            host_coherent,
            contents: Vec::new(),
        }
    }

    /// Records the host mapping of the whole buffer. Mapping is done
    /// exactly once: re-mapping an already-mapped buffer is a programming
    /// error, so the host program guards with `is_mapped`.
    pub fn map(&mut self)
        requires
            !old(self).mapped,
        ensures
            *final(self) == (Buffer { mapped: true, ..*old(self) }),
    {
        self.mapped = true;
    }

    /// Whether the buffer is currently host-mapped.
    pub fn is_mapped(&self) -> (r: bool)
        ensures
            r == self.mapped,
    {
        self.mapped
    }

    /// Copies `data` into the mapped region from its start. The caller
    /// must not exceed the allocated capacity and must have mapped the
    /// buffer first. Elements beyond `data` keep their previous value.
    pub fn write_to_buffer(&mut self, data: &Vec<T>)
        requires
            old(self).wf(),
            old(self).mapped,
            data@.len() <= old(self).instance_count,
        ensures
            final(self).wf(),
            *final(self) == (Buffer { contents: final(self).contents, ..*old(self) }),
            final(self).contents@.len() == if data@.len() >= old(self).contents@.len() {
                data@.len()
            } else {
                old(self).contents@.len()
            },
            forall|i: int| 0 <= i < data@.len() ==> #[trigger] final(self).contents@[i] == data@[i],
            forall|i: int|
                data@.len() <= i < old(self).contents@.len() ==> (#[trigger] final(self).contents@[i])
                    == old(self).contents@[i],
    {
        let n = data.len();
        let mut i: usize = 0;
        while i < n
            invariant
                n == data@.len(),
                i <= n,
                n <= self.instance_count,
                self.contents@.len() == if i >= old(self).contents@.len() {
                    i as int
                } else {
                    old(self).contents@.len() as int
                },
                forall|j: int| 0 <= j < i ==> self.contents@[j] == data@[j],
                forall|j: int|
                    i <= j < old(self).contents@.len() ==> self.contents@[j] == old(
                        self,
                    ).contents@[j],
                *self == (Buffer { contents: self.contents, ..*old(self) }),
            decreases n - i,
        {
            if i < self.contents.len() {
                self.contents.set(i, data[i]);
            } else {
                self.contents.push(data[i]);
            }
            i = i + 1;
        }
    }

    /// The checked form of `write_to_buffer`: refuses (returning `false`
    /// and leaving the buffer untouched) any write that is not mapped or
    /// would exceed the allocated capacity — an overrun is detected, not
    /// truncated.
    pub fn try_write_to_buffer(&mut self, data: &Vec<T>) -> (r: bool)
        requires
            old(self).wf(),
        ensures
            final(self).wf(),
            r <==> (old(self).mapped && data@.len() <= old(self).instance_count),
            !r ==> *final(self) == *old(self),
            r ==> *final(self) == (Buffer { contents: final(self).contents, ..*old(self) }),
            r ==> forall|i: int|
                0 <= i < data@.len() ==> #[trigger] final(self).contents@[i] == data@[i],
    {
        if self.mapped && data.len() <= self.instance_count {
            self.write_to_buffer(data);
            true
        } else {
            false
        }
    }

    /// Whether the host program must issue the driver's flush call to
    /// make the writes visible to the device: exactly for buffers whose
    /// memory is not host-coherent.
    pub fn flush(&self) -> (r: bool)
        requires
            self.mapped,
        ensures
            r <==> !self.host_coherent,
    {
        !self.host_coherent
    }

    /// The whole-buffer descriptor range used when binding the buffer
    /// into a descriptor set.
    pub fn descriptor_info(&self) -> (r: DescriptorBufferInfo)
        ensures
            r.offset == 0,
            r.range == self.buffer_size,
    {
        DescriptorBufferInfo { offset: 0, range: self.buffer_size }
    }
}

} // verus!
