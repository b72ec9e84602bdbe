use vstd::prelude::*;

use crate::image::Extent2D;

verus! {

/// What a buffer is for; each use fixes the usage flags it is created with.
#[derive(Clone, Copy, Debug, PartialEq, Eq, Structural)]
pub enum BufferUsage {
    /// Source of a transfer (staging).
    Staging,
    /// Vertex buffer, and destination of a transfer.
    Vertex,
    /// Index buffer, and destination of a transfer.
    Index,
    /// Indirect draw buffer, and destination of a transfer.
    Indirect,
    /// Uniform buffer, and destination of a transfer.
    Uniform,
}

/// What to allocate: a host-visible, mapped buffer of a byte size, or a device-local
/// sampled RGBA image of an extent.
#[derive(Clone, Copy, Debug, PartialEq, Eq, Structural)]
pub enum RequirementType {
    Buffer(usize, BufferUsage),
    Image(Extent2D),
}

/// Bytes that an allocation made for `r` holds: the buffer's size, or four bytes per
/// pixel of the image.
pub open spec fn capacity_of(r: RequirementType) -> int {
    match r {
        RequirementType::Buffer(size, _) => size as int,
        RequirementType::Image(e) => e.width * e.height * 4,
    }
}

/// A GPU allocation `buffer` together with what it was made for, how many bytes it
/// can hold and how many bytes of it are in use.
pub struct BufferGO<B> {
    pub count: usize,
    pub capacity: usize,
    pub buffer: B,
    pub requirement_type: RequirementType,
}

impl<B> BufferGO<B> {
    /// The bytes in use never exceed what the allocation holds, and the allocation
    /// holds what it was made for.
    pub open spec fn wf(&self) -> bool {
        &&& self.count <= self.capacity
        &&& self.capacity == capacity_of(self.requirement_type)
    }

    /// Wraps a fresh allocation made for `requirement_type`; nothing is in use yet.
    pub fn new(requirement_type: RequirementType, buffer: B) -> (r: Self)
        requires
            capacity_of(requirement_type) <= usize::MAX,
        ensures
            r.wf(),
            r.count == 0,
            r.capacity == capacity_of(requirement_type),
            r.requirement_type == requirement_type,
            r.buffer == buffer,
    {
        let capacity: usize = match requirement_type {
            RequirementType::Buffer(size, _) => size,
            RequirementType::Image(extent) => {
                assert((extent.width as u64) * (extent.height as u64) <= u32::MAX * u32::MAX) by (nonlinear_arith);
                ((extent.width as u64) * (extent.height as u64) * 4) as usize
            },
        };
        BufferGO { count: 0, capacity, buffer, requirement_type }
    }

    /// Records that `byte_len` bytes are now in use. Where they do not fit, the buffer
    /// must be allocated anew: its capacity doubles until the bytes fit (an empty buffer
    /// grows to exactly `byte_len`, as does one whose doubling would pass `usize::MAX`).
    /// The requirement and capacity then say so, and the result is the new capacity;
    /// otherwise `None` and the allocation stays. Empty data only clears the count.
    /// Only buffers take data.
    pub fn update(&mut self, byte_len: usize) -> (r: Option<usize>)
        requires
            old(self).wf(),
            byte_len == 0 || old(self).requirement_type is Buffer,
        ensures
            final(self).wf(),
            final(self).buffer == old(self).buffer,
            final(self).count == byte_len,
            byte_len <= old(self).capacity ==> r is None && final(self).capacity == old(self).capacity
                && final(self).requirement_type == old(self).requirement_type,
            byte_len > old(self).capacity ==> r == Some(final(self).capacity)
                && final(self).capacity == grown_capacity(old(self).capacity as int, byte_len as int)
                && (old(self).requirement_type matches RequirementType::Buffer(_, usage)
                    && final(self).requirement_type == RequirementType::Buffer(final(self).capacity, usage)),
    {
        if byte_len == 0 {
            self.count = 0;
            return None;
        }
        let mut grown: Option<usize> = None;
        if self.capacity < byte_len {
            let capacity = doubled_capacity(self.capacity, byte_len);
            if let RequirementType::Buffer(_, usage) = self.requirement_type {
                self.requirement_type = RequirementType::Buffer(capacity, usage);
            }
            self.capacity = capacity;
            grown = Some(capacity);
        }
        self.count = byte_len;
        grown
    }
}

/// Doubling `capacity` until it holds `len` bytes; an empty capacity becomes `len`.
pub open spec fn doubled(capacity: int, len: int) -> int
    decreases (if capacity < len { len - capacity } else { 0 }),
{
    if capacity >= len {
        capacity
    } else if capacity <= 0 {
        len
    } else {
        doubled(2 * capacity, len)
    }
}

/// The capacity a buffer grows to for `len` bytes: the doubled capacity where it fits
/// in `usize`, else exactly `len`.
pub open spec fn grown_capacity(capacity: int, len: int) -> int {
    if doubled(capacity, len) <= usize::MAX {
        doubled(capacity, len)
    } else {
        len
    }
}

/// A doubled capacity holds the bytes and is no less than where it started.
proof fn lemma_doubled_bounds(capacity: int, len: int)
    ensures
        doubled(capacity, len) >= len,
        doubled(capacity, len) >= capacity,
    decreases (if capacity < len { len - capacity } else { 0 }),
{
    if capacity < len && capacity > 0 {
        lemma_doubled_bounds(2 * capacity, len);
    }
}

/// The capacity for `len` bytes, grown from `capacity`.
fn doubled_capacity(capacity: usize, len: usize) -> (r: usize)
    requires
        capacity < len,
    ensures
        r == grown_capacity(capacity as int, len as int),
        r >= len,
{
    proof {
        lemma_doubled_bounds(capacity as int, len as int);
    }
    if capacity == 0 {
        return len;
    }
    let mut n: usize = capacity;
    let mut overflow = false;
    while n < len && !overflow
        invariant
            0 < n,
            doubled(n as int, len as int) == doubled(capacity as int, len as int),
            overflow ==> doubled(capacity as int, len as int) > usize::MAX,
        decreases (if n < len { len - n } else { 0 }) + (if overflow { 0int } else { 1int }),
    {
        if n > usize::MAX / 2 {
            proof {
                lemma_doubled_bounds(2 * n, len as int);
            }
            overflow = true;
        } else {
            n = n * 2;
        }
    }
    if overflow {
        len
    } else {
        n
    }
}

} // verus!
