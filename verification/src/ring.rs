//! The read and write positions of a VMBus ring buffer.
use vstd::prelude::*;

verus! {

/// The positions kept for one ring buffer: the shared `write_index` and
/// `read_index` of the ring, and the reader's private `priv_read_index`.
#[derive(PartialEq, Eq, Structural, Clone, Copy, Debug)]
pub struct RingBufferInfo {
    pub write_index: u32,
    pub read_index: u32,
    pub priv_read_index: u32,
}

/// `r` with the write position moved to `next`.
pub open spec fn with_write_location(r: RingBufferInfo, next: u32) -> RingBufferInfo {
    RingBufferInfo { write_index: next, ..r }
}

/// `r` with both read positions moved to `next`.
pub open spec fn with_read_location(r: RingBufferInfo, next: u32) -> RingBufferInfo {
    RingBufferInfo { read_index: next, priv_read_index: next, ..r }
}

/// The next position the writer will write at.
pub fn hv_get_next_write_location(ring_info: &RingBufferInfo) -> (r: u32)
    ensures
        r == ring_info.write_index,
{
    ring_info.write_index
}

/// The same position as `hv_get_next_write_location`; the caller logs it.
pub fn rust_hv_get_next_write_location(ring_info: &RingBufferInfo) -> (r: u32)
    ensures
        r == ring_info.write_index,
{
    hv_get_next_write_location(ring_info)
}

/// Moves the write position.
pub fn hv_set_next_write_location(ring_info: &mut RingBufferInfo, next_write_location: u32)
    ensures
        *final(ring_info) == with_write_location(*old(ring_info), next_write_location),
{
    ring_info.write_index = next_write_location;
}

/// Moves the shared and the private read position together.
pub fn hv_set_next_read_location(ring_info: &mut RingBufferInfo, next_read_location: u32)
    ensures
        *final(ring_info) == with_read_location(*old(ring_info), next_read_location),
{
    ring_info.read_index = next_read_location;
    ring_info.priv_read_index = next_read_location;
}

} // verus!
