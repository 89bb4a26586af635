//! Little-endian field encoding and the fixed offsets of the messages that
//! the fcopy service exchanges with the host and with user space.
use vstd::prelude::*;

verus! {

/// Size of `struct vmbuspipe_hdr` (two 32-bit words).
pub const VMBUSPIPE_HDR_SIZE: u32 = 8;

/// Size of the packed `struct icmsg_hdr`.
pub const ICMSG_HDR_SIZE: u32 = 20;

/// Offset of the fcopy message in a received packet: both headers.
pub const ICMSG_HDR: u32 = 28;

/// Offset of `icmsg_hdr.icmsgtype` in the receive buffer.
pub const ICMSGTYPE_OFFSET: usize = 12;

/// Offset of `icmsg_hdr.status` in the receive buffer.
pub const STATUS_OFFSET: usize = 20;

/// Offset of `icmsg_hdr.icflags` in the receive buffer.
pub const ICFLAGS_OFFSET: usize = 25;

/// Size of the packed `struct hv_fcopy_hdr` (operation and two GUIDs).
pub const FCOPY_HDR_SIZE: u32 = 36;

/// `W_MAX_PATH`: the number of UTF-16 units in a file or path name.
pub const W_MAX_PATH: usize = 260;

/// Offset of `file_name` inside `struct hv_start_fcopy`.
pub const START_FILE_NAME_OFFSET: usize = 36;

/// Offset of `path_name` inside `struct hv_start_fcopy`.
pub const START_PATH_NAME_OFFSET: usize = 556;

/// Offset of `copy_flags` inside `struct hv_start_fcopy`.
pub const START_COPY_FLAGS_OFFSET: usize = 1076;

/// Offset of `file_size` inside `struct hv_start_fcopy`.
pub const START_FILE_SIZE_OFFSET: usize = 1080;

/// Size of the packed `struct hv_start_fcopy`.
pub const START_FCOPY_SIZE: u32 = 1088;

/// Size of the packed `struct hv_do_fcopy` (header, offset, size and a
/// data fragment of 6 KiB).
pub const DO_FCOPY_SIZE: u32 = 6196;

/// The most bytes a converted (UTF-8) name may take: one less than
/// `W_MAX_PATH`, so that the name stays terminated.
pub const MAX_UTF8_NAME: usize = 259;

/// The value of a little-endian byte sequence.
pub open spec fn le_value(s: Seq<u8>) -> nat
    decreases s.len(),
{
    if s.len() == 0 {
        0
    } else {
        s[0] as nat + 256 * le_value(s.drop_first())
    }
}

/// The four little-endian bytes of a 32-bit value.
pub open spec fn u32_le(v: u32) -> Seq<u8> {
    seq![
        (v % 256) as u8,
        ((v / 256) % 256) as u8,
        ((v / 65536) % 256) as u8,
        (v / 16777216) as u8,
    ]
}

/// The 32-bit little-endian value stored at `off` in `buf`.
pub open spec fn read_u32_spec(buf: Seq<u8>, off: int) -> u32 {
    le_value(buf.subrange(off, off + 4)) as u32
}

/// The 16-bit little-endian value stored at `off` in `buf`.
pub open spec fn read_u16_spec(buf: Seq<u8>, off: int) -> u16 {
    le_value(buf.subrange(off, off + 2)) as u16
}

/// `buf` with the four bytes at `off` replaced by the encoding of `v`.
pub open spec fn write_u32_spec(buf: Seq<u8>, off: int, v: u32) -> Seq<u8> {
    buf.subrange(0, off) + u32_le(v) + buf.subrange(off + 4, buf.len() as int)
}

/// The value of two little-endian bytes.
pub proof fn lemma_le_value_2(s: Seq<u8>)
    requires
        s.len() == 2,
    ensures
        le_value(s) == s[0] as nat + 256 * s[1] as nat,
{
    assert(s.drop_first().drop_first().len() == 0);
    assert(le_value(s.drop_first()) == s[1] as nat + 256 * le_value(s.drop_first().drop_first()));
}

/// The value of four little-endian bytes.
pub proof fn lemma_le_value_4(s: Seq<u8>)
    requires
        s.len() == 4,
    ensures
        le_value(s) == s[0] as nat + 256 * s[1] as nat + 65536 * s[2] as nat + 16777216
            * s[3] as nat,
{
    let s1 = s.drop_first();
    let s2 = s1.drop_first();
    let s3 = s2.drop_first();
    assert(s3.drop_first().len() == 0);
    assert(le_value(s3.drop_first()) == 0);
    assert(le_value(s3) == s3[0] as nat);
    assert(le_value(s2) == s2[0] as nat + 256 * le_value(s3));
    assert(le_value(s1) == s1[0] as nat + 256 * le_value(s2));
}

/// Decoding the encoding of a 32-bit value gives the value back.
pub proof fn lemma_u32_le_roundtrip(v: u32)
    ensures
        u32_le(v).len() == 4,
        le_value(u32_le(v)) == v,
{
    lemma_le_value_4(u32_le(v));
}

/// Reads the little-endian 16-bit value at `off`.
pub fn read_u16(buf: &[u8], off: usize) -> (r: u16)
    requires
        off + 2 <= buf@.len(),
    ensures
        r == read_u16_spec(buf@, off as int),
{
    let b0 = buf[off];
    let b1 = buf[off + 1];
    proof {
        lemma_le_value_2(buf@.subrange(off as int, off + 2));
    }
    (b0 as u16) + (b1 as u16) * 256
}

/// Reads the little-endian 32-bit value at `off`.
pub fn read_u32(buf: &[u8], off: usize) -> (r: u32)
    requires
        off + 4 <= buf@.len(),
    ensures
        r == read_u32_spec(buf@, off as int),
{
    let b0 = buf[off];
    let b1 = buf[off + 1];
    let b2 = buf[off + 2];
    let b3 = buf[off + 3];
    proof {
        lemma_le_value_4(buf@.subrange(off as int, off + 4));
    }
    (b0 as u32) + (b1 as u32) * 256 + (b2 as u32) * 65536 + (b3 as u32) * 16777216
}

/// Stores `v` little-endian at `off`, leaving every other byte as it was.
pub fn write_u32(buf: &mut [u8], off: usize, v: u32)
    requires
        off + 4 <= old(buf)@.len(),
    ensures
        final(buf)@ == write_u32_spec(old(buf)@, off as int, v),
        final(buf)@.len() == old(buf)@.len(),
{
    let n = buf.len();
    assert(off + 4 <= n);
    buf[off] = (v % 256) as u8;
    buf[off + 1] = ((v / 256) % 256) as u8;
    buf[off + 2] = ((v / 65536) % 256) as u8;
    buf[off + 3] = (v / 16777216) as u8;
    assert(buf@ =~= write_u32_spec(old(buf)@, off as int, v));
}

} // verus!
