//! The messages that the driver builds for the user-space daemon.
use vstd::prelude::*;

use crate::fcopy::{CANCEL_FCOPY, START_FILE_COPY};
use crate::wire::{
    u32_le, FCOPY_HDR_SIZE, ICMSG_HDR, MAX_UTF8_NAME, START_COPY_FLAGS_OFFSET, START_FCOPY_SIZE,
    START_FILE_NAME_OFFSET, START_PATH_NAME_OFFSET,
};

verus! {

/// Byte `i` of the `hv_start_fcopy` handed to the daemon: the header holds
/// the operation and zeroed service ids, the names are the converted
/// `file` and `path` padded with zeros, and `copy_flags` and `file_size`
/// are those of the host's message, which starts at `ICMSG_HDR` in `buf`.
pub open spec fn start_message_byte(buf: Seq<u8>, file: Seq<u8>, path: Seq<u8>, i: int) -> u8 {
    if 0 <= i < 4 {
        u32_le(START_FILE_COPY)[i]
    } else if START_FILE_NAME_OFFSET <= i < START_FILE_NAME_OFFSET + file.len() {
        file[i - START_FILE_NAME_OFFSET]
    } else if START_PATH_NAME_OFFSET <= i < START_PATH_NAME_OFFSET + path.len() {
        path[i - START_PATH_NAME_OFFSET]
    } else if START_COPY_FLAGS_OFFSET <= i < START_FCOPY_SIZE {
        buf[ICMSG_HDR + i]
    } else {
        0
    }
}

/// The whole `hv_start_fcopy` handed to the daemon.
pub open spec fn start_message(buf: Seq<u8>, file: Seq<u8>, path: Seq<u8>) -> Seq<u8> {
    Seq::new(START_FCOPY_SIZE as nat, |i: int| start_message_byte(buf, file, path, i))
}

/// The cancel message sent to the daemon before suspension: an
/// `hv_fcopy_hdr` with operation `CANCEL_FCOPY` and zeroed service ids.
pub open spec fn cancel_message() -> Seq<u8> {
    u32_le(CANCEL_FCOPY) + Seq::new((FCOPY_HDR_SIZE - 4) as nat, |i: int| 0u8)
}

fn start_byte(buffer: &[u8], file_name: &[u8], path_name: &[u8], i: usize) -> (b: u8)
    requires
        ICMSG_HDR + START_FCOPY_SIZE <= buffer@.len(),
        file_name@.len() <= MAX_UTF8_NAME,
        path_name@.len() <= MAX_UTF8_NAME,
        i < START_FCOPY_SIZE,
    ensures
        b == start_message_byte(buffer@, file_name@, path_name@, i as int),
{
    if i < 4 {
        0
    } else if START_FILE_NAME_OFFSET <= i && i < START_FILE_NAME_OFFSET + file_name.len() {
        file_name[i - START_FILE_NAME_OFFSET]
    } else if START_PATH_NAME_OFFSET <= i && i < START_PATH_NAME_OFFSET + path_name.len() {
        path_name[i - START_PATH_NAME_OFFSET]
    } else if START_COPY_FLAGS_OFFSET <= i {
        buffer[ICMSG_HDR as usize + i]
    } else {
        0
    }
}

/// Builds the start-of-copy request for the daemon from the host's message
/// in `buffer` and the file and path names already converted to UTF-8.
pub fn fcopy_start_message(buffer: &[u8], file_name: &[u8], path_name: &[u8]) -> (out: Vec<u8>)
    requires
        ICMSG_HDR + START_FCOPY_SIZE <= buffer@.len(),
        file_name@.len() <= MAX_UTF8_NAME,
        path_name@.len() <= MAX_UTF8_NAME,
    ensures
        out@ == start_message(buffer@, file_name@, path_name@),
{
    let mut out: Vec<u8> = Vec::new();
    let mut i: usize = 0;
    while i < START_FCOPY_SIZE as usize
        invariant
            ICMSG_HDR + START_FCOPY_SIZE <= buffer@.len(),
            file_name@.len() <= MAX_UTF8_NAME,
            path_name@.len() <= MAX_UTF8_NAME,
            i <= START_FCOPY_SIZE,
            out@ == start_message(buffer@, file_name@, path_name@).take(i as int),
        decreases START_FCOPY_SIZE - i,
    {
        let b = start_byte(buffer, file_name, path_name, i);
        out.push(b);
        i = i + 1;
        assert(out@ =~= start_message(buffer@, file_name@, path_name@).take(i as int));
    }
    assert(out@ =~= start_message(buffer@, file_name@, path_name@));
    out
}

/// Builds the message that tells the daemon to cancel the copy in progress.
pub fn fcopy_cancel_message() -> (out: Vec<u8>)
    ensures
        out@ == cancel_message(),
{
    let mut out: Vec<u8> = Vec::new();
    out.push(CANCEL_FCOPY as u8);
    let mut i: usize = 1;
    while i < FCOPY_HDR_SIZE as usize
        invariant
            1 <= i <= FCOPY_HDR_SIZE,
            out@ == cancel_message().take(i as int),
        decreases FCOPY_HDR_SIZE - i,
    {
        out.push(0);
        i = i + 1;
        assert(out@ =~= cancel_message().take(i as int));
    }
    assert(out@ =~= cancel_message());
    out
}

} // verus!
