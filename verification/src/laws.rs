//! Properties of the driver that span several entry points.
use vstd::prelude::*;

use crate::fcopy::{
    accepts_packets, handshake_step, msg_step, msg_value, packet_step, response_bytes,
    with_state, DeviceState, DropReason, FcopyDevice, HandshakeStep, MsgStep, PacketAction, EINVAL,
    FCOPY_TIMEOUT_DELAY, HV_E_FAIL, ICMSGTYPE_FCOPY, RESPONSE_FLAGS,
};
use crate::fcopy::{send_plan, SendPlan};
use crate::message::start_message;
use crate::ring::{with_read_location, with_write_location, RingBufferInfo};
use crate::wire::{
    lemma_u32_le_roundtrip, read_u32_spec, u32_le, write_u32_spec, FCOPY_HDR_SIZE,
    ICFLAGS_OFFSET, ICMSGTYPE_OFFSET, ICMSG_HDR, START_COPY_FLAGS_OFFSET, START_FCOPY_SIZE,
    START_FILE_NAME_OFFSET, START_FILE_SIZE_OFFSET, START_PATH_NAME_OFFSET, STATUS_OFFSET,
    MAX_UTF8_NAME,
};

verus! {

/// A 32-bit value written at `off` is read back from `off`, and no other
/// byte of the buffer changes.
pub proof fn lemma_write_then_read_u32(buf: Seq<u8>, off: int, v: u32)
    requires
        0 <= off,
        off + 4 <= buf.len(),
    ensures
        write_u32_spec(buf, off, v).len() == buf.len(),
        read_u32_spec(write_u32_spec(buf, off, v), off) == v,
        forall|i: int|
            0 <= i < buf.len() && !(off <= i < off + 4) ==> #[trigger] write_u32_spec(
                buf,
                off,
                v,
            )[i] == buf[i],
{
    let w = write_u32_spec(buf, off, v);
    lemma_u32_le_roundtrip(v);
    assert(w.subrange(off, off + 4) =~= u32_le(v));
}

/// Answering the host stores the status so that it reads back as the
/// status given, marks the header as a response, and leaves every other
/// byte of the packet as it was.
pub proof fn lemma_response_carries_status(buf: Seq<u8>, error: i32)
    requires
        ICFLAGS_OFFSET < buf.len(),
    ensures
        response_bytes(buf, error).len() == buf.len(),
        read_u32_spec(response_bytes(buf, error), STATUS_OFFSET as int) == error as u32,
        response_bytes(buf, error)[ICFLAGS_OFFSET as int] == RESPONSE_FLAGS,
        forall|i: int|
            0 <= i < buf.len() && !(STATUS_OFFSET <= i < STATUS_OFFSET + 4) && i
                != ICFLAGS_OFFSET ==> #[trigger] response_bytes(buf, error)[i] == buf[i],
{
    lemma_write_then_read_u32(buf, STATUS_OFFSET as int, error as u32);
    let w = write_u32_spec(buf, STATUS_OFFSET as int, error as u32);
    let r = response_bytes(buf, error);
    assert(r.subrange(STATUS_OFFSET as int, STATUS_OFFSET + 4) =~= w.subrange(
        STATUS_OFFSET as int,
        STATUS_OFFSET + 4,
    ));
    assert forall|i: int|
        0 <= i < buf.len() && !(STATUS_OFFSET <= i < STATUS_OFFSET + 4) && i
            != ICFLAGS_OFFSET implies #[trigger] r[i] == buf[i] by {
        assert(w[i] == buf[i]);
    }
}

/// Packets are read exactly while the device waits for a daemon or is
/// ready; once a host message is in flight, or the driver is dying, the
/// channel callback reads nothing.
pub proof fn lemma_accepts_only_when_idle(d: FcopyDevice)
    ensures
        accepts_packets(d) <==> (d.state == DeviceState::DeviceInit || d.state
            == DeviceState::Ready),
{
}

/// One host request at a time: while a host message is in flight (or the
/// driver is dying) the callback reads nothing and changes nothing; work is
/// dispatched exactly when the device moves from `Ready` to
/// `HostmsgReceived`, which takes it out of the states in which packets are
/// read, and only a poll of the channel makes it ready for the next one.
pub proof fn lemma_one_request_at_a_time(
    d: FcopyDevice,
    rc: i32,
    recvlen: u32,
    requestid: u64,
    buf: Seq<u8>,
)
    ensures
        !accepts_packets(d) ==> packet_step(d, rc, recvlen, requestid, buf) == (
            d,
            PacketAction::Dropped(DropReason::Busy),
        ),
        packet_step(d, rc, recvlen, requestid, buf).0.state == d.state || (d.state
            == DeviceState::Ready && packet_step(d, rc, recvlen, requestid, buf).0.state
            == DeviceState::HostmsgReceived),
        (packet_step(d, rc, recvlen, requestid, buf).1 is Dispatch) <==> (d.state
            == DeviceState::Ready && packet_step(d, rc, recvlen, requestid, buf).0.state
            == DeviceState::HostmsgReceived),
        packet_step(d, rc, recvlen, requestid, buf).1 is Dispatch ==> {
            &&& !accepts_packets(packet_step(d, rc, recvlen, requestid, buf).0)
            &&& accepts_packets(
                with_state(packet_step(d, rc, recvlen, requestid, buf).0, DeviceState::Ready),
            )
        },
{
}

/// A file-copy message that arrives before a daemon registered is failed
/// at once with `HV_E_FAIL`, and the device keeps waiting for a daemon.
pub proof fn lemma_request_before_registration_fails(
    d: FcopyDevice,
    recvlen: u32,
    requestid: u64,
    buf: Seq<u8>,
)
    requires
        d.state == DeviceState::DeviceInit,
        ICMSG_HDR + FCOPY_HDR_SIZE <= recvlen <= buf.len(),
        crate::wire::read_u16_spec(buf, ICMSGTYPE_OFFSET as int) == ICMSGTYPE_FCOPY,
    ensures
        packet_step(d, 0, recvlen, requestid, buf).1 == PacketAction::Respond(HV_E_FAIL),
        packet_step(d, 0, recvlen, requestid, buf).0.state == DeviceState::DeviceInit,
        packet_step(d, 0, recvlen, requestid, buf).0.recv_req_id == requestid,
{
}

/// A whole request: a ready device dispatches a file-copy message, hands
/// it to the daemon, takes the daemon's four-byte result, answers the host
/// with exactly that result for the same packet length and request id, and
/// is ready again after the poll.
pub proof fn lemma_request_round_trip(
    d: FcopyDevice,
    recvlen: u32,
    requestid: u64,
    buf: Seq<u8>,
    msg: Seq<u8>,
)
    requires
        d.state == DeviceState::Ready,
        ICMSG_HDR + FCOPY_HDR_SIZE <= recvlen <= buf.len(),
        crate::wire::read_u16_spec(buf, ICMSGTYPE_OFFSET as int) == ICMSGTYPE_FCOPY,
        msg.len() == 4,
    ensures
        packet_step(d, 0, recvlen, requestid, buf).1 == (PacketAction::Dispatch {
            delay: FCOPY_TIMEOUT_DELAY,
        }),
        msg_step(
            with_state(packet_step(d, 0, recvlen, requestid, buf).0, DeviceState::UserspaceReq),
            msg,
        ) == MsgStep::HostResult(msg_value(msg)),
        packet_step(d, 0, recvlen, requestid, buf).0.recv_len as u32 == recvlen,
        packet_step(d, 0, recvlen, requestid, buf).0.recv_req_id == requestid,
        read_u32_spec(response_bytes(buf, msg_value(msg)), STATUS_OFFSET as int)
            == msg_value(msg) as u32,
        accepts_packets(
            with_state(
                with_state(
                    packet_step(d, 0, recvlen, requestid, buf).0,
                    DeviceState::UserspaceRecv,
                ),
                DeviceState::Ready,
            ),
        ),
{
    let r = recvlen;
    assert((r as i32) as u32 == r) by (bit_vector);
    lemma_response_carries_status(buf, msg_value(msg));
}

/// A daemon write is refused with `-EINVAL` unless it is a single C `int`
/// that arrives before registration or while a request is with the daemon;
/// a refusal leaves the device as it was.
pub proof fn lemma_unexpected_daemon_message_refused(d: FcopyDevice, msg: Seq<u8>)
    requires
        msg.len() != 4 || (d.state != DeviceState::DeviceInit && d.state
            != DeviceState::UserspaceReq),
    ensures
        msg_step(d, msg) == MsgStep::Answer((-EINVAL) as i32),
{
}

/// After a reset, the daemon's next four-byte message is its handshake.
pub proof fn lemma_reset_expects_handshake(d: FcopyDevice, msg: Seq<u8>)
    requires
        msg.len() == 4,
    ensures
        msg_step(with_state(d, DeviceState::DeviceInit), msg) == MsgStep::Handshake(
            msg_value(msg) as u32,
        ),
{
}

/// The daemon's handshake is accepted for versions 0 and 1 only, and it
/// never changes the state of the transaction.
pub proof fn lemma_handshake_versions(d: FcopyDevice, version: u32)
    ensures
        (handshake_step(d, version).1 != HandshakeStep::Done((-EINVAL) as i32)) <==> (version
            == 0 || version == 1),
        handshake_step(d, version).0.state == d.state,
{
}

/// The start-of-copy request carries the converted names at the places of
/// `file_name` and `path_name`, and the host's `copy_flags` and
/// `file_size` unchanged.
pub proof fn lemma_start_message_fields(buf: Seq<u8>, file: Seq<u8>, path: Seq<u8>)
    requires
        ICMSG_HDR + START_FCOPY_SIZE <= buf.len(),
        file.len() <= MAX_UTF8_NAME,
        path.len() <= MAX_UTF8_NAME,
    ensures
        start_message(buf, file, path).subrange(
            START_FILE_NAME_OFFSET as int,
            START_FILE_NAME_OFFSET + file.len(),
        ) == file,
        start_message(buf, file, path).subrange(
            START_PATH_NAME_OFFSET as int,
            START_PATH_NAME_OFFSET + path.len(),
        ) == path,
        start_message(buf, file, path).subrange(
            START_COPY_FLAGS_OFFSET as int,
            START_FCOPY_SIZE as int,
        ) == buf.subrange(
            ICMSG_HDR + START_COPY_FLAGS_OFFSET,
            ICMSG_HDR + START_FCOPY_SIZE,
        ),
        read_u32_spec(start_message(buf, file, path), START_COPY_FLAGS_OFFSET as int)
            == read_u32_spec(buf, ICMSG_HDR + START_COPY_FLAGS_OFFSET),
        start_message(buf, file, path).subrange(
            START_FILE_SIZE_OFFSET as int,
            START_FCOPY_SIZE as int,
        ) == buf.subrange(
            ICMSG_HDR + START_FILE_SIZE_OFFSET,
            ICMSG_HDR + START_FCOPY_SIZE,
        ),
{
    let m = start_message(buf, file, path);
    assert(m.subrange(START_FILE_NAME_OFFSET as int, START_FILE_NAME_OFFSET + file.len())
        =~= file);
    assert(m.subrange(START_PATH_NAME_OFFSET as int, START_PATH_NAME_OFFSET + path.len())
        =~= path);
    assert(m.subrange(START_COPY_FLAGS_OFFSET as int, START_FCOPY_SIZE as int) =~= buf.subrange(
        ICMSG_HDR + START_COPY_FLAGS_OFFSET,
        ICMSG_HDR + START_FCOPY_SIZE,
    ));
    assert(m.subrange(START_FILE_SIZE_OFFSET as int, START_FCOPY_SIZE as int) =~= buf.subrange(
        ICMSG_HDR + START_FILE_SIZE_OFFSET,
        ICMSG_HDR + START_FCOPY_SIZE,
    ));
    assert(m.subrange(START_COPY_FLAGS_OFFSET as int, START_COPY_FLAGS_OFFSET + 4)
        =~= buf.subrange(
        ICMSG_HDR + START_COPY_FLAGS_OFFSET,
        ICMSG_HDR + START_COPY_FLAGS_OFFSET + 4,
    ));
}

/// A moved ring position is read back, and moving one side leaves the
/// other side where it was.
pub proof fn lemma_ring_locations(r: RingBufferInfo, next: u32)
    ensures
        with_write_location(r, next).write_index == next,
        with_write_location(r, next).read_index == r.read_index,
        with_write_location(r, next).priv_read_index == r.priv_read_index,
        with_read_location(r, next).read_index == next,
        with_read_location(r, next).priv_read_index == next,
        with_read_location(r, next).write_index == r.write_index,
{
}

/// The 16-bit value of the two bytes at `off`, written out.
pub open spec fn bytes_u16(buf: Seq<u8>, off: int) -> int {
    buf[off] + 256 * buf[off + 1]
}

/// The 32-bit value of the four bytes at `off`, written out.
pub open spec fn bytes_u32(buf: Seq<u8>, off: int) -> int {
    buf[off] + 256 * buf[off + 1] + 65536 * buf[off + 2] + 16777216 * buf[off + 3]
}

proof fn lemma_read_u16_bytes(buf: Seq<u8>, off: int)
    requires
        0 <= off,
        off + 2 <= buf.len(),
    ensures
        crate::wire::read_u16_spec(buf, off) as int == bytes_u16(buf, off),
{
    crate::wire::lemma_le_value_2(buf.subrange(off, off + 2));
}

proof fn lemma_read_u32_bytes(buf: Seq<u8>, off: int)
    requires
        0 <= off,
        off + 4 <= buf.len(),
    ensures
        read_u32_spec(buf, off) as int == bytes_u32(buf, off),
{
    crate::wire::lemma_le_value_4(buf.subrange(off, off + 4));
}

/// What the channel callback does with a packet read while the device waits
/// for a daemon or is ready, in terms of the bytes of the packet: a failed
/// or empty receive, or one shorter than the two headers, is dropped; a
/// version negotiation (message type 0) is answered in both states with the
/// packet's length and request id; a file-copy message (type 7) of at least
/// the headers and the fcopy header is failed with `HV_E_FAIL` before a
/// daemon registered and dispatched once one has, in both cases recording
/// the packet's length and request id; any other type is dropped. Only the
/// dispatch changes the state.
pub proof fn lemma_callback_answers(
    d: FcopyDevice,
    rc: i32,
    recvlen: u32,
    requestid: u64,
    buf: Seq<u8>,
)
    requires
        d.state == DeviceState::DeviceInit || d.state == DeviceState::Ready,
        rc == 0 ==> recvlen <= buf.len(),
    ensures
        rc != 0 ==> packet_step(d, rc, recvlen, requestid, buf) == (
            d,
            PacketAction::Dropped(DropReason::ReceiveFailed),
        ),
        rc == 0 && recvlen == 0 ==> packet_step(d, rc, recvlen, requestid, buf) == (
            d,
            PacketAction::Dropped(DropReason::Empty),
        ),
        rc == 0 && 0 < recvlen < 28 ==> packet_step(d, rc, recvlen, requestid, buf) == (
            d,
            PacketAction::Dropped(DropReason::TooShort(recvlen)),
        ),
        rc == 0 && 28 <= recvlen && bytes_u16(buf, 12) == 0 ==> packet_step(
            d,
            rc,
            recvlen,
            requestid,
            buf,
        ) == (d, PacketAction::Negotiate { len: recvlen, req_id: requestid }),
        rc == 0 && 28 <= recvlen < 64 && bytes_u16(buf, 12) == 7 ==> packet_step(
            d,
            rc,
            recvlen,
            requestid,
            buf,
        ) == (d, PacketAction::Dropped(DropReason::FcopyTooShort(recvlen))),
        rc == 0 && 64 <= recvlen && bytes_u16(buf, 12) == 7 && d.state
            == DeviceState::DeviceInit ==> packet_step(d, rc, recvlen, requestid, buf) == (
            FcopyDevice { recv_len: recvlen as i32, recv_req_id: requestid, ..d },
            PacketAction::Respond(-2147467259i32),
        ),
        rc == 0 && 64 <= recvlen && bytes_u16(buf, 12) == 7 && d.state == DeviceState::Ready
            ==> packet_step(d, rc, recvlen, requestid, buf) == (
            FcopyDevice {
                state: DeviceState::HostmsgReceived,
                recv_len: recvlen as i32,
                recv_req_id: requestid,
                dm_reg_value: d.dm_reg_value,
            },
            PacketAction::Dispatch { delay: 3000 },
        ),
        rc == 0 && 28 <= recvlen && bytes_u16(buf, 12) != 0 && bytes_u16(buf, 12) != 7
            ==> packet_step(d, rc, recvlen, requestid, buf) == (
            d,
            PacketAction::Dropped(DropReason::UnknownType(bytes_u16(buf, 12) as u16)),
        ),
{
    if rc == 0 && 28 <= recvlen {
        lemma_read_u16_bytes(buf, 12);
    }
}

/// A daemon message is the full C `int` it holds: the handshake carries
/// the four little-endian bytes as the version, and the result for the host
/// carries them as the status, every bit kept.
pub proof fn lemma_daemon_message_value(d: FcopyDevice, msg: Seq<u8>)
    requires
        msg.len() == 4,
    ensures
        d.state == DeviceState::DeviceInit ==> (msg_step(d, msg) matches MsgStep::Handshake(v)
            && v as int == bytes_u32(msg, 0)),
        d.state == DeviceState::UserspaceReq ==> (msg_step(d, msg) matches MsgStep::HostResult(
            v,
        ) && v as u32 as int == bytes_u32(msg, 0)),
{
    lemma_read_u32_bytes(msg, 0);
    let x = read_u32_spec(msg, 0);
    assert((x as i32) as u32 == x) by (bit_vector);
}

/// How the send work passes on the host message, whatever daemon
/// registered: operation 0 (start of copy) is always rebuilt, operation 1
/// (data) is forwarded at the full `hv_do_fcopy` size, and every other
/// operation at the length of the packet it came in.
pub proof fn lemma_send_plan_by_operation(d: FcopyDevice, buf: Seq<u8>)
    requires
        32 <= buf.len(),
    ensures
        bytes_u32(buf, 28) == 0 ==> send_plan(d, buf) == SendPlan::StartCopy,
        bytes_u32(buf, 28) == 1 ==> send_plan(d, buf) == (SendPlan::Forward { len: 6196 }),
        bytes_u32(buf, 28) != 0 && bytes_u32(buf, 28) != 1 ==> send_plan(d, buf) == (
        SendPlan::Forward { len: d.recv_len }),
{
    lemma_read_u32_bytes(buf, 28);
}

/// The handshake, whatever was registered before: version 0 registers
/// version 0 and is answered 0; version 1 always sends the driver's version
/// 1 back first and changes nothing yet; every other version is refused
/// with `-EINVAL` and changes nothing.
pub proof fn lemma_handshake_answers(d: FcopyDevice, version: u32)
    ensures
        version == 0 ==> handshake_step(d, version) == (
            FcopyDevice { dm_reg_value: 0, ..d },
            HandshakeStep::Done(0),
        ),
        version == 1 ==> handshake_step(d, version) == (d, HandshakeStep::SendVersion(1)),
        version > 1 ==> handshake_step(d, version) == (d, HandshakeStep::Done(-22i32)),
{
}

/// The answer to the host in terms of bytes: the four status bytes hold
/// the status's 32 bits little-endian, the flags byte is
/// `ICMSGHDRFLAG_TRANSACTION | ICMSGHDRFLAG_RESPONSE` (5), and every other
/// byte, and the length, stay as they were.
pub proof fn lemma_response_in_bytes(buf: Seq<u8>, error: i32)
    requires
        26 <= buf.len(),
    ensures
        response_bytes(buf, error).len() == buf.len(),
        bytes_u32(response_bytes(buf, error), 20) == error as u32,
        response_bytes(buf, error)[25] == 5,
        forall|i: int|
            0 <= i < buf.len() && !(20 <= i < 24) && i != 25 ==> #[trigger] response_bytes(
                buf,
                error,
            )[i] == buf[i],
{
    lemma_response_carries_status(buf, error);
    lemma_read_u32_bytes(response_bytes(buf, error), 20);
}

/// Every byte of the start-of-copy request that is neither a name nor the
/// host's `copy_flags` and `file_size` is zero, the operation field among
/// them; the request is `hv_start_fcopy` long.
pub proof fn lemma_start_message_rest_zero(buf: Seq<u8>, file: Seq<u8>, path: Seq<u8>)
    requires
        1116 <= buf.len(),
        file.len() <= 259,
        path.len() <= 259,
    ensures
        start_message(buf, file, path).len() == 1088,
        bytes_u32(start_message(buf, file, path), 0) == 0,
        forall|i: int|
            0 <= i < 1076 && !(36 <= i < 36 + file.len()) && !(556 <= i < 556 + path.len())
                ==> #[trigger] start_message(buf, file, path)[i] == 0,
        forall|i: int| 1076 <= i < 1088 ==> #[trigger] start_message(buf, file, path)[i] == buf[28 + i],
{
}

/// The cancel message is an `hv_fcopy_hdr` (36 bytes) whose operation is
/// 3 (`CANCEL_FCOPY`) and whose service ids are zero.
pub proof fn lemma_cancel_message_bytes()
    ensures
        crate::message::cancel_message().len() == 36,
        bytes_u32(crate::message::cancel_message(), 0) == 3,
        forall|i: int| 4 <= i < 36 ==> #[trigger] crate::message::cancel_message()[i] == 0,
{
}

/// Changing the state of the transaction keeps its packet length, request
/// id and registered version.
pub proof fn lemma_state_change_keeps_fields(d: FcopyDevice, s: DeviceState)
    ensures
        with_state(d, s) == (FcopyDevice {
            state: s,
            recv_len: d.recv_len,
            recv_req_id: d.recv_req_id,
            dm_reg_value: d.dm_reg_value,
        }),
{
}

/// The numbers of the states are those of `enum hvutil_device_state`.
pub proof fn lemma_state_numbers()
    ensures
        crate::fcopy::rank(DeviceState::DeviceInit) == 0,
        crate::fcopy::rank(DeviceState::Ready) == 1,
        crate::fcopy::rank(DeviceState::HostmsgReceived) == 2,
        crate::fcopy::rank(DeviceState::UserspaceReq) == 3,
        crate::fcopy::rank(DeviceState::UserspaceRecv) == 4,
        crate::fcopy::rank(DeviceState::DeviceDying) == 5,
{
}

} // verus!
