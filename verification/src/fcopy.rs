//! The fcopy transaction: its states, and the decision made at each entry
//! point of the driver. Each function takes the state and the result of the
//! outside call that preceded it, and returns the new state together with
//! the action that the caller has to perform next.
use vstd::prelude::*;

use crate::wire::{
    read_u16, read_u16_spec, read_u32, read_u32_spec, write_u32, write_u32_spec,
    DO_FCOPY_SIZE, FCOPY_HDR_SIZE, ICFLAGS_OFFSET, ICMSGTYPE_OFFSET, ICMSG_HDR, MAX_UTF8_NAME,
    STATUS_OFFSET,
};

verus! {

/// `EINVAL`: invalid argument.
pub const EINVAL: i32 = 22;

/// `EFAULT`: bad address; returned when the transport cannot be used.
pub const EFAULT: i32 = 14;

/// `ENOMEM`: out of memory.
pub const ENOMEM: i32 = 12;

/// `HV_E_FAIL` (0x80004005) as the C `int` that is reported to the host.
pub const HV_E_FAIL: i32 = -2147467259;

/// Protocol version of a daemon that expects no reply to its handshake.
pub const FCOPY_VERSION_0: u32 = 0;

/// Protocol version of a daemon that expects the driver's version back.
pub const FCOPY_VERSION_1: u32 = 1;

/// The protocol version this driver speaks.
pub const FCOPY_CURRENT_VERSION: u32 = 1;

/// `icmsgtype` of a version negotiation packet.
pub const ICMSGTYPE_NEGOTIATE: u16 = 0;

/// `icmsgtype` of a file-copy packet.
pub const ICMSGTYPE_FCOPY: u16 = 7;

/// `ICMSGHDRFLAG_TRANSACTION | ICMSGHDRFLAG_RESPONSE`.
pub const RESPONSE_FLAGS: u8 = 5;

/// `START_FILE_COPY`.
pub const START_FILE_COPY: u32 = 0;

/// `WRITE_TO_FILE`.
pub const WRITE_TO_FILE: u32 = 1;

/// `COMPLETE_FCOPY`.
pub const COMPLETE_FCOPY: u32 = 2;

/// `CANCEL_FCOPY`.
pub const CANCEL_FCOPY: u32 = 3;

/// Delay with which the host-request timeout is armed.
pub const FCOPY_TIMEOUT_DELAY: u64 = 3000;

/// The size of the receive buffer handed to `vmbus_recvpacket`.
pub const RECV_BUFFER_SIZE: u32 = 8192;

/// The state of the transaction, in the order of `enum hvutil_device_state`.
#[derive(PartialEq, Eq, Structural, Clone, Copy, Debug)]
pub enum DeviceState {
    /// Driver loaded, waiting for the user-space daemon.
    DeviceInit,
    /// The daemon is registered.
    Ready,
    /// A message from the host was received.
    HostmsgReceived,
    /// The request was sent to the daemon.
    UserspaceReq,
    /// The daemon's reply was received.
    UserspaceRecv,
    /// The driver is being unloaded.
    DeviceDying,
}

/// The position of a state in `enum hvutil_device_state`.
pub open spec fn rank(s: DeviceState) -> int {
    match s {
        DeviceState::DeviceInit => 0,
        DeviceState::Ready => 1,
        DeviceState::HostmsgReceived => 2,
        DeviceState::UserspaceReq => 3,
        DeviceState::UserspaceRecv => 4,
        DeviceState::DeviceDying => 5,
    }
}

impl DeviceState {
    /// The numeric value of the state.
    pub fn code(&self) -> (c: i32)
        ensures
            c == rank(*self),
    {
        match self {
            DeviceState::DeviceInit => 0,
            DeviceState::Ready => 1,
            DeviceState::HostmsgReceived => 2,
            DeviceState::UserspaceReq => 3,
            DeviceState::UserspaceRecv => 4,
            DeviceState::DeviceDying => 5,
        }
    }
}

/// The driver's view of the current transaction (`fcopy_transaction`) and
/// the protocol version the daemon registered with (`dm_reg_value`).
#[derive(PartialEq, Eq, Structural, Clone, Copy, Debug)]
pub struct FcopyDevice {
    pub state: DeviceState,
    /// Length of the packet that holds the current host message.
    pub recv_len: i32,
    /// VMBus request id of the current host message.
    pub recv_req_id: u64,
    /// Protocol version of the registered daemon.
    pub dm_reg_value: i32,
}

impl FcopyDevice {
    /// A device as the driver finds it before initialisation: all zero.
    pub fn new() -> (d: Self)
        ensures
            d == (FcopyDevice {
                state: DeviceState::DeviceInit,
                recv_len: 0,
                recv_req_id: 0,
                dm_reg_value: 0,
            }),
    {
        FcopyDevice { state: DeviceState::DeviceInit, recv_len: 0, recv_req_id: 0, dm_reg_value: 0 }
    }
}

/// `d` in state `s`, every other field kept.
pub open spec fn with_state(d: FcopyDevice, s: DeviceState) -> FcopyDevice {
    FcopyDevice { state: s, ..d }
}

/// Whether the channel callback reads packets in this state: only while no
/// host message is in flight.
pub open spec fn accepts_packets(d: FcopyDevice) -> bool {
    rank(d.state) <= rank(DeviceState::Ready)
}

/// Why a packet was left without an answer.
#[derive(PartialEq, Eq, Structural, Clone, Copy, Debug)]
pub enum DropReason {
    /// A host message is already in flight (or the driver is dying): the
    /// callback reads nothing.
    Busy,
    /// `vmbus_recvpacket` failed.
    ReceiveFailed,
    /// The packet was empty.
    Empty,
    /// The packet is shorter than the pipe and message headers.
    TooShort(u32),
    /// A file-copy packet shorter than the headers and the fcopy header.
    FcopyTooShort(u32),
    /// The message type is neither negotiation nor file copy.
    UnknownType(u16),
}

/// What the channel callback does with a received packet.
#[derive(PartialEq, Eq, Structural, Clone, Copy, Debug)]
pub enum PacketAction {
    /// Nothing is sent back.
    Dropped(DropReason),
    /// Prepare the negotiation response in the buffer, mark it as a response
    /// and send `len` bytes back with request id `req_id`.
    Negotiate { len: u32, req_id: u64 },
    /// Answer the host at once with this status.
    Respond(i32),
    /// Schedule the send work, and arm the timeout with this delay.
    Dispatch { delay: u64 },
}

/// What the channel callback makes of a packet of `recvlen` bytes read
/// with status `rc` into `buf`, and the transaction state afterwards. Past
/// `Ready` nothing is read and nothing changes.
pub open spec fn packet_step(
    d: FcopyDevice,
    rc: i32,
    recvlen: u32,
    requestid: u64,
    buf: Seq<u8>,
) -> (FcopyDevice, PacketAction) {
    if !accepts_packets(d) {
        (d, PacketAction::Dropped(DropReason::Busy))
    } else if rc != 0 {
        (d, PacketAction::Dropped(DropReason::ReceiveFailed))
    } else if recvlen == 0 {
        (d, PacketAction::Dropped(DropReason::Empty))
    } else if recvlen < ICMSG_HDR {
        (d, PacketAction::Dropped(DropReason::TooShort(recvlen)))
    } else {
        let t = read_u16_spec(buf, ICMSGTYPE_OFFSET as int);
        if t == ICMSGTYPE_NEGOTIATE {
            (d, PacketAction::Negotiate { len: recvlen, req_id: requestid })
        } else if t == ICMSGTYPE_FCOPY {
            if recvlen < ICMSG_HDR + FCOPY_HDR_SIZE {
                (d, PacketAction::Dropped(DropReason::FcopyTooShort(recvlen)))
            } else {
                let d1 = FcopyDevice { recv_len: recvlen as i32, recv_req_id: requestid, ..d };
                if rank(d.state) < rank(DeviceState::Ready) {
                    (d1, PacketAction::Respond(HV_E_FAIL))
                } else {
                    (
                        with_state(d1, DeviceState::HostmsgReceived),
                        PacketAction::Dispatch { delay: FCOPY_TIMEOUT_DELAY },
                    )
                }
            }
        } else {
            (d, PacketAction::Dropped(DropReason::UnknownType(t)))
        }
    }
}

/// The check that opens the channel callback: packets are read only while
/// the state is at most `Ready`.
pub fn fcopy_accepts_packets(dev: &FcopyDevice) -> (r: bool)
    ensures
        r == accepts_packets(*dev),
{
    dev.state.code() <= DeviceState::Ready.code()
}

/// The receive the channel callback makes: one `vmbus_recvpacket` of at
/// most `RECV_BUFFER_SIZE` bytes into the receive buffer while the state is
/// at most `Ready`, and none at all past it.
pub fn fcopy_receive_request(dev: &FcopyDevice) -> (r: Option<u32>)
    ensures
        r == (if accepts_packets(*dev) { Some(RECV_BUFFER_SIZE) } else { None::<u32> }),
{
    if fcopy_accepts_packets(dev) {
        Some(RECV_BUFFER_SIZE)
    } else {
        None
    }
}

/// The channel callback, after the receive of `fcopy_receive_request`:
/// `vmbus_recvpacket` returned `rc` and read `recvlen` bytes with request id
/// `requestid` into `buffer`. In a state past `Ready` the packet is left
/// alone and the device does not change.
pub fn hv_fcopy_onchannelcallback_rust(
    dev: &mut FcopyDevice,
    rc: i32,
    recvlen: u32,
    requestid: u64,
    buffer: &[u8],
) -> (r: PacketAction)
    requires
        rc == 0 ==> recvlen <= buffer@.len(),
    ensures
        (*final(dev), r) == packet_step(*old(dev), rc, recvlen, requestid, buffer@),
{
    if !fcopy_accepts_packets(dev) {
        return PacketAction::Dropped(DropReason::Busy);
    }
    if rc != 0 {
        return PacketAction::Dropped(DropReason::ReceiveFailed);
    }
    if recvlen == 0 {
        return PacketAction::Dropped(DropReason::Empty);
    }
    if recvlen < ICMSG_HDR {
        return PacketAction::Dropped(DropReason::TooShort(recvlen));
    }
    let t = read_u16(buffer, ICMSGTYPE_OFFSET);
    if t == ICMSGTYPE_NEGOTIATE {
        PacketAction::Negotiate { len: recvlen, req_id: requestid }
    } else if t == ICMSGTYPE_FCOPY {
        if recvlen < ICMSG_HDR + FCOPY_HDR_SIZE {
            return PacketAction::Dropped(DropReason::FcopyTooShort(recvlen));
        }
        dev.recv_len = recvlen as i32;
        dev.recv_req_id = requestid;
        if dev.state.code() < DeviceState::Ready.code() {
            PacketAction::Respond(HV_E_FAIL)
        } else {
            dev.state = DeviceState::HostmsgReceived;
            PacketAction::Dispatch { delay: FCOPY_TIMEOUT_DELAY }
        }
    } else {
        PacketAction::Dropped(DropReason::UnknownType(t))
    }
}

/// The receive buffer after `error` was written into `icmsg_hdr.status`
/// and the header was marked as a response to a transaction.
pub open spec fn response_bytes(buf: Seq<u8>, error: i32) -> Seq<u8> {
    write_u32_spec(buf, STATUS_OFFSET as int, error as u32).update(
        ICFLAGS_OFFSET as int,
        RESPONSE_FLAGS,
    )
}

/// What is handed to `vmbus_sendpacket` when a packet is answered.
#[derive(PartialEq, Eq, Structural, Clone, Copy, Debug)]
pub struct Reply {
    /// Number of bytes of the receive buffer to send.
    pub len: u32,
    /// Request id of the packet being answered.
    pub req_id: u64,
}

/// Marks the header in `buffer` as the response to a transaction
/// (`ICMSGHDRFLAG_TRANSACTION | ICMSGHDRFLAG_RESPONSE`), as the callback does
/// before it sends a negotiation response back.
pub fn fcopy_mark_response(buffer: &mut [u8])
    requires
        ICFLAGS_OFFSET < old(buffer)@.len(),
    ensures
        final(buffer)@ == old(buffer)@.update(ICFLAGS_OFFSET as int, RESPONSE_FLAGS),
{
    buffer[ICFLAGS_OFFSET] = RESPONSE_FLAGS;
}

/// Answers the current host message with `error`: the status and flags are
/// written into the receive buffer, which is sent back with the length and
/// request id of the message being answered.
pub fn fcopy_respond_to_host_rust(dev: &FcopyDevice, error: i32, buffer: &mut [u8]) -> (r: Reply)
    requires
        ICFLAGS_OFFSET < old(buffer)@.len(),
    ensures
        final(buffer)@ == response_bytes(old(buffer)@, error),
        r == (Reply { len: dev.recv_len as u32, req_id: dev.recv_req_id }),
{
    write_u32(buffer, STATUS_OFFSET, error as u32);
    buffer[ICFLAGS_OFFSET] = RESPONSE_FLAGS;
    Reply { len: dev.recv_len as u32, req_id: dev.recv_req_id }
}

/// The transport callback run when the daemon has read the driver's
/// version: the device becomes ready (`fcopy_poll_wrapper_rust`), after
/// which the caller schedules the channel callback.
pub fn fcopy_poll_wrapper_rust(dev: &mut FcopyDevice)
    ensures
        *final(dev) == with_state(*old(dev), DeviceState::Ready),
{
    dev.state = DeviceState::Ready;
}

/// The timeout of a host request: the status the host is answered with.
/// The caller then polls the channel.
pub fn fcopy_timeout_func_rust() -> (status: i32)
    ensures
        status == HV_E_FAIL,
{
    HV_E_FAIL
}

/// The first step of the handshake with the daemon.
#[derive(PartialEq, Eq, Structural, Clone, Copy, Debug)]
pub enum HandshakeStep {
    /// The handshake is over; this is the answer to the daemon's write.
    Done(i32),
    /// Send this version to the daemon, then finish with
    /// `fcopy_handshake_sent`.
    SendVersion(u32),
}

/// The daemon announced `version`. Version 0 is registered at once,
/// version 1 first needs the driver's version sent back, and every other
/// version is refused.
pub open spec fn handshake_step(d: FcopyDevice, version: u32) -> (FcopyDevice, HandshakeStep) {
    if version == FCOPY_VERSION_0 {
        (FcopyDevice { dm_reg_value: 0, ..d }, HandshakeStep::Done(0))
    } else if version == FCOPY_VERSION_1 {
        (d, HandshakeStep::SendVersion(FCOPY_CURRENT_VERSION))
    } else {
        (d, HandshakeStep::Done((-EINVAL) as i32))
    }
}

/// The daemon announced its protocol version.
pub fn fcopy_handle_handshake_rust(dev: &mut FcopyDevice, version: u32) -> (r: HandshakeStep)
    ensures
        (*final(dev), r) == handshake_step(*old(dev), version),
{
    if version == FCOPY_VERSION_0 {
        dev.dm_reg_value = 0;
        HandshakeStep::Done(0)
    } else if version == FCOPY_VERSION_1 {
        HandshakeStep::SendVersion(FCOPY_CURRENT_VERSION)
    } else {
        HandshakeStep::Done(-EINVAL)
    }
}

/// The end of a handshake after the driver's version was handed to the
/// transport, which returned `send_result`: the version is registered only
/// when the send succeeded.
pub fn fcopy_handshake_sent(dev: &mut FcopyDevice, version: u32, send_result: i32) -> (r: i32)
    ensures
        send_result != 0 ==> r == -EFAULT && *final(dev) == *old(dev),
        send_result == 0 ==> r == 0 && *final(dev) == (FcopyDevice {
            dm_reg_value: version as i32,
            ..*old(dev)
        }),
{
    if send_result != 0 {
        return -EFAULT;
    }
    dev.dm_reg_value = version as i32;
    0
}

/// What the driver does with a message written by the daemon.
#[derive(PartialEq, Eq, Structural, Clone, Copy, Debug)]
pub enum MsgStep {
    /// Answer the write with this value.
    Answer(i32),
    /// The message is the daemon's handshake with this version; the write
    /// is answered with what the handshake returns.
    Handshake(u32),
    /// The message is the daemon's result for the host: cancel the timeout,
    /// pass the outcome to `fcopy_on_msg_cancelled`, and answer the write
    /// with 0.
    HostResult(i32),
}

/// The four bytes of a daemon message read as a C `int`.
pub open spec fn msg_value(msg: Seq<u8>) -> i32 {
    read_u32_spec(msg, 0) as i32
}

/// The decision taken on a daemon message: anything but a single C `int`
/// is refused; before registration it is the handshake; afterwards it is
/// accepted only while a request is with the daemon.
pub open spec fn msg_step(d: FcopyDevice, msg: Seq<u8>) -> MsgStep {
    if msg.len() != 4 {
        MsgStep::Answer((-EINVAL) as i32)
    } else if d.state == DeviceState::DeviceInit {
        MsgStep::Handshake(msg_value(msg) as u32)
    } else if d.state != DeviceState::UserspaceReq {
        MsgStep::Answer((-EINVAL) as i32)
    } else {
        MsgStep::HostResult(msg_value(msg))
    }
}

/// The daemon wrote `msg`.
pub fn fcopy_on_msg_rust(dev: &FcopyDevice, msg: &[u8]) -> (r: MsgStep)
    ensures
        r == msg_step(*dev, msg@),
{
    if msg.len() != 4 {
        return MsgStep::Answer(-EINVAL);
    }
    let val = read_u32(msg, 0) as i32;
    if dev.state == DeviceState::DeviceInit {
        return MsgStep::Handshake(val as u32);
    }
    if dev.state != DeviceState::UserspaceReq {
        return MsgStep::Answer(-EINVAL);
    }
    MsgStep::HostResult(val)
}

/// After the daemon's result arrived, the timeout was cancelled
/// (`cancelled`) or had already fired. Only when it was cancelled does the
/// result go to the host: the state becomes `UserspaceRecv` and the answer
/// is `true`, after which the caller responds to the host with the result
/// and polls the channel.
pub fn fcopy_on_msg_cancelled(dev: &mut FcopyDevice, cancelled: bool) -> (respond: bool)
    ensures
        respond == cancelled,
        cancelled ==> *final(dev) == with_state(*old(dev), DeviceState::UserspaceRecv),
        !cancelled ==> *final(dev) == *old(dev),
{
    if cancelled {
        dev.state = DeviceState::UserspaceRecv;
    }
    cancelled
}

/// The transport was reset: the device waits for a daemon again. The caller
/// then cancels the timeout and, if that succeeded, answers the host with
/// the status from `fcopy_failure_if_cancelled`.
pub fn fcopy_on_reset_rust(dev: &mut FcopyDevice)
    ensures
        *final(dev) == with_state(*old(dev), DeviceState::DeviceInit),
{
    dev.state = DeviceState::DeviceInit;
}

/// The status the host is answered with when a pending timeout was
/// cancelled because the request cannot reach the daemon any more.
pub fn fcopy_failure_if_cancelled(cancelled: bool) -> (r: Option<i32>)
    ensures
        r == (if cancelled { Some(HV_E_FAIL) } else { None::<i32> }),
{
    if cancelled {
        Some(HV_E_FAIL)
    } else {
        None
    }
}

/// Driver initialisation: the transaction starts in `DeviceInit`, before the
/// transport is created.
pub fn hv_fcopy_init_rust(dev: &mut FcopyDevice)
    ensures
        *final(dev) == with_state(*old(dev), DeviceState::DeviceInit),
{
    dev.state = DeviceState::DeviceInit;
}

/// The result of initialisation, once `hvutil_transport_init` returned a
/// transport (`created`) or none.
pub fn fcopy_init_status(created: bool) -> (r: i32)
    ensures
        r == (if created { 0 } else { -EFAULT }),
{
    if created {
        0
    } else {
        -EFAULT
    }
}

/// The first step of suspension, once the buffer for the cancel message
/// was allocated (`allocated`) or not.
#[derive(PartialEq, Eq, Structural, Clone, Copy, Debug)]
pub enum SuspendStep {
    /// Give up with this result; nothing else is done.
    Fail(i32),
    /// Disable the channel tasklet, cancel the work, send the cancel message
    /// (`fcopy_cancel_message`) to the daemon, then finish with
    /// `fcopy_suspend_finished`.
    CancelCopy,
}

/// Suspension: without a buffer for the cancel message it fails with
/// `-ENOMEM` and the device is left as it was.
pub fn hv_fcopy_pre_suspend_rust(dev: &FcopyDevice, allocated: bool) -> (r: SuspendStep)
    ensures
        r == (if allocated { SuspendStep::CancelCopy } else { SuspendStep::Fail((-ENOMEM) as i32) }),
{
    if allocated {
        SuspendStep::CancelCopy
    } else {
        SuspendStep::Fail(-ENOMEM)
    }
}

/// Suspension finished: the cancel message was sent to the daemon and the
/// device is ready again.
pub fn fcopy_suspend_finished(dev: &mut FcopyDevice) -> (r: i32)
    ensures
        r == 0,
        *final(dev) == with_state(*old(dev), DeviceState::Ready),
{
    dev.state = DeviceState::Ready;
    0
}

/// Unloading: the device is dying; the caller cancels the work and destroys
/// the transport.
pub fn hv_fcopy_deinit_rust(dev: &mut FcopyDevice)
    ensures
        *final(dev) == with_state(*old(dev), DeviceState::DeviceDying),
{
    dev.state = DeviceState::DeviceDying;
}

/// How the request for the daemon is made from the host message.
#[derive(PartialEq, Eq, Structural, Clone, Copy, Debug)]
pub enum SendPlan {
    /// Build a `hv_start_fcopy` for the daemon (`fcopy_start_message`) from
    /// the host's and send it.
    StartCopy,
    /// Send `len` bytes of the receive buffer from the start of the fcopy
    /// message.
    Forward { len: i32 },
}

/// The operation of the host message in the receive buffer.
pub open spec fn operation(buf: Seq<u8>) -> u32 {
    read_u32_spec(buf, ICMSG_HDR as int)
}

/// How the send work passes the host message on: a start-of-copy message is
/// rebuilt with converted names, a data message is sent at its full size,
/// any other message with the length of the packet it came in.
pub open spec fn send_plan(d: FcopyDevice, buf: Seq<u8>) -> SendPlan {
    if operation(buf) == START_FILE_COPY {
        SendPlan::StartCopy
    } else if operation(buf) == WRITE_TO_FILE {
        SendPlan::Forward { len: DO_FCOPY_SIZE as i32 }
    } else {
        SendPlan::Forward { len: d.recv_len }
    }
}

/// The send work: how the host message in `buffer` is passed to the daemon.
pub fn fcopy_send_data_rust(dev: &FcopyDevice, buffer: &[u8]) -> (r: SendPlan)
    requires
        ICMSG_HDR + 4 <= buffer@.len(),
    ensures
        r == send_plan(*dev, buffer@),
{
    let op = read_u32(buffer, ICMSG_HDR as usize);
    if op == START_FILE_COPY {
        SendPlan::StartCopy
    } else if op == WRITE_TO_FILE {
        SendPlan::Forward { len: DO_FCOPY_SIZE as i32 }
    } else {
        SendPlan::Forward { len: dev.recv_len }
    }
}

/// The request is about to be handed to the daemon. A start-of-copy
/// request needs a fresh buffer for the rebuilt message; `allocated` says
/// whether the allocation succeeded. Without it the request is given up:
/// nothing is sent and the device keeps its state (the answer is `false`).
/// Otherwise the device waits for the daemon (`UserspaceReq`) before the
/// request is handed over, and the answer is `true`.
pub fn fcopy_request_sent(dev: &mut FcopyDevice, plan: SendPlan, allocated: bool) -> (send: bool)
    ensures
        send == (plan != SendPlan::StartCopy || allocated),
        send ==> *final(dev) == with_state(*old(dev), DeviceState::UserspaceReq),
        !send ==> *final(dev) == *old(dev),
{
    let send = match plan {
        SendPlan::StartCopy => allocated,
        SendPlan::Forward { .. } => true,
    };
    if send {
        dev.state = DeviceState::UserspaceReq;
    }
    send
}

/// The transport answered `rc` to the request. Only a failure (`rc != 0`)
/// calls for the timeout to be cancelled and `fcopy_send_failed` to decide
/// the rest; on success nothing more is done and the device keeps waiting
/// for the daemon.
pub fn fcopy_send_result(rc: i32) -> (cancel_timeout: bool)
    ensures
        cancel_timeout == (rc != 0),
{
    rc != 0
}

/// The number of bytes of a converted name, from what the UTF-8 converter
/// returned: a negative (error) count is an empty name, and no name is
/// longer than `MAX_UTF8_NAME`, the most the converter is allowed to write.
pub fn fcopy_converted_len(n: i32) -> (len: usize)
    ensures
        len == (if n < 0 { 0 } else if n > MAX_UTF8_NAME { MAX_UTF8_NAME as int } else { n as int }),
{
    if n < 0 {
        0
    } else if n as usize > MAX_UTF8_NAME {
        MAX_UTF8_NAME
    } else {
        n as usize
    }
}

/// Handing the request to the daemon failed, and the timeout was then
/// cancelled (`cancelled`) or had already fired. When it was cancelled the
/// host is answered with `HV_E_FAIL` and the device is ready again.
pub fn fcopy_send_failed(dev: &mut FcopyDevice, cancelled: bool) -> (r: Option<i32>)
    ensures
        r == (if cancelled { Some(HV_E_FAIL) } else { None::<i32> }),
        cancelled ==> *final(dev) == with_state(*old(dev), DeviceState::Ready),
        !cancelled ==> *final(dev) == *old(dev),
{
    if cancelled {
        dev.state = DeviceState::Ready;
        Some(HV_E_FAIL)
    } else {
        None
    }
}

} // verus!
