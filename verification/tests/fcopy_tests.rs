use hv_fcopy::fcopy::{
    fcopy_accepts_packets, fcopy_converted_len, fcopy_failure_if_cancelled,
    fcopy_receive_request, fcopy_send_result, fcopy_suspend_finished, SuspendStep, ENOMEM, fcopy_handle_handshake_rust,
    fcopy_handshake_sent, fcopy_init_status, fcopy_mark_response, fcopy_on_msg_cancelled,
    fcopy_on_msg_rust, fcopy_on_reset_rust, fcopy_poll_wrapper_rust, fcopy_request_sent,
    fcopy_respond_to_host_rust, fcopy_send_data_rust, fcopy_send_failed,
    fcopy_timeout_func_rust, hv_fcopy_deinit_rust, hv_fcopy_init_rust,
    hv_fcopy_onchannelcallback_rust, hv_fcopy_pre_suspend_rust, DeviceState, DropReason,
    FcopyDevice, HandshakeStep, MsgStep, PacketAction, Reply, SendPlan, EFAULT, EINVAL,
    HV_E_FAIL,
};

fn device(state: DeviceState) -> FcopyDevice {
    FcopyDevice { state, recv_len: 0, recv_req_id: 0, dm_reg_value: 0 }
}

/// A receive buffer whose message type is `icmsgtype` and whose fcopy
/// operation is `op`.
fn packet(icmsgtype: u16, op: u32) -> Vec<u8> {
    let mut buf = vec![0u8; 8192];
    buf[12] = (icmsgtype & 0xff) as u8;
    buf[13] = (icmsgtype >> 8) as u8;
    buf[28..32].copy_from_slice(&op.to_le_bytes());
    buf
}

#[test]
fn new_device_is_zeroed_and_waits_for_daemon() {
    let d = FcopyDevice::new();
    assert_eq!(d, device(DeviceState::DeviceInit));
}

#[test]
fn state_codes_follow_the_kernel_enum() {
    assert_eq!(DeviceState::DeviceInit.code(), 0);
    assert_eq!(DeviceState::Ready.code(), 1);
    assert_eq!(DeviceState::HostmsgReceived.code(), 2);
    assert_eq!(DeviceState::UserspaceReq.code(), 3);
    assert_eq!(DeviceState::UserspaceRecv.code(), 4);
    assert_eq!(DeviceState::DeviceDying.code(), 5);
}

#[test]
fn packets_are_read_only_when_idle() {
    assert!(fcopy_accepts_packets(&device(DeviceState::DeviceInit)));
    assert!(fcopy_accepts_packets(&device(DeviceState::Ready)));
    assert!(!fcopy_accepts_packets(&device(DeviceState::HostmsgReceived)));
    assert!(!fcopy_accepts_packets(&device(DeviceState::UserspaceReq)));
    assert!(!fcopy_accepts_packets(&device(DeviceState::UserspaceRecv)));
    assert!(!fcopy_accepts_packets(&device(DeviceState::DeviceDying)));
}

#[test]
fn failed_receive_is_dropped() {
    let mut d = device(DeviceState::Ready);
    let buf = packet(7, 0);
    let a = hv_fcopy_onchannelcallback_rust(&mut d, -5, 100, 9, &buf);
    assert_eq!(a, PacketAction::Dropped(DropReason::ReceiveFailed));
    assert_eq!(d, device(DeviceState::Ready));
}

#[test]
fn empty_and_short_packets_are_dropped() {
    let mut d = device(DeviceState::Ready);
    let buf = packet(7, 0);
    assert_eq!(
        hv_fcopy_onchannelcallback_rust(&mut d, 0, 0, 9, &buf),
        PacketAction::Dropped(DropReason::Empty)
    );
    assert_eq!(
        hv_fcopy_onchannelcallback_rust(&mut d, 0, 27, 9, &buf),
        PacketAction::Dropped(DropReason::TooShort(27))
    );
    assert_eq!(
        hv_fcopy_onchannelcallback_rust(&mut d, 0, 63, 9, &buf),
        PacketAction::Dropped(DropReason::FcopyTooShort(63))
    );
    assert_eq!(d, device(DeviceState::Ready));
}

#[test]
fn negotiation_is_answered_with_packet_length_and_id() {
    let mut d = device(DeviceState::Ready);
    let buf = packet(0, 0);
    let a = hv_fcopy_onchannelcallback_rust(&mut d, 0, 40, 77, &buf);
    assert_eq!(a, PacketAction::Negotiate { len: 40, req_id: 77 });
    assert_eq!(d, device(DeviceState::Ready));
}

#[test]
fn unknown_message_type_is_dropped() {
    let mut d = device(DeviceState::Ready);
    let buf = packet(3, 0);
    let a = hv_fcopy_onchannelcallback_rust(&mut d, 0, 100, 9, &buf);
    assert_eq!(a, PacketAction::Dropped(DropReason::UnknownType(3)));
}

#[test]
fn fcopy_packet_when_ready_is_dispatched() {
    let mut d = device(DeviceState::Ready);
    let buf = packet(7, 1);
    let a = hv_fcopy_onchannelcallback_rust(&mut d, 0, 64, 42, &buf);
    assert_eq!(a, PacketAction::Dispatch { delay: 3000 });
    assert_eq!(
        d,
        FcopyDevice {
            state: DeviceState::HostmsgReceived,
            recv_len: 64,
            recv_req_id: 42,
            dm_reg_value: 0
        }
    );
    assert!(!fcopy_accepts_packets(&d));
}

#[test]
fn fcopy_packet_before_registration_fails_at_once() {
    let mut d = device(DeviceState::DeviceInit);
    let buf = packet(7, 1);
    let a = hv_fcopy_onchannelcallback_rust(&mut d, 0, 100, 5, &buf);
    assert_eq!(a, PacketAction::Respond(HV_E_FAIL));
    assert_eq!(d.state, DeviceState::DeviceInit);
    assert_eq!(d.recv_len, 100);
    assert_eq!(d.recv_req_id, 5);
}

#[test]
fn response_writes_status_and_flags() {
    let d = FcopyDevice {
        state: DeviceState::UserspaceRecv,
        recv_len: 100,
        recv_req_id: 5,
        dm_reg_value: 1,
    };
    let mut buf = vec![0xaau8; 64];
    let r = fcopy_respond_to_host_rust(&d, HV_E_FAIL, &mut buf);
    assert_eq!(r, Reply { len: 100, req_id: 5 });
    assert_eq!(&buf[20..24], &[0x05, 0x40, 0x00, 0x80]);
    assert_eq!(buf[25], 5);
    assert_eq!(buf[24], 0xaa);
    assert_eq!(buf[19], 0xaa);
    assert_eq!(buf[26], 0xaa);
}

#[test]
fn mark_response_sets_only_the_flags() {
    let mut buf = vec![0u8; 32];
    fcopy_mark_response(&mut buf);
    let mut expected = vec![0u8; 32];
    expected[25] = 5;
    assert_eq!(buf, expected);
}

#[test]
fn poll_makes_device_ready() {
    let mut d = device(DeviceState::UserspaceRecv);
    fcopy_poll_wrapper_rust(&mut d);
    assert_eq!(d.state, DeviceState::Ready);
}

#[test]
fn timeout_answers_failure() {
    assert_eq!(fcopy_timeout_func_rust(), HV_E_FAIL);
    assert_eq!(HV_E_FAIL as u32, 0x8000_4005);
}

#[test]
fn handshake_version_zero_registers_at_once() {
    let mut d = FcopyDevice { dm_reg_value: 7, ..device(DeviceState::DeviceInit) };
    assert_eq!(fcopy_handle_handshake_rust(&mut d, 0), HandshakeStep::Done(0));
    assert_eq!(d.dm_reg_value, 0);
    assert_eq!(d.state, DeviceState::DeviceInit);
}

#[test]
fn handshake_version_one_sends_version_back() {
    let mut d = FcopyDevice { dm_reg_value: 7, ..device(DeviceState::DeviceInit) };
    assert_eq!(fcopy_handle_handshake_rust(&mut d, 1), HandshakeStep::SendVersion(1));
    assert_eq!(d.dm_reg_value, 7);
    assert_eq!(fcopy_handshake_sent(&mut d, 1, 0), 0);
    assert_eq!(d.dm_reg_value, 1);
}

#[test]
fn handshake_send_failure_is_efault() {
    let mut d = FcopyDevice { dm_reg_value: 7, ..device(DeviceState::DeviceInit) };
    assert_eq!(fcopy_handshake_sent(&mut d, 1, -32), -EFAULT);
    assert_eq!(d.dm_reg_value, 7);
}

#[test]
fn handshake_unknown_version_is_refused() {
    let mut d = device(DeviceState::DeviceInit);
    assert_eq!(fcopy_handle_handshake_rust(&mut d, 2), HandshakeStep::Done(-EINVAL));
    assert_eq!(d, device(DeviceState::DeviceInit));
}

#[test]
fn daemon_message_of_wrong_size_is_refused() {
    let d = device(DeviceState::UserspaceReq);
    assert_eq!(fcopy_on_msg_rust(&d, &[0, 0, 0]), MsgStep::Answer(-EINVAL));
    assert_eq!(fcopy_on_msg_rust(&d, &[0, 0, 0, 0, 0]), MsgStep::Answer(-EINVAL));
}

#[test]
fn daemon_message_before_registration_is_handshake() {
    let d = device(DeviceState::DeviceInit);
    assert_eq!(fcopy_on_msg_rust(&d, &[1, 0, 0, 0]), MsgStep::Handshake(1));
}

#[test]
fn daemon_message_without_request_is_refused() {
    let d = device(DeviceState::Ready);
    assert_eq!(fcopy_on_msg_rust(&d, &[1, 0, 0, 0]), MsgStep::Answer(-EINVAL));
    let d = device(DeviceState::HostmsgReceived);
    assert_eq!(fcopy_on_msg_rust(&d, &[1, 0, 0, 0]), MsgStep::Answer(-EINVAL));
}

#[test]
fn daemon_result_goes_to_host_when_timeout_cancelled() {
    let mut d = device(DeviceState::UserspaceReq);
    assert_eq!(fcopy_on_msg_rust(&d, &[0xff, 0xff, 0xff, 0xff]), MsgStep::HostResult(-1));
    assert!(fcopy_on_msg_cancelled(&mut d, true));
    assert_eq!(d.state, DeviceState::UserspaceRecv);
}

#[test]
fn daemon_result_after_timeout_is_not_sent() {
    let mut d = device(DeviceState::UserspaceReq);
    assert!(!fcopy_on_msg_cancelled(&mut d, false));
    assert_eq!(d.state, DeviceState::UserspaceReq);
}

#[test]
fn reset_waits_for_daemon_and_fails_pending_request() {
    let mut d = device(DeviceState::UserspaceReq);
    fcopy_on_reset_rust(&mut d);
    assert_eq!(d.state, DeviceState::DeviceInit);
    assert_eq!(fcopy_failure_if_cancelled(true), Some(HV_E_FAIL));
    assert_eq!(fcopy_failure_if_cancelled(false), None);
}

#[test]
fn init_status_follows_transport() {
    let mut d = device(DeviceState::DeviceDying);
    hv_fcopy_init_rust(&mut d);
    assert_eq!(d.state, DeviceState::DeviceInit);
    assert_eq!(fcopy_init_status(true), 0);
    assert_eq!(fcopy_init_status(false), -EFAULT);
}

#[test]
fn suspend_without_buffer_fails_with_enomem() {
    let d = device(DeviceState::UserspaceReq);
    assert_eq!(hv_fcopy_pre_suspend_rust(&d, false), SuspendStep::Fail(-ENOMEM));
    assert_eq!(d.state, DeviceState::UserspaceReq);
}

#[test]
fn suspend_and_deinit_states() {
    let mut d = device(DeviceState::UserspaceReq);
    assert_eq!(hv_fcopy_pre_suspend_rust(&d, true), SuspendStep::CancelCopy);
    assert_eq!(fcopy_suspend_finished(&mut d), 0);
    assert_eq!(d.state, DeviceState::Ready);
    hv_fcopy_deinit_rust(&mut d);
    assert_eq!(d.state, DeviceState::DeviceDying);
    assert!(!fcopy_accepts_packets(&d));
}

#[test]
fn send_plan_by_operation() {
    let d = FcopyDevice { recv_len: 300, ..device(DeviceState::HostmsgReceived) };
    assert_eq!(fcopy_send_data_rust(&d, &packet(7, 0)), SendPlan::StartCopy);
    assert_eq!(fcopy_send_data_rust(&d, &packet(7, 1)), SendPlan::Forward { len: 6196 });
    assert_eq!(fcopy_send_data_rust(&d, &packet(7, 2)), SendPlan::Forward { len: 300 });
    assert_eq!(fcopy_send_data_rust(&d, &packet(7, 3)), SendPlan::Forward { len: 300 });
}

#[test]
fn start_request_without_buffer_is_given_up() {
    let mut d = device(DeviceState::HostmsgReceived);
    assert!(!fcopy_request_sent(&mut d, SendPlan::StartCopy, false));
    assert_eq!(d.state, DeviceState::HostmsgReceived);
    assert!(fcopy_request_sent(&mut d, SendPlan::StartCopy, true));
    assert_eq!(d.state, DeviceState::UserspaceReq);
}

#[test]
fn forwarded_request_needs_no_buffer() {
    let mut d = device(DeviceState::HostmsgReceived);
    assert!(fcopy_request_sent(&mut d, SendPlan::Forward { len: 80 }, false));
    assert_eq!(d.state, DeviceState::UserspaceReq);
}

#[test]
fn only_failed_send_cancels_timeout() {
    assert!(!fcopy_send_result(0));
    assert!(fcopy_send_result(-32));
}

#[test]
fn converted_name_length_is_bounded() {
    assert_eq!(fcopy_converted_len(-22), 0);
    assert_eq!(fcopy_converted_len(0), 0);
    assert_eq!(fcopy_converted_len(5), 5);
    assert_eq!(fcopy_converted_len(259), 259);
    assert_eq!(fcopy_converted_len(300), 259);
}

#[test]
fn receive_request_only_when_idle() {
    assert_eq!(fcopy_receive_request(&device(DeviceState::DeviceInit)), Some(8192));
    assert_eq!(fcopy_receive_request(&device(DeviceState::Ready)), Some(8192));
    assert_eq!(fcopy_receive_request(&device(DeviceState::UserspaceReq)), None);
    assert_eq!(fcopy_receive_request(&device(DeviceState::DeviceDying)), None);
}

#[test]
fn packet_in_flight_is_left_alone() {
    for state in [
        DeviceState::HostmsgReceived,
        DeviceState::UserspaceReq,
        DeviceState::UserspaceRecv,
        DeviceState::DeviceDying,
    ] {
        let before = FcopyDevice { recv_len: 70, recv_req_id: 3, ..device(state) };
        let mut d = before;
        let buf = packet(7, 1);
        let a = hv_fcopy_onchannelcallback_rust(&mut d, 0, 100, 9, &buf);
        assert_eq!(a, PacketAction::Dropped(DropReason::Busy));
        assert_eq!(d, before);
    }
}

#[test]
fn request_sent_then_send_failure() {
    let mut d = device(DeviceState::HostmsgReceived);
    assert!(fcopy_request_sent(&mut d, SendPlan::Forward { len: 64 }, true));
    assert_eq!(d.state, DeviceState::UserspaceReq);
    assert_eq!(fcopy_send_failed(&mut d, false), None);
    assert_eq!(d.state, DeviceState::UserspaceReq);
    assert_eq!(fcopy_send_failed(&mut d, true), Some(HV_E_FAIL));
    assert_eq!(d.state, DeviceState::Ready);
}

#[test]
fn whole_request_round_trip() {
    let mut d = device(DeviceState::Ready);
    let mut buf = packet(7, 2);
    assert_eq!(fcopy_receive_request(&d), Some(8192));
    let a = hv_fcopy_onchannelcallback_rust(&mut d, 0, 80, 11, &buf);
    assert_eq!(a, PacketAction::Dispatch { delay: 3000 });
    let plan = fcopy_send_data_rust(&d, &buf);
    assert_eq!(plan, SendPlan::Forward { len: 80 });
    assert!(fcopy_request_sent(&mut d, plan, false));
    assert!(!fcopy_send_result(0));
    let step = fcopy_on_msg_rust(&d, &[0, 0, 0, 0]);
    assert_eq!(step, MsgStep::HostResult(0));
    assert!(fcopy_on_msg_cancelled(&mut d, true));
    let r = fcopy_respond_to_host_rust(&d, 0, &mut buf);
    assert_eq!(r, Reply { len: 80, req_id: 11 });
    assert_eq!(&buf[20..24], &[0, 0, 0, 0]);
    assert_eq!(buf[25], 5);
    fcopy_poll_wrapper_rust(&mut d);
    assert!(fcopy_accepts_packets(&d));
}
