use tap_interceptor::dispatch::{Dispatcher, SinkCall, TogglePolicy};
use tap_interceptor::keys::KEY_A;
use tap_interceptor::locate::{pick_device, Candidate};
use tap_interceptor::profile::{letters_profile, DispatchError};
use tap_interceptor::session::{
    Command, Event, ModePacket, Phase, Session, KEEP_ALIVE_SECS, MODE_SERVICE,
    MODE_SWITCH_CHARACTERISTIC, RETRY_DELAY_SECS, TAP_DATA_CHARACTERISTIC, TAP_SERVICE,
};

fn session() -> Session {
    Session::new(Dispatcher::new(vec![letters_profile()], TogglePolicy::ResetOnSwitch).unwrap())
}

fn streaming() -> Session {
    let mut s = session();
    s.step(Event::Start);
    s.step(Event::Located(true));
    s.step(Event::ServicesResolved(true));
    assert_eq!(s.step(Event::Subscribed(true)), vec![Command::StartKeepAlive]);
    assert_eq!(s.phase(), Phase::Streaming);
    s
}

#[test]
fn retries_discovery_until_found() {
    let mut s = session();
    assert_eq!(s.step(Event::Start), vec![Command::Locate]);
    let mut waits = 0;
    for found in [false, false] {
        let cmds = s.step(Event::Located(found));
        assert_eq!(cmds, vec![Command::Wait(5), Command::Locate]);
        waits += cmds.iter().filter(|c| matches!(c, Command::Wait(5))).count();
        assert_eq!(s.phase(), Phase::Searching);
    }
    assert_eq!(s.step(Event::Located(true)), vec![Command::ResolveServices]);
    assert_eq!(s.phase(), Phase::Connected);
    assert_eq!(waits, 2);
    assert_eq!(RETRY_DELAY_SECS, 5);
}

#[test]
fn connection_failures_return_to_searching() {
    let mut s = session();
    s.step(Event::Start);
    s.step(Event::Located(true));
    assert_eq!(s.step(Event::ServicesResolved(false)), vec![Command::Wait(5), Command::Locate]);
    assert_eq!(s.phase(), Phase::Searching);
    s.step(Event::Located(true));
    assert_eq!(s.step(Event::ServicesResolved(true)), vec![Command::Subscribe]);
    assert_eq!(s.step(Event::Subscribed(false)), vec![Command::Wait(5), Command::Locate]);
    assert_eq!(s.phase(), Phase::Searching);
}

#[test]
fn notification_drives_the_keyboard() {
    let mut s = streaming();
    assert_eq!(
        s.step(Event::Notification(vec![0x01])),
        vec![Command::Emit(SinkCall::Click(KEY_A)), Command::Emit(SinkCall::Synchronize)]
    );
    assert_eq!(s.step(Event::Notification(vec![0x00])), vec![]);
    assert_eq!(
        s.step(Event::Notification(vec![0x40])),
        vec![Command::Warn(DispatchError::CodeOutOfRange(0x40))]
    );
}

#[test]
fn keep_alive_does_not_change_decoding() {
    let mut s = streaming();
    assert_eq!(s.step(Event::KeepAliveTick), vec![Command::WriteMode(ModePacket::Enter)]);
    assert_eq!(s.step(Event::KeepAliveTick), vec![Command::WriteMode(ModePacket::Enter)]);
    assert_eq!(s.phase(), Phase::Streaming);
    assert_eq!(
        s.step(Event::Notification(vec![0x01])),
        vec![Command::Emit(SinkCall::Click(KEY_A)), Command::Emit(SinkCall::Synchronize)]
    );
    assert_eq!(KEEP_ALIVE_SECS, 5);
}

#[test]
fn stream_end_cancels_and_exits_once() {
    let mut s = streaming();
    let mut all = s.step(Event::StreamEnded);
    assert_eq!(all, vec![Command::CancelKeepAlive, Command::WriteMode(ModePacket::Exit)]);
    assert_eq!(s.phase(), Phase::Closing);
    all.extend(s.step(Event::StreamEnded));
    all.extend(s.step(Event::KeepAliveTick));
    all.extend(s.step(Event::Notification(vec![1])));
    assert_eq!(s.step(Event::ExitWritten(false)), vec![Command::Finish]);
    assert_eq!(s.phase(), Phase::Closed);
    all.extend(s.step(Event::StreamEnded));
    let exits = all.iter().filter(|c| **c == Command::WriteMode(ModePacket::Exit)).count();
    assert_eq!(exits, 1);
}

#[test]
fn events_out_of_place_are_ignored() {
    let mut s = session();
    assert_eq!(s.step(Event::Notification(vec![1])), vec![]);
    assert_eq!(s.step(Event::KeepAliveTick), vec![]);
    assert_eq!(s.step(Event::StreamEnded), vec![]);
    assert_eq!(s.phase(), Phase::Searching);
}

#[test]
fn mode_packets() {
    assert_eq!(ModePacket::Enter.bytes(), vec![0x03, 0x0C, 0x00, 0x01]);
    assert_eq!(ModePacket::Exit.bytes(), vec![0x03, 0x0C, 0x00, 0x00]);
}

#[test]
fn gatt_identifiers() {
    assert_eq!(TAP_SERVICE, 0xC3FF0001_1D8B_40FD_A56F_C7BD5D0F3370);
    assert_eq!(TAP_DATA_CHARACTERISTIC, 0xc3ff0005_1d8b_40fd_a56f_c7bd5d0f3370);
    assert_eq!(MODE_SERVICE, 0x6E400001_B5A3_F393_E0A9_E50E24DCCA9E);
    assert_eq!(MODE_SWITCH_CHARACTERISTIC, 0x6E400002_B5A3_F393_E0A9_E50E24DCCA9E);
}

#[test]
fn picks_first_connected_device_with_service() {
    let other = 0x1234u128;
    let cands = vec![
        Candidate { services: vec![other], connected: true },
        Candidate { services: vec![other, TAP_SERVICE], connected: false },
        Candidate { services: vec![TAP_SERVICE], connected: true },
        Candidate { services: vec![TAP_SERVICE], connected: true },
    ];
    assert_eq!(pick_device(&cands, TAP_SERVICE), Some(2));
    assert_eq!(pick_device(&cands, other), Some(0));
    assert_eq!(pick_device(&cands, 7), None);
    assert_eq!(pick_device(&vec![], TAP_SERVICE), None);
}
