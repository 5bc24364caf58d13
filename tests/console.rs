use hm_remote::addr::Addr;
use hm_remote::console::{
    is_command, quit_requested, render_notification, EndReason, Rendered, Session, SessionInput,
    SessionStep,
};
use hm_remote::error::Error;
use hm_remote::frames::split_frames;
use hm_remote::link::{connect_action, find_notify, locate_step, Attempt, ConnectAction, LocateInput, LocateStep, Uuid, NOTIFY_UUID};
use hm_remote::scan::{RadioEvent, ScanEngine, ScanInput, ScanReport, ScanStep};

fn rejoin(frames: &[Vec<u8>]) -> Vec<u8> {
    let mut out = Vec::new();
    for f in frames {
        out.extend_from_slice(f);
    }
    out
}

#[test]
fn frames_rejoin_for_edge_lengths() {
    for n in [0usize, 1, 19, 20, 21, 39, 40, 41, 200, 1000] {
        let bytes: Vec<u8> = (0..n).map(|i| (i % 251) as u8).collect();
        let frames = split_frames(&bytes);
        assert_eq!(rejoin(&frames), bytes);
        assert_eq!(frames.len(), (n + 19) / 20);
        for (k, f) in frames.iter().enumerate() {
            assert!(!f.is_empty() && f.len() <= 20);
            if k + 1 < frames.len() {
                assert_eq!(f.len(), 20);
            }
        }
    }
}

#[test]
fn frames_of_twenty_one_bytes() {
    let bytes: Vec<u8> = (1..=21).collect();
    let frames = split_frames(&bytes);
    assert_eq!(frames, vec![(1..=20).collect::<Vec<u8>>(), vec![21]]);
}

#[test]
fn address_parses_and_prints() {
    let a = Addr::parse("AA:BB:CC:DD:EE:FF").unwrap();
    assert_eq!(a.value, 0xAABB_CCDD_EEFF);
    assert_eq!(a.text(), "AA:BB:CC:DD:EE:FF");
    assert_eq!(Addr { value: 0x0102_0304_0a0b }.text(), "01:02:03:04:0A:0B");
}

#[test]
fn address_rejects_malformed() {
    assert_eq!(Addr::parse("2A:00:00"), Err(Error::InvalidAddr));
    assert_eq!(Addr::parse("2A:00:AA:BB:CC:ZZ"), Err(Error::InvalidAddr));
    assert_eq!(Addr::parse(""), Err(Error::InvalidAddr));
}

#[test]
fn first_adapter_or_none() {
    assert_eq!(hm_remote::link::first_adapter(vec![7, 8]), Ok(7));
    assert_eq!(hm_remote::link::first_adapter(Vec::<u8>::new()), Err(Error::NoAdapter));
}

fn radio(event: RadioEvent, named: bool) -> ScanInput {
    ScanInput::Radio { event, named }
}

#[test]
fn scan_reports_lifecycle() {
    let a = Addr { value: 1 };
    let mut e = ScanEngine::new(true, false);
    assert_eq!(e.step(radio(RadioEvent::Discovered(a), false)), ScanStep::Continue(vec![ScanReport::Advertised(a)]));
    assert_eq!(
        e.step(radio(RadioEvent::Updated(a), true)),
        ScanStep::Continue(vec![ScanReport::Update(a), ScanReport::New(a)])
    );
    assert_eq!(e.step(radio(RadioEvent::Updated(a), true)), ScanStep::Continue(vec![ScanReport::Update(a)]));
    // a second advertisement does not move the address back to Discovered
    assert_eq!(e.step(radio(RadioEvent::Discovered(a), true)), ScanStep::Continue(vec![ScanReport::Advertised(a)]));
    assert_eq!(e.step(radio(RadioEvent::Updated(a), true)), ScanStep::Continue(vec![ScanReport::Update(a)]));
    assert_eq!(e.step(radio(RadioEvent::Lost(a), true)), ScanStep::Continue(vec![ScanReport::Lost(a)]));
    assert!(e.table.is_empty());
}

#[test]
fn scan_quiet_mode_reports_new_once() {
    let a = Addr { value: 2 };
    let mut e = ScanEngine::new(false, false);
    assert_eq!(e.step(radio(RadioEvent::Discovered(a), false)), ScanStep::Continue(vec![]));
    assert_eq!(e.step(radio(RadioEvent::Updated(a), false)), ScanStep::Continue(vec![ScanReport::New(a)]));
    assert_eq!(e.step(radio(RadioEvent::Updated(a), false)), ScanStep::Continue(vec![]));
}

#[test]
fn scan_filter_unnamed() {
    let a = Addr { value: 3 };
    let mut e = ScanEngine::new(true, true);
    assert_eq!(e.step(radio(RadioEvent::Updated(a), false)), ScanStep::Continue(vec![ScanReport::Update(a)]));
    // a name that shows up later does not bring a "new" report
    assert_eq!(e.step(radio(RadioEvent::Updated(a), true)), ScanStep::Continue(vec![ScanReport::Update(a)]));
    let b = Addr { value: 4 };
    assert_eq!(
        e.step(radio(RadioEvent::Updated(b), true)),
        ScanStep::Continue(vec![ScanReport::Update(b), ScanReport::New(b)])
    );
}

#[test]
fn scan_stops_on_cancel() {
    let a = Addr { value: 5 };
    let mut e = ScanEngine::new(true, false);
    assert_eq!(e.step(ScanInput::Cancelled), ScanStep::Stop);
    assert_eq!(e.step(radio(RadioEvent::Discovered(a), true)), ScanStep::Stop);
    assert_eq!(e.step(radio(RadioEvent::Updated(a), true)), ScanStep::Stop);
    assert!(e.table.is_empty());
}

#[test]
fn scan_fails_when_stream_ends() {
    let mut e = ScanEngine::new(false, false);
    assert_eq!(e.step(ScanInput::StreamEnded), ScanStep::Fail(Error::AdapterStopped));
}

#[test]
fn locate_decisions() {
    let t = Addr { value: 0xAABB_CCDD_EEFF };
    let o = Addr { value: 9 };
    assert_eq!(locate_step(t, LocateInput::Radio(RadioEvent::Discovered(t))), LocateStep::Wait);
    assert_eq!(locate_step(t, LocateInput::Radio(RadioEvent::Updated(o))), LocateStep::Wait);
    assert_eq!(locate_step(t, LocateInput::Radio(RadioEvent::Updated(t))), LocateStep::Found(t));
    assert_eq!(locate_step(t, LocateInput::Cancelled), LocateStep::NotFound);
    assert_eq!(locate_step(t, LocateInput::StreamEnded), LocateStep::Fail(Error::AdapterStopped));
}

#[test]
fn connect_retries_only_not_connected() {
    assert_eq!(connect_action(false, Attempt::NotYet), ConnectAction::Retry);
    assert_eq!(connect_action(false, Attempt::NotConnected), ConnectAction::Retry);
    assert_eq!(connect_action(true, Attempt::Succeeded), ConnectAction::Done);
    assert_eq!(connect_action(true, Attempt::NotYet), ConnectAction::Done);
    assert_eq!(connect_action(false, Attempt::Failed), ConnectAction::Fatal);
}

#[test]
fn incompatible_device_is_refused() {
    let chars = vec![Uuid::Short(0x2a00), Uuid::Long(0x1234)];
    assert_eq!(find_notify(&chars), Err(Error::NotHMDevice));
    assert_eq!(find_notify(&Vec::new()), Err(Error::NotHMDevice));
}

#[test]
fn command_grammar() {
    assert!(is_command("AT"));
    assert!(is_command("AT+NAME?"));
    assert!(is_command("quit"));
    assert!(!is_command("at+name?"));
    assert!(!is_command("A"));
    assert!(!is_command(""));
    assert!(!is_command("QUIT"));
    assert!(!is_command("quit "));
    assert!(quit_requested("quit"));
    assert!(!quit_requested("AT"));
}

#[test]
fn notifications_render() {
    assert_eq!(render_notification(vec![]), None);
    assert_eq!(render_notification(b"OK".to_vec()), Some(Rendered::Text("OK".to_string())));
    assert_eq!(render_notification(vec![0xff, 0x41]), Some(Rendered::Undecodable(vec![0xff, 0x41])));
}

#[test]
fn end_to_end_session() {
    let target = Addr::parse("AA:BB:CC:DD:EE:FF").unwrap();
    let mut e = ScanEngine::new(false, false);
    e.step(radio(RadioEvent::Discovered(target), true));
    assert_eq!(e.step(radio(RadioEvent::Updated(target), true)), ScanStep::Continue(vec![ScanReport::New(target)]));
    assert_eq!(locate_step(target, LocateInput::Radio(RadioEvent::Discovered(target))), LocateStep::Wait);
    let found = match locate_step(target, LocateInput::Radio(RadioEvent::Updated(target))) {
        LocateStep::Found(a) => a,
        other => panic!("not found: {:?}", other),
    };
    assert_eq!(connect_action(false, Attempt::NotYet), ConnectAction::Retry);
    assert_eq!(connect_action(false, Attempt::NotConnected), ConnectAction::Retry);
    assert_eq!(connect_action(true, Attempt::Succeeded), ConnectAction::Done);
    let chars = vec![Uuid::Short(0x2a00), Uuid::Long(NOTIFY_UUID)];
    assert_eq!(find_notify(&chars), Ok(1));
    let mut s = Session::new(found);
    assert!(is_command("AT+NAME?"));
    assert_eq!(
        s.step(SessionInput::Command("AT+NAME?".to_string())),
        SessionStep::Send(vec![b"AT+NAME?".to_vec()])
    );
    assert_eq!(s.step(SessionInput::Sent), SessionStep::GoAhead);
    assert_eq!(
        s.step(SessionInput::Notification(b"OK+NAME:HM-10".to_vec())),
        SessionStep::Show(Rendered::Text("OK+NAME:HM-10".to_string()))
    );
    assert_eq!(
        s.step(SessionInput::Command("quit".to_string())),
        SessionStep::End { disconnect: true, reason: EndReason::UserQuit }
    );
    assert_eq!(s.step(SessionInput::Command("AT".to_string())), SessionStep::Idle);
}

#[test]
fn session_turn_taking() {
    let d = Addr { value: 1 };
    let mut s = Session::new(d);
    assert_eq!(s.step(SessionInput::Sent), SessionStep::Idle);
    let long = "AT+".to_string() + &"X".repeat(30);
    match s.step(SessionInput::Command(long.clone())) {
        SessionStep::Send(f) => {
            assert_eq!(f.len(), 2);
            assert_eq!(rejoin(&f), long.as_bytes().to_vec());
        }
        other => panic!("expected frames, got {:?}", other),
    }
    assert_eq!(s.step(SessionInput::Notification(vec![])), SessionStep::Idle);
    assert_eq!(s.step(SessionInput::Command("AT".to_string())), SessionStep::Fail(Error::OutOfTurn));
}

#[test]
fn session_ends_on_loss_and_cancel() {
    let d = Addr { value: 1 };
    let o = Addr { value: 2 };
    let mut s = Session::new(d);
    assert_eq!(s.step(SessionInput::Radio(RadioEvent::Lost(o))), SessionStep::Idle);
    assert_eq!(
        s.step(SessionInput::Radio(RadioEvent::Disconnected(d))),
        SessionStep::End { disconnect: false, reason: EndReason::DeviceLost }
    );
    let mut s = Session::new(d);
    assert_eq!(
        s.step(SessionInput::Radio(RadioEvent::Lost(d))),
        SessionStep::End { disconnect: false, reason: EndReason::DeviceLost }
    );
    let mut s = Session::new(d);
    assert_eq!(s.step(SessionInput::Cancelled), SessionStep::End { disconnect: true, reason: EndReason::Cancelled });
    let mut s = Session::new(d);
    assert_eq!(s.step(SessionInput::StreamEnded), SessionStep::Fail(Error::AdapterStopped));
    let mut s = Session::new(d);
    assert_eq!(s.step(SessionInput::InputFailed), SessionStep::Fail(Error::Terminal));
    let mut s = Session::new(d);
    assert_eq!(s.step(SessionInput::InputClosed), SessionStep::Fail(Error::Unknown));
    assert_eq!(
        Session::new(d).step(SessionInput::Notification(vec![0xc3])),
        SessionStep::Show(Rendered::Undecodable(vec![0xc3]))
    );
}
