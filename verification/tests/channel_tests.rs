//! Tests for the bounded channel policy and the device-reader decisions,
//! including the real transport behind the trusted seam.

use ctl1::channel::{MuxChannel, SendOutcome};
use ctl1::event::{Ctl1Event, ControlEvent};
use ctl1::reader::{forward_event, reader_decision, reader_forward, reader_transition};
use ctl1::reader::{ReaderDirective, ReaderState};

fn pkt(id: u64) -> Ctl1Event {
    Ctl1Event::new(ControlEvent::ActionA(true), format!("pad{}", id), id)
}

#[test]
fn second_send_on_full_channel_is_dropped() {
    // Capacity 1, two sends before any receive: at most one tuple is
    // observed; the second send returns Full instead of blocking.
    let mut ch = MuxChannel::open(1);
    let a = pkt(1);
    let b = pkt(2);
    assert!(matches!(ch.try_send(a), SendOutcome::Sent));
    match ch.try_send(b) {
        SendOutcome::Full(e) => assert_eq!(e.ctl_id, 2),
        _ => panic!("second send must report a full channel"),
    }
    let got = ch.try_recv().expect("one event must be observed");
    assert_eq!(got.ctl_id, 1);
    assert!(ch.try_recv().is_none());
}

#[test]
fn closed_channel_refuses_sends() {
    let mut ch = MuxChannel::open(1);
    ch.close();
    match ch.try_send(pkt(7)) {
        SendOutcome::Closed(e) => assert_eq!(e.ctl_id, 7),
        _ => panic!("a closed channel must refuse the send"),
    }
}

#[test]
fn channel_is_fifo_per_arrival() {
    let mut ch = MuxChannel::open(2);
    assert!(matches!(ch.try_send(pkt(1)), SendOutcome::Sent));
    assert!(matches!(ch.try_send(pkt(2)), SendOutcome::Sent));
    assert_eq!(ch.try_recv().unwrap().ctl_id, 1);
    assert_eq!(ch.try_recv().unwrap().ctl_id, 2);
    assert!(ch.try_recv().is_none());
}

#[test]
fn two_devices_one_slot_exactly_one_processed() {
    // Two devices each send one event before the reducer drains anything
    // (capacity 1): exactly one event is processed, the other is dropped,
    // and neither producer sees an error.
    let mut ch = MuxChannel::open(1);
    let ra = ch.try_send(pkt(0x0a));
    let rb = ch.try_send(pkt(0x0b));
    assert!(matches!(ra, SendOutcome::Sent));
    assert!(matches!(rb, SendOutcome::Full(_)));
    // The drop is silent for the reader: it just carries on.
    assert_eq!(reader_decision(false, rb), ReaderDirective::Continue);

    let mut table = ctl1::table::AppState::new();
    let mut processed: usize = 0;
    while let Some(ev) = ch.try_recv() {
        table.process_event(ev);
        processed += 1;
    }
    assert_eq!(processed, 1);
    assert!(table.current.contains_key(&0x0a));
    assert!(!table.current.contains_key(&0x0b));
}

#[test]
fn reader_decision_table() {
    let full = || SendOutcome::Full(pkt(1));
    let closed = || SendOutcome::Closed(pkt(1));
    assert_eq!(reader_decision(false, SendOutcome::Sent), ReaderDirective::Continue);
    assert_eq!(reader_decision(false, full()), ReaderDirective::Continue);
    assert_eq!(reader_decision(false, closed()), ReaderDirective::Terminate);
    assert_eq!(reader_decision(true, SendOutcome::Sent), ReaderDirective::Terminate);
    assert_eq!(reader_decision(true, full()), ReaderDirective::Terminate);
    assert_eq!(reader_decision(true, closed()), ReaderDirective::Terminate);
}

#[test]
fn reader_state_machine() {
    let waiting = ReaderState::AwaitingFirstEvent;
    let streaming = ReaderState::Streaming;
    let done = ReaderState::Terminated;
    // First event moves a waiting reader to streaming.
    assert_eq!(reader_transition(waiting, false, false), streaming);
    // Streaming stays streaming while events flow or are dropped.
    assert_eq!(reader_transition(streaming, false, false), streaming);
    // Disconnect or a closed channel ends the task.
    assert_eq!(reader_transition(streaming, true, false), done);
    assert_eq!(reader_transition(streaming, false, true), done);
    assert_eq!(reader_transition(waiting, true, false), done);
    // The terminal state is final.
    assert_eq!(reader_transition(done, false, false), done);
    assert_eq!(reader_transition(done, true, true), done);
}

#[test]
fn transport_send_queues_event() {
    // The real transport behind the trusted seam: a successful send is
    // observed by the receiver with name and id intact.
    let (tx, mut rx) = tokio::sync::mpsc::channel::<Ctl1Event>(1);
    let r = forward_event(&tx, ControlEvent::ActionB(true), "Pad1".to_string(), 0x11);
    assert!(matches!(r, SendOutcome::Sent));
    let got = rx.try_recv().expect("the sent event must be queued");
    assert_eq!(got.ctl_id, 0x11);
    assert_eq!(got.ctl_name, "Pad1");
    assert!(matches!(got.triggering_event, ControlEvent::ActionB(true)));
}

#[test]
fn transport_full_hands_event_back() {
    // Capacity 1, two sends before any receive: the transport reports Full
    // and hands the second event back intact; the reader carries on.
    let (tx, mut rx) = tokio::sync::mpsc::channel::<Ctl1Event>(1);
    assert!(matches!(
        forward_event(&tx, ControlEvent::ActionA(true), "A".to_string(), 1),
        SendOutcome::Sent
    ));
    match forward_event(&tx, ControlEvent::ActionA(false), "B".to_string(), 2) {
        SendOutcome::Full(e) => {
            assert_eq!(e.ctl_id, 2);
            assert_eq!(e.ctl_name, "B");
            assert!(matches!(e.triggering_event, ControlEvent::ActionA(false)));
        }
        _ => panic!("the second send must report a full channel"),
    }
    assert_eq!(rx.try_recv().unwrap().ctl_id, 1);
    assert!(rx.try_recv().is_err());
}

#[test]
fn transport_closed_ends_reader() {
    // Once the receiving end is gone the step reports Terminate: the normal
    // shutdown path, not an error.
    let (tx, rx) = tokio::sync::mpsc::channel::<Ctl1Event>(1);
    drop(rx);
    let d = reader_forward(&tx, ControlEvent::ActionA(true), "Pad".to_string(), 5);
    assert_eq!(d, ReaderDirective::Terminate);
}

#[test]
fn reader_forward_terminates_on_disconnect() {
    let (tx, mut rx) = tokio::sync::mpsc::channel::<Ctl1Event>(1);
    let d = reader_forward(&tx, ControlEvent::Disconnect, "Pad".to_string(), 5);
    assert_eq!(d, ReaderDirective::Terminate);
    // The disconnect was still best-effort forwarded.
    assert!(matches!(
        rx.try_recv().unwrap().triggering_event,
        ControlEvent::Disconnect
    ));
}

#[test]
fn reader_forward_continues_on_ordinary_event() {
    let (tx, _rx) = tokio::sync::mpsc::channel::<Ctl1Event>(1);
    let d = reader_forward(&tx, ControlEvent::JoyY(3), "Pad".to_string(), 5);
    assert_eq!(d, ReaderDirective::Continue);
}
