use async_backplane::device::{Polled, Verdict};
use async_backplane::line::plan_unlink;
use async_backplane::linemap::LineOp;
use async_backplane::{
    Crash, Device, DeviceID, Fault, Line, LinkError, LinkMode, Message, Watched,
};
use maybe_unwind::maybe_unwind;
use std::task::Waker;

type Round = Result<Watched<Result<u8, &'static str>>, Crash<&'static str>>;

fn completed(outcome: Result<u8, &'static str>) -> Round {
    Ok(Watched::Completed(outcome))
}

fn messaged(message: Message) -> Round {
    Ok(Watched::Messaged(message))
}

fn drain(device: &Device) -> Vec<Message> {
    let mut messages = Vec::new();
    while let Some(message) = device.receive() {
        messages.push(message);
    }
    messages
}

fn must_be_send<T: Send>(_: &T) {}

#[test]
fn devices_and_lines_can_move_between_threads() {
    let d = Device::new();
    must_be_send(&d);
    must_be_send(&d.line());
}

#[test]
fn a_new_device_has_not_disconnected() {
    let d = Device::new();
    assert!(!d.is_done());
    assert_eq!(d.farewell(), None);
    assert_eq!(d.receive(), None);
    assert!(!Device::default().is_done());
}

#[test]
fn the_device_id_is_constant_and_shared_with_its_lines() {
    let mut d = Device::new();
    let mut other = Device::new();
    let id = d.device_id();
    assert_eq!(d.line().device_id(), id);
    assert_eq!(d.line().clone().device_id(), id);
    d.link(&mut other, LinkMode::Peer);
    assert_eq!(d.device_id(), id);
    d.unlink(&mut other, LinkMode::Peer);
    assert_eq!(d.device_id(), id);
    assert_eq!(d.poll_message(Waker::noop()), Polled::Pending);
    assert_eq!(d.device_id(), id);
    assert!(matches!(d.part_settle(completed(Ok(1))), Verdict::Done(1)));
    assert_eq!(d.device_id(), id);
    d.release();
    assert_eq!(d.device_id(), id);
    assert_eq!(d.line().device_id(), id);
}

#[test]
fn two_devices_have_different_ids() {
    let a = Device::new();
    let b = Device::new();
    assert_ne!(a.device_id(), b.device_id());
    assert!(a.line() == a.line());
    assert!(a.line() != b.line());
}

#[test]
fn messages_arrive_in_the_order_in_which_they_were_sent() {
    let d = Device::new();
    let a = Device::new();
    let b = Device::new();
    let first = Message::Shutdown(a.device_id());
    let second = Message::Disconnected(b.device_id(), Some(Fault::Error));
    let third = Message::Disconnected(a.device_id(), None);
    assert_eq!(d.line().send(first), Ok(()));
    assert_eq!(d.line().send(second), Ok(()));
    assert_eq!(d.line().clone().send(third), Ok(()));
    assert_eq!(d.receive(), Some(first));
    assert_eq!(d.receive(), Some(second));
    assert_eq!(d.receive(), Some(third));
    assert_eq!(d.receive(), None);
}

#[test]
fn a_send_to_a_disconnected_device_hands_the_message_back() {
    let d = Device::new();
    let line = d.line();
    let message = Message::Shutdown(d.device_id());
    d.disconnect(None);
    assert_eq!(line.send(message), Err(message));
}

#[test]
fn lines_outlive_their_device() {
    let line: Line = {
        let d = Device::new();
        d.line()
    };
    let mut other = Device::new();
    assert_eq!(other.link_line(line.clone(), LinkMode::Monitor), Err(LinkError::LinkDown));
    let message = Message::Shutdown(other.device_id());
    assert_eq!(line.send(message), Err(message));
}

#[test]
fn a_monitor_is_told_exactly_once() {
    let mut a = Device::new();
    let mut b = Device::new();
    let ia = a.device_id();
    b.link(&mut a, LinkMode::Monitor);
    b.link(&mut a, LinkMode::Monitor);
    a.disconnect(Some(Fault::Error));
    assert_eq!(drain(&b), vec![Message::Disconnected(ia, Some(Fault::Error))]);
}

#[test]
fn the_terminal_broadcast_happens_once() {
    let mut a = Device::new();
    let mut b = Device::new();
    let ia = a.device_id();
    b.link(&mut a, LinkMode::Monitor);
    a.end(None);
    assert!(a.is_done());
    assert_eq!(a.farewell(), Some(Message::Disconnected(ia, None)));
    a.end(Some(Fault::Error));
    a.release();
    assert_eq!(a.farewell(), Some(Message::Disconnected(ia, None)));
    a.disconnect(Some(Fault::Error));
    assert_eq!(drain(&b), vec![Message::Disconnected(ia, None)]);
}

#[test]
fn dropping_a_device_broadcasts_the_drop() {
    let mut b = Device::new();
    let ia = {
        let mut a = Device::new();
        b.link(&mut a, LinkMode::Monitor);
        a.device_id()
    };
    assert_eq!(drain(&b), vec![Message::Disconnected(ia, Some(Fault::Drop))]);
}

#[test]
fn release_is_what_dropping_does() {
    let mut a = Device::new();
    let mut b = Device::new();
    let ia = a.device_id();
    b.link(&mut a, LinkMode::Monitor);
    a.release();
    assert!(a.is_done());
    assert_eq!(drain(&b), vec![Message::Disconnected(ia, Some(Fault::Drop))]);
}

#[test]
fn a_broadcast_goes_out_in_roster_order_and_skips_the_dead() {
    let mut a = Device::new();
    let mut b = Device::new();
    let mut c = Device::new();
    let mut d = Device::new();
    let ia = a.device_id();
    a.link(&mut b, LinkMode::Notify);
    a.link(&mut c, LinkMode::Notify);
    a.link(&mut d, LinkMode::Notify);
    // c goes first: a's line to it is refused, and the message moves on to d.
    c.disconnect(None);
    a.disconnect(Some(Fault::Error));
    assert_eq!(drain(&b), vec![Message::Disconnected(ia, Some(Fault::Error))]);
    assert_eq!(drain(&d), vec![Message::Disconnected(ia, Some(Fault::Error))]);
}

#[test]
fn notify_is_monitor_seen_from_the_other_side() {
    let mut a = Device::new();
    let mut b = Device::new();
    let ia = a.device_id();
    let ib = b.device_id();
    a.link(&mut b, LinkMode::Notify);
    b.disconnect(None);
    assert_eq!(drain(&a), vec![]);
    a.disconnect(None);
    let mut c = Device::new();
    let mut d = Device::new();
    let ic = c.device_id();
    c.link(&mut d, LinkMode::Notify);
    c.disconnect(None);
    assert_eq!(drain(&d), vec![Message::Disconnected(ic, None)]);
    assert_ne!(ia, ib);
}

#[test]
fn monitor_plus_notify_is_peer() {
    let mut a = Device::new();
    let mut b = Device::new();
    let mut c = Device::new();
    let mut d = Device::new();
    a.link(&mut b, LinkMode::Monitor);
    a.link(&mut b, LinkMode::Notify);
    c.link(&mut d, LinkMode::Peer);
    let (ia, ib, ic, id) = (a.device_id(), b.device_id(), c.device_id(), d.device_id());
    a.end(None);
    c.end(None);
    assert_eq!(drain(&b), vec![Message::Disconnected(ia, None)]);
    assert_eq!(drain(&d), vec![Message::Disconnected(ic, None)]);
    b.end(Some(Fault::Error));
    d.end(Some(Fault::Error));
    // a and c had closed before, so nothing reaches them; but b and d tried.
    assert_eq!(drain(&a), vec![]);
    assert_eq!(drain(&c), vec![]);
    let mut e = Device::new();
    let mut f = Device::new();
    e.link(&mut f, LinkMode::Notify);
    e.link(&mut f, LinkMode::Monitor);
    let (ie, jf) = (e.device_id(), f.device_id());
    f.disconnect(None);
    assert_eq!(drain(&e), vec![Message::Disconnected(jf, None)]);
    assert_ne!(ie, jf);
    assert_ne!(ib, id);
}

#[test]
fn link_then_unlink_leaves_nobody_to_tell() {
    let mut a = Device::new();
    let mut b = Device::new();
    let mut c = Device::new();
    let ia = a.device_id();
    c.link(&mut a, LinkMode::Monitor);
    a.link(&mut b, LinkMode::Peer);
    a.unlink(&mut b, LinkMode::Peer);
    a.end(None);
    b.end(None);
    assert_eq!(drain(&a), vec![]);
    assert_eq!(drain(&b), vec![]);
    // The third party is still told.
    assert_eq!(drain(&c), vec![Message::Disconnected(ia, None)]);
}

#[test]
fn link_then_unlink_by_line_leaves_nobody_to_tell() {
    let mut a = Device::new();
    let b = Device::new();
    a.link_line(b.line(), LinkMode::Peer).unwrap();
    a.unlink_line(&b.line(), LinkMode::Peer);
    let line = a.line();
    b.disconnect(None);
    assert_eq!(drain(&a), vec![]);
    a.end(None);
    let message = Message::Shutdown(line.device_id());
    assert_eq!(line.send(message), Err(message));
}

#[test]
fn unlinking_what_is_not_linked_does_nothing() {
    let mut a = Device::new();
    let mut b = Device::new();
    let mut c = Device::new();
    let ia = a.device_id();
    a.link(&mut c, LinkMode::Notify);
    a.unlink(&mut b, LinkMode::Peer);
    a.unlink(&mut b, LinkMode::Peer);
    a.unlink_line(&b.line(), LinkMode::Peer);
    b.line().unlink_line(&a.line(), LinkMode::Peer);
    a.end(None);
    b.end(None);
    assert_eq!(drain(&b), vec![]);
    assert_eq!(drain(&c), vec![Message::Disconnected(ia, None)]);
}

#[test]
fn unlinking_by_line_after_the_other_side_is_gone_is_harmless() {
    let mut a = Device::new();
    let line = Device::new().line();
    a.unlink_line(&line, LinkMode::Peer);
    a.line().unlink_line(&line, LinkMode::Peer);
    line.unlink_line(&line, LinkMode::Peer);
    assert_eq!(drain(&a), vec![]);
}

#[test]
fn downgrading_a_peer_link_keeps_the_other_direction() {
    let mut a = Device::new();
    let mut b = Device::new();
    let ib = b.device_id();
    a.link(&mut b, LinkMode::Peer);
    a.unlink(&mut b, LinkMode::Notify);
    a.end(None);
    assert_eq!(drain(&b), vec![]);
    let mut c = Device::new();
    let mut d = Device::new();
    let id = d.device_id();
    c.link(&mut d, LinkMode::Peer);
    c.unlink(&mut d, LinkMode::Notify);
    d.end(None);
    assert_eq!(drain(&c), vec![Message::Disconnected(id, None)]);
    assert_ne!(ib, id);
}

#[test]
fn link_line_monitor_goes_through_the_other_sides_queue() {
    let mut a = Device::new();
    let b = Device::new();
    let ib = b.device_id();
    assert_eq!(a.link_line(b.line(), LinkMode::Monitor), Ok(()));
    b.disconnect(Some(Fault::Error));
    assert_eq!(drain(&a), vec![Message::Disconnected(ib, Some(Fault::Error))]);
}

#[test]
fn link_line_notify_needs_no_answer() {
    let mut a = Device::new();
    let ia = a.device_id();
    let b = Device::new();
    let gone = Device::new().line();
    assert_eq!(a.link_line(gone, LinkMode::Notify), Ok(()));
    assert_eq!(a.link_line(b.line(), LinkMode::Notify), Ok(()));
    a.disconnect(None);
    assert_eq!(drain(&b), vec![Message::Disconnected(ia, None)]);
}

#[test]
fn link_line_to_a_disconnected_device_is_link_down() {
    let mut a = Device::new();
    let gone = Device::new().line();
    assert_eq!(a.link_line(gone.clone(), LinkMode::Monitor), Err(LinkError::LinkDown));
    assert_eq!(a.link_line(gone, LinkMode::Peer), Err(LinkError::LinkDown));
}

#[test]
fn lines_link_their_devices() {
    let a = Device::new();
    let b = Device::new();
    let (ia, ib) = (a.device_id(), b.device_id());
    assert_eq!(a.line().link_line(b.line(), LinkMode::Peer), Ok(()));
    a.disconnect(None);
    assert_eq!(drain(&b), vec![Message::Disconnected(ia, None)]);
    let c = Device::new();
    assert_eq!(c.line().link_line(b.line(), LinkMode::Monitor), Ok(()));
    b.disconnect(Some(Fault::Error));
    assert_eq!(drain(&c), vec![Message::Disconnected(ib, Some(Fault::Error))]);
}

#[test]
fn lines_report_which_side_is_down() {
    let a = Device::new();
    let live = a.line();
    let gone = Device::new().line();
    assert_eq!(live.link_line(gone.clone(), LinkMode::Monitor), Err(LinkError::LinkDown));
    assert_eq!(live.link_line(gone.clone(), LinkMode::Peer), Err(LinkError::LinkDown));
    assert_eq!(gone.link_line(live.clone(), LinkMode::Notify), Err(LinkError::DeviceDown));
    assert_eq!(gone.link_line(live.clone(), LinkMode::Monitor), Ok(()));
    assert_eq!(gone.link_line(live.clone(), LinkMode::Peer), Err(LinkError::DeviceDown));
}

#[test]
fn lines_unlink_their_devices() {
    let a = Device::new();
    let b = Device::new();
    a.line().link_line(b.line(), LinkMode::Peer).unwrap();
    a.line().unlink_line(&b.line(), LinkMode::Peer);
    a.disconnect(None);
    assert_eq!(drain(&b), vec![]);
}

#[test]
fn an_edit_that_races_the_close_is_refused() {
    let mut a = Device::new();
    let b = Device::new();
    let line = a.line();
    a.end(None);
    assert_eq!(b.line().link_line(line.clone(), LinkMode::Monitor), Err(LinkError::LinkDown));
    assert_eq!(line.link_line(b.line(), LinkMode::Notify), Err(LinkError::DeviceDown));
}

#[test]
fn polling_hands_out_messages_then_waits() {
    let mut d = Device::new();
    let message = Message::Shutdown(d.device_id());
    d.line().send(message).unwrap();
    assert_eq!(d.poll_message(Waker::noop()), Polled::Ready(Some(message)));
    assert_eq!(d.poll_message(Waker::noop()), Polled::Pending);
    assert_eq!(d.poll_message(Waker::noop()), Polled::Pending);
}

#[test]
fn polling_a_disconnected_device_ends_the_stream() {
    let mut d = Device::new();
    d.end(None);
    assert_eq!(d.poll_message(Waker::noop()), Polled::Ready(None));
    assert_eq!(d.poll_message(Waker::noop()), Polled::Ready(None));
}

#[test]
fn solo_success_leaves_the_device_alone() {
    let mut d = Device::new();
    assert!(matches!(d.part_settle(completed(Ok(7))), Verdict::Done(7)));
    assert!(!d.is_done());
}

#[test]
fn solo_success_uses_the_device_up_in_an_orderly_way() {
    let mut d = Device::new();
    let mut watcher = Device::new();
    let id = d.device_id();
    watcher.link(&mut d, LinkMode::Monitor);
    assert!(matches!(d.settle(completed(Ok(7))), Verdict::Done(7)));
    assert!(d.is_done());
    drop(d);
    assert_eq!(drain(&watcher), vec![Message::Disconnected(id, None)]);
}

#[test]
fn an_error_of_the_computation_is_a_crash() {
    let mut d = Device::new();
    let mut watcher = Device::new();
    let id = d.device_id();
    watcher.link(&mut d, LinkMode::Monitor);
    assert!(matches!(d.part_settle(completed(Err("bad"))), Verdict::Failed(Crash::Error("bad"))));
    assert!(d.is_done());
    assert_eq!(drain(&watcher), vec![Message::Disconnected(id, Some(Fault::Error))]);
}

#[test]
fn the_fault_of_a_peer_cascades() {
    let mut d = Device::new();
    let mut watcher = Device::new();
    let peer = Device::new().device_id();
    let id = d.device_id();
    watcher.link(&mut d, LinkMode::Monitor);
    let verdict = d.settle(messaged(Message::Disconnected(peer, Some(Fault::Drop))));
    match verdict {
        Verdict::Failed(Crash::Cascade(did, fault)) => {
            assert_eq!(did, peer);
            assert_eq!(fault, Fault::Drop);
        }
        _ => panic!("not a cascade"),
    }
    assert_eq!(drain(&watcher), vec![Message::Disconnected(id, Some(Fault::Cascade(peer)))]);
}

#[test]
fn the_orderly_disconnect_of_a_peer_takes_it_off_the_roster() {
    let mut d = Device::new();
    let mut peer = Device::new();
    let id = d.device_id();
    d.link(&mut peer, LinkMode::Peer);
    let verdict = d.part_settle(messaged(Message::Disconnected(peer.device_id(), None)));
    assert!(matches!(verdict, Verdict::Again));
    assert!(!d.is_done());
    d.end(None);
    // The peer is alive and would have taken the message, had it been sent.
    assert_eq!(drain(&peer), vec![]);
    assert_ne!(id, peer.device_id());
}

#[test]
fn the_orderly_disconnect_of_a_peer_cancels_a_pending_subscription() {
    let mut d = Device::new();
    let mut peer = Device::new();
    // The peer subscribed through the edit queue; the roster does not list it yet.
    peer.link_line(d.line(), LinkMode::Monitor).unwrap();
    let verdict = d.part_settle(messaged(Message::Disconnected(peer.device_id(), None)));
    assert!(matches!(verdict, Verdict::Again));
    d.end(None);
    assert_eq!(drain(&peer), vec![]);
}

#[test]
fn a_shutdown_request_is_obeyed() {
    let mut d = Device::new();
    let mut watcher = Device::new();
    let origin = Device::new().device_id();
    let id = d.device_id();
    watcher.link(&mut d, LinkMode::Monitor);
    d.line().send(Message::Shutdown(origin)).unwrap();
    let round = Watched::race(d.receive(), None).unwrap();
    match d.settle::<u8, ()>(round) {
        Verdict::Failed(Crash::PowerOff(did)) => assert_eq!(did, origin),
        _ => panic!("not a power off"),
    }
    assert_eq!(drain(&watcher), vec![Message::Disconnected(id, None)]);
}

#[test]
fn a_panic_is_a_crash_and_an_error_to_the_peers() {
    let mut d = Device::new();
    let mut watcher = Device::new();
    let id = d.device_id();
    watcher.link(&mut d, LinkMode::Monitor);
    let finished: Result<Result<u8, ()>, _> = maybe_unwind(|| {
        if id == id {
            panic!("on purpose");
        }
        Ok(0)
    });
    let round = Watched::race(d.receive(), Some(finished)).unwrap();
    match d.settle(round) {
        Verdict::Failed(crash) => assert!(crash.is_panic()),
        _ => panic!("not a crash"),
    }
    assert_eq!(drain(&watcher), vec![Message::Disconnected(id, Some(Fault::Error))]);
}

#[test]
fn settling_after_the_end_tells_nobody_again() {
    let mut d = Device::new();
    let mut watcher = Device::new();
    let id = d.device_id();
    watcher.link(&mut d, LinkMode::Monitor);
    d.end(Some(Fault::Error));
    assert!(matches!(d.settle(completed(Err("late"))), Verdict::Failed(Crash::Error("late"))));
    assert!(matches!(d.settle(completed(Ok(1))), Verdict::Done(1)));
    assert_eq!(drain(&watcher), vec![Message::Disconnected(id, Some(Fault::Error))]);
}

#[test]
fn a_farewell_is_prepared_from_the_roster_and_the_pending_edits() {
    let mut a = Device::new();
    let mut b = Device::new();
    let c = Device::new();
    let d = Device::new();
    let ia = a.device_id();
    a.link(&mut b, LinkMode::Notify);
    let ops = vec![
        LineOp::Attach(c.line()),
        LineOp::Attach(d.line()),
        LineOp::Detach(b.device_id()),
        LineOp::Detach(DeviceID::new(0)),
    ];
    let broadcast = a.prepare_farewell(ops, Some(Fault::Error));
    assert_eq!(broadcast.message, Message::Disconnected(ia, Some(Fault::Error)));
    let told: Vec<DeviceID> = broadcast.lines.iter().map(|line| line.device_id()).collect();
    assert_eq!(told, vec![c.device_id(), d.device_id()]);
    assert!(a.is_done());
    assert_eq!(a.farewell(), Some(broadcast.message));
    broadcast.deliver();
    assert_eq!(drain(&b), vec![]);
    assert_eq!(drain(&c), vec![Message::Disconnected(ia, Some(Fault::Error))]);
    assert_eq!(drain(&d), vec![Message::Disconnected(ia, Some(Fault::Error))]);
}

#[test]
fn late_subscribers_are_not_lost() {
    let mut a = Device::new();
    let mut b = Device::new();
    let c = Device::new();
    let ia = a.device_id();
    b.link_line(a.line(), LinkMode::Monitor).unwrap();
    c.line().link_line(a.line(), LinkMode::Monitor).unwrap();
    c.line().unlink_line(&a.line(), LinkMode::Monitor);
    a.end(Some(Fault::Error));
    assert_eq!(drain(&b), vec![Message::Disconnected(ia, Some(Fault::Error))]);
    assert_eq!(drain(&c), vec![]);
}

#[test]
fn linking_asks_each_side_by_mode() {
    let a = Device::new();
    let b = Device::new();
    let (la, lb) = (a.line(), b.line());
    let (theirs, ours) = la.link_edits(&lb, LinkMode::Monitor);
    assert_eq!(theirs.map(|line| line.device_id()), Some(a.device_id()));
    assert!(ours.is_none());
    let (theirs, ours) = la.link_edits(&lb, LinkMode::Notify);
    assert!(theirs.is_none());
    assert_eq!(ours.map(|line| line.device_id()), Some(b.device_id()));
    let (theirs, ours) = la.link_edits(&lb, LinkMode::Peer);
    assert_eq!(theirs.map(|line| line.device_id()), Some(a.device_id()));
    assert_eq!(ours.map(|line| line.device_id()), Some(b.device_id()));
}

#[test]
fn unlinking_asks_each_side_by_mode() {
    let a = Device::new();
    let b = Device::new();
    let (ia, ib) = (a.device_id(), b.device_id());
    let (la, lb) = (a.line(), b.line());
    assert_eq!(la.unlink_edits(&lb, LinkMode::Monitor), (Some(ia), None));
    assert_eq!(la.unlink_edits(&lb, LinkMode::Notify), (None, Some(ib)));
    assert_eq!(la.unlink_edits(&lb, LinkMode::Peer), (Some(ia), Some(ib)));
    assert_eq!(plan_unlink(ia, ib, LinkMode::Peer), (Some(ia), Some(ib)));
    assert_eq!(plan_unlink(ib, ia, LinkMode::Monitor), (Some(ib), None));
}

#[test]
fn unlinking_a_device_from_itself_asks_nothing() {
    let a = Device::new();
    let ia = a.device_id();
    assert_eq!(a.line().unlink_edits(&a.line(), LinkMode::Monitor), (None, None));
    assert_eq!(a.line().unlink_edits(&a.line(), LinkMode::Notify), (None, None));
    assert_eq!(a.line().unlink_edits(&a.line(), LinkMode::Peer), (None, None));
    assert_eq!(plan_unlink(ia, ia, LinkMode::Peer), (None, None));
}

#[test]
fn lines_print_their_device_in_hex() {
    let a = Device::new();
    let number = a.device_id().into_inner();
    assert_eq!(a.line().to_string(), format!("Line<{:x}>", number));
    assert_eq!(a.device_id().to_string(), format!("DeviceID<{:x}>", number));
}
