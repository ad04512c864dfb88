use prismoid::errors::SendCommandError;
use prismoid::events::SendChatResult;
use prismoid::pending::{advance_request_id, Pending};
use prismoid::sender::SidecarCommandSender;
use tokio::sync::oneshot;

type Child = Vec<u8>;

fn write(child: &mut Child, line: &[u8]) -> Result<(), String> {
    child.extend_from_slice(line);
    Ok(())
}

fn result_for(request_id: u64) -> SendChatResult {
    SendChatResult {
        request_id,
        ok: true,
        message_id: "m".into(),
        drop_code: String::new(),
        drop_message: String::new(),
        error_message: String::new(),
    }
}

#[test]
fn send_without_child_returns_not_running() {
    let mut sender: SidecarCommandSender<Child> = SidecarCommandSender::default();
    let (tx, _rx) = oneshot::channel();
    let err = sender
        .send_with_pending(tx, |_id| Ok(b"x\n".to_vec()), write)
        .expect_err("must error");
    assert!(matches!(err, SendCommandError::SidecarNotRunning));
}

#[test]
fn complete_send_chat_no_pending_is_noop() {
    let mut sender: SidecarCommandSender<Child> = SidecarCommandSender::default();
    sender.complete_send_chat(result_for(1));
}

#[test]
fn clear_drops_pending_completers() {
    let mut sender: SidecarCommandSender<Child> = SidecarCommandSender::default();
    let (tx, mut rx) = oneshot::channel::<SendChatResult>();
    sender.pending.map.insert(7, tx);
    let _ = sender.clear();
    match rx.try_recv() {
        Err(oneshot::error::TryRecvError::Closed) => {}
        other => panic!("expected Closed, got {other:?}"),
    }
}

#[test]
fn complete_routes_to_pending_completer() {
    let mut sender: SidecarCommandSender<Child> = SidecarCommandSender::default();
    let (tx, mut rx) = oneshot::channel::<SendChatResult>();
    sender.pending.map.insert(42, tx);
    sender.complete_send_chat(result_for(42));
    let got = rx.try_recv().expect("should have received");
    assert_eq!(got.request_id, 42);
    assert!(got.ok);
}

#[test]
fn advance_request_id_increments() {
    assert_eq!(advance_request_id(1), 2);
    assert_eq!(advance_request_id(99), 100);
}

#[test]
fn advance_request_id_skips_zero_on_wrap() {
    assert_eq!(advance_request_id(u64::MAX), 1);
}

#[test]
fn pending_allocate_assigns_monotonic_ids_starting_at_one() {
    let mut p = Pending::new();
    let (tx1, _rx1) = oneshot::channel::<SendChatResult>();
    let (tx2, _rx2) = oneshot::channel::<SendChatResult>();
    assert_eq!(p.allocate(tx1), 1);
    assert_eq!(p.allocate(tx2), 2);
    assert_eq!(p.next_id, 3);
    assert_eq!(p.map.len(), 2);
}

#[test]
fn pending_allocate_skips_zero_after_wrap() {
    let mut p = Pending::new();
    p.next_id = u64::MAX;
    let (tx, _rx) = oneshot::channel::<SendChatResult>();
    assert_eq!(p.allocate(tx), u64::MAX);
    assert_eq!(p.next_id, 1);
}

#[test]
fn pending_cancel_removes_completer() {
    let mut p = Pending::new();
    let (tx, mut rx) = oneshot::channel::<SendChatResult>();
    let id = p.allocate(tx);
    p.cancel(id);
    assert!(p.map.is_empty());
    match rx.try_recv() {
        Err(oneshot::error::TryRecvError::Closed) => {}
        other => panic!("expected Closed, got {other:?}"),
    }
}

#[test]
fn pending_cancel_unknown_id_is_noop() {
    let mut p = Pending::new();
    p.cancel(999);
    assert!(p.map.is_empty());
}

#[test]
fn pending_complete_routes_to_registered_completer() {
    let mut p = Pending::new();
    let (tx, mut rx) = oneshot::channel::<SendChatResult>();
    let id = p.allocate(tx);
    p.complete(result_for(id));
    let got = rx.try_recv().expect("delivered");
    assert_eq!(got.request_id, id);
}

#[test]
fn pending_complete_unknown_is_noop() {
    let mut p = Pending::new();
    p.complete(SendChatResult {
        request_id: 7,
        ok: true,
        message_id: String::new(),
        drop_code: String::new(),
        drop_message: String::new(),
        error_message: String::new(),
    });
}

#[test]
fn pending_clear_drops_all_completers() {
    let mut p = Pending::new();
    let (tx_a, mut rx_a) = oneshot::channel::<SendChatResult>();
    let (tx_b, mut rx_b) = oneshot::channel::<SendChatResult>();
    p.allocate(tx_a);
    p.allocate(tx_b);
    p.clear();
    assert!(matches!(rx_a.try_recv(), Err(oneshot::error::TryRecvError::Closed)));
    assert!(matches!(rx_b.try_recv(), Err(oneshot::error::TryRecvError::Closed)));
}

#[test]
fn answers_do_not_cross() {
    let mut p = Pending::new();
    let (tx_a, mut rx_a) = oneshot::channel::<SendChatResult>();
    let (tx_b, mut rx_b) = oneshot::channel::<SendChatResult>();
    let a = p.allocate(tx_a);
    let b = p.allocate(tx_b);
    p.complete(result_for(b));
    assert_eq!(rx_b.try_recv().unwrap().request_id, b);
    assert!(matches!(rx_a.try_recv(), Err(oneshot::error::TryRecvError::Empty)));
    p.complete(result_for(b));
    p.complete(result_for(0));
    assert!(matches!(rx_a.try_recv(), Err(oneshot::error::TryRecvError::Empty)));
    p.complete(result_for(a));
    assert_eq!(rx_a.try_recv().unwrap().request_id, a);
    assert!(p.map.is_empty());
}

#[test]
fn an_answer_nobody_waits_for_is_dropped() {
    let mut p = Pending::new();
    let (tx, rx) = oneshot::channel::<SendChatResult>();
    let id = p.allocate(tx);
    drop(rx);
    p.complete(result_for(id));
    assert!(p.map.is_empty());
}

#[test]
fn a_line_that_cannot_be_built_takes_the_request_back() {
    let mut sender: SidecarCommandSender<Child> = SidecarCommandSender::default();
    sender.publish(Vec::new());
    let (tx, mut rx) = oneshot::channel();
    let bad = || serde_json::from_slice::<u64>(b"x").unwrap_err();
    match sender.send_with_pending(tx, |_id| Err(bad()), write).unwrap_err() {
        SendCommandError::Json { message } => assert_eq!(message, bad().to_string()),
        other => panic!("expected Json, got {other:?}"),
    }
    assert!(sender.pending.map.is_empty());
    assert!(matches!(rx.try_recv(), Err(oneshot::error::TryRecvError::Closed)));
    assert!(sender.child.as_ref().unwrap().is_empty());
}

#[test]
fn the_line_is_built_for_the_id_that_was_registered() {
    let mut sender: SidecarCommandSender<Child> = SidecarCommandSender::default();
    sender.publish(Vec::new());
    for id in 1..=3u64 {
        let (tx, _rx) = oneshot::channel();
        sender
            .send_with_pending(tx, |id| Ok(format!("{id}\n").into_bytes()), write)
            .unwrap();
        assert!(sender.pending.map.contains_key(&id));
    }
    assert_eq!(sender.clear(), Some(b"1\n2\n3\n".to_vec()));
    assert!(sender.child.is_none());
    assert!(sender.pending.map.is_empty());
}

#[test]
fn write_raw_returns_false_without_child() {
    let mut sender: SidecarCommandSender<Child> = SidecarCommandSender::default();
    assert!(!sender.write_raw(b"anything\n", write));
}

#[test]
fn write_raw_tells_whether_the_write_worked() {
    let mut sender: SidecarCommandSender<Child> = SidecarCommandSender::default();
    sender.publish(Vec::new());
    assert!(sender.write_raw(b"a\n", write));
    assert!(!sender.write_raw(b"b\n", |_: &mut Child, _: &[u8]| Err::<(), u8>(0)));
    assert_eq!(sender.clear(), Some(b"a\n".to_vec()));
}
