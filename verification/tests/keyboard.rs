use std::sync::mpsc;
use whipclaude::keyboard::MacroQueue;

#[test]
fn send_queues_phrases_in_order() {
    let (tx, rx) = mpsc::channel();
    let mut queue = MacroQueue::with_sender(tx);
    queue.send("FASTER".to_string());
    queue.send("SHIP IT".to_string());
    assert_eq!(rx.try_recv().unwrap(), "FASTER");
    assert_eq!(rx.try_recv().unwrap(), "SHIP IT");
    assert!(rx.try_recv().is_err());
}

#[test]
fn send_with_typist_gone_does_not_panic() {
    let (tx, rx) = mpsc::channel::<String>();
    drop(rx);
    let mut queue = MacroQueue::with_sender(tx);
    queue.send("FASTER".to_string());
}
