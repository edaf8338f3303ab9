//! Bridge scenarios: FIFO delivery and the fatal empty-receive error.

use nvim_chaos::bridge::Bridge;
use nvim_chaos::bridge::BridgeError;
use nvim_chaos::chat::Command;
use nvim_chaos::chat::CommandPayload;

fn payload(text: &str) -> CommandPayload {
    CommandPayload {
        command: Command::Message("viewer".to_string(), text.to_string()),
    }
}

#[test]
fn bridge_delivers_payloads_in_send_order() {
    let mut bridge = Bridge::new();
    bridge.send(payload("first"));
    bridge.send(payload("second"));
    bridge.send(payload("third"));
    assert_eq!(bridge.recv(), Ok(payload("first")));
    assert_eq!(bridge.recv(), Ok(payload("second")));
    assert_eq!(bridge.recv(), Ok(payload("third")));
}

#[test]
fn bridge_interleaved_sends_keep_order() {
    let mut bridge = Bridge::new();
    bridge.send(payload("a"));
    bridge.send(payload("b"));
    assert_eq!(bridge.recv(), Ok(payload("a")));
    bridge.send(payload("c"));
    assert_eq!(bridge.recv(), Ok(payload("b")));
    assert_eq!(bridge.recv(), Ok(payload("c")));
    assert_eq!(bridge.len(), 0);
}

#[test]
fn bridge_empty_receive_is_the_fatal_error() {
    let mut bridge = Bridge::new();
    assert_eq!(bridge.recv(), Err(BridgeError::Disconnected));
    bridge.send(payload("late"));
    assert_eq!(bridge.recv(), Ok(payload("late")));
    assert_eq!(bridge.recv(), Err(BridgeError::Disconnected));
}
