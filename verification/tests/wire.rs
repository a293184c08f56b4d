use plz::daemon::{daemon, daemon_next, DaemonEvent, DaemonStep};
use plz::error::Error;
use plz::protocol::{receive, reply, send, LIMIT};
use serde_json::Value;
use std::io::{BufRead, BufReader, Read};

fn read(stream: &[u8]) -> Result<String, Error> {
    let mut line = String::new();
    BufReader::new(stream.take(LIMIT)).read_line(&mut line).unwrap();
    receive(line)
}

#[test]
fn sent_message_is_received() {
    let mut stream = send(b"{\"a\":1}".to_vec());
    assert_eq!(stream, b"{\"a\":1}\n");
    stream.extend_from_slice(b"rest");
    assert_eq!(read(&stream).unwrap(), "{\"a\":1}\n");
    let largest = vec![b'x'; LIMIT as usize - 1];
    assert_eq!(read(&send(largest)).unwrap().len(), LIMIT as usize);
    let text = "\"caf\u{e9} \u{10a} \u{1f600}\"";
    assert_eq!(read(&send(text.as_bytes().to_vec())).unwrap(), format!("{text}\n"));
}

#[test]
fn sent_value_is_received() {
    let text = r#"{"command":"printf 'a\\nb'","cwd":null,"uid":1000,"os":"caf\u00e9"}"#;
    let value: Value = serde_json::from_str(text).unwrap();
    let stream = send(serde_json::to_vec(&value).unwrap());
    assert_eq!(stream.iter().filter(|byte| **byte == b'\n').count(), 1);
    let received: Value = serde_json::from_str(&read(&stream).unwrap()).unwrap();
    assert_eq!(received, value);
    for sent in 0..stream.len() - 1 {
        let part = String::from_utf8_lossy(&stream[..sent]).into_owned();
        assert!(receive(part).is_err());
    }
}

#[test]
fn broken_and_oversized_messages_are_refused() {
    let refused = "incomplete or oversized daemon message";
    assert_eq!(read(b"").unwrap_err().message(), refused);
    assert_eq!(read(b"{\"a\":").unwrap_err().message(), refused);
    let oversized = vec![b'x'; LIMIT as usize];
    assert_eq!(read(&send(oversized)).unwrap_err().message(), refused);
    assert_eq!(read("é".as_bytes()).unwrap_err().message(), refused);
}

#[test]
fn failures_are_denials_with_the_error() {
    let told = reply(Err(Error::ChoiceUnknown), Some(false));
    assert_eq!(told.verdict, "deny");
    assert_eq!(told.error.as_deref(), Some("provider returned an unknown safety choice"));
    assert_eq!(told.cache_hit, Some(false));
    assert!(told.prompt_supported);
    let told = reply(Ok("confirm".to_string()), None);
    assert_eq!((told.verdict.as_str(), told.error), ("confirm", None));
}

fn failed() -> DaemonEvent {
    DaemonEvent::Failed(Error::Outside("x".to_string()))
}

#[test]
fn daemon_takes_its_steps_in_order() {
    let mut step = daemon();
    let mut names = Vec::new();
    for _ in 0..13 {
        names.push(format!("{step:?}"));
        step = daemon_next(step, DaemonEvent::Done);
    }
    assert_eq!(
        names,
        vec![
            "Detach", "Locate", "OpenLock", "Lock", "RemoveSocket", "Open", "Bind", "WritePid",
            "Accept", "Configure", "Answer", "Send", "Accept"
        ]
    );
}

#[test]
fn second_daemon_ends_quietly() {
    assert!(matches!(
        daemon_next(DaemonStep::Lock, DaemonEvent::Held),
        DaemonStep::Exit(Ok(()))
    ));
    assert!(matches!(daemon_next(DaemonStep::Lock, failed()), DaemonStep::Exit(Err(_))));
}

#[test]
fn stale_socket_may_be_missing() {
    assert!(matches!(
        daemon_next(DaemonStep::RemoveSocket, DaemonEvent::Missing),
        DaemonStep::Open
    ));
    assert!(matches!(daemon_next(DaemonStep::RemoveSocket, failed()), DaemonStep::Exit(Err(_))));
}

#[test]
fn closed_client_does_not_stop_the_daemon() {
    assert!(matches!(daemon_next(DaemonStep::Send, failed()), DaemonStep::Accept));
    assert!(matches!(daemon_next(DaemonStep::Accept, failed()), DaemonStep::Exit(Err(_))));
    assert!(matches!(daemon_next(DaemonStep::Configure, failed()), DaemonStep::Exit(Err(_))));
}
