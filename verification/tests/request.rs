use bytes::Bytes;
use nats_client::{Client, Command, ErrorKind, HeaderMap, Message, StatusCode};
use tokio::runtime::Runtime;
use tokio::sync::mpsc;

/// How a stub worker answers a publish that carries a reply subject.
enum Answer {
    /// Echo the request's payload and headers back on the reply subject.
    Echo,
    /// Reply with the reserved "no responders" status.
    NoResponders,
    /// Close the matching subscription's queue without delivering.
    CloseQueue,
}

/// A stub worker: it registers subscriptions, fulfills every flush with
/// success, and answers each publish that carries a reply subject as
/// `answer` says.
fn start_worker(rt: &Runtime, mut rx: mpsc::UnboundedReceiver<Command>, answer: Answer) {
    rt.spawn(async move {
        let mut subs: Vec<(String, mpsc::Sender<Message>)> = Vec::new();
        while let Some(cmd) = rx.recv().await {
            match cmd {
                Command::Subscribe {
                    subject, sender, ..
                } => {
                    subs.push((subject, sender));
                }
                Command::Publish {
                    payload,
                    respond: Some(reply),
                    headers,
                    ..
                } => {
                    let pos = subs.iter().position(|(s, _)| *s == reply);
                    if let Some(pos) = pos {
                        match answer {
                            Answer::Echo => {
                                let _ = subs[pos]
                                    .1
                                    .send(Message {
                                        subject: reply,
                                        payload,
                                        headers,
                                        status: None,
                                    })
                                    .await;
                            }
                            Answer::NoResponders => {
                                let _ = subs[pos]
                                    .1
                                    .send(Message {
                                        subject: reply,
                                        payload: Bytes::new(),
                                        headers: None,
                                        status: Some(StatusCode::no_responders()),
                                    })
                                    .await;
                            }
                            Answer::CloseQueue => {
                                subs.remove(pos);
                            }
                        }
                    }
                }
                Command::Flush { result } => {
                    let _ = result.send(Ok(()));
                }
                Command::Unsubscribe { .. } => {}
                Command::Publish { .. } => {}
            }
        }
    });
}

#[test]
fn request_returns_the_delivered_reply() {
    let rt = Runtime::new().unwrap();
    let (tx, rx) = mpsc::unbounded_channel();
    let client = Client::new(tx, 8);
    start_worker(&rt, rx, Answer::Echo);
    let reply = client
        .request("greet".to_string(), Bytes::from_static(b"ping"))
        .unwrap();
    assert_eq!(reply.payload, Bytes::from_static(b"ping"));
    assert!(reply.subject.starts_with("_INBOX."));
    assert!(reply.status.is_none());
}

#[test]
fn request_with_headers_carries_them_through() {
    let rt = Runtime::new().unwrap();
    let (tx, rx) = mpsc::unbounded_channel();
    let client = Client::new(tx, 8);
    start_worker(&rt, rx, Answer::Echo);
    let mut headers = HeaderMap::new();
    headers.insert("trace".to_string(), "abc".to_string());
    let reply = client
        .request_with_headers("greet".to_string(), headers, Bytes::from_static(b"ping"))
        .unwrap();
    let headers = reply.headers.unwrap();
    assert_eq!(
        headers.get(&"trace".to_string()).map(|v| v.as_str()),
        Some("abc")
    );
}

#[test]
fn request_classifies_no_responders() {
    let rt = Runtime::new().unwrap();
    let (tx, rx) = mpsc::unbounded_channel();
    let client = Client::new(tx, 8);
    start_worker(&rt, rx, Answer::NoResponders);
    let err = client
        .request("nobody".to_string(), Bytes::from_static(b"ping"))
        .unwrap_err();
    assert_eq!(err.kind(), ErrorKind::NoResponders);
}

#[test]
fn request_classifies_closed_queue_as_no_reply() {
    let rt = Runtime::new().unwrap();
    let (tx, rx) = mpsc::unbounded_channel();
    let client = Client::new(tx, 8);
    start_worker(&rt, rx, Answer::CloseQueue);
    let err = client
        .request("silent".to_string(), Bytes::from_static(b"ping"))
        .unwrap_err();
    assert_eq!(err.kind(), ErrorKind::NoReply);
}

#[test]
fn request_fails_fast_once_worker_is_gone() {
    let (tx, rx) = mpsc::unbounded_channel();
    let client = Client::new(tx, 8);
    drop(rx);
    let err = client
        .request("greet".to_string(), Bytes::from_static(b"ping"))
        .unwrap_err();
    assert_eq!(err.kind(), ErrorKind::ChannelClosed);
}
