use bytes::Bytes;
use nats_client::{Client, Command, ErrorKind};
use std::collections::HashSet;
use tokio::sync::mpsc;

fn new_client() -> (Client, mpsc::UnboundedReceiver<Command>) {
    let (tx, rx) = mpsc::unbounded_channel();
    (Client::new(tx, 8), rx)
}

#[test]
fn subscribe_sends_subscribe_command() {
    let (client, mut rx) = new_client();
    let sub = client.subscribe("greet".to_string()).unwrap();
    match rx.try_recv().unwrap() {
        Command::Subscribe {
            sid,
            subject,
            queue_group,
            ..
        } => {
            assert_eq!(sid, sub.sid());
            assert_eq!(subject, "greet");
            assert!(queue_group.is_none());
        }
        other => panic!("expected a subscribe command, got {:?}", other),
    }
}

#[test]
fn queue_subscribe_carries_group() {
    let (client, mut rx) = new_client();
    let sub = client
        .queue_subscribe("jobs".to_string(), "workers".to_string())
        .unwrap();
    match rx.try_recv().unwrap() {
        Command::Subscribe {
            sid,
            subject,
            queue_group,
            ..
        } => {
            assert_eq!(sid, sub.sid());
            assert_eq!(subject, "jobs");
            assert_eq!(queue_group.as_deref(), Some("workers"));
        }
        other => panic!("expected a subscribe command, got {:?}", other),
    }
}

#[test]
fn sids_distinct_sequential_across_clones() {
    let (client, _rx) = new_client();
    let clone_a = client.clone();
    let clone_b = client.clone();
    let mut seen: HashSet<u64> = HashSet::new();
    for _ in 0..20 {
        assert!(seen.insert(client.subscribe("a".to_string()).unwrap().sid()));
        assert!(seen.insert(clone_a.subscribe("b".to_string()).unwrap().sid()));
        assert!(seen.insert(clone_b.subscribe("c".to_string()).unwrap().sid()));
    }
    assert_eq!(seen.len(), 60);
}

#[test]
fn sids_distinct_concurrent_across_clones() {
    let rt = tokio::runtime::Runtime::new().unwrap();
    let (client, _rx) = new_client();
    let mut handles = Vec::new();
    for _ in 0..8 {
        let c = client.clone();
        handles.push(rt.spawn(async move {
            let mut ids: Vec<u64> = Vec::new();
            for _ in 0..25 {
                ids.push(c.subscribe("s".to_string()).unwrap().sid());
            }
            ids
        }));
    }
    let mut seen: HashSet<u64> = HashSet::new();
    rt.block_on(async {
        for h in handles {
            for sid in h.await.unwrap() {
                assert!(seen.insert(sid));
            }
        }
    });
    assert_eq!(seen.len(), 200);
}

#[test]
fn commands_arrive_in_send_order() {
    let (client, mut rx) = new_client();
    client
        .publish("one".to_string(), Bytes::from_static(b"1"))
        .unwrap();
    let _sub = client.subscribe("two".to_string()).unwrap();
    client
        .publish("three".to_string(), Bytes::from_static(b"3"))
        .unwrap();
    let _pending = client.flush_begin().unwrap();
    match rx.try_recv().unwrap() {
        Command::Publish { subject, .. } => assert_eq!(subject, "one"),
        other => panic!("expected a publish command, got {:?}", other),
    }
    match rx.try_recv().unwrap() {
        Command::Subscribe { subject, .. } => assert_eq!(subject, "two"),
        other => panic!("expected a subscribe command, got {:?}", other),
    }
    match rx.try_recv().unwrap() {
        Command::Publish { subject, .. } => assert_eq!(subject, "three"),
        other => panic!("expected a publish command, got {:?}", other),
    }
    assert!(matches!(rx.try_recv().unwrap(), Command::Flush { .. }));
}

#[test]
fn clones_feed_the_same_channel_in_send_order() {
    let (client, mut rx) = new_client();
    let clone = client.clone();
    client
        .publish("from-original".to_string(), Bytes::from_static(b"a"))
        .unwrap();
    clone
        .publish("from-clone".to_string(), Bytes::from_static(b"b"))
        .unwrap();
    match rx.try_recv().unwrap() {
        Command::Publish { subject, .. } => assert_eq!(subject, "from-original"),
        other => panic!("expected a publish command, got {:?}", other),
    }
    match rx.try_recv().unwrap() {
        Command::Publish { subject, .. } => assert_eq!(subject, "from-clone"),
        other => panic!("expected a publish command, got {:?}", other),
    }
}

#[test]
fn subscribe_fails_once_worker_is_gone() {
    let (client, rx) = new_client();
    drop(rx);
    let err = client.subscribe("greet".to_string()).unwrap_err();
    assert_eq!(err.kind(), ErrorKind::ChannelClosed);
}

#[test]
fn publish_queues_exact_command() {
    let (client, mut rx) = new_client();
    client
        .publish("events".to_string(), Bytes::from_static(b"hello"))
        .unwrap();
    match rx.try_recv().unwrap() {
        Command::Publish {
            subject,
            payload,
            respond,
            headers,
        } => {
            assert_eq!(subject, "events");
            assert_eq!(payload, Bytes::from_static(b"hello"));
            assert!(respond.is_none());
            assert!(headers.is_none());
        }
        other => panic!("expected a publish command, got {:?}", other),
    }
}

#[test]
fn publish_with_reply_and_headers_carries_everything() {
    let (client, mut rx) = new_client();
    let mut headers = nats_client::HeaderMap::new();
    headers.insert("trace".to_string(), "abc".to_string());
    client
        .publish_with_reply_and_headers(
            "events".to_string(),
            "answers".to_string(),
            headers,
            Bytes::from_static(b"hello"),
        )
        .unwrap();
    match rx.try_recv().unwrap() {
        Command::Publish {
            subject,
            payload,
            respond,
            headers,
        } => {
            assert_eq!(subject, "events");
            assert_eq!(payload, Bytes::from_static(b"hello"));
            assert_eq!(respond.as_deref(), Some("answers"));
            let headers = headers.unwrap();
            assert_eq!(headers.len(), 1);
            assert_eq!(
                headers.get(&"trace".to_string()).map(|v| v.as_str()),
                Some("abc")
            );
        }
        other => panic!("expected a publish command, got {:?}", other),
    }
}

#[test]
fn publish_fails_once_worker_is_gone() {
    let (client, rx) = new_client();
    drop(rx);
    let err = client
        .publish("events".to_string(), Bytes::from_static(b"hello"))
        .unwrap_err();
    assert_eq!(err.kind(), ErrorKind::ChannelClosed);
}
