use polling_application_backend::broadcaster::Broadcaster;
use polling_application_backend::hub::QUEUE_CAPACITY;
use polling_application_backend::frame::{frame, FrameKind};
use tokio::sync::mpsc::error::TryRecvError;

const GREETING: &[u8] = b"event: connected\ndata: connected\n\n";
const PING: &[u8] = b"event: ping\ndata: ping\n\n";

fn generic(body: &str) -> Vec<u8> {
    format!("event: generic\ndata: {}\n\n", body).into_bytes()
}

#[test]
fn frames_have_a_tag_a_body_and_a_blank_line() {
    assert_eq!(frame(FrameKind::Connected, "connected"), "event: connected\ndata: connected\n\n");
    assert_eq!(frame(FrameKind::Ping, "ping"), "event: ping\ndata: ping\n\n");
    assert_eq!(frame(FrameKind::PollUpdated, "{}"), "event: poll_updated\ndata: {}\n\n");
    assert_eq!(frame(FrameKind::PollResults, "[1]"), "event: poll_results\ndata: [1]\n\n");
    assert_eq!(frame(FrameKind::Generic, ""), "event: generic\ndata: \n\n");
    assert_eq!(FrameKind::PollUpdated.name(), "poll_updated");
    assert!(frame(FrameKind::Generic, "hello").ends_with("\n\n"));
}

#[test]
fn a_new_hub_has_no_subscriber() {
    let mut hub = Broadcaster::new();
    assert_eq!(hub.subscriber_count(), 0);
    hub.send("nobody listens");
    hub.remove_stale_clients();
    assert_eq!(hub.subscriber_count(), 0);
}

#[test]
fn a_subscriber_is_greeted_first() {
    let mut hub = Broadcaster::new();
    let client = hub.new_client();
    assert_eq!(hub.subscriber_count(), 1);
    let mut queue = client.into_receiver();
    assert_eq!(&queue.try_recv().unwrap()[..], GREETING);
    assert_eq!(queue.try_recv(), Err(TryRecvError::Empty));
}

#[test]
fn frames_arrive_in_the_order_of_the_publish_calls() {
    let mut hub = Broadcaster::new();
    let mut first = hub.new_client().into_receiver();
    hub.send("one");
    let mut second = hub.new_client().into_receiver();
    hub.send("two");
    hub.send_updated_poll("{\"pollId\":\"p\"}");
    hub.send("three");

    assert_eq!(&first.try_recv().unwrap()[..], GREETING);
    assert_eq!(first.try_recv().unwrap().to_vec(), generic("one"));
    assert_eq!(first.try_recv().unwrap().to_vec(), generic("two"));
    assert_eq!(
        &first.try_recv().unwrap()[..],
        b"event: poll_updated\ndata: {\"pollId\":\"p\"}\n\n"
    );
    assert_eq!(first.try_recv().unwrap().to_vec(), generic("three"));
    assert_eq!(first.try_recv(), Err(TryRecvError::Empty));

    // The second subscriber sees what was published while it was registered.
    assert_eq!(&second.try_recv().unwrap()[..], GREETING);
    assert_eq!(second.try_recv().unwrap().to_vec(), generic("two"));
    assert_eq!(
        &second.try_recv().unwrap()[..],
        b"event: poll_updated\ndata: {\"pollId\":\"p\"}\n\n"
    );
    assert_eq!(second.try_recv().unwrap().to_vec(), generic("three"));
    assert_eq!(second.try_recv(), Err(TryRecvError::Empty));
}

#[test]
fn poll_results_are_published_as_json_text() {
    let mut hub = Broadcaster::new();
    let mut queue = hub.new_client().into_receiver();
    let mut object = serde_json::Map::new();
    object.insert("totalVotes".to_string(), serde_json::Value::from(100u64));
    hub.send_poll_results(&serde_json::Value::Object(object));
    assert_eq!(&queue.try_recv().unwrap()[..], GREETING);
    assert_eq!(
        &queue.try_recv().unwrap()[..],
        b"event: poll_results\ndata: {\"totalVotes\":100}\n\n"
    );
}

#[test]
fn a_full_queue_drops_frames_for_its_subscriber_only() {
    let mut hub = Broadcaster::new();
    let mut slow = hub.new_client().into_receiver();
    let mut quick = hub.new_client().into_receiver();
    assert_eq!(&quick.try_recv().unwrap()[..], GREETING);

    // The slow subscriber never drains: its queue holds the greeting and
    // the first frames, up to its capacity.
    let total = QUEUE_CAPACITY + 20;
    for i in 0..total {
        hub.send(&i.to_string());
        assert_eq!(quick.try_recv().unwrap().to_vec(), generic(&i.to_string()));
        assert_eq!(quick.try_recv(), Err(TryRecvError::Empty));
    }
    assert_eq!(hub.subscriber_count(), 2);

    assert_eq!(&slow.try_recv().unwrap()[..], GREETING);
    for i in 0..(QUEUE_CAPACITY - 1) {
        assert_eq!(slow.try_recv().unwrap().to_vec(), generic(&i.to_string()));
    }
    assert_eq!(slow.try_recv(), Err(TryRecvError::Empty));

    // Once it has drained, it receives the next frame again.
    hub.send("fresh");
    assert_eq!(slow.try_recv().unwrap().to_vec(), generic("fresh"));
    assert_eq!(quick.try_recv().unwrap().to_vec(), generic("fresh"));
}

#[test]
fn publishing_to_a_dead_subscriber_is_no_error() {
    let mut hub = Broadcaster::new();
    let dead = hub.new_client();
    let mut alive = hub.new_client().into_receiver();
    drop(dead);
    hub.send("still here");
    // Eviction is deferred: a publish does not remove the dead subscriber.
    assert_eq!(hub.subscriber_count(), 2);
    assert_eq!(&alive.try_recv().unwrap()[..], GREETING);
    assert_eq!(alive.try_recv().unwrap().to_vec(), generic("still here"));
}

#[test]
fn stale_subscribers_are_reclaimed() {
    let mut hub = Broadcaster::new();
    let mut first = hub.new_client().into_receiver();
    let dead = hub.new_client();
    let mut last = hub.new_client().into_receiver();
    drop(dead);
    assert_eq!(hub.subscriber_count(), 3);

    hub.remove_stale_clients();
    assert_eq!(hub.subscriber_count(), 2);
    assert_eq!(&first.try_recv().unwrap()[..], GREETING);
    assert_eq!(&first.try_recv().unwrap()[..], PING);
    assert_eq!(&last.try_recv().unwrap()[..], GREETING);
    assert_eq!(&last.try_recv().unwrap()[..], PING);

    // Those that stay still receive, each in its order.
    hub.send("after");
    assert_eq!(first.try_recv().unwrap().to_vec(), generic("after"));
    assert_eq!(last.try_recv().unwrap().to_vec(), generic("after"));

    drop(first);
    drop(last);
    hub.remove_stale_clients();
    assert_eq!(hub.subscriber_count(), 0);
}

#[test]
fn a_saturated_subscriber_is_reclaimed_too() {
    let mut hub = Broadcaster::new();
    let _slow = hub.new_client();
    let mut quick = hub.new_client().into_receiver();
    for i in 0..QUEUE_CAPACITY {
        hub.send(&i.to_string());
        while quick.try_recv().is_ok() {}
    }
    hub.remove_stale_clients();
    assert_eq!(hub.subscriber_count(), 1);
    assert_eq!(&quick.try_recv().unwrap()[..], PING);
}

#[test]
fn the_stream_ends_when_the_hub_is_dropped() {
    let mut hub = Broadcaster::new();
    let mut queue = hub.new_client().into_receiver();
    hub.send("last words");
    drop(hub);
    assert_eq!(&queue.try_recv().unwrap()[..], GREETING);
    assert_eq!(queue.try_recv().unwrap().to_vec(), generic("last words"));
    assert_eq!(queue.try_recv(), Err(TryRecvError::Disconnected));
}

#[test]
fn a_shutdown_ends_every_stream() {
    let mut hub = Broadcaster::new();
    let mut first = hub.new_client().into_receiver();
    let mut second = hub.new_client().into_receiver();
    hub.send("bye");
    hub.shutdown();
    assert_eq!(hub.subscriber_count(), 0);
    for queue in [&mut first, &mut second] {
        assert_eq!(&queue.try_recv().unwrap()[..], GREETING);
        assert_eq!(queue.try_recv().unwrap().to_vec(), generic("bye"));
        assert_eq!(queue.try_recv(), Err(TryRecvError::Disconnected));
    }
    // The hub can be used again.
    let mut third = hub.new_client().into_receiver();
    hub.send("again");
    assert_eq!(&third.try_recv().unwrap()[..], GREETING);
    assert_eq!(third.try_recv().unwrap().to_vec(), generic("again"));
}

#[test]
fn a_queue_holds_as_many_frames_as_its_capacity() {
    assert_eq!(QUEUE_CAPACITY, 100);
    let mut hub = Broadcaster::new();
    let mut queue = hub.new_client().into_receiver();
    assert_eq!(queue.max_capacity(), QUEUE_CAPACITY);
    for i in 0..(2 * QUEUE_CAPACITY) {
        hub.send(&i.to_string());
    }
    let mut held = 0;
    while queue.try_recv().is_ok() {
        held += 1;
    }
    assert_eq!(held, QUEUE_CAPACITY);
}

#[test]
fn a_poll_is_announced_before_its_results() {
    let mut hub = Broadcaster::new();
    let mut first = hub.new_client().into_receiver();
    let mut second = hub.new_client().into_receiver();
    let mut results = serde_json::Map::new();
    results.insert("totalVotes".to_string(), serde_json::Value::from(8u64));
    hub.announce("{\"pollId\":\"p\"}", &serde_json::Value::Object(results));
    for queue in [&mut first, &mut second] {
        assert_eq!(&queue.try_recv().unwrap()[..], GREETING);
        assert_eq!(
            &queue.try_recv().unwrap()[..],
            b"event: poll_updated\ndata: {\"pollId\":\"p\"}\n\n"
        );
        assert_eq!(
            &queue.try_recv().unwrap()[..],
            b"event: poll_results\ndata: {\"totalVotes\":8}\n\n"
        );
        assert_eq!(queue.try_recv(), Err(TryRecvError::Empty));
    }
}
