use redis_to_websocket::subscriber::{
    RedisSubscriber, RedisSubscriberWorker, SubscriberAction, SubscriberEvent,
};

#[test]
fn subscriber_keeps_the_bus_address() {
    let sub = RedisSubscriber::new("redis://127.0.0.1/");
    assert_eq!(sub.redis_url(), "redis://127.0.0.1/");
}

#[test]
fn worker_subscribes_every_topic_in_order_then_relays() {
    let topics = vec!["tag:a".to_string(), "tag:b".to_string()];
    let mut w = RedisSubscriberWorker::new(topics);
    assert_eq!(w.topic_total(), 2);
    assert_eq!(w.topic(0).as_str(), "tag:a");
    assert_eq!(w.topic(1).as_str(), "tag:b");
    assert_eq!(w.start(), SubscriberAction::Subscribe(0));
    assert_eq!(w.step(SubscriberEvent::Subscribed), SubscriberAction::Subscribe(1));
    assert_eq!(w.step(SubscriberEvent::Subscribed), SubscriberAction::AwaitMessage);
}

#[test]
fn worker_with_no_topics_relays_at_once() {
    let mut w = RedisSubscriberWorker::new(Vec::new());
    assert_eq!(w.start(), SubscriberAction::AwaitMessage);
}

#[test]
fn subscribe_failure_abandons_the_run() {
    // Fail fast: the first failed subscribe call ends the task.
    let mut w = RedisSubscriberWorker::new(vec!["tag:a".to_string(), "tag:b".to_string()]);
    assert_eq!(w.start(), SubscriberAction::Subscribe(0));
    assert_eq!(w.step(SubscriberEvent::SubscribeFailed), SubscriberAction::Exit);
}

#[test]
fn relaying_forwards_messages_and_swallows_errors() {
    let mut w = RedisSubscriberWorker::new(vec!["tag:a".to_string()]);
    assert_eq!(w.start(), SubscriberAction::Subscribe(0));
    assert_eq!(w.step(SubscriberEvent::Subscribed), SubscriberAction::AwaitMessage);
    // A message comes in and is forwarded.
    assert_eq!(w.step(SubscriberEvent::Received), SubscriberAction::Forward);
    assert_eq!(w.step(SubscriberEvent::Forwarded), SubscriberAction::AwaitMessage);
    // A receive error is logged and the loop continues.
    assert_eq!(w.step(SubscriberEvent::ReceiveFailed), SubscriberAction::AwaitMessage);
    // A refused forward drops the message and the loop continues.
    assert_eq!(w.step(SubscriberEvent::Received), SubscriberAction::Forward);
    assert_eq!(w.step(SubscriberEvent::ForwardFailed), SubscriberAction::AwaitMessage);
}
