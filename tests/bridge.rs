use iot_orchid::bridge::{BridgeAction, BridgeError, BridgeEvent, CallPhase, PendingCall};
use iot_orchid::json::JsonValue;

fn s(x: &str) -> String {
    x.to_string()
}

fn obj(fields: Vec<(&str, JsonValue)>) -> JsonValue {
    JsonValue::object(fields.into_iter().map(|(k, v)| (s(k), v)).collect())
}

fn ok_reply() -> JsonValue {
    obj(vec![("ok", JsonValue::Bool(true))])
}

/// A call taken up to the point where it waits for its reply.
fn waiting_call() -> (PendingCall, String) {
    let mut call = PendingCall::new(s("mqtt-gateway-wq"), obj(vec![("n", JsonValue::Int(1))]), 2);
    assert_eq!(call.first_action(), BridgeAction::OpenChannel);
    assert_eq!(call.step(BridgeEvent::ChannelOpened), BridgeAction::DeclareReplyQueue);
    assert_eq!(
        call.step(BridgeEvent::QueueDeclared(s("amq.gen-reply"))),
        BridgeAction::StartConsumer { queue: s("amq.gen-reply") }
    );
    let corr = call.correlation_id.clone();
    assert_eq!(
        call.step(BridgeEvent::ConsumerStarted(s("ctag-1"))),
        BridgeAction::Publish {
            routing_key: s("mqtt-gateway-wq"),
            correlation_id: corr.clone(),
            reply_to: s("amq.gen-reply"),
            body: obj(vec![("n", JsonValue::Int(1))]),
        }
    );
    assert_eq!(call.step(BridgeEvent::Published), BridgeAction::AwaitReply { timeout_secs: 2 });
    assert_eq!(call.phase, CallPhase::AwaitingReply);
    assert!(call.channel_open && call.consumer_active);
    (call, corr)
}

#[test]
fn correlated_call_resolves_with_reply() {
    let (mut call, corr) = waiting_call();
    let a = call.step(BridgeEvent::Delivery { correlation_id: Some(corr), body: Ok(ok_reply()) });
    assert_eq!(a, BridgeAction::Release { consumer_tag: Some(s("ctag-1")) });
    assert_eq!(call.step(BridgeEvent::Released), BridgeAction::Finish(Ok(ok_reply())));
    assert_eq!(call.phase, CallPhase::Done);
    assert!(!call.channel_open && !call.consumer_active);
}

#[test]
fn first_reply_wins_and_later_ones_are_ignored() {
    let (mut call, corr) = waiting_call();
    call.step(BridgeEvent::Delivery { correlation_id: Some(corr.clone()), body: Ok(ok_reply()) });
    let later = obj(vec![("ok", JsonValue::Bool(false))]);
    assert_eq!(
        call.step(BridgeEvent::Delivery { correlation_id: Some(corr.clone()), body: Ok(later) }),
        BridgeAction::Ignore
    );
    assert_eq!(call.step(BridgeEvent::Released), BridgeAction::Finish(Ok(ok_reply())));
    let third = obj(vec![("third", JsonValue::Null)]);
    assert_eq!(
        call.step(BridgeEvent::Delivery { correlation_id: Some(corr), body: Ok(third) }),
        BridgeAction::Ignore
    );
    assert_eq!(call.outcome, Some(Ok(ok_reply())));
}

#[test]
fn reply_without_correlation_id_is_not_taken() {
    let (mut call, corr) = waiting_call();
    assert_eq!(
        call.step(BridgeEvent::Delivery { correlation_id: None, body: Ok(JsonValue::Int(5)) }),
        BridgeAction::AwaitReply { timeout_secs: 2 }
    );
    assert_eq!(call.phase, CallPhase::AwaitingReply);
    assert!(call.outcome.is_none());
    call.step(BridgeEvent::Delivery { correlation_id: Some(corr), body: Ok(JsonValue::Int(6)) });
    assert_eq!(call.step(BridgeEvent::Released), BridgeAction::Finish(Ok(JsonValue::Int(6))));
}

#[test]
fn foreign_correlation_id_is_ignored() {
    let (mut call, corr) = waiting_call();
    assert_eq!(
        call.step(BridgeEvent::Delivery { correlation_id: Some(s("someone-else")), body: Ok(ok_reply()) }),
        BridgeAction::AwaitReply { timeout_secs: 2 }
    );
    assert_eq!(call.phase, CallPhase::AwaitingReply);
    call.step(BridgeEvent::Delivery { correlation_id: Some(corr), body: Ok(JsonValue::Int(2)) });
    assert_eq!(call.step(BridgeEvent::Released), BridgeAction::Finish(Ok(JsonValue::Int(2))));
}

#[test]
fn reply_before_publish_confirm_is_kept() {
    let mut call = PendingCall::new(s("q"), JsonValue::Null, 10);
    call.step(BridgeEvent::ChannelOpened);
    call.step(BridgeEvent::QueueDeclared(s("r")));
    call.step(BridgeEvent::ConsumerStarted(s("t")));
    let corr = call.correlation_id.clone();
    assert_eq!(
        call.step(BridgeEvent::Delivery { correlation_id: Some(corr), body: Ok(ok_reply()) }),
        BridgeAction::Release { consumer_tag: Some(s("t")) }
    );
    assert_eq!(call.step(BridgeEvent::Published), BridgeAction::Ignore);
    assert_eq!(call.step(BridgeEvent::Released), BridgeAction::Finish(Ok(ok_reply())));
}

#[test]
fn timeout_releases_consumer_and_channel() {
    let (mut call, _) = waiting_call();
    assert_eq!(
        call.step(BridgeEvent::DeadlineElapsed),
        BridgeAction::Release { consumer_tag: Some(s("ctag-1")) }
    );
    assert_eq!(call.step(BridgeEvent::Released), BridgeAction::Finish(Err(BridgeError::ResponseTimeout)));
    assert_eq!(call.phase, CallPhase::Done);
    assert!(!call.channel_open);
    assert!(!call.consumer_active);
}

#[test]
fn deadline_before_publish_is_ignored() {
    let mut call = PendingCall::new(s("q"), JsonValue::Null, 10);
    call.step(BridgeEvent::ChannelOpened);
    assert_eq!(call.step(BridgeEvent::DeadlineElapsed), BridgeAction::Ignore);
    assert_eq!(call.phase, CallPhase::DeclaringQueue);
}

#[test]
fn channel_failure_finishes_at_once() {
    let mut call = PendingCall::new(s("q"), JsonValue::Null, 10);
    assert_eq!(
        call.step(BridgeEvent::ChannelFailed(s("closed"))),
        BridgeAction::Finish(Err(BridgeError::ChannelError(s("closed"))))
    );
    assert_eq!(call.phase, CallPhase::Done);
    assert!(!call.channel_open);
}

#[test]
fn queue_declare_failure_releases_the_channel() {
    let mut call = PendingCall::new(s("q"), JsonValue::Null, 10);
    call.step(BridgeEvent::ChannelOpened);
    assert_eq!(
        call.step(BridgeEvent::QueueDeclareFailed(s("denied"))),
        BridgeAction::Release { consumer_tag: None }
    );
    assert_eq!(
        call.step(BridgeEvent::Released),
        BridgeAction::Finish(Err(BridgeError::QueueDeclareError(s("denied"))))
    );
}

#[test]
fn queue_not_declared_is_its_own_error() {
    let mut call = PendingCall::new(s("q"), JsonValue::Null, 10);
    call.step(BridgeEvent::ChannelOpened);
    call.step(BridgeEvent::QueueNotDeclared);
    assert_eq!(call.step(BridgeEvent::Released), BridgeAction::Finish(Err(BridgeError::FailedToDeclareQueue)));
}

#[test]
fn consumer_failure_releases_the_channel() {
    let mut call = PendingCall::new(s("q"), JsonValue::Null, 10);
    call.step(BridgeEvent::ChannelOpened);
    call.step(BridgeEvent::QueueDeclared(s("r")));
    assert_eq!(
        call.step(BridgeEvent::ConsumerFailed(s("busy"))),
        BridgeAction::Release { consumer_tag: None }
    );
    assert_eq!(
        call.step(BridgeEvent::Released),
        BridgeAction::Finish(Err(BridgeError::ConsumerDeclareError(s("busy"))))
    );
}

#[test]
fn publish_failure_cancels_the_consumer() {
    let mut call = PendingCall::new(s("q"), JsonValue::Null, 10);
    call.step(BridgeEvent::ChannelOpened);
    call.step(BridgeEvent::QueueDeclared(s("r")));
    call.step(BridgeEvent::ConsumerStarted(s("t")));
    assert_eq!(
        call.step(BridgeEvent::PublishFailed(s("nope"))),
        BridgeAction::Release { consumer_tag: Some(s("t")) }
    );
    assert_eq!(call.step(BridgeEvent::Released), BridgeAction::Finish(Err(BridgeError::PublishError(s("nope")))));
    assert!(!call.consumer_active && !call.channel_open);
}

#[test]
fn unreadable_reply_is_a_serde_error() {
    let (mut call, corr) = waiting_call();
    call.step(BridgeEvent::Delivery { correlation_id: Some(corr), body: Err(s("expected value")) });
    assert_eq!(
        call.step(BridgeEvent::Released),
        BridgeAction::Finish(Err(BridgeError::SerdeError(s("expected value"))))
    );
}

#[test]
fn correlation_ids_are_fresh_uuids() {
    let a = PendingCall::new(s("q"), JsonValue::Null, 1);
    let b = PendingCall::new(s("q"), JsonValue::Null, 1);
    assert_eq!(a.correlation_id.len(), 36);
    assert_eq!(a.correlation_id.matches('-').count(), 4);
    for (i, ch) in a.correlation_id.chars().enumerate() {
        if [8, 13, 18, 23].contains(&i) {
            assert_eq!(ch, '-');
        } else {
            assert!(ch.is_ascii_digit() || ('a'..='f').contains(&ch));
        }
    }
    assert_ne!(a.correlation_id, b.correlation_id);
    assert_eq!(a.phase, CallPhase::OpeningChannel);
    assert!(!a.channel_open && !a.consumer_active && a.outcome.is_none());
}

#[test]
fn bridge_error_messages() {
    assert_eq!(BridgeError::ResponseTimeout.message(), "AMQP broker failed to respond in time");
    assert_eq!(BridgeError::ChannelError(s("x")).message(), "Channel error: x");
    assert_eq!(BridgeError::QueueDeclareError(s("x")).message(), "Queue declare error: x");
    assert_eq!(BridgeError::FailedToDeclareQueue.message(), "Failed to declare queue");
    assert_eq!(BridgeError::ConsumerDeclareError(s("x")).message(), "Consumer declare error: x");
    assert_eq!(BridgeError::PublishError(s("x")).message(), "Publish error: x");
    assert_eq!(BridgeError::SerdeError(s("x")).message(), "Serde error: x");
    assert_eq!(BridgeError::ConnectionError(s("x")).message(), "Connection error: x");
    assert_eq!(BridgeError::PublishError(s("x")).duplicate(), BridgeError::PublishError(s("x")));
}
