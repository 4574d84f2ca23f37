//! The correlated call: one request published to a work queue and one reply
//! awaited on a private, auto-deleting reply queue, with a deadline.
//!
//! The broker work itself (opening a channel, declaring, consuming,
//! publishing, waiting) is done by whoever drives a [`PendingCall`]: it
//! performs the [`BridgeAction`] that each step returns and reports what
//! happened as the next [`BridgeEvent`]. Every decision is made here.
use vstd::prelude::*;
use crate::json::{copy_string, JsonValue};

verus! {

/// Why a correlated call failed.
#[derive(Debug, PartialEq)]
pub enum BridgeError {
    ConnectionError(String),
    ChannelError(String),
    QueueDeclareError(String),
    FailedToDeclareQueue,
    ConsumerDeclareError(String),
    PublishError(String),
    SerdeError(String),
    ResponseTimeout,
}

/// Where a correlated call stands.
#[derive(Debug, Clone, Copy, PartialEq, Eq, Structural)]
pub enum CallPhase {
    OpeningChannel,
    DeclaringQueue,
    StartingConsumer,
    Publishing,
    AwaitingReply,
    Releasing,
    Done,
}

/// What the broker side reports back to a call.
#[derive(Debug, PartialEq)]
pub enum BridgeEvent {
    ChannelOpened,
    ChannelFailed(String),
    QueueDeclared(String),
    QueueDeclareFailed(String),
    QueueNotDeclared,
    ConsumerStarted(String),
    ConsumerFailed(String),
    Published,
    PublishFailed(String),
    /// A message on the reply queue: its correlation id, and its body read as
    /// JSON (or why it could not be read).
    Delivery { correlation_id: Option<String>, body: Result<JsonValue, String> },
    DeadlineElapsed,
    Released,
}

/// What the broker side must do next for a call.
#[derive(Debug, PartialEq)]
pub enum BridgeAction {
    /// Open a channel of its own for this call.
    OpenChannel,
    /// Declare an exclusive, auto-deleting reply queue with a broker-chosen name.
    DeclareReplyQueue,
    /// Start consuming from the reply queue.
    StartConsumer { queue: String },
    /// Publish `body` to `routing_key` with these message properties.
    Publish { routing_key: String, correlation_id: String, reply_to: String, body: JsonValue },
    /// Wait for a delivery until the call's deadline, `timeout_secs` seconds
    /// after the request was published; asked again after a delivery that was
    /// not the call's, with the same deadline.
    AwaitReply { timeout_secs: u64 },
    /// Cancel the consumer, if one was started, and close the channel.
    Release { consumer_tag: Option<String> },
    /// The call is over, with this result.
    Finish(Result<JsonValue, BridgeError>),
    /// The event changes nothing.
    Ignore,
}

/// One correlated call in flight.
#[derive(Debug, PartialEq)]
pub struct PendingCall {
    pub phase: CallPhase,
    pub correlation_id: String,
    pub routing_key: String,
    pub payload: JsonValue,
    pub timeout_secs: u64,
    pub reply_queue: Option<String>,
    pub consumer_tag: Option<String>,
    pub channel_open: bool,
    pub consumer_active: bool,
    pub outcome: Option<Result<JsonValue, BridgeError>>,
}

/// How many broker resources (channel, consumer) the call holds.
pub open spec fn held(c: PendingCall) -> int {
    (if c.channel_open { 1int } else { 0int }) + (if c.consumer_active { 1int } else { 0int })
}

/// A delivery belongs to the call when it carries the call's correlation id.
pub open spec fn belongs(c: PendingCall, correlation_id: Option<String>) -> bool {
    match correlation_id {
        None => false,
        Some(id) => id@ == c.correlation_id@,
    }
}

/// The states a call can be in.
pub open spec fn wf(c: PendingCall) -> bool {
    &&& c.consumer_active ==> c.consumer_tag.is_some()
    &&& match c.phase {
        CallPhase::OpeningChannel => !c.channel_open && !c.consumer_active && c.outcome.is_none(),
        CallPhase::DeclaringQueue => c.channel_open && !c.consumer_active && c.outcome.is_none(),
        CallPhase::StartingConsumer => c.channel_open && !c.consumer_active && c.outcome.is_none()
            && c.reply_queue.is_some(),
        CallPhase::Publishing | CallPhase::AwaitingReply => c.channel_open && c.consumer_active
            && c.outcome.is_none() && c.reply_queue.is_some(),
        CallPhase::Releasing => c.channel_open && c.outcome.is_some(),
        CallPhase::Done => !c.channel_open && !c.consumer_active && c.outcome.is_some(),
    }
}

/// The call, failed with `e`, about to give back its channel and consumer.
pub open spec fn fail_spec(c: PendingCall, e: BridgeError) -> (PendingCall, BridgeAction) {
    (
        PendingCall { phase: CallPhase::Releasing, outcome: Some(Err(e)), ..c },
        BridgeAction::Release { consumer_tag: if c.consumer_active { c.consumer_tag } else { None } },
    )
}

/// The transition taken by a call on an event, and the action it asks for.
pub open spec fn next(c: PendingCall, e: BridgeEvent) -> (PendingCall, BridgeAction) {
    match (c.phase, e) {
        (CallPhase::OpeningChannel, BridgeEvent::ChannelOpened) => (
            PendingCall { phase: CallPhase::DeclaringQueue, channel_open: true, ..c },
            BridgeAction::DeclareReplyQueue,
        ),
        (CallPhase::OpeningChannel, BridgeEvent::ChannelFailed(m)) => {
            let err = BridgeError::ChannelError(m);
            (
                PendingCall { phase: CallPhase::Done, outcome: Some(Err(err)), ..c },
                BridgeAction::Finish(Err(err)),
            )
        },
        (CallPhase::DeclaringQueue, BridgeEvent::QueueDeclared(q)) => (
            PendingCall { phase: CallPhase::StartingConsumer, reply_queue: Some(q), ..c },
            BridgeAction::StartConsumer { queue: q },
        ),
        (CallPhase::DeclaringQueue, BridgeEvent::QueueDeclareFailed(m)) => fail_spec(
            c,
            BridgeError::QueueDeclareError(m),
        ),
        (CallPhase::DeclaringQueue, BridgeEvent::QueueNotDeclared) => fail_spec(
            c,
            BridgeError::FailedToDeclareQueue,
        ),
        (CallPhase::StartingConsumer, BridgeEvent::ConsumerStarted(t)) => (
            PendingCall {
                phase: CallPhase::Publishing,
                consumer_tag: Some(t),
                consumer_active: true,
                ..c
            },
            BridgeAction::Publish {
                routing_key: c.routing_key,
                correlation_id: c.correlation_id,
                reply_to: c.reply_queue.unwrap(),
                body: c.payload,
            },
        ),
        (CallPhase::StartingConsumer, BridgeEvent::ConsumerFailed(m)) => fail_spec(
            c,
            BridgeError::ConsumerDeclareError(m),
        ),
        (CallPhase::Publishing, BridgeEvent::Published) => (
            PendingCall { phase: CallPhase::AwaitingReply, ..c },
            BridgeAction::AwaitReply { timeout_secs: c.timeout_secs },
        ),
        (CallPhase::Publishing, BridgeEvent::PublishFailed(m)) => fail_spec(
            c,
            BridgeError::PublishError(m),
        ),
        (CallPhase::Publishing, BridgeEvent::Delivery { correlation_id, body })
        | (CallPhase::AwaitingReply, BridgeEvent::Delivery { correlation_id, body }) => {
            if belongs(c, correlation_id) {
                match body {
                    Ok(v) => (
                        PendingCall { phase: CallPhase::Releasing, outcome: Some(Ok(v)), ..c },
                        BridgeAction::Release { consumer_tag: c.consumer_tag },
                    ),
                    Err(m) => fail_spec(c, BridgeError::SerdeError(m)),
                }
            } else if c.phase == CallPhase::AwaitingReply {
                (c, BridgeAction::AwaitReply { timeout_secs: c.timeout_secs })
            } else {
                (c, BridgeAction::Ignore)
            }
        },
        (CallPhase::AwaitingReply, BridgeEvent::DeadlineElapsed) => fail_spec(
            c,
            BridgeError::ResponseTimeout,
        ),
        (CallPhase::Releasing, BridgeEvent::Released) => (
            PendingCall {
                phase: CallPhase::Done,
                channel_open: false,
                consumer_active: false,
                ..c
            },
            BridgeAction::Finish(c.outcome.unwrap()),
        ),
        _ => (c, BridgeAction::Ignore),
    }
}


/// The call after each of `evs` in turn.
pub open spec fn run(c: PendingCall, evs: Seq<BridgeEvent>) -> PendingCall
    decreases evs.len(),
{
    if evs.len() == 0 {
        c
    } else {
        run(next(c, evs[0]).0, evs.drop_first())
    }
}

/// Every transition keeps a call well formed.
pub proof fn lemma_next_wf(c: PendingCall, e: BridgeEvent)
    requires
        wf(c),
    ensures
        wf(next(c, e).0),
{
}

/// A call that is well formed stays so over any run of events.
pub proof fn lemma_run_wf(c: PendingCall, evs: Seq<BridgeEvent>)
    requires
        wf(c),
    ensures
        wf(run(c, evs)),
    decreases evs.len(),
{
    if evs.len() > 0 {
        lemma_next_wf(c, evs[0]);
        lemma_run_wf(next(c, evs[0]).0, evs.drop_first());
    }
}

/// Later messages are never observed: two waiting calls whose first
/// delivery is the same reply of theirs end with the same outcome, that
/// reply, whatever each is delivered afterwards.
pub proof fn lemma_later_messages_unobserved(
    c: PendingCall,
    correlation_id: Option<String>,
    v: JsonValue,
    rest1: Seq<BridgeEvent>,
    rest2: Seq<BridgeEvent>,
)
    requires
        wf(c),
        c.phase == CallPhase::Publishing || c.phase == CallPhase::AwaitingReply,
        belongs(c, correlation_id),
    ensures
        run(c, seq![BridgeEvent::Delivery { correlation_id, body: Ok(v) }].add(rest1)).outcome
            == run(c, seq![BridgeEvent::Delivery { correlation_id, body: Ok(v) }].add(rest2)).outcome,
{
    lemma_first_reply_wins(c, correlation_id, v, rest1);
    lemma_first_reply_wins(c, correlation_id, v, rest2);
}

/// Once a call has an outcome, no event changes it.
pub proof fn lemma_outcome_settled(c: PendingCall, evs: Seq<BridgeEvent>)
    requires
        wf(c),
        c.outcome.is_some(),
    ensures
        run(c, evs).outcome == c.outcome,
    decreases evs.len(),
{
    if evs.len() > 0 {
        lemma_next_wf(c, evs[0]);
        lemma_outcome_settled(next(c, evs[0]).0, evs.drop_first());
    }
}

/// At most one reply: a call that is waiting resolves with the first delivery
/// that belongs to it, and whatever is delivered after that cannot change its
/// outcome.
pub proof fn lemma_first_reply_wins(
    c: PendingCall,
    correlation_id: Option<String>,
    v: JsonValue,
    rest: Seq<BridgeEvent>,
)
    requires
        wf(c),
        c.phase == CallPhase::Publishing || c.phase == CallPhase::AwaitingReply,
        belongs(c, correlation_id),
    ensures
        run(c, seq![BridgeEvent::Delivery { correlation_id, body: Ok(v) }].add(rest)).outcome
            == Some(Ok::<JsonValue, BridgeError>(v)),
{
    let evs = seq![BridgeEvent::Delivery { correlation_id, body: Ok(v) }].add(rest);
    let c1 = next(c, evs[0]).0;
    assert(evs.drop_first() =~= rest);
    assert(c1.outcome == Some(Ok::<JsonValue, BridgeError>(v)));
    lemma_next_wf(c, evs[0]);
    lemma_outcome_settled(c1, rest);
}

/// A call finishes with the outcome it records.
pub proof fn lemma_finish_reports_outcome(c: PendingCall, e: BridgeEvent)
    requires
        wf(c),
    ensures
        next(c, e).1 is Finish ==> next(c, e).0.outcome == Some(next(c, e).1->Finish_0),
{
}

/// The reply consumer is always running before the request is published.
pub proof fn lemma_consume_before_publish(c: PendingCall, e: BridgeEvent)
    requires
        wf(c),
    ensures
        next(c, e).1 is Publish ==> next(c, e).0.consumer_active && next(c, e).0.reply_queue
            == Some(next(c, e).1->reply_to),
{
}

/// A call that is done holds no channel and no consumer.
pub proof fn lemma_done_holds_nothing(c: PendingCall)
    requires
        wf(c),
        c.phase == CallPhase::Done,
    ensures
        held(c) == 0,
{
}

/// A timeout cleans up: when the deadline passes with no reply, the call asks
/// to cancel its own consumer and close its channel, and once that is done it
/// finishes with `ResponseTimeout` holding nothing.
pub proof fn lemma_timeout_releases(c: PendingCall)
    requires
        wf(c),
        c.phase == CallPhase::AwaitingReply,
    ensures
        next(c, BridgeEvent::DeadlineElapsed).1 == (BridgeAction::Release {
            consumer_tag: c.consumer_tag,
        }),
        next(next(c, BridgeEvent::DeadlineElapsed).0, BridgeEvent::Released).0.phase
            == CallPhase::Done,
        held(next(next(c, BridgeEvent::DeadlineElapsed).0, BridgeEvent::Released).0) == 0,
        next(next(c, BridgeEvent::DeadlineElapsed).0, BridgeEvent::Released).1
            == BridgeAction::Finish(Err(BridgeError::ResponseTimeout)),
{
}

/// Cancelling is single-fire: once a call is giving back its resources, or
/// is done, a second deadline or a late delivery changes nothing and asks for
/// nothing.
pub proof fn lemma_cancel_once(c: PendingCall, correlation_id: Option<String>, body: Result<JsonValue, String>)
    requires
        wf(c),
        c.phase == CallPhase::Releasing || c.phase == CallPhase::Done,
    ensures
        next(c, BridgeEvent::DeadlineElapsed) == (c, BridgeAction::Ignore),
        next(c, BridgeEvent::Delivery { correlation_id, body }) == (c, BridgeAction::Ignore),
{
}

/// A call that is done stays done, whatever the broker reports.
pub proof fn lemma_done_is_final(c: PendingCall, e: BridgeEvent)
    requires
        c.phase == CallPhase::Done,
    ensures
        next(c, e) == (c, BridgeAction::Ignore),
{
}

/// The hyphenated form of a UUID: 36 characters, lowercase hex digits with
/// a hyphen at positions 8, 13, 18 and 23.
pub open spec fn is_hyphenated_uuid(s: Seq<char>) -> bool {
    &&& s.len() == 36
    &&& forall|i: int|
        0 <= i < 36 ==> if i == 8 || i == 13 || i == 18 || i == 23 {
            #[trigger] s[i] == '-'
        } else {
            ('0' <= s[i] <= '9') || ('a' <= s[i] <= 'f')
        }
}

/// Relies on uuid's `Uuid::new_v4` (random) and its `Display`, which writes
/// the lowercase hyphenated form.
#[verifier::external_body]
fn new_correlation_id() -> (r: String)
    ensures
        is_hyphenated_uuid(r@),
{
    uuid::Uuid::new_v4().to_string()
}

/// The text that describes a failed call.
pub open spec fn bridge_message(e: BridgeError) -> Seq<char> {
    match e {
        BridgeError::ConnectionError(m) => "Connection error: "@ + m@,
        BridgeError::ChannelError(m) => "Channel error: "@ + m@,
        BridgeError::QueueDeclareError(m) => "Queue declare error: "@ + m@,
        BridgeError::FailedToDeclareQueue => "Failed to declare queue"@,
        BridgeError::ConsumerDeclareError(m) => "Consumer declare error: "@ + m@,
        BridgeError::PublishError(m) => "Publish error: "@ + m@,
        BridgeError::SerdeError(m) => "Serde error: "@ + m@,
        BridgeError::ResponseTimeout => "AMQP broker failed to respond in time"@,
    }
}

impl BridgeError {
    /// The text that describes the failure.
    pub fn message(&self) -> (r: String)
        ensures
            r@ == bridge_message(*self),
    {
        match self {
            BridgeError::ConnectionError(m) => String::from_str("Connection error: ").concat(m.as_str()),
            BridgeError::ChannelError(m) => String::from_str("Channel error: ").concat(m.as_str()),
            BridgeError::QueueDeclareError(m) => String::from_str("Queue declare error: ").concat(m.as_str()),
            BridgeError::FailedToDeclareQueue => String::from_str("Failed to declare queue"),
            BridgeError::ConsumerDeclareError(m) => String::from_str("Consumer declare error: ").concat(m.as_str()),
            BridgeError::PublishError(m) => String::from_str("Publish error: ").concat(m.as_str()),
            BridgeError::SerdeError(m) => String::from_str("Serde error: ").concat(m.as_str()),
            BridgeError::ResponseTimeout => String::from_str("AMQP broker failed to respond in time"),
        }
    }

    /// A copy of the error, equal to it.
    pub fn duplicate(&self) -> (r: BridgeError)
        ensures
            r == *self,
    {
        match self {
            BridgeError::ConnectionError(m) => BridgeError::ConnectionError(copy_string(m)),
            BridgeError::ChannelError(m) => BridgeError::ChannelError(copy_string(m)),
            BridgeError::QueueDeclareError(m) => BridgeError::QueueDeclareError(copy_string(m)),
            BridgeError::FailedToDeclareQueue => BridgeError::FailedToDeclareQueue,
            BridgeError::ConsumerDeclareError(m) => BridgeError::ConsumerDeclareError(copy_string(m)),
            BridgeError::PublishError(m) => BridgeError::PublishError(copy_string(m)),
            BridgeError::SerdeError(m) => BridgeError::SerdeError(copy_string(m)),
            BridgeError::ResponseTimeout => BridgeError::ResponseTimeout,
        }
    }
}

fn copy_outcome(o: &Result<JsonValue, BridgeError>) -> (r: Result<JsonValue, BridgeError>)
    ensures
        r == *o,
{
    match o {
        Ok(v) => Ok(v.deep_copy()),
        Err(e) => Err(e.duplicate()),
    }
}

fn copy_opt_string(o: &Option<String>) -> (r: Option<String>)
    ensures
        r == *o,
{
    match o {
        Some(s) => Some(copy_string(s)),
        None => None,
    }
}

impl PendingCall {
    /// A call about to start, with a fresh correlation id; it holds nothing yet.
    pub fn new(routing_key: String, payload: JsonValue, timeout_secs: u64) -> (r: PendingCall)
        ensures
            wf(r),
            r.phase == CallPhase::OpeningChannel,
            is_hyphenated_uuid(r.correlation_id@),
            r.routing_key == routing_key,
            r.payload == payload,
            r.timeout_secs == timeout_secs,
            r.reply_queue.is_none(),
            r.consumer_tag.is_none(),
            held(r) == 0,
            r.outcome.is_none(),
    {
        PendingCall {
            phase: CallPhase::OpeningChannel,
            correlation_id: new_correlation_id(),
            routing_key,
            payload,
            timeout_secs,
            reply_queue: None,
            consumer_tag: None,
            channel_open: false,
            consumer_active: false,
            outcome: None,
        }
    }

    /// The first thing a new call asks for: a channel of its own.
    pub fn first_action(&self) -> (a: BridgeAction)
        ensures
            a == BridgeAction::OpenChannel,
    {
        BridgeAction::OpenChannel
    }

    fn fail(&mut self, e: BridgeError) -> (a: BridgeAction)
        ensures
            (*final(self), a) == fail_spec(*old(self), e),
    {
        let tag = if self.consumer_active {
            copy_opt_string(&self.consumer_tag)
        } else {
            None
        };
        self.phase = CallPhase::Releasing;
        self.outcome = Some(Err(e));
        BridgeAction::Release { consumer_tag: tag }
    }

    /// Takes the call one step on `e`: the new state and the action are those
    /// of [`next`], and the call stays well formed.
    pub fn step(&mut self, e: BridgeEvent) -> (a: BridgeAction)
        requires
            wf(*old(self)),
        ensures
            (*final(self), a) == next(*old(self), e),
            wf(*final(self)),
    {
        match (self.phase, e) {
            (CallPhase::OpeningChannel, BridgeEvent::ChannelOpened) => {
                self.phase = CallPhase::DeclaringQueue;
                self.channel_open = true;
                BridgeAction::DeclareReplyQueue
            },
            (CallPhase::OpeningChannel, BridgeEvent::ChannelFailed(m)) => {
                let err = BridgeError::ChannelError(m);
                let out = err.duplicate();
                self.phase = CallPhase::Done;
                self.outcome = Some(Err(err));
                BridgeAction::Finish(Err(out))
            },
            (CallPhase::DeclaringQueue, BridgeEvent::QueueDeclared(q)) => {
                let queue = copy_string(&q);
                self.phase = CallPhase::StartingConsumer;
                self.reply_queue = Some(q);
                BridgeAction::StartConsumer { queue }
            },
            (CallPhase::DeclaringQueue, BridgeEvent::QueueDeclareFailed(m)) => {
                self.fail(BridgeError::QueueDeclareError(m))
            },
            (CallPhase::DeclaringQueue, BridgeEvent::QueueNotDeclared) => {
                self.fail(BridgeError::FailedToDeclareQueue)
            },
            (CallPhase::StartingConsumer, BridgeEvent::ConsumerStarted(t)) => {
                let reply_to = match &self.reply_queue {
                    Some(q) => copy_string(q),
                    None => String::new(),
                };
                self.phase = CallPhase::Publishing;
                self.consumer_tag = Some(t);
                self.consumer_active = true;
                BridgeAction::Publish {
                    routing_key: copy_string(&self.routing_key),
                    correlation_id: copy_string(&self.correlation_id),
                    reply_to,
                    body: self.payload.deep_copy(),
                }
            },
            (CallPhase::StartingConsumer, BridgeEvent::ConsumerFailed(m)) => {
                self.fail(BridgeError::ConsumerDeclareError(m))
            },
            (CallPhase::Publishing, BridgeEvent::Published) => {
                self.phase = CallPhase::AwaitingReply;
                BridgeAction::AwaitReply { timeout_secs: self.timeout_secs }
            },
            (CallPhase::Publishing, BridgeEvent::PublishFailed(m)) => {
                self.fail(BridgeError::PublishError(m))
            },
            (CallPhase::Publishing, BridgeEvent::Delivery { correlation_id, body })
            | (CallPhase::AwaitingReply, BridgeEvent::Delivery { correlation_id, body }) => {
                let ours = match &correlation_id {
                    None => false,
                    Some(id) => *id == self.correlation_id,
                };
                if ours {
                    match body {
                        Ok(v) => {
                            let tag = copy_opt_string(&self.consumer_tag);
                            self.phase = CallPhase::Releasing;
                            self.outcome = Some(Ok(v));
                            BridgeAction::Release { consumer_tag: tag }
                        },
                        Err(m) => self.fail(BridgeError::SerdeError(m)),
                    }
                } else if self.phase == CallPhase::AwaitingReply {
                    BridgeAction::AwaitReply { timeout_secs: self.timeout_secs }
                } else {
                    BridgeAction::Ignore
                }
            },
            (CallPhase::AwaitingReply, BridgeEvent::DeadlineElapsed) => {
                self.fail(BridgeError::ResponseTimeout)
            },
            (CallPhase::Releasing, BridgeEvent::Released) => {
                let out = match &self.outcome {
                    Some(o) => copy_outcome(o),
                    None => Err(BridgeError::ResponseTimeout),
                };
                self.phase = CallPhase::Done;
                self.channel_open = false;
                self.consumer_active = false;
                BridgeAction::Finish(out)
            },
            _ => BridgeAction::Ignore,
        }
    }
}

} // verus!
