//! Publish facade.
//!
//! A publish call never fails observably: every transport failure restarts
//! the whole sequence from the readiness gate after a fixed backoff, and a
//! fresh session is used for every attempt — no session outlives a single
//! call.  The state machine below is the whole of that policy; the runtime
//! around the library performs each required action (check readiness, open
//! the connection, start the session, transmit) and reports its outcome.

use vstd::prelude::*;
use crate::mdns::Ipv4;

verus! {

/// The size of each of the facade's two scratch buffers.
pub const BUFFER_SIZE: usize = 2048;

/// The broker endpoint and client identity, fixed once after discovery.
pub struct MqttFacadeConfig {
    pub broker_ip: Ipv4,
    pub broker_port: u16,
    pub client_id: &'static str,
}

impl MqttFacadeConfig {
    /// A configuration for one broker and one client identity.
    pub fn new(broker_ip: Ipv4, broker_port: u16, client_id: &'static str) -> (r: Self)
        ensures
            r.broker_ip == broker_ip,
            r.broker_port == broker_port,
            r.client_id == client_id,
    {
        Self { broker_ip, broker_port, client_id }
    }
}

/// A wire-ready topic/payload pair.
pub struct MqttMessage {
    pub topic: String,
    pub content: String,
}

impl MqttMessage {
    /// A message for one topic.
    pub fn new(mqtt_topic: String, mqtt_message_content: String) -> (r: Self)
        ensures
            r.topic@ == mqtt_topic@,
            r.content@ == mqtt_message_content@,
    {
        Self { topic: mqtt_topic, content: mqtt_message_content }
    }
}

/// The stages a publish call moves through.  Any failure returns to the
/// gate; only a successful transmission ends the call.
#[derive(Clone, Copy, PartialEq, Eq, Structural, Debug)]
pub enum PublishStage {
    /// Waiting for link and address configuration.
    Gate,
    /// Opening the transport connection.
    Connect,
    /// Establishing the application session.
    Handshake,
    /// Transmitting the message.
    Transmit,
    /// The message was delivered; the session is discarded.
    Done,
}

/// How far one pass through the publish sequence got.  A pass that reaches
/// the transmission stage sends bytes whether or not they are acknowledged;
/// earlier failures send nothing.
#[derive(Clone, Copy, PartialEq, Eq, Structural, Debug)]
pub enum AttemptOutcome {
    /// The readiness gate did not open; nothing was attempted.
    NotReady,
    /// The transport connection could not be opened.
    ConnectFailed,
    /// The application session could not be established.
    HandshakeFailed,
    /// The message was transmitted but not acknowledged.
    TransmitFailed,
    /// The message was transmitted and acknowledged.
    Delivered,
}

/// One transition of the publish state machine: `ok` is the outcome of the
/// stage's action.  Any failure goes back to readiness checking after the
/// fixed backoff; success advances.
pub open spec fn spec_step(stage: PublishStage, ok: bool) -> PublishStage {
    match stage {
        PublishStage::Gate => if ok { PublishStage::Connect } else { PublishStage::Gate },
        PublishStage::Connect => if ok { PublishStage::Handshake } else { PublishStage::Gate },
        PublishStage::Handshake => if ok { PublishStage::Transmit } else { PublishStage::Gate },
        PublishStage::Transmit => if ok { PublishStage::Done } else { PublishStage::Gate },
        PublishStage::Done => PublishStage::Done,
    }
}

/// Advances the publish state machine by one stage outcome.
pub fn step(stage: PublishStage, ok: bool) -> (r: PublishStage)
    ensures
        r == spec_step(stage, ok),
{
    match stage {
        PublishStage::Gate => if ok { PublishStage::Connect } else { PublishStage::Gate },
        PublishStage::Connect => if ok { PublishStage::Handshake } else { PublishStage::Gate },
        PublishStage::Handshake => if ok { PublishStage::Transmit } else { PublishStage::Gate },
        PublishStage::Transmit => if ok { PublishStage::Done } else { PublishStage::Gate },
        PublishStage::Done => PublishStage::Done,
    }
}

/// Whether a pass delivered the message.
pub open spec fn spec_attempt_delivered(o: AttemptOutcome) -> bool {
    o is Delivered
}

/// How many transmissions a pass performs: one when it reaches the
/// transmission stage, none when it fails earlier.
pub open spec fn spec_attempt_transmissions(o: AttemptOutcome) -> int {
    match o {
        AttemptOutcome::TransmitFailed => 1,
        AttemptOutcome::Delivered => 1,
        _ => 0,
    }
}

/// Whether some pass in the sequence delivers the message.
pub open spec fn spec_delivered(outcomes: Seq<AttemptOutcome>) -> bool
    decreases outcomes.len(),
{
    if outcomes.len() == 0 {
        false
    } else if spec_attempt_delivered(outcomes[0]) {
        true
    } else {
        spec_delivered(outcomes.drop_first())
    }
}

/// How many passes the call consumes: every pass up to and including the
/// delivering one.
pub open spec fn spec_attempts_used(outcomes: Seq<AttemptOutcome>) -> int
    decreases outcomes.len(),
{
    if outcomes.len() == 0 {
        0
    } else if spec_attempt_delivered(outcomes[0]) {
        1
    } else {
        1 + spec_attempts_used(outcomes.drop_first())
    }
}

/// How many transmissions the call performs before it stops.
pub open spec fn spec_transmissions(outcomes: Seq<AttemptOutcome>) -> int
    decreases outcomes.len(),
{
    if outcomes.len() == 0 {
        0
    } else if spec_attempt_delivered(outcomes[0]) {
        1
    } else {
        spec_attempt_transmissions(outcomes[0]) + spec_transmissions(outcomes.drop_first())
    }
}

/// What one publish call did over a simulated transport.
#[derive(Clone, Copy, PartialEq, Eq, Structural, Debug)]
pub struct SendReport {
    /// Whether the message was delivered within the simulated horizon.  The
    /// live facade never gives up, so a false here only means the horizon
    /// ended mid-retry.
    pub delivered: bool,
    /// How many passes through the sequence the call consumed.
    pub attempts: usize,
    /// How many times message bytes were put on the wire.
    pub transmissions: usize,
}

/// The facade: the fixed configuration and the two scratch buffers it owns
/// for the process lifetime.  The buffers are overwritten, never resized,
/// and are not shared with the codec's buffers, which is why calls must not
/// overlap.
pub struct MqttFacade {
    pub config: MqttFacadeConfig,
    send_buffer: [u8; BUFFER_SIZE],
    receive_buffer: [u8; BUFFER_SIZE],
}

impl MqttFacade {
    /// The configuration this facade was built with.
    pub closed spec fn spec_config(&self) -> MqttFacadeConfig {
        self.config
    }

    /// A facade for one broker.
    pub fn new(config: MqttFacadeConfig) -> (r: Self)
        ensures
            r.spec_config().broker_ip == config.broker_ip,
            r.spec_config().broker_port == config.broker_port,
            r.spec_config().client_id == config.client_id,
    {
        Self { config, send_buffer: [0u8; BUFFER_SIZE], receive_buffer: [0u8; BUFFER_SIZE] }
    }

    /// Publishes one message over a simulated transport whose behaviour is
    /// given as the outcome of each successive pass.  The call retries
    /// forever — gate, connect, handshake, transmit, with a fixed backoff
    /// after any failure — so it consumes passes up to and including the
    /// first delivering one and then stops: no transmission happens beyond
    /// the successful attempt.
    pub fn send_message(&mut self, message: &MqttMessage, outcomes: &Vec<AttemptOutcome>) -> (r:
        SendReport)
        ensures
            r.delivered == spec_delivered(outcomes@),
            r.attempts == spec_attempts_used(outcomes@),
            r.transmissions == spec_transmissions(outcomes@),
            final(self).spec_config() == old(self).spec_config(),
    {
        let mut stage = PublishStage::Gate;
        let mut i: usize = 0;
        let mut transmissions: usize = 0;
        proof {
            assert(outcomes@.skip(0) =~= outcomes@);
        }
        while i < outcomes.len()
            invariant
                i <= outcomes@.len(),
                transmissions <= i,
                stage == PublishStage::Gate,
                !spec_delivered(outcomes@) ==> !spec_delivered(outcomes@.skip(i as int)),
                spec_delivered(outcomes@) == spec_delivered(outcomes@.skip(i as int)),
                spec_attempts_used(outcomes@) == i + spec_attempts_used(
                    outcomes@.skip(i as int),
                ),
                spec_transmissions(outcomes@) == transmissions + spec_transmissions(
                    outcomes@.skip(i as int),
                ),
            decreases outcomes@.len() - i,
        {
            proof {
                assert(outcomes@.skip(i as int)[0] == outcomes@[i as int]);
                assert(outcomes@.skip(i as int).drop_first() =~= outcomes@.skip(i as int + 1));
            }
            let outcome = outcomes[i];
            match outcome {
                AttemptOutcome::NotReady => {
                    stage = step(stage, false);
                },
                AttemptOutcome::ConnectFailed => {
                    stage = step(stage, true);
                    stage = step(stage, false);
                },
                AttemptOutcome::HandshakeFailed => {
                    stage = step(stage, true);
                    stage = step(stage, true);
                    stage = step(stage, false);
                },
                AttemptOutcome::TransmitFailed => {
                    stage = step(stage, true);
                    stage = step(stage, true);
                    stage = step(stage, true);
                    transmissions = transmissions + 1;
                    stage = step(stage, false);
                },
                AttemptOutcome::Delivered => {
                    stage = step(stage, true);
                    stage = step(stage, true);
                    stage = step(stage, true);
                    transmissions = transmissions + 1;
                    stage = step(stage, true);
                    return SendReport { delivered: true, attempts: i + 1, transmissions };
                },
            }
            i = i + 1;
        }
        SendReport { delivered: false, attempts: i, transmissions }
    }
}

/// Publish retry convergence: when the transport fails the first `k` passes
/// and delivers on pass `k + 1`, the call completes after exactly `k`
/// induced retries, and every transmission happens within those `k + 1`
/// passes — nothing is sent beyond the successful attempt.
pub proof fn lemma_publish_retry_convergence(outcomes: Seq<AttemptOutcome>, k: int)
    requires
        0 <= k < outcomes.len(),
        forall|i: int| 0 <= i < k ==> !spec_attempt_delivered(outcomes[i]),
        spec_attempt_delivered(outcomes[k]),
    ensures
        spec_delivered(outcomes),
        spec_attempts_used(outcomes) == k + 1,
        spec_transmissions(outcomes) == spec_transmissions(outcomes.take(k + 1)),
        spec_transmissions(outcomes) <= k + 1,
    decreases k,
{
    if k == 0 {
        assert(outcomes.take(1)[0] == outcomes[0]);
    } else {
        lemma_publish_retry_convergence(outcomes.drop_first(), k - 1);
        assert(outcomes.take(k + 1).drop_first() =~= outcomes.drop_first().take(k));
    }
}

} // verus!
