//! The relay's control loop, as a state machine.
//!
//! The program that owns the sockets performs one action at a time and hands
//! back what came of it as an event; [`Bridge::step`] answers with the next
//! state and the next action. The relay starts in
//! [`BridgeState::Connecting`], with both sessions being established.

use crate::config::{Config, SwitchConfigView};
use crate::session::{
    session_options, session_options_of, subscription_filter, subscription_filter_of,
    SessionOptions, SessionOptionsView, SessionRole,
};
use crate::table::{prepare_switch_configs, table_of, SwitchTable};
use crate::transform::{tristate_command, zap_tristate};
use vstd::prelude::*;
use vstd::string::*;
use vstd::utf8::*;

verus! {

/// The error of `core::str::from_utf8`. It is only passed on: nothing is
/// claimed of what it holds.
#[verifier::external_type_specification]
#[verifier::external_body]
pub struct ExUtf8Error(core::str::Utf8Error);

/// `core::str::from_utf8` accepts a byte sequence exactly when it is
/// well-formed UTF-8, and the text that it then returns is made of the very
/// bytes it was given.
pub assume_specification[ core::str::from_utf8 ](v: &[u8]) -> (text: Result<
    &str,
    core::str::Utf8Error,
>)
    ensures
        text is Ok <==> valid_utf8(v@),
        text matches Ok(decoded) ==> decoded.spec_bytes() == v@,
;

/// Where the relay stands.
#[derive(Clone, Copy, Debug, PartialEq, Eq, Structural)]
pub enum BridgeState {
    /// Both sessions are being established.
    Connecting,
    /// Both sessions stand; the source subscription has been asked for.
    Subscribed,
    /// The steady state: inbound messages are mapped and sent on.
    Relaying,
    /// The loop has ended.
    Closed,
}

/// Why the loop ended.
#[derive(Clone, Copy, Debug, PartialEq, Eq, Structural)]
pub enum StopReason {
    /// A session could not be established.
    ConnectionFailed,
    /// The source broker refused the subscription.
    SubscribeFailed,
    /// The payload of an inbound message was not text.
    DecodeFailed,
    /// The target session could not take a command.
    PublishFailed,
    /// The source stream came to its end.
    StreamClosed,
}

/// What came of the last action.
#[derive(Debug)]
pub enum BridgeEvent {
    /// Both sessions are established.
    SessionsReady,
    /// A session could not be established.
    ConnectFailed,
    /// The source broker took the subscription.
    SubscribeAccepted,
    /// The source broker refused the subscription.
    SubscribeFailed,
    /// The source stream gave a published message.
    Message { topic: String, payload: Vec<u8> },
    /// The source stream gave anything else: an acknowledgement, a ping, a
    /// note of outgoing traffic, a connection error that it survived.
    Notice,
    /// The target session took the command.
    PublishDone,
    /// The target session could not take the command.
    PublishFailed,
    /// The source stream came to its end.
    StreamClosed,
}

/// What a [`BridgeEvent`] holds, as text and bytes.
pub ghost enum BridgeEventView {
    SessionsReady,
    ConnectFailed,
    SubscribeAccepted,
    SubscribeFailed,
    Message { topic: Seq<char>, payload: Seq<u8> },
    Notice,
    PublishDone,
    PublishFailed,
    StreamClosed,
}

impl View for BridgeEvent {
    type V = BridgeEventView;

    open spec fn view(&self) -> BridgeEventView {
        match *self {
            BridgeEvent::SessionsReady => BridgeEventView::SessionsReady,
            BridgeEvent::ConnectFailed => BridgeEventView::ConnectFailed,
            BridgeEvent::SubscribeAccepted => BridgeEventView::SubscribeAccepted,
            BridgeEvent::SubscribeFailed => BridgeEventView::SubscribeFailed,
            BridgeEvent::Message { topic, payload } => BridgeEventView::Message {
                topic: topic@,
                payload: payload@,
            },
            BridgeEvent::Notice => BridgeEventView::Notice,
            BridgeEvent::PublishDone => BridgeEventView::PublishDone,
            BridgeEvent::PublishFailed => BridgeEventView::PublishFailed,
            BridgeEvent::StreamClosed => BridgeEventView::StreamClosed,
        }
    }
}

/// What the relay asks for next.
#[derive(Debug)]
pub enum BridgeAction {
    /// Subscribe the source session to the filter. The outcome comes back as
    /// [`BridgeEvent::SubscribeAccepted`] or [`BridgeEvent::SubscribeFailed`].
    Subscribe { filter: String, at_least_once: bool },
    /// Wait for the next item of the source stream. It comes back as
    /// [`BridgeEvent::Message`], [`BridgeEvent::Notice`] or
    /// [`BridgeEvent::StreamClosed`].
    Receive,
    /// Count one publish and send the payload to the target session. The
    /// outcome comes back as [`BridgeEvent::PublishDone`] or
    /// [`BridgeEvent::PublishFailed`].
    Publish { topic: String, payload: String, at_least_once: bool, retain: bool },
    /// Leave the loop.
    Stop { reason: StopReason },
    /// Nothing: the event did not belong to the state.
    Idle,
}

/// What a [`BridgeAction`] holds, as text.
pub ghost enum BridgeActionView {
    Subscribe { filter: Seq<char>, at_least_once: bool },
    Receive,
    Publish { topic: Seq<char>, payload: Seq<char>, at_least_once: bool, retain: bool },
    Stop { reason: StopReason },
    Idle,
}

impl View for BridgeAction {
    type V = BridgeActionView;

    open spec fn view(&self) -> BridgeActionView {
        match *self {
            BridgeAction::Subscribe { filter, at_least_once } => BridgeActionView::Subscribe {
                filter: filter@,
                at_least_once,
            },
            BridgeAction::Receive => BridgeActionView::Receive,
            BridgeAction::Publish {
                topic,
                payload,
                at_least_once,
                retain,
            } => BridgeActionView::Publish {
                topic: topic@,
                payload: payload@,
                at_least_once,
                retain,
            },
            BridgeAction::Stop { reason } => BridgeActionView::Stop { reason },
            BridgeAction::Idle => BridgeActionView::Idle,
        }
    }
}

/// What the relay has decided from its configuration: the settings of its two
/// sessions, the filter that the source session subscribes to, the topic
/// that commands go out on, and the switch table.
pub struct Bridge {
    pub source: SessionOptions,
    pub target: SessionOptions,
    pub source_filter: String,
    pub target_topic: String,
    pub switches: SwitchTable,
}

/// What a [`Bridge`] holds, as text and numbers.
pub ghost struct BridgeView {
    pub source: SessionOptionsView,
    pub target: SessionOptionsView,
    pub source_filter: Seq<char>,
    pub target_topic: Seq<char>,
    pub switches: Map<Seq<char>, SwitchConfigView>,
}

impl View for Bridge {
    type V = BridgeView;

    open spec fn view(&self) -> BridgeView {
        BridgeView {
            source: self.source@,
            target: self.target@,
            source_filter: self.source_filter@,
            target_topic: self.target_topic@,
            switches: self.switches@,
        }
    }
}

/// The relay that a configuration describes.
pub open spec fn bridge_of(config: crate::config::ConfigView) -> BridgeView {
    BridgeView {
        source: session_options_of(SessionRole::Source, config.source),
        target: session_options_of(SessionRole::Target, config.target),
        source_filter: subscription_filter_of(config.source_topic_prefix),
        target_topic: config.target_topic,
        switches: table_of(config.switches),
    }
}

/// The text that a payload holds: its decoding as UTF-8, or nothing where the
/// bytes are not well-formed UTF-8.
pub open spec fn payload_text(payload: Seq<u8>) -> Option<Seq<char>> {
    if valid_utf8(payload) {
        Some(decode_utf8(payload))
    } else {
        None
    }
}

/// What the relay does with one published message while it is relaying.
///
/// A payload that is not text ends the loop. A message that maps to a command
/// has the command published on the target topic, at least once and not
/// retained. Any other message is passed over.
pub open spec fn relay_of(bridge: BridgeView, topic: Seq<char>, payload: Seq<u8>) -> (
    BridgeState,
    BridgeActionView,
) {
    match payload_text(payload) {
        None => (BridgeState::Closed, BridgeActionView::Stop { reason: StopReason::DecodeFailed }),
        Some(text) => match tristate_command(topic, text, bridge.switches) {
            Some(command) => (
                BridgeState::Relaying,
                BridgeActionView::Publish {
                    topic: bridge.target_topic,
                    payload: command,
                    at_least_once: true,
                    retain: false,
                },
            ),
            None => (BridgeState::Relaying, BridgeActionView::Receive),
        },
    }
}

/// The state and the action that follow an event.
///
/// Once both sessions stand the relay subscribes; once the subscription is
/// taken it relays, one item of the source stream at a time, until the stream
/// ends. A failure to connect, to subscribe, to decode or to publish ends the
/// loop. An event that does not belong to the state changes nothing and asks
/// for nothing.
pub open spec fn step_of(bridge: BridgeView, state: BridgeState, event: BridgeEventView) -> (
    BridgeState,
    BridgeActionView,
) {
    match (state, event) {
        (BridgeState::Connecting, BridgeEventView::SessionsReady) => (
            BridgeState::Subscribed,
            BridgeActionView::Subscribe { filter: bridge.source_filter, at_least_once: true },
        ),
        (BridgeState::Connecting, BridgeEventView::ConnectFailed) => (
            BridgeState::Closed,
            BridgeActionView::Stop { reason: StopReason::ConnectionFailed },
        ),
        (BridgeState::Subscribed, BridgeEventView::SubscribeAccepted) => (
            BridgeState::Relaying,
            BridgeActionView::Receive,
        ),
        (BridgeState::Subscribed, BridgeEventView::SubscribeFailed) => (
            BridgeState::Closed,
            BridgeActionView::Stop { reason: StopReason::SubscribeFailed },
        ),
        (BridgeState::Relaying, BridgeEventView::Message { topic, payload }) => relay_of(
            bridge,
            topic,
            payload,
        ),
        (BridgeState::Relaying, BridgeEventView::Notice) => (
            BridgeState::Relaying,
            BridgeActionView::Receive,
        ),
        (BridgeState::Relaying, BridgeEventView::PublishDone) => (
            BridgeState::Relaying,
            BridgeActionView::Receive,
        ),
        (BridgeState::Relaying, BridgeEventView::PublishFailed) => (
            BridgeState::Closed,
            BridgeActionView::Stop { reason: StopReason::PublishFailed },
        ),
        (BridgeState::Relaying, BridgeEventView::StreamClosed) => (
            BridgeState::Closed,
            BridgeActionView::Stop { reason: StopReason::StreamClosed },
        ),
        _ => (state, BridgeActionView::Idle),
    }
}

/// How far along its course a state is.
pub open spec fn state_rank(state: BridgeState) -> nat {
    match state {
        BridgeState::Connecting => 0,
        BridgeState::Subscribed => 1,
        BridgeState::Relaying => 2,
        BridgeState::Closed => 3,
    }
}

/// The relay never goes back: a step leaves the state where it is or moves it
/// one stage on, or closes it. A closed relay stays closed and asks for
/// nothing. The relay asks to stop exactly on the step that closes it, and
/// asks to publish only while relaying, in answer to a message.
pub proof fn lemma_step_advances(bridge: BridgeView, state: BridgeState, event: BridgeEventView)
    ensures
        state_rank(state) <= state_rank(step_of(bridge, state, event).0),
        step_of(bridge, state, event).0 == state || step_of(bridge, state, event).0
            == BridgeState::Closed || state_rank(step_of(bridge, state, event).0) == state_rank(
            state,
        ) + 1,
        state == BridgeState::Closed ==> step_of(bridge, state, event) == (
            BridgeState::Closed,
            BridgeActionView::Idle,
        ),
        step_of(bridge, state, event).1 is Stop <==> state != BridgeState::Closed && step_of(
            bridge,
            state,
            event,
        ).0 == BridgeState::Closed,
        step_of(bridge, state, event).1 is Publish ==> state == BridgeState::Relaying
            && event is Message && step_of(bridge, state, event).0 == BridgeState::Relaying,
{
}

/// While relaying, a message is published exactly when its payload is text
/// and maps to a command, and what is published is that command, on the
/// target topic.
pub proof fn lemma_publish_is_the_command(bridge: BridgeView, topic: Seq<char>, payload: Seq<u8>)
    ensures
        relay_of(bridge, topic, payload).1 is Publish <==> valid_utf8(payload) && tristate_command(
            topic,
            decode_utf8(payload),
            bridge.switches,
        ) is Some,
        relay_of(bridge, topic, payload).1 matches BridgeActionView::Publish {
            topic: target,
            payload: command,
            ..
        } ==> target == bridge.target_topic && Some(command) == tristate_command(
            topic,
            decode_utf8(payload),
            bridge.switches,
        ),
{
}

/// The text of a payload, where it is text.
pub fn decode_payload(payload: &[u8]) -> (text: Option<&str>)
    ensures
        match text {
            Some(decoded) => payload_text(payload@) == Some(decoded@),
            None => payload_text(payload@) is None,
        },
{
    match core::str::from_utf8(payload) {
        Ok(decoded) => {
            proof {
                encode_utf8_decode_utf8(decoded@);
            }
            Some(decoded)
        },
        Err(_) => None,
    }
}

impl Bridge {
    /// The relay that the configuration describes.
    pub fn new(config: Config) -> (bridge: Bridge)
        ensures
            bridge@ == bridge_of(config@),
            bridge@.source.acceptable(),
            bridge@.target.acceptable(),
            bridge.switches.wf(),
    {
        let source = session_options(SessionRole::Source, &config.source);
        let target = session_options(SessionRole::Target, &config.target);
        let source_filter = subscription_filter(config.source_topic_prefix.as_str());
        let Config { target_topic, switches, .. } = config;
        Bridge {
            source,
            target,
            source_filter,
            target_topic,
            switches: prepare_switch_configs(switches),
        }
    }

    /// What to do with one published message while relaying. See
    /// [`relay_of`].
    pub fn relay(&self, topic: &str, payload: &[u8]) -> (next: (BridgeState, BridgeAction))
        ensures
            next.0 == relay_of(self@, topic@, payload@).0,
            next.1@ == relay_of(self@, topic@, payload@).1,
    {
        match decode_payload(payload) {
            None => (BridgeState::Closed, BridgeAction::Stop { reason: StopReason::DecodeFailed }),
            Some(text) => match zap_tristate(topic, text, &self.switches) {
                Some(command) => (
                    BridgeState::Relaying,
                    BridgeAction::Publish {
                        topic: self.target_topic.clone(),
                        payload: command,
                        at_least_once: true,
                        retain: false,
                    },
                ),
                None => (BridgeState::Relaying, BridgeAction::Receive),
            },
        }
    }

    /// The state and the action that follow the event. See [`step_of`].
    pub fn step(&self, state: BridgeState, event: BridgeEvent) -> (next: (
        BridgeState,
        BridgeAction,
    ))
        ensures
            next.0 == step_of(self@, state, event@).0,
            next.1@ == step_of(self@, state, event@).1,
    {
        match state {
            BridgeState::Connecting => match event {
                BridgeEvent::SessionsReady => (
                    BridgeState::Subscribed,
                    BridgeAction::Subscribe {
                        filter: self.source_filter.clone(),
                        at_least_once: true,
                    },
                ),
                BridgeEvent::ConnectFailed => (
                    BridgeState::Closed,
                    BridgeAction::Stop { reason: StopReason::ConnectionFailed },
                ),
                _ => (state, BridgeAction::Idle),
            },
            BridgeState::Subscribed => match event {
                BridgeEvent::SubscribeAccepted => (BridgeState::Relaying, BridgeAction::Receive),
                BridgeEvent::SubscribeFailed => (
                    BridgeState::Closed,
                    BridgeAction::Stop { reason: StopReason::SubscribeFailed },
                ),
                _ => (state, BridgeAction::Idle),
            },
            BridgeState::Relaying => match event {
                BridgeEvent::Message { topic, payload } => self.relay(
                    topic.as_str(),
                    payload.as_slice(),
                ),
                BridgeEvent::Notice => (BridgeState::Relaying, BridgeAction::Receive),
                BridgeEvent::PublishDone => (BridgeState::Relaying, BridgeAction::Receive),
                BridgeEvent::PublishFailed => (
                    BridgeState::Closed,
                    BridgeAction::Stop { reason: StopReason::PublishFailed },
                ),
                BridgeEvent::StreamClosed => (
                    BridgeState::Closed,
                    BridgeAction::Stop { reason: StopReason::StreamClosed },
                ),
                _ => (state, BridgeAction::Idle),
            },
            BridgeState::Closed => (state, BridgeAction::Idle),
        }
    }
}

} // verus!
