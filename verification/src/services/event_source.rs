//! The event source on a message broker: what it asks of the broker when it
//! starts, and how its handler turns what the broker delivers into events.

use crate::text::join;
use crate::types::{Event, EventView, RawMqttEvent, RawMqttEventView, Subscription, SubscriptionView};
use crate::{AppError, AppErrorView};
use vstd::prelude::*;

verus! {

/// Seconds of silence after which the connection pings the broker.
pub const KEEP_ALIVE_SECS: u16 = 5;

/// How many requests to the broker may be queued.
pub const REQUEST_CAPACITY: usize = 10;

/// How many events may wait between the handler and the consumer of the
/// stream. A handler that finds the channel full waits for room.
pub const CHANNEL_CAPACITY: usize = 10;

/// How the source presents itself to the broker, and where the broker is.
pub struct MqttConnectionParameters<'a> {
    pub client_id: &'a str,
    pub host: &'a str,
    pub port: u16,
}

/// The three delivery qualities of the broker protocol.
#[derive(Debug, Clone, Copy, PartialEq, Eq, Structural)]
pub enum QoS {
    AtMostOnce,
    AtLeastOnce,
    ExactlyOnce,
}

/// The options of the connection to the broker.
#[derive(Debug, PartialEq, Eq)]
pub struct MqttOptions {
    pub client_id: String,
    pub host: String,
    pub port: u16,
    pub keep_alive: u16,
}

/// The mathematical value of [`MqttOptions`].
pub struct MqttOptionsView {
    pub client_id: Seq<char>,
    pub host: Seq<char>,
    pub port: u16,
    pub keep_alive: u16,
}

impl View for MqttOptions {
    type V = MqttOptionsView;

    open spec fn view(&self) -> MqttOptionsView {
        MqttOptionsView {
            client_id: self.client_id@,
            host: self.host@,
            port: self.port,
            keep_alive: self.keep_alive,
        }
    }
}

/// The subscriptions as values, in their order.
pub open spec fn subscriptions_view(subscriptions: Seq<Subscription>) -> Seq<SubscriptionView> {
    subscriptions.map_values(|s: Subscription| s@)
}

/// An event source that is fed by subscriptions on a broker. It is made
/// once, with all its subscriptions, and started once.
pub struct MqttEventSource {
    mqtt_options: MqttOptions,
    subscriptions: Vec<Subscription>,
}

/// The mathematical value of an [`MqttEventSource`].
pub struct MqttEventSourceView {
    pub options: MqttOptionsView,
    pub subscriptions: Seq<SubscriptionView>,
}

impl View for MqttEventSource {
    type V = MqttEventSourceView;

    closed spec fn view(&self) -> MqttEventSourceView {
        MqttEventSourceView {
            options: self.mqtt_options@,
            subscriptions: subscriptions_view(self.subscriptions@),
        }
    }
}

/// One request to the broker for the messages of a topic.
#[derive(Debug, PartialEq, Eq)]
pub struct Subscribe {
    pub topic: String,
    pub qos: QoS,
}

/// The mathematical value of a [`Subscribe`].
pub struct SubscribeView {
    pub topic: Seq<char>,
    pub qos: QoS,
}

impl View for Subscribe {
    type V = SubscribeView;

    open spec fn view(&self) -> SubscribeView {
        SubscribeView { topic: self.topic@, qos: self.qos }
    }
}

/// A source on its way to a running handler: the requests that the broker
/// has accepted so far, and what is to be done now.
pub enum Startup {
    /// Send the request of this stage, then report whether the broker's
    /// connection took it.
    Subscribing(Subscribing),
    /// Every request was taken. Run the handler as a task of its own and
    /// hand out the receiving end of a channel of [`CHANNEL_CAPACITY`].
    Ready(SubscriptionHandler),
    /// A request was not taken. There is no handler and no stream.
    Failed(AppError),
}

/// The stage of a starting source at which one more request is due.
pub struct Subscribing {
    subscriptions: Vec<Subscription>,
    next: usize,
}

/// The mathematical value of a [`Startup`].
pub enum StartupView {
    Subscribing { subscriptions: Seq<SubscriptionView>, next: int },
    Ready(SubscriptionHandlerView),
    Failed(AppErrorView),
}

impl View for Startup {
    type V = StartupView;

    open spec fn view(&self) -> StartupView {
        match self {
            Startup::Subscribing(stage) => StartupView::Subscribing {
                subscriptions: stage.subscriptions(),
                next: stage.next(),
            },
            Startup::Ready(handler) => StartupView::Ready(handler@),
            Startup::Failed(error) => StartupView::Failed(error@),
        }
    }
}

/// Where a source stands once the requests before `next` were taken: at the
/// next request, or, when none is left, ready with a handler that is about
/// to poll.
pub open spec fn startup_at(subscriptions: Seq<SubscriptionView>, next: int) -> StartupView {
    if next < subscriptions.len() {
        StartupView::Subscribing { subscriptions, next }
    } else {
        StartupView::Ready(SubscriptionHandlerView { subscriptions, state: HandlerState::Polling })
    }
}

/// The error of a source whose request the broker's connection refused.
pub open spec fn subscribe_refused(detail: Seq<char>) -> AppErrorView {
    AppErrorView::Mqtt("Error sending Subscribe request: "@ + detail)
}

impl MqttEventSource {
    /// A source for the given broker and subscriptions. The connection keeps
    /// itself alive every [`KEEP_ALIVE_SECS`] seconds.
    pub fn new(connection: MqttConnectionParameters, subscriptions: Vec<Subscription>) -> (source:
        Self)
        ensures
            source@.options == (MqttOptionsView {
                client_id: connection.client_id@,
                host: connection.host@,
                port: connection.port,
                keep_alive: KEEP_ALIVE_SECS,
            }),
            source@.subscriptions == subscriptions_view(subscriptions@),
    {
        let mqtt_options = MqttOptions {
            client_id: connection.client_id.to_owned(),
            host: connection.host.to_owned(),
            port: connection.port,
            keep_alive: KEEP_ALIVE_SECS,
        };
        MqttEventSource { mqtt_options, subscriptions }
    }

    /// The options with which to connect.
    pub fn options(&self) -> (options: &MqttOptions)
        ensures
            options@ == self@.options,
    {
        &self.mqtt_options
    }

    /// Starts the source: the first request is due, or, without
    /// subscriptions, the handler is ready at once.
    pub fn start(self) -> (startup: Startup)
        ensures
            startup@ == startup_at(self@.subscriptions, 0),
            startup matches Startup::Ready(handler) ==> handler.wf(),
            startup matches Startup::Subscribing(stage) ==> stage.wf(),
    {
        Subscribing { subscriptions: self.subscriptions, next: 0 }.settle()
    }
}

impl Subscribing {
    /// The subscriptions of the source, as values.
    pub closed spec fn subscriptions(&self) -> Seq<SubscriptionView> {
        subscriptions_view(self.subscriptions@)
    }

    /// How many requests were taken so far.
    pub closed spec fn next(&self) -> int {
        self.next as int
    }

    /// A request is due: not every subscription has had its own.
    pub open spec fn wf(&self) -> bool {
        0 <= self.next() < self.subscriptions().len()
    }

    fn settle(self) -> (startup: Startup)
        requires
            self.next <= self.subscriptions.len(),
        ensures
            startup@ == startup_at(self.subscriptions(), self.next()),
            startup matches Startup::Ready(handler) ==> handler.wf(),
            startup matches Startup::Subscribing(stage) ==> stage.wf(),
    {
        if self.next < self.subscriptions.len() {
            Startup::Subscribing(self)
        } else {
            Startup::Ready(SubscriptionHandler::new(self.subscriptions))
        }
    }

    /// The request that is due: the topic of the next subscription, to be
    /// delivered at most once.
    pub fn request(&self) -> (request: Subscribe)
        requires
            self.wf(),
        ensures
            request@ == (SubscribeView {
                topic: self.subscriptions()[self.next()].topic,
                qos: QoS::AtMostOnce,
            }),
    {
        Subscribe { topic: self.subscriptions[self.next].topic.clone(), qos: QoS::AtMostOnce }
    }

    /// The request was taken: the next one is due, or the source is ready.
    pub fn accepted(self) -> (startup: Startup)
        requires
            self.wf(),
        ensures
            startup@ == startup_at(self.subscriptions(), self.next() + 1),
            startup matches Startup::Ready(handler) ==> handler.wf(),
            startup matches Startup::Subscribing(stage) ==> stage.wf(),
    {
        proof {
            vstd::std_specs::vec::axiom_spec_len(&self.subscriptions);
        }
        Subscribing { subscriptions: self.subscriptions, next: self.next + 1 }.settle()
    }

    /// The request was not taken, for the reason given: the source fails.
    pub fn refused(self, detail: &str) -> (startup: Startup)
        ensures
            startup@ == StartupView::Failed(subscribe_refused(detail@)),
    {
        Startup::Failed(AppError::Mqtt(join("Error sending Subscribe request: ", detail)))
    }
}

/// What the handler is doing.
#[derive(Debug, Clone, Copy, PartialEq, Eq, Structural)]
pub enum HandlerState {
    /// Waiting for the broker's next message.
    Polling,
    /// A publish matched the subscription at this position; its payload is
    /// being decoded.
    Decoding(usize),
    /// An event is on its way into the channel. Nothing else happens until
    /// the channel has taken it.
    Sending,
    /// The connection was lost. The handler has ended for good.
    Terminated,
}

/// What the driver of the handler reports.
#[derive(Debug, PartialEq, Eq)]
pub enum Incoming {
    /// The broker delivered a publish on this topic.
    Publish { topic: String },
    /// The broker delivered, or the connection sent, anything else.
    Other,
    /// Polling the connection failed.
    ConnectionLost,
    /// The payload of the publish is this reading.
    Decoded(RawMqttEvent),
    /// The payload of the publish is no reading.
    Undecodable,
    /// The channel took the event.
    Sent,
    /// The channel has no receiver any more.
    ReceiverGone,
}

/// The mathematical value of an [`Incoming`].
pub enum IncomingView {
    Publish { topic: Seq<char> },
    Other,
    ConnectionLost,
    Decoded(RawMqttEventView),
    Undecodable,
    Sent,
    ReceiverGone,
}

impl View for Incoming {
    type V = IncomingView;

    open spec fn view(&self) -> IncomingView {
        match self {
            Incoming::Publish { topic } => IncomingView::Publish { topic: topic@ },
            Incoming::Other => IncomingView::Other,
            Incoming::ConnectionLost => IncomingView::ConnectionLost,
            Incoming::Decoded(raw) => IncomingView::Decoded(raw@),
            Incoming::Undecodable => IncomingView::Undecodable,
            Incoming::Sent => IncomingView::Sent,
            Incoming::ReceiverGone => IncomingView::ReceiverGone,
        }
    }
}

/// What the driver of the handler is to do next.
#[derive(Debug, PartialEq, Eq)]
pub enum Directive {
    /// Poll the connection for the broker's next message.
    Poll,
    /// Decode the payload of the publish that was just reported.
    Decode,
    /// Send this event into the channel, waiting for room if it is full.
    Send(Event),
    /// Go on with what was already asked for.
    Wait,
    /// End the task and drop the sending end of the channel.
    Stop,
}

/// The mathematical value of a [`Directive`].
pub enum DirectiveView {
    Poll,
    Decode,
    Send(EventView),
    Wait,
    Stop,
}

impl View for Directive {
    type V = DirectiveView;

    open spec fn view(&self) -> DirectiveView {
        match self {
            Directive::Poll => DirectiveView::Poll,
            Directive::Decode => DirectiveView::Decode,
            Directive::Send(event) => DirectiveView::Send(event@),
            Directive::Wait => DirectiveView::Wait,
            Directive::Stop => DirectiveView::Stop,
        }
    }
}

/// What the handler wants written down about a step.
#[derive(Debug, Clone, Copy, PartialEq, Eq, Structural)]
pub enum Report {
    /// A publish arrived on a topic that no subscription names.
    UnknownTopic,
    /// A payload could not be decoded; the message is dropped.
    DecodeFailed,
    /// An event could not be sent; it is dropped.
    SendFailed,
    /// The connection was lost; no more events will come.
    ConnectionLost,
}

/// The answer of the handler to one report of its driver.
#[derive(Debug, PartialEq, Eq)]
pub struct Step {
    pub directive: Directive,
    pub report: Option<Report>,
}

/// The mathematical value of a [`Step`], with the state that follows it.
pub struct Transition {
    pub state: HandlerState,
    pub directive: DirectiveView,
    pub report: Option<Report>,
}

/// `at` is the first position whose subscription names `topic`.
pub open spec fn is_first_match(subscriptions: Seq<SubscriptionView>, topic: Seq<char>, at: int)
    -> bool {
    &&& 0 <= at < subscriptions.len()
    &&& subscriptions[at].topic == topic
    &&& forall|before: int| 0 <= before < at ==> (#[trigger] subscriptions[before]).topic != topic
}

/// The first position whose subscription names `topic`, if any does. Topics
/// are compared as they stand, character by character.
pub open spec fn first_match(subscriptions: Seq<SubscriptionView>, topic: Seq<char>) -> Option<
    int,
> {
    if exists|at: int| is_first_match(subscriptions, topic, at) {
        Some(choose|at: int| is_first_match(subscriptions, topic, at))
    } else {
        None
    }
}

/// A first match is the first match.
pub proof fn lemma_first_match_is_unique(
    subscriptions: Seq<SubscriptionView>,
    topic: Seq<char>,
    at: int,
)
    requires
        is_first_match(subscriptions, topic, at),
    ensures
        first_match(subscriptions, topic) == Some(at),
{
    let chosen = choose|at: int| is_first_match(subscriptions, topic, at);
    if chosen < at {
        assert(subscriptions[chosen].topic != topic);
    }
    if at < chosen {
        assert(subscriptions[at].topic != topic);
    }
}

/// Without a subscription on a topic there is no first match.
pub proof fn lemma_no_match(subscriptions: Seq<SubscriptionView>, topic: Seq<char>)
    requires
        forall|at: int| 0 <= at < subscriptions.len() ==> (#[trigger] subscriptions[at]).topic != topic,
    ensures
        first_match(subscriptions, topic) is None,
{
}

/// The handler's rule: from a state and a report to the next state, the
/// next thing to do, and what to write down.
///
/// While polling, a publish on a subscribed topic is decoded, a publish on
/// any other topic and every other message are passed over, and a lost
/// connection ends the handler. A decoded reading becomes the event of the
/// device of the matching subscription and is sent; a payload that is no
/// reading is dropped. After a send, successful or not, polling goes on. A
/// report that does not answer what was asked for changes nothing, and a
/// handler that has ended stays ended.
pub open spec fn handler_step(
    subscriptions: Seq<SubscriptionView>,
    state: HandlerState,
    incoming: IncomingView,
) -> Transition {
    match (state, incoming) {
        (HandlerState::Polling, IncomingView::Publish { topic }) => match first_match(
            subscriptions,
            topic,
        ) {
            Some(at) => Transition {
                state: HandlerState::Decoding(at as usize),
                directive: DirectiveView::Decode,
                report: None,
            },
            None => Transition {
                state: HandlerState::Polling,
                directive: DirectiveView::Poll,
                report: Some(Report::UnknownTopic),
            },
        },
        (HandlerState::Polling, IncomingView::Other) => Transition {
            state: HandlerState::Polling,
            directive: DirectiveView::Poll,
            report: None,
        },
        (HandlerState::Polling, IncomingView::ConnectionLost) => Transition {
            state: HandlerState::Terminated,
            directive: DirectiveView::Stop,
            report: Some(Report::ConnectionLost),
        },
        (HandlerState::Decoding(at), IncomingView::Decoded(raw)) => Transition {
            state: HandlerState::Sending,
            directive: DirectiveView::Send(
                Event::tagged(raw, subscriptions[at as int].device_name),
            ),
            report: None,
        },
        (HandlerState::Decoding(_), IncomingView::Undecodable) => Transition {
            state: HandlerState::Polling,
            directive: DirectiveView::Poll,
            report: Some(Report::DecodeFailed),
        },
        (HandlerState::Sending, IncomingView::Sent) => Transition {
            state: HandlerState::Polling,
            directive: DirectiveView::Poll,
            report: None,
        },
        (HandlerState::Sending, IncomingView::ReceiverGone) => Transition {
            state: HandlerState::Polling,
            directive: DirectiveView::Poll,
            report: Some(Report::SendFailed),
        },
        (HandlerState::Terminated, _) => Transition {
            state: HandlerState::Terminated,
            directive: DirectiveView::Stop,
            report: None,
        },
        (_, _) => Transition { state, directive: DirectiveView::Wait, report: None },
    }
}

/// A reading published on a subscribed topic becomes an event of the device
/// of the first subscription on that topic, with every measurement as it
/// was published: the handler asks for the payload to be decoded, and sends
/// the decoded reading under the name of that device.
pub proof fn lemma_publish_becomes_event(
    subscriptions: Seq<SubscriptionView>,
    topic: Seq<char>,
    raw: RawMqttEventView,
    at: int,
)
    requires
        subscriptions.len() <= usize::MAX,
        is_first_match(subscriptions, topic, at),
    ensures
        ({
            let matched = handler_step(
                subscriptions,
                HandlerState::Polling,
                IncomingView::Publish { topic },
            );
            let decoded = handler_step(subscriptions, matched.state, IncomingView::Decoded(raw));
            &&& matched.directive == DirectiveView::Decode
            &&& decoded.state == HandlerState::Sending
            &&& decoded.directive == DirectiveView::Send(
                EventView {
                    device_name: subscriptions[at].device_name,
                    battery: raw.battery,
                    humidity: raw.humidity,
                    temperature: raw.temperature,
                    voltage: raw.voltage,
                    linkquality: raw.linkquality,
                },
            )
        }),
{
    lemma_first_match_is_unique(subscriptions, topic, at);
}

/// Where no topic is subscribed twice, a reading published on the topic of
/// a subscription becomes an event of the device of that subscription.
pub proof fn lemma_topic_names_device(
    subscriptions: Seq<SubscriptionView>,
    raw: RawMqttEventView,
    at: int,
)
    requires
        subscriptions.len() <= usize::MAX,
        0 <= at < subscriptions.len(),
        forall|i: int, j: int|
            0 <= i < j < subscriptions.len() ==> (#[trigger] subscriptions[i]).topic != (
            #[trigger] subscriptions[j]).topic,
    ensures
        ({
            let matched = handler_step(
                subscriptions,
                HandlerState::Polling,
                IncomingView::Publish { topic: subscriptions[at].topic },
            );
            let decoded = handler_step(subscriptions, matched.state, IncomingView::Decoded(raw));
            decoded.directive == DirectiveView::Send(
                Event::tagged(raw, subscriptions[at].device_name),
            )
        }),
{
    assert(is_first_match(subscriptions, subscriptions[at].topic, at)) by {
        assert forall|before: int| 0 <= before < at implies (
        #[trigger] subscriptions[before]).topic != subscriptions[at].topic by {
            assert(subscriptions[before].topic != subscriptions[at].topic);
        }
    }
    lemma_publish_becomes_event(subscriptions, subscriptions[at].topic, raw, at);
}

/// A publish on a topic that no subscription names is dropped: no event is
/// made of it, the drop is written down, and the handler polls on.
pub proof fn lemma_unknown_topic_is_dropped(subscriptions: Seq<SubscriptionView>, topic: Seq<char>)
    requires
        forall|at: int|
            0 <= at < subscriptions.len() ==> (#[trigger] subscriptions[at]).topic != topic,
    ensures
        handler_step(subscriptions, HandlerState::Polling, IncomingView::Publish { topic })
            == (Transition {
            state: HandlerState::Polling,
            directive: DirectiveView::Poll,
            report: Some(Report::UnknownTopic),
        }),
{
    lemma_no_match(subscriptions, topic);
}

/// Only a lost connection ends a handler, and it ends it for good: a
/// payload that cannot be decoded and an event that cannot be sent are
/// written down and polling goes on, and an ended handler answers every
/// report by stopping.
pub proof fn lemma_only_connection_loss_ends(
    subscriptions: Seq<SubscriptionView>,
    state: HandlerState,
    incoming: IncomingView,
)
    ensures
        handler_step(subscriptions, state, incoming).state is Terminated <==> (state
            is Terminated || (state is Polling && incoming is ConnectionLost)),
        state is Terminated ==> handler_step(subscriptions, state, incoming).directive
            is Stop,
        state is Decoding && incoming is Undecodable ==> handler_step(
            subscriptions,
            state,
            incoming,
        ).state is Polling,
        state is Sending && incoming is ReceiverGone ==> handler_step(
            subscriptions,
            state,
            incoming,
        ).state is Polling,
{
}

/// While an event waits for room in the channel, the handler asks for
/// nothing else: until the driver reports that the send is over, it does
/// not poll the broker, and the event in flight is neither replaced nor
/// given up.
pub proof fn lemma_sending_holds_polling(
    subscriptions: Seq<SubscriptionView>,
    incoming: IncomingView,
)
    requires
        !(incoming is Sent),
        !(incoming is ReceiverGone),
    ensures
        handler_step(subscriptions, HandlerState::Sending, incoming) == (Transition {
            state: HandlerState::Sending,
            directive: DirectiveView::Wait,
            report: None,
        }),
{
}

/// One publish as the driver of a handler meets it: its topic and, where
/// the payload is a reading, the reading.
pub struct Delivery {
    pub topic: Seq<char>,
    pub payload: Option<RawMqttEventView>,
}

/// What the driver reports in the course of one publish, on a channel that
/// takes every event: the publish; then, if its topic is subscribed, how
/// the decoding went; then, if there was a reading, that it was sent.
pub open spec fn delivery_reports(subscriptions: Seq<SubscriptionView>, delivery: Delivery) -> Seq<
    IncomingView,
> {
    let publish = IncomingView::Publish { topic: delivery.topic };
    match (first_match(subscriptions, delivery.topic), delivery.payload) {
        (None, _) => seq![publish],
        (Some(_), None) => seq![publish, IncomingView::Undecodable],
        (Some(_), Some(raw)) => seq![publish, IncomingView::Decoded(raw), IncomingView::Sent],
    }
}

/// The event that one publish is owed: the reading under the name of the
/// device of the first subscription on its topic, if there is such a
/// subscription and the payload is a reading.
pub open spec fn delivery_event(subscriptions: Seq<SubscriptionView>, delivery: Delivery) -> Option<
    EventView,
> {
    match (first_match(subscriptions, delivery.topic), delivery.payload) {
        (Some(at), Some(raw)) => Some(Event::tagged(raw, subscriptions[at].device_name)),
        _ => None,
    }
}

/// What the driver reports in the course of a sequence of publishes.
pub open spec fn reports(subscriptions: Seq<SubscriptionView>, deliveries: Seq<Delivery>) -> Seq<
    IncomingView,
>
    decreases deliveries.len(),
{
    if deliveries.len() == 0 {
        Seq::empty()
    } else {
        delivery_reports(subscriptions, deliveries[0]) + reports(
            subscriptions,
            deliveries.drop_first(),
        )
    }
}

/// The events that a sequence of publishes is owed, in the order of the
/// publishes.
pub open spec fn owed_events(subscriptions: Seq<SubscriptionView>, deliveries: Seq<Delivery>)
    -> Seq<EventView>
    decreases deliveries.len(),
{
    if deliveries.len() == 0 {
        Seq::empty()
    } else {
        match delivery_event(subscriptions, deliveries[0]) {
            Some(event) => seq![event] + owed_events(subscriptions, deliveries.drop_first()),
            None => owed_events(subscriptions, deliveries.drop_first()),
        }
    }
}

/// The steps that a handler takes, one for each report, from a state on.
pub open spec fn transitions(
    subscriptions: Seq<SubscriptionView>,
    state: HandlerState,
    incoming: Seq<IncomingView>,
) -> Seq<Transition>
    decreases incoming.len(),
{
    if incoming.len() == 0 {
        Seq::empty()
    } else {
        let first = handler_step(subscriptions, state, incoming[0]);
        seq![first] + transitions(subscriptions, first.state, incoming.drop_first())
    }
}

/// The state of a handler after a sequence of reports.
pub open spec fn state_after(
    subscriptions: Seq<SubscriptionView>,
    state: HandlerState,
    incoming: Seq<IncomingView>,
) -> HandlerState
    decreases incoming.len(),
{
    if incoming.len() == 0 {
        state
    } else {
        state_after(
            subscriptions,
            handler_step(subscriptions, state, incoming[0]).state,
            incoming.drop_first(),
        )
    }
}

/// The events that a sequence of steps sends, in their order.
pub open spec fn sent(steps: Seq<Transition>) -> Seq<EventView>
    decreases steps.len(),
{
    if steps.len() == 0 {
        Seq::empty()
    } else {
        match steps[0].directive {
            DirectiveView::Send(event) => seq![event] + sent(steps.drop_first()),
            _ => sent(steps.drop_first()),
        }
    }
}

proof fn lemma_transitions_append(
    subscriptions: Seq<SubscriptionView>,
    state: HandlerState,
    head: Seq<IncomingView>,
    tail: Seq<IncomingView>,
)
    ensures
        transitions(subscriptions, state, head + tail) == transitions(subscriptions, state, head)
            + transitions(subscriptions, state_after(subscriptions, state, head), tail),
        state_after(subscriptions, state, head + tail) == state_after(
            subscriptions,
            state_after(subscriptions, state, head),
            tail,
        ),
    decreases head.len(),
{
    if head.len() == 0 {
        assert(head + tail =~= tail);
        assert(transitions(subscriptions, state, head) =~= Seq::<Transition>::empty());
        assert(transitions(subscriptions, state, head) + transitions(subscriptions, state, tail)
            =~= transitions(subscriptions, state, tail));
    } else {
        let first = handler_step(subscriptions, state, head[0]);
        assert((head + tail)[0] == head[0]);
        assert((head + tail).drop_first() =~= head.drop_first() + tail);
        lemma_transitions_append(subscriptions, first.state, head.drop_first(), tail);
        assert(transitions(subscriptions, state, head + tail) =~= transitions(
            subscriptions,
            state,
            head,
        ) + transitions(subscriptions, state_after(subscriptions, state, head), tail));
    }
}

proof fn lemma_sent_append(head: Seq<Transition>, tail: Seq<Transition>)
    ensures
        sent(head + tail) == sent(head) + sent(tail),
    decreases head.len(),
{
    if head.len() == 0 {
        assert(head + tail =~= tail);
        assert(sent(head) + sent(tail) =~= sent(tail));
    } else {
        assert((head + tail)[0] == head[0]);
        assert((head + tail).drop_first() =~= head.drop_first() + tail);
        lemma_sent_append(head.drop_first(), tail);
        assert(sent(head + tail) =~= sent(head) + sent(tail));
    }
}

proof fn lemma_one_delivery(subscriptions: Seq<SubscriptionView>, delivery: Delivery)
    requires
        subscriptions.len() <= usize::MAX,
    ensures
        ({
            let steps = transitions(
                subscriptions,
                HandlerState::Polling,
                delivery_reports(subscriptions, delivery),
            );
            &&& state_after(
                subscriptions,
                HandlerState::Polling,
                delivery_reports(subscriptions, delivery),
            ) == HandlerState::Polling
            &&& sent(steps) == match delivery_event(subscriptions, delivery) {
                Some(event) => seq![event],
                None => Seq::<EventView>::empty(),
            }
        }),
{
    reveal_with_fuel(transitions, 4);
    reveal_with_fuel(state_after, 4);
    reveal_with_fuel(sent, 4);
    let polling = HandlerState::Polling;
    let publish = IncomingView::Publish { topic: delivery.topic };
    let incoming = delivery_reports(subscriptions, delivery);
    let steps = transitions(subscriptions, polling, incoming);
    let matched = handler_step(subscriptions, polling, publish);
    match first_match(subscriptions, delivery.topic) {
        None => {
            assert(incoming =~= seq![publish]);
            assert(incoming.drop_first() =~= Seq::<IncomingView>::empty());
            assert(steps =~= seq![matched]);
            assert(steps.drop_first() =~= Seq::<Transition>::empty());
            assert(sent(steps) =~= Seq::<EventView>::empty());
        },
        Some(at) => {
            assert(is_first_match(subscriptions, delivery.topic, at));
            assert(matched.state == HandlerState::Decoding(at as usize));
            match delivery.payload {
                None => {
                    let dropped = handler_step(subscriptions, matched.state, IncomingView::Undecodable);
                    assert(incoming =~= seq![publish, IncomingView::Undecodable]);
                    assert(incoming.drop_first() =~= seq![IncomingView::Undecodable]);
                    assert(incoming.drop_first().drop_first() =~= Seq::<IncomingView>::empty());
                    assert(steps =~= seq![matched, dropped]);
                    assert(steps.drop_first() =~= seq![dropped]);
                    assert(steps.drop_first().drop_first() =~= Seq::<Transition>::empty());
                    assert(sent(steps) =~= Seq::<EventView>::empty());
                },
                Some(raw) => {
                    let decoded = handler_step(
                        subscriptions,
                        matched.state,
                        IncomingView::Decoded(raw),
                    );
                    let done = handler_step(subscriptions, decoded.state, IncomingView::Sent);
                    assert(incoming =~= seq![publish, IncomingView::Decoded(raw), IncomingView::Sent]);
                    assert(incoming.drop_first() =~= seq![
                        IncomingView::Decoded(raw),
                        IncomingView::Sent,
                    ]);
                    assert(incoming.drop_first().drop_first() =~= seq![IncomingView::Sent]);
                    assert(incoming.drop_first().drop_first().drop_first() =~= Seq::<
                        IncomingView,
                    >::empty());
                    assert(steps =~= seq![matched, decoded, done]);
                    assert(steps.drop_first() =~= seq![decoded, done]);
                    assert(steps.drop_first().drop_first() =~= seq![done]);
                    assert(steps.drop_first().drop_first().drop_first() =~= Seq::<
                        Transition,
                    >::empty());
                    let event = Event::tagged(raw, subscriptions[at].device_name);
                    assert(decoded.directive == DirectiveView::Send(event));
                    assert(sent(steps) =~= seq![event]);
                },
            }
        },
    }
}

/// Every reading that is published on a subscribed topic becomes an event,
/// nothing else does, and the events leave the handler in the order in
/// which the publishes arrived: over any sequence of publishes, on a
/// channel that takes every event, the handler sends exactly the events
/// that the publishes are owed, and is polling again at the end.
pub proof fn lemma_events_follow_deliveries(
    subscriptions: Seq<SubscriptionView>,
    deliveries: Seq<Delivery>,
)
    requires
        subscriptions.len() <= usize::MAX,
    ensures
        sent(
            transitions(subscriptions, HandlerState::Polling, reports(subscriptions, deliveries)),
        ) == owed_events(subscriptions, deliveries),
        state_after(subscriptions, HandlerState::Polling, reports(subscriptions, deliveries))
            == HandlerState::Polling,
    decreases deliveries.len(),
{
    let polling = HandlerState::Polling;
    if deliveries.len() == 0 {
        assert(reports(subscriptions, deliveries) =~= Seq::<IncomingView>::empty());
        assert(transitions(subscriptions, polling, reports(subscriptions, deliveries))
            =~= Seq::<Transition>::empty());
    } else {
        let head = delivery_reports(subscriptions, deliveries[0]);
        let tail = reports(subscriptions, deliveries.drop_first());
        lemma_one_delivery(subscriptions, deliveries[0]);
        lemma_events_follow_deliveries(subscriptions, deliveries.drop_first());
        lemma_transitions_append(subscriptions, polling, head, tail);
        lemma_sent_append(
            transitions(subscriptions, polling, head),
            transitions(subscriptions, polling, tail),
        );
        match delivery_event(subscriptions, deliveries[0]) {
            Some(event) => {},
            None => {
                assert(Seq::<EventView>::empty() + owed_events(
                    subscriptions,
                    deliveries.drop_first(),
                ) =~= owed_events(subscriptions, deliveries.drop_first()));
            },
        }
    }
}

/// The task behind a started source: it owns the subscriptions and decides,
/// message by message, what becomes an event.
pub struct SubscriptionHandler {
    subscriptions: Vec<Subscription>,
    state: HandlerState,
}

/// The mathematical value of a [`SubscriptionHandler`].
pub struct SubscriptionHandlerView {
    pub subscriptions: Seq<SubscriptionView>,
    pub state: HandlerState,
}

impl View for SubscriptionHandler {
    type V = SubscriptionHandlerView;

    closed spec fn view(&self) -> SubscriptionHandlerView {
        SubscriptionHandlerView {
            subscriptions: subscriptions_view(self.subscriptions@),
            state: self.state,
        }
    }
}

impl SubscriptionHandler {
    /// A handler that decodes holds the position of a subscription.
    pub open spec fn wf(&self) -> bool {
        self@.state matches HandlerState::Decoding(at) ==> at < self@.subscriptions.len()
    }

    /// A handler for these subscriptions, about to poll.
    pub fn new(subscriptions: Vec<Subscription>) -> (handler: Self)
        ensures
            handler.wf(),
            handler@.subscriptions == subscriptions_view(subscriptions@),
            handler@.state == HandlerState::Polling,
    {
        SubscriptionHandler { subscriptions, state: HandlerState::Polling }
    }

    /// What the handler is doing.
    pub fn state(&self) -> (state: HandlerState)
        ensures
            state == self@.state,
    {
        self.state
    }

    /// The subscription that a publish on `topic` belongs to: the first one
    /// that names exactly this topic.
    pub fn find(&self, topic: &str) -> (found: Option<usize>)
        ensures
            match found {
                Some(at) => first_match(self@.subscriptions, topic@) == Some(at as int),
                None => first_match(self@.subscriptions, topic@) is None,
            },
    {
        let wanted = topic.to_owned();
        let mut at: usize = 0;
        while at < self.subscriptions.len()
            invariant
                at <= self.subscriptions.len(),
                wanted@ == topic@,
                forall|before: int|
                    0 <= before < at ==> (#[trigger] self@.subscriptions[before]).topic != topic@,
            decreases self.subscriptions.len() - at,
        {
            if self.subscriptions[at].topic == wanted {
                proof {
                    assert(self@.subscriptions[at as int].topic == topic@);
                    lemma_first_match_is_unique(self@.subscriptions, topic@, at as int);
                }
                return Some(at);
            }
            at += 1;
        }
        proof {
            lemma_no_match(self@.subscriptions, topic@);
        }
        None
    }

    /// Takes one report of the driver and says what to do next.
    pub fn step(&mut self, incoming: Incoming) -> (step: Step)
        requires
            old(self).wf(),
        ensures
            final(self).wf(),
            final(self)@.subscriptions == old(self)@.subscriptions,
            (Transition {
                state: final(self)@.state,
                directive: step.directive@,
                report: step.report,
            }) == handler_step(old(self)@.subscriptions, old(self)@.state, incoming@),
    {
        match (self.state, incoming) {
            (HandlerState::Polling, Incoming::Publish { topic }) => {
                match self.find(topic.as_str()) {
                    Some(at) => {
                        self.state = HandlerState::Decoding(at);
                        Step { directive: Directive::Decode, report: None }
                    },
                    None => Step { directive: Directive::Poll, report: Some(Report::UnknownTopic) },
                }
            },
            (HandlerState::Polling, Incoming::Other) => Step {
                directive: Directive::Poll,
                report: None,
            },
            (HandlerState::Polling, Incoming::ConnectionLost) => {
                self.state = HandlerState::Terminated;
                Step { directive: Directive::Stop, report: Some(Report::ConnectionLost) }
            },
            (HandlerState::Decoding(at), Incoming::Decoded(raw)) => {
                let event = Event::from_mqtt(raw, self.subscriptions[at].device_name.as_str());
                self.state = HandlerState::Sending;
                Step { directive: Directive::Send(event), report: None }
            },
            (HandlerState::Decoding(_), Incoming::Undecodable) => {
                self.state = HandlerState::Polling;
                Step { directive: Directive::Poll, report: Some(Report::DecodeFailed) }
            },
            (HandlerState::Sending, Incoming::Sent) => {
                self.state = HandlerState::Polling;
                Step { directive: Directive::Poll, report: None }
            },
            (HandlerState::Sending, Incoming::ReceiverGone) => {
                self.state = HandlerState::Polling;
                Step { directive: Directive::Poll, report: Some(Report::SendFailed) }
            },
            (HandlerState::Terminated, _) => Step { directive: Directive::Stop, report: None },
            (_, _) => Step { directive: Directive::Wait, report: None },
        }
    }
}

} // verus!
