use vstd::prelude::*;

use crate::bytes_eq;
use crate::config::Config;
use crate::copy_bytes;
use crate::session::MqttSessionState;
use crate::session::PublishAction;
use crate::session::SubscribeAction;
use crate::topic::topic_to_ke_spec;
use crate::BridgeError;

verus! {

/// Connection lifecycle of one MQTT client: a fresh TCP connection starts
/// in `Connecting`, a successful handshake moves it to `Connected`, and a
/// disconnect, close, peer loss or protocol violation ends it in the
/// terminal `Closed`. There is no reconnection: a new connection always
/// starts a fresh state machine.
#[derive(Clone, Copy, Debug, PartialEq, Eq, Structural)]
pub enum ConnState {
    Connecting,
    Connected,
    Closed,
}

/// The adapter's unified error: a single closed type wrapping either a
/// translation failure or a pub/sub network failure.
#[derive(Clone, Copy, Debug, PartialEq, Eq, Structural)]
pub struct MqttPluginError {
    pub err: BridgeError,
}

impl core::convert::From<BridgeError> for MqttPluginError {
    fn from(e: BridgeError) -> (r: MqttPluginError) {
        MqttPluginError { err: e }
    }
}

impl vstd::std_specs::convert::FromSpecImpl<BridgeError> for MqttPluginError {
    open spec fn obeys_from_spec() -> bool {
        true
    }

    open spec fn from_spec(e: BridgeError) -> MqttPluginError {
        MqttPluginError { err: e }
    }
}

/// Positive MQTT 5 publish acknowledgment: carries no error.
#[derive(Clone, Copy, Debug, PartialEq, Eq, Structural)]
pub struct PublishAck {}

impl PublishAck {
    /// MQTT 5 has negative acknowledgments, so an adapter error could in
    /// principle become a soft negative ack; this conversion nevertheless
    /// refuses every error, so each publish failure stays a hard
    /// connection-level error. A known sharp edge, kept deliberately.
    pub fn try_from(e: MqttPluginError) -> (r: Result<PublishAck, MqttPluginError>)
        ensures
            r == Result::<PublishAck, MqttPluginError>::Err(e),
    {
        Err(e)
    }
}

/// MQTT quality-of-service levels a client may request. The bridge honors
/// only `AtMostOnce`, whatever was asked.
#[derive(Clone, Copy, Debug, PartialEq, Eq, Structural)]
pub enum QoS {
    AtMostOnce,
    AtLeastOnce,
    ExactlyOnce,
}

/// One entry of an MQTT subscribe packet: the requested topic filter and
/// quality level.
pub struct SubscribeRequest {
    pub topic: Vec<u8>,
    pub qos: QoS,
}

/// Inbound MQTT control events, shared by both protocol versions; `Auth`
/// exists in the version 5 vocabulary only.
pub enum ControlEvent {
    Ping,
    Disconnect,
    Subscribe(Vec<SubscribeRequest>),
    Unsubscribe(Vec<Vec<u8>>),
    Closed,
    Error(MqttPluginError),
    ProtocolError,
    Auth,
}

/// What the adapter asks the surrounding process to do with the client's
/// outbound sink.
#[derive(Clone, Copy, Debug, PartialEq, Eq, Structural)]
pub enum SinkOp {
    KeepOpen,
    Close,
    ForceClose,
}

/// A network subscriber the surrounding process must declare: the MQTT
/// topic the client asked for and the key expression it translates to.
/// Once declared, the registration is recorded in the session table.
pub struct Registration {
    pub topic: Vec<u8>,
    pub key: Vec<u8>,
}

/// The version 3 reply vocabulary: acknowledge, or initiate a disconnect
/// (version 3 has no reason codes and no negative acknowledgments).
#[derive(Clone, Copy, Debug, PartialEq, Eq, Structural)]
pub enum V3Reply {
    Ack,
    Disconnect,
}

/// MQTT 5 disconnect/acknowledgment reason codes the bridge uses.
#[derive(Clone, Copy, Debug, PartialEq, Eq, Structural)]
pub enum DisconnectReasonCode {
    ImplementationSpecificError,
    UnspecifiedError,
    ProtocolError,
}

/// The version 5 reply vocabulary: a plain acknowledgment, an
/// acknowledgment carrying a reason code, or a disconnect carrying one.
#[derive(Clone, Copy, Debug, PartialEq, Eq, Structural)]
pub enum V5Reply {
    Ack,
    AckWithReason(DisconnectReasonCode),
    DisconnectWith(DisconnectReasonCode),
}

/// Everything a version 3 control event asks of the surrounding process.
pub struct ControlOutcomeV3 {
    pub reply: V3Reply,
    pub sink: SinkOp,
    pub granted: Vec<QoS>,
    pub registrations: Vec<Registration>,
}

/// Everything a version 5 control event asks of the surrounding process.
pub struct ControlOutcomeV5 {
    pub reply: V5Reply,
    pub sink: SinkOp,
    pub granted: Vec<QoS>,
    pub registrations: Vec<Registration>,
}

/// One MQTT connection as the bridge sees it: the lifecycle state and the
/// per-connection session state.
pub struct Connection {
    pub state: ConnState,
    pub session: MqttSessionState,
}

/// The registrations a subscribe batch must produce, relative to session
/// `s` and the requested `topics`: every registration is for a distinct
/// requested topic that needs registering, carries its translated key, and
/// every requested topic that needs registering is covered.
pub open spec fn registrations_ok(
    s: MqttSessionState,
    topics: Seq<Seq<u8>>,
    regs: Seq<Registration>,
) -> bool {
    &&& forall|i: int|
        0 <= i < regs.len() ==> s.register_needed(#[trigger] regs[i].topic@) && topics.contains(
            regs[i].topic@,
        ) && regs[i].key@ == topic_to_ke_spec(regs[i].topic@, s.config.scope_view())
    &&& forall|j: int|
        0 <= j < topics.len() && s.register_needed(#[trigger] topics[j]) ==> exists|i: int|
            0 <= i < regs.len() && (#[trigger] regs[i].topic@) == topics[j]
    &&& forall|i: int, j: int| 0 <= i < j < regs.len() ==> regs[i].topic@ != regs[j].topic@
}

/// The topics of a subscribe batch, in packet order.
pub open spec fn request_topics(reqs: Seq<SubscribeRequest>) -> Seq<Seq<u8>> {
    reqs.map_values(|q: SubscribeRequest| q.topic@)
}

/// Accepts a version 3 handshake. There is no credential check: every
/// handshake succeeds and binds a fresh session to the announced client
/// identifier; the connection is acknowledged and becomes `Connected`.
pub fn handshake_v3(client_id: Vec<u8>, config: Config) -> (c: Connection)
    ensures
        c.state is Connected,
        c.session.wf(),
        c.session.subs@.len() == 0,
        c.session.client_id == client_id,
        c.session.config == config,
{
    Connection { state: ConnState::Connected, session: MqttSessionState::new(client_id, config) }
}

/// Accepts a version 5 handshake; identical to version 3 except for the
/// acknowledgment packet the surrounding process sends.
pub fn handshake_v5(client_id: Vec<u8>, config: Config) -> (c: Connection)
    ensures
        c.state is Connected,
        c.session.wf(),
        c.session.subs@.len() == 0,
        c.session.client_id == client_id,
        c.session.config == config,
{
    Connection { state: ConnState::Connected, session: MqttSessionState::new(client_id, config) }
}

/// Handles a version 3 publish: delegates the routing decision to the
/// session; version 3 has no application-level acknowledgment (silent
/// success at quality level 0), and no negative-acknowledgment channel, so
/// a failure is wrapped and surfaces as a connection-level error.
pub fn publish_v3(c: &Connection, topic: &Vec<u8>, payload: &Vec<u8>) -> (r: Result<
    PublishAction,
    MqttPluginError,
>)
    requires
        c.state is Connected,
    ensures
        !c.session.topic_allowed(topic@) ==> (r matches Ok(a) && a is NoEffect),
        c.session.topic_allowed(topic@) && c.session.topic_translates(topic@) ==> (r matches Ok(a)
            && a matches PublishAction::Put { key, payload: pl, encoding } && key@
            == topic_to_ke_spec(topic@, c.session.config.scope_view()) && pl@ == payload@
            && encoding == crate::encoding::guess_encoding_spec(payload@)),
        c.session.topic_allowed(topic@) && !c.session.topic_translates(topic@) ==> (
        r matches Err(e) && e.err is InvalidTopic),
{
    match c.session.route_mqtt_to_zenoh(topic, payload) {
        Ok(a) => Ok(a),
        Err(e) => Err(MqttPluginError::from(e)),
    }
}

/// Handles a version 5 publish: the same routing decision, but success is
/// answered with a positive acknowledgment carrying no error. A failure is
/// wrapped; the negative-acknowledgment conversion (`PublishAck::try_from`)
/// refuses it, so it too surfaces as a hard error.
pub fn publish_v5(c: &Connection, topic: &Vec<u8>, payload: &Vec<u8>) -> (r: Result<
    (PublishAction, PublishAck),
    MqttPluginError,
>)
    requires
        c.state is Connected,
    ensures
        !c.session.topic_allowed(topic@) ==> (r matches Ok(p) && p.0 is NoEffect),
        c.session.topic_allowed(topic@) && c.session.topic_translates(topic@) ==> (r matches Ok(p)
            && p.0 matches PublishAction::Put { key, payload: pl, encoding } && key@
            == topic_to_ke_spec(topic@, c.session.config.scope_view()) && pl@ == payload@
            && encoding == crate::encoding::guess_encoding_spec(payload@)),
        c.session.topic_allowed(topic@) && !c.session.topic_translates(topic@) ==> (
        r matches Err(e) && e.err is InvalidTopic),
{
    match c.session.route_mqtt_to_zenoh(topic, payload) {
        Ok(a) => Ok((a, PublishAck {  })),
        Err(e) => Err(MqttPluginError::from(e)),
    }
}

/// Decides one subscribe batch against the current session: grants
/// `AtMostOnce` for every request regardless of what was asked, and
/// collects one registration for each distinct requested topic that needs
/// one. The session itself is not touched; entries are recorded one by one
/// as the surrounding process completes each network registration.
fn decide_subscriptions(s: &MqttSessionState, reqs: &Vec<SubscribeRequest>) -> (r: (
    Vec<QoS>,
    Vec<Registration>,
))
    ensures
        r.0@.len() == reqs@.len(),
        forall|i: int| 0 <= i < r.0@.len() ==> r.0@[i] is AtMostOnce,
        registrations_ok(*s, request_topics(reqs@), r.1@),
{
    let ghost topics = request_topics(reqs@);
    let mut granted: Vec<QoS> = Vec::new();
    let mut regs: Vec<Registration> = Vec::new();
    let mut n: usize = 0;
    while n < reqs.len()
        invariant
            n <= reqs.len(),
            topics == request_topics(reqs@),
            topics.len() == reqs@.len(),
            granted@.len() == n,
            forall|i: int| 0 <= i < granted@.len() ==> granted@[i] is AtMostOnce,
            forall|i: int|
                0 <= i < regs@.len() ==> s.register_needed(#[trigger] regs@[i].topic@)
                    && topics.contains(regs@[i].topic@) && regs@[i].key@ == topic_to_ke_spec(
                    regs@[i].topic@,
                    s.config.scope_view(),
                ),
            forall|j: int|
                0 <= j < n && s.register_needed(#[trigger] topics[j]) ==> exists|i: int|
                    0 <= i < regs@.len() && (#[trigger] regs@[i].topic@) == topics[j],
            forall|i: int, j: int| 0 <= i < j < regs@.len() ==> regs@[i].topic@ != regs@[j].topic@,
        decreases reqs.len() - n,
    {
        granted.push(QoS::AtMostOnce);
        let topic = &reqs[n].topic;
        assert(topics[n as int] == topic@);
        let ghost regs_pre = regs@;
        match s.map_mqtt_subscription(topic) {
            SubscribeAction::Register { key } => {
                let mut already: bool = false;
                let mut m: usize = 0;
                while m < regs.len()
                    invariant
                        m <= regs.len(),
                        already <==> exists|i: int|
                            0 <= i < m && (#[trigger] regs@[i].topic@) == topic@,
                    decreases regs.len() - m,
                {
                    if bytes_eq(&regs[m].topic, topic) {
                        already = true;
                    }
                    m = m + 1;
                }
                if !already {
                    regs.push(Registration { topic: copy_bytes(topic), key });
                    assert(regs@[regs@.len() - 1].topic@ == topic@);
                    assert(topics.contains(topics[n as int]));
                }
            },
            SubscribeAction::NoEffect => {
                assert(!s.register_needed(topics[n as int]));
            },
        }
        proof {
            assert forall|j: int|
                0 <= j < n + 1 && s.register_needed(#[trigger] topics[j]) implies exists|i: int|
                0 <= i < regs@.len() && (#[trigger] regs@[i].topic@) == topics[j] by {
                if regs@ == regs_pre {
                    if j < n {
                        let i0 = choose|i: int|
                            0 <= i < regs_pre.len() && (#[trigger] regs_pre[i].topic@)
                                == topics[j];
                        assert(regs@[i0].topic@ == topics[j]);
                    } else {
                        let i0 = choose|i: int|
                            0 <= i < regs_pre.len() && (#[trigger] regs_pre[i].topic@) == topic@;
                        assert(regs@[i0].topic@ == topics[j]);
                    }
                } else {
                    if j < n {
                        let i0 = choose|i: int|
                            0 <= i < regs_pre.len() && (#[trigger] regs_pre[i].topic@)
                                == topics[j];
                        assert(regs@[i0] == regs_pre[i0]);
                        assert(regs@[i0].topic@ == topics[j]);
                    } else {
                        assert(regs@[regs@.len() - 1].topic@ == topics[j]);
                    }
                }
            };
        }
        n = n + 1;
    }
    (granted, regs)
}

/// Drives the version 3 state machine for one control event. `Auth` is not
/// in the version 3 vocabulary. The session's subscription table is never
/// mutated here; in particular an unsubscribe only acknowledges, it removes
/// nothing and delivery continues (a known quirk, kept deliberately).
pub fn control_v3(c: &mut Connection, event: &ControlEvent) -> (r: ControlOutcomeV3)
    requires
        old(c).state is Connected,
        !(event is Auth),
    ensures
        final(c).session == old(c).session,
        event is Ping ==> final(c).state is Connected && r.reply is Ack && r.sink is KeepOpen,
        event is Disconnect ==> final(c).state is Closed && r.reply is Ack && r.sink is Close,
        (event matches ControlEvent::Subscribe(reqs) ==> final(c).state is Connected
            && r.reply is Ack && r.sink is KeepOpen && r.granted@.len() == reqs@.len() && (forall|
            i: int,
        | 0 <= i < r.granted@.len() ==> r.granted@[i] is AtMostOnce) && registrations_ok(
            old(c).session,
            request_topics(reqs@),
            r.registrations@,
        )),
        event is Unsubscribe ==> final(c).state is Connected && r.reply is Ack
            && r.sink is KeepOpen,
        event is Closed ==> final(c).state is Closed && r.reply is Ack && r.sink is ForceClose,
        event is Error ==> final(c).state is Connected && r.reply is Ack && r.sink is KeepOpen,
        event is ProtocolError ==> final(c).state is Closed && r.reply is Disconnect
            && r.sink is KeepOpen,
        !(event is Subscribe) ==> r.registrations@.len() == 0 && r.granted@.len() == 0,
{
    match event {
        ControlEvent::Ping => ControlOutcomeV3 {
            reply: V3Reply::Ack,
            sink: SinkOp::KeepOpen,
            granted: Vec::new(),
            registrations: Vec::new(),
        },
        ControlEvent::Disconnect => {
            c.state = ConnState::Closed;
            ControlOutcomeV3 {
                reply: V3Reply::Ack,
                sink: SinkOp::Close,
                granted: Vec::new(),
                registrations: Vec::new(),
            }
        },
        ControlEvent::Subscribe(reqs) => {
            let (granted, registrations) = decide_subscriptions(&c.session, reqs);
            ControlOutcomeV3 { reply: V3Reply::Ack, sink: SinkOp::KeepOpen, granted, registrations }
        },
        ControlEvent::Unsubscribe(_) => ControlOutcomeV3 {
            reply: V3Reply::Ack,
            sink: SinkOp::KeepOpen,
            granted: Vec::new(),
            registrations: Vec::new(),
        },
        ControlEvent::Closed => {
            c.state = ConnState::Closed;
            ControlOutcomeV3 {
                reply: V3Reply::Ack,
                sink: SinkOp::ForceClose,
                granted: Vec::new(),
                registrations: Vec::new(),
            }
        },
        ControlEvent::Error(_) => ControlOutcomeV3 {
            reply: V3Reply::Ack,
            sink: SinkOp::KeepOpen,
            granted: Vec::new(),
            registrations: Vec::new(),
        },
        ControlEvent::ProtocolError => {
            c.state = ConnState::Closed;
            ControlOutcomeV3 {
                reply: V3Reply::Disconnect,
                sink: SinkOp::KeepOpen,
                granted: Vec::new(),
                registrations: Vec::new(),
            }
        },
        ControlEvent::Auth => unreached(),
    }
}

/// Drives the version 5 state machine for one control event. It differs
/// from version 3 in its reason-code vocabulary and in the `Auth` event,
/// which is always rejected with an implementation-specific-error
/// disconnect (authentication is not implemented). As in version 3, the
/// subscription table is never mutated here and an unsubscribe removes
/// nothing.
pub fn control_v5(c: &mut Connection, event: &ControlEvent) -> (r: ControlOutcomeV5)
    requires
        old(c).state is Connected,
    ensures
        final(c).session == old(c).session,
        event is Auth ==> final(c).state is Closed && r.reply == V5Reply::DisconnectWith(
            DisconnectReasonCode::ImplementationSpecificError,
        ) && r.sink is KeepOpen,
        event is Ping ==> final(c).state is Connected && r.reply is Ack && r.sink is KeepOpen,
        event is Disconnect ==> final(c).state is Closed && r.reply is Ack && r.sink is Close,
        (event matches ControlEvent::Subscribe(reqs) ==> final(c).state is Connected
            && r.reply is Ack && r.sink is KeepOpen && r.granted@.len() == reqs@.len() && (forall|
            i: int,
        | 0 <= i < r.granted@.len() ==> r.granted@[i] is AtMostOnce) && registrations_ok(
            old(c).session,
            request_topics(reqs@),
            r.registrations@,
        )),
        event is Unsubscribe ==> final(c).state is Connected && r.reply is Ack
            && r.sink is KeepOpen,
        event is Closed ==> final(c).state is Closed && r.reply is Ack && r.sink is Close,
        event is Error ==> final(c).state is Connected && r.reply == V5Reply::AckWithReason(
            DisconnectReasonCode::UnspecifiedError,
        ) && r.sink is KeepOpen,
        event is ProtocolError ==> final(c).state is Closed && r.reply == V5Reply::AckWithReason(
            DisconnectReasonCode::ProtocolError,
        ) && r.sink is Close,
        !(event is Subscribe) ==> r.registrations@.len() == 0 && r.granted@.len() == 0,
{
    match event {
        ControlEvent::Auth => {
            c.state = ConnState::Closed;
            ControlOutcomeV5 {
                reply: V5Reply::DisconnectWith(DisconnectReasonCode::ImplementationSpecificError),
                sink: SinkOp::KeepOpen,
                granted: Vec::new(),
                registrations: Vec::new(),
            }
        },
        ControlEvent::Ping => ControlOutcomeV5 {
            reply: V5Reply::Ack,
            sink: SinkOp::KeepOpen,
            granted: Vec::new(),
            registrations: Vec::new(),
        },
        ControlEvent::Disconnect => {
            c.state = ConnState::Closed;
            ControlOutcomeV5 {
                reply: V5Reply::Ack,
                sink: SinkOp::Close,
                granted: Vec::new(),
                registrations: Vec::new(),
            }
        },
        ControlEvent::Subscribe(reqs) => {
            let (granted, registrations) = decide_subscriptions(&c.session, reqs);
            ControlOutcomeV5 { reply: V5Reply::Ack, sink: SinkOp::KeepOpen, granted, registrations }
        },
        ControlEvent::Unsubscribe(_) => ControlOutcomeV5 {
            reply: V5Reply::Ack,
            sink: SinkOp::KeepOpen,
            granted: Vec::new(),
            registrations: Vec::new(),
        },
        ControlEvent::Closed => {
            c.state = ConnState::Closed;
            ControlOutcomeV5 {
                reply: V5Reply::Ack,
                sink: SinkOp::Close,
                granted: Vec::new(),
                registrations: Vec::new(),
            }
        },
        ControlEvent::Error(_) => ControlOutcomeV5 {
            reply: V5Reply::AckWithReason(DisconnectReasonCode::UnspecifiedError),
            sink: SinkOp::KeepOpen,
            granted: Vec::new(),
            registrations: Vec::new(),
        },
        ControlEvent::ProtocolError => {
            c.state = ConnState::Closed;
            ControlOutcomeV5 {
                reply: V5Reply::AckWithReason(DisconnectReasonCode::ProtocolError),
                sink: SinkOp::Close,
                granted: Vec::new(),
                registrations: Vec::new(),
            }
        },
    }
}

} // verus!
