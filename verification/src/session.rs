use vstd::prelude::*;

use crate::access::allowed;
use crate::access::is_allowed;
use crate::bytes_eq;
use crate::config::Config;
use crate::copy_bytes;
use crate::encoding::guess_encoding;
use crate::encoding::guess_encoding_spec;
use crate::encoding::EncodingTag;
use crate::topic::ke_to_topic;
use crate::topic::ke_to_topic_spec;
use crate::topic::topic_to_ke;
use crate::topic::topic_to_ke_spec;
use crate::topic::valid_keyexpr;
use crate::BridgeError;

verus! {

/// One live registration with the pub/sub network: the MQTT topic it was
/// made for, and the identifier under which the surrounding process tracks
/// the network-side subscriber handle.
#[derive(Debug)]
pub struct SubEntry {
    pub topic: Vec<u8>,
    pub sub_id: u64,
}

/// What a subscribe decision asks of the surrounding process: declare a
/// network subscriber for `key`, or nothing at all (the topic is denied,
/// already subscribed, or does not translate; in every such case the
/// operation is a silent no-op and the MQTT acknowledgment is still sent).
#[derive(Debug)]
pub enum SubscribeAction {
    Register { key: Vec<u8> },
    NoEffect,
}

/// What a publish decision asks of the surrounding process: put `payload`
/// on the network under `key` with the advisory `encoding`, or nothing (the
/// topic is denied; the operation is a silent no-op).
#[derive(Debug)]
pub enum PublishAction {
    Put { key: Vec<u8>, payload: Vec<u8>, encoding: EncodingTag },
    NoEffect,
}

/// An outbound MQTT publish: what a delivered network sample becomes on the
/// MQTT side, sent to the client's sink with at-most-once semantics.
#[derive(Debug)]
pub struct MqttMessage {
    pub topic: Vec<u8>,
    pub payload: Vec<u8>,
}

/// Per-connection bridge state: the client identifier announced at
/// handshake, the effective configuration (immutable for the connection's
/// lifetime), and the live subscription table. The table is private to its
/// connection and every operation on it goes through an exclusive borrow,
/// mirroring the always-exclusive lock discipline of the running bridge;
/// different sessions never contend.
pub struct MqttSessionState {
    pub client_id: Vec<u8>,
    pub config: Config,
    pub subs: Vec<SubEntry>,
}

/// How often a topic occurs in a sequence of topics.
pub open spec fn count_topic(ts: Seq<Seq<u8>>, t: Seq<u8>) -> nat
    decreases ts.len(),
{
    if ts.len() == 0 {
        0
    } else {
        (if ts[0] == t {
            1nat
        } else {
            0nat
        }) + count_topic(ts.skip(1), t)
    }
}

impl MqttSessionState {
    /// The subscribed topics, in table order.
    pub open spec fn topics(self) -> Seq<Seq<u8>> {
        self.subs@.map_values(|e: SubEntry| e.topic@)
    }

    /// Table invariant: no two entries share a topic.
    pub open spec fn wf(self) -> bool {
        forall|i: int, j: int|
            0 <= i < j < self.topics().len() ==> self.topics()[i] != self.topics()[j]
    }

    /// Whether a live subscription exists for the topic.
    pub open spec fn has_sub(self, t: Seq<u8>) -> bool {
        exists|i: int| 0 <= i < self.topics().len() && self.topics()[i] == t
    }

    /// Whether the access policy permits an operation on topic `t`.
    pub open spec fn topic_allowed(self, t: Seq<u8>) -> bool {
        allowed(self.config.deny_view(), self.config.allow_view(), t)
    }

    /// Whether topic `t` translates to a syntactically valid key
    /// expression under this session's scope.
    pub open spec fn topic_translates(self, t: Seq<u8>) -> bool {
        valid_keyexpr(topic_to_ke_spec(t, self.config.scope_view()))
    }

    /// Whether a subscribe call for `t` must register with the network: the
    /// topic is allowed, not yet subscribed, and translates to a valid key
    /// expression.
    pub open spec fn register_needed(self, t: Seq<u8>) -> bool {
        &&& allowed(self.config.deny_view(), self.config.allow_view(), t)
        &&& !self.has_sub(t)
        &&& valid_keyexpr(topic_to_ke_spec(t, self.config.scope_view()))
    }

    /// Creates the state for a fresh connection: an empty subscription
    /// table bound to the announced client identifier and the shared
    /// configuration.
    pub fn new(client_id: Vec<u8>, config: Config) -> (s: MqttSessionState)
        ensures
            s.client_id == client_id,
            s.config == config,
            s.subs@.len() == 0,
            s.wf(),
    {
        MqttSessionState { client_id, config, subs: Vec::new() }
    }

    /// Whether the table holds an entry for the topic.
    pub fn has_subscription(&self, topic: &Vec<u8>) -> (r: bool)
        ensures
            r == self.has_sub(topic@),
    {
        let mut i: usize = 0;
        while i < self.subs.len()
            invariant
                i <= self.subs.len(),
                forall|j: int| 0 <= j < i ==> self.topics()[j] != topic@,
            decreases self.subs.len() - i,
        {
            if bytes_eq(&self.subs[i].topic, topic) {
                assert(self.topics()[i as int] == topic@);
                return true;
            }
            assert(self.topics()[i as int] == self.subs@[i as int].topic@);
            i = i + 1;
        }
        false
    }

    /// Decides an MQTT subscribe for one topic. Registration is required
    /// exactly when the topic is allowed, new to this session, and
    /// translates to a valid key expression; a denied, duplicate or
    /// untranslatable topic is a silent no-op. The decision never mutates
    /// the table: an entry appears only once the surrounding process has
    /// registered with the network and records the result.
    pub fn map_mqtt_subscription(&self, topic: &Vec<u8>) -> (a: SubscribeAction)
        ensures
            (a matches SubscribeAction::Register { key } ==> key@ == topic_to_ke_spec(
                topic@,
                self.config.scope_view(),
            )),
            a is Register <==> self.register_needed(topic@),
    {
        if !is_allowed(topic, &self.config) {
            return SubscribeAction::NoEffect;
        }
        if self.has_subscription(topic) {
            return SubscribeAction::NoEffect;
        }
        match topic_to_ke(topic, &self.config.scope) {
            Ok(key) => SubscribeAction::Register { key },
            Err(_) => SubscribeAction::NoEffect,
        }
    }

    /// Records a subscription after the network registration succeeded,
    /// appending the entry to the table. The caller guarantees that the
    /// topic still needed registering — allowed, not yet subscribed, and
    /// translating — which the decision step established; so the table
    /// only ever holds entries for allowed, translatable topics.
    pub fn record_subscription(&mut self, topic: Vec<u8>, sub_id: u64)
        requires
            old(self).wf(),
            old(self).register_needed(topic@),
        ensures
            final(self).wf(),
            final(self).client_id == old(self).client_id,
            final(self).config == old(self).config,
            final(self).subs@ == old(self).subs@.push((SubEntry { topic, sub_id })),
            final(self).topics() == old(self).topics().push(topic@),
            final(self).has_sub(topic@),
    {
        let ghost t = topic@;
        self.subs.push(SubEntry { topic, sub_id });
        proof {
            assert(self.topics() =~= old(self).topics().push(t));
            let n = self.topics().len() - 1;
            assert(self.topics()[n] == t);
            assert forall|i: int, j: int|
                0 <= i < j < self.topics().len() implies self.topics()[i] != self.topics()[j] by {
                if j < n {
                    assert(old(self).topics()[i] != old(self).topics()[j]);
                } else {
                    assert(self.topics()[i] == old(self).topics()[i]);
                    assert(!old(self).has_sub(t));
                }
            };
        }
    }

    /// Decides an MQTT publish: a denied topic is a silent no-op reported
    /// as success; an allowed topic that does not translate fails with
    /// `InvalidTopic`; otherwise the payload goes to the network under the
    /// scoped key, tagged with the guessed encoding.
    pub fn route_mqtt_to_zenoh(&self, mqtt_topic: &Vec<u8>, payload: &Vec<u8>) -> (r: Result<
        PublishAction,
        BridgeError,
    >)
        ensures
            !allowed(self.config.deny_view(), self.config.allow_view(), mqtt_topic@) ==> (
            r matches Ok(a) && a is NoEffect),
            allowed(self.config.deny_view(), self.config.allow_view(), mqtt_topic@)
                && valid_keyexpr(topic_to_ke_spec(mqtt_topic@, self.config.scope_view())) ==> (
            r matches Ok(a) && (a matches PublishAction::Put { key, payload: pl, encoding } ==> key@
                == topic_to_ke_spec(mqtt_topic@, self.config.scope_view()) && pl@ == payload@
                && encoding == guess_encoding_spec(payload@)) && a is Put),
            allowed(self.config.deny_view(), self.config.allow_view(), mqtt_topic@)
                && !valid_keyexpr(topic_to_ke_spec(mqtt_topic@, self.config.scope_view())) ==> (
            r matches Err(e) && e is InvalidTopic),
    {
        if !is_allowed(mqtt_topic, &self.config) {
            return Ok(PublishAction::NoEffect);
        }
        match topic_to_ke(mqtt_topic, &self.config.scope) {
            Ok(key) => {
                let encoding = guess_encoding(payload);
                Ok(PublishAction::Put { key, payload: copy_bytes(payload), encoding })
            },
            Err(e) => Err(e),
        }
    }
}

/// Routes one delivered network sample back to MQTT: the sample's key is
/// translated to the topic it is published on (stripping the configured
/// scope), the payload is passed through unchanged. Fails with
/// `InvalidTopic` exactly when the key does not carry the expected scope
/// prefix; such a sample is logged and dropped by the surrounding process,
/// never retried.
pub fn route_zenoh_to_mqtt(key: &Vec<u8>, payload: &Vec<u8>, config: &Config) -> (r: Result<
    MqttMessage,
    BridgeError,
>)
    ensures
        (r matches Ok(m) ==> ke_to_topic_spec(key@, config.scope_view()) == Some(m.topic@)
            && m.payload@ == payload@),
        r is Ok <==> ke_to_topic_spec(key@, config.scope_view()) is Some,
        r matches Err(e) ==> e is InvalidTopic,
{
    match ke_to_topic(key, &config.scope) {
        Ok(topic) => Ok(MqttMessage { topic, payload: copy_bytes(payload) }),
        Err(e) => Err(e),
    }
}

proof fn lemma_count_zero(ts: Seq<Seq<u8>>, t: Seq<u8>)
    requires
        forall|i: int| 0 <= i < ts.len() ==> ts[i] != t,
    ensures
        count_topic(ts, t) == 0,
    decreases ts.len(),
{
    if ts.len() > 0 {
        assert(forall|i: int| 0 <= i < ts.skip(1).len() ==> ts.skip(1)[i] == ts[i + 1]);
        lemma_count_zero(ts.skip(1), t);
    }
}

proof fn lemma_count_unique(ts: Seq<Seq<u8>>, t: Seq<u8>)
    requires
        forall|i: int, j: int| 0 <= i < j < ts.len() ==> ts[i] != ts[j],
        exists|i: int| 0 <= i < ts.len() && ts[i] == t,
    ensures
        count_topic(ts, t) == 1,
    decreases ts.len(),
{
    let w = choose|i: int| 0 <= i < ts.len() && ts[i] == t;
    assert(forall|i: int| 0 <= i < ts.skip(1).len() ==> ts.skip(1)[i] == ts[i + 1]);
    if ts[0] == t {
        assert(forall|i: int| 0 <= i < ts.skip(1).len() ==> ts.skip(1)[i] != t);
        lemma_count_zero(ts.skip(1), t);
    } else {
        assert(w > 0);
        assert(ts.skip(1)[w - 1] == t);
        lemma_count_unique(ts.skip(1), t);
    }
}

/// A denied topic never asks for a registration: in every session state,
/// the subscribe decision for it is a silent no-op, so no subscription is
/// ever created for it and no sample can ever be delivered on it.
pub proof fn lemma_denied_topic_never_registers(s: MqttSessionState, t: Seq<u8>)
    requires
        !s.topic_allowed(t),
    ensures
        !s.register_needed(t),
{
}

/// Subscribing is idempotent: once a session holds a subscription for a
/// topic, a second subscribe decision for that topic asks for no
/// registration, and the table holds exactly one live subscription for it.
pub proof fn lemma_subscribe_idempotent(s: MqttSessionState, t: Seq<u8>)
    requires
        s.wf(),
        s.has_sub(t),
    ensures
        !s.register_needed(t),
        count_topic(s.topics(), t) == 1,
{
    lemma_count_unique(s.topics(), t);
}

} // verus!
