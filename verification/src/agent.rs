//! The agent runtime: identity, connection settings, the inbound queue, and
//! preparation of outbound messages.
//!
//! The agent holds no transport handle itself: the unverified shell owns the
//! network connection, feeds received messages into the agent's inbound queue,
//! and sends the `OutboundMessage` values the agent prepares.

use vstd::prelude::*;

use vstd::slice::slice_to_vec;

use crate::definitions::PlugDefinition;
use crate::numfmt::decimal_chars;
use crate::numfmt::push_decimal;
use crate::topics::is_three_part;
use crate::topics::parse;
use crate::topics::split_slash;
use crate::topics::TetherOrCustomTopic;

verus! {

/// The one duration the connection uses, in seconds: both the connect timeout
/// and the keep-alive interval.
pub const TIMEOUT_SECONDS: u64 = 10;

/// The ghost image of a `TetherAgentOptionsBuilder`: each field as the caller
/// configured it, `None` where a default still applies.
pub ghost struct AgentOptionsView {
    pub role: Seq<char>,
    pub id: Option<Seq<char>>,
    pub host: Option<Seq<char>>,
    pub port: Option<u16>,
    pub username: Option<Seq<char>>,
    pub password: Option<Seq<char>>,
    pub auto_connect: bool,
}

/// Gathers an agent's identity and connection choices before it is built.
/// Every field but the role has a default; `build` resolves them.
#[derive(Clone)]
pub struct TetherAgentOptionsBuilder {
    role: String,
    id: Option<String>,
    host: Option<String>,
    port: Option<u16>,
    username: Option<String>,
    password: Option<String>,
    auto_connect: bool,
}

impl View for TetherAgentOptionsBuilder {
    type V = AgentOptionsView;

    closed spec fn view(&self) -> AgentOptionsView {
        AgentOptionsView {
            role: self.role@,
            id: match self.id {
                Some(id) => Some(id@),
                None => None,
            },
            host: match self.host {
                Some(host) => Some(host@),
                None => None,
            },
            port: self.port,
            username: match self.username {
                Some(username) => Some(username@),
                None => None,
            },
            password: match self.password {
                Some(password) => Some(password@),
                None => None,
            },
            auto_connect: self.auto_connect,
        }
    }
}

/// What the transport needs to open the connection: resolved credentials and
/// the fixed session parameters.
#[derive(Debug)]
pub struct ConnectSettings {
    pub username: String,
    pub password: String,
    pub connect_timeout_seconds: u64,
    pub keep_alive_seconds: u64,
    pub clean_session: bool,
}

impl TetherAgentOptionsBuilder {
    /// Starts from the given role with every other choice left to its default.
    /// By convention the shell connects at build time unless `auto_connect`
    /// is switched off.
    pub fn new(role: &str) -> (r: TetherAgentOptionsBuilder)
        ensures
            r@ == (AgentOptionsView {
                role: role@,
                id: None,
                host: None,
                port: None,
                username: None,
                password: None,
                auto_connect: true,
            }),
    {
        TetherAgentOptionsBuilder {
            role: role.to_owned(),
            id: None,
            host: None,
            port: None,
            username: None,
            password: None,
            auto_connect: true,
        }
    }

    pub fn id(self, id: &str) -> (r: Self)
        ensures
            r@ == (AgentOptionsView { id: Some(id@), ..self@ }),
    {
        TetherAgentOptionsBuilder { id: Some(id.to_owned()), ..self }
    }

    pub fn host(self, host: &str) -> (r: Self)
        ensures
            r@ == (AgentOptionsView { host: Some(host@), ..self@ }),
    {
        TetherAgentOptionsBuilder { host: Some(host.to_owned()), ..self }
    }

    pub fn port(self, port: u16) -> (r: Self)
        ensures
            r@ == (AgentOptionsView { port: Some(port), ..self@ }),
    {
        TetherAgentOptionsBuilder { port: Some(port), ..self }
    }

    pub fn username(self, username: &str) -> (r: Self)
        ensures
            r@ == (AgentOptionsView { username: Some(username@), ..self@ }),
    {
        TetherAgentOptionsBuilder { username: Some(username.to_owned()), ..self }
    }

    pub fn password(self, password: &str) -> (r: Self)
        ensures
            r@ == (AgentOptionsView { password: Some(password@), ..self@ }),
    {
        TetherAgentOptionsBuilder { password: Some(password.to_owned()), ..self }
    }

    pub fn auto_connect(self, should_auto_connect: bool) -> (r: Self)
        ensures
            r@ == (AgentOptionsView { auto_connect: should_auto_connect, ..self@ }),
    {
        TetherAgentOptionsBuilder { auto_connect: should_auto_connect, ..self }
    }

    pub fn should_auto_connect(&self) -> (r: bool)
        ensures
            r == self@.auto_connect,
    {
        self.auto_connect
    }

    /// Resolves what the transport needs to connect: the default credentials
    /// unless overridden, a clean session, and the shared ten-second duration
    /// for both the connect timeout and the keep-alive interval.
    pub fn connect_settings(&self) -> (r: ConnectSettings)
        ensures
            r.username@ == match self@.username {
                Some(username) => username,
                None => "tether"@,
            },
            r.password@ == match self@.password {
                Some(password) => password,
                None => "sp_ceB0ss!"@,
            },
            r.connect_timeout_seconds == TIMEOUT_SECONDS,
            r.keep_alive_seconds == TIMEOUT_SECONDS,
            r.clean_session,
    {
        ConnectSettings {
            username: match &self.username {
                Some(username) => username.clone(),
                None => "tether".to_owned(),
            },
            password: match &self.password {
                Some(password) => password.clone(),
                None => "sp_ceB0ss!".to_owned(),
            },
            connect_timeout_seconds: TIMEOUT_SECONDS,
            keep_alive_seconds: TIMEOUT_SECONDS,
            clean_session: true,
        }
    }

    /// Resolves the identity and broker address into a fresh agent: the id
    /// defaults to `any`, the broker to `tcp://localhost:1883`. The agent
    /// starts unconnected with an empty inbound queue; the shell opens the
    /// connection and reports it through `set_connected`.
    pub fn build(self) -> (agent: TetherAgent)
        ensures
            agent.role_spec() == self@.role,
            agent.id_spec() == match self@.id {
                Some(id) => id,
                None => "any"@,
            },
            agent.broker_uri_spec() == "tcp://"@ + (match self@.host {
                Some(host) => host,
                None => "localhost"@,
            }) + seq![':'] + decimal_chars((match self@.port {
                Some(port) => port,
                None => 1883u16,
            }) as nat),
            !agent.connected_spec(),
            agent.inbound_spec() == Seq::<InboundMessage>::empty(),
    {
        let host = match self.host {
            Some(host) => host,
            None => "localhost".to_owned(),
        };
        let port = match self.port {
            Some(port) => port,
            None => 1883,
        };
        let mut broker_uri = "tcp://".to_owned();
        broker_uri.append(host.as_str());
        proof {
            reveal_strlit(":");
        }
        broker_uri.append(":");
        push_decimal(&mut broker_uri, port);
        proof {
            assert(broker_uri@ =~= "tcp://"@ + host@ + seq![':'] + decimal_chars(port as nat));
        }
        TetherAgent {
            role: self.role,
            id: match self.id {
                Some(id) => id,
                None => "any".to_owned(),
            },
            broker_uri,
            connected: false,
            inbound: Vec::new(),
        }
    }
}

/// A raw message as received from the transport: the wire topic it arrived on
/// and its payload bytes.
#[derive(Debug)]
pub struct InboundMessage {
    pub topic: String,
    pub payload: Vec<u8>,
}

/// A fully prepared message for the transport to send: resolved topic,
/// payload, quality of service and retain flag.
#[derive(Debug)]
pub struct OutboundMessage {
    pub topic: String,
    pub payload: Vec<u8>,
    pub qos: i32,
    pub retained: bool,
}

/// Holds whether a classification fits an inbound wire topic: a topic that
/// conforms to the convention is recognized by its three segments, any other
/// is passed through as custom.
pub open spec fn classifies(cls: TetherOrCustomTopic, topic: Seq<char>) -> bool {
    if is_three_part(topic) {
        &&& cls matches TetherOrCustomTopic::Tether(t)
        &&& t.role_spec() == split_slash(topic)[0]
        &&& t.id_spec() == split_slash(topic)[1]
        &&& t.plug_name_spec() == split_slash(topic)[2]
    } else {
        cls matches TetherOrCustomTopic::Custom(s) && s@ == topic
    }
}

/// Holds when every drained pair is the corresponding prefix of an inbound
/// queue, classified by its own topic.
pub open spec fn drained_matches(
    drained: Seq<(TetherOrCustomTopic, InboundMessage)>,
    inbound: Seq<InboundMessage>,
) -> bool {
    forall|k: int|
        0 <= k < drained.len() ==> (#[trigger] drained[k]).1 == inbound[k] && classifies(
            drained[k].0,
            drained[k].1.topic@,
        )
}

/// A process-level identity (role and id) that owns one transport connection,
/// an inbound queue the transport shell fills, and any number of plugs.
pub struct TetherAgent {
    role: String,
    id: String,
    broker_uri: String,
    connected: bool,
    inbound: Vec<InboundMessage>,
}

impl TetherAgent {
    pub closed spec fn role_spec(&self) -> Seq<char> {
        self.role@
    }

    pub closed spec fn id_spec(&self) -> Seq<char> {
        self.id@
    }

    pub closed spec fn broker_uri_spec(&self) -> Seq<char> {
        self.broker_uri@
    }

    pub closed spec fn connected_spec(&self) -> bool {
        self.connected
    }

    pub closed spec fn inbound_spec(&self) -> Seq<InboundMessage> {
        self.inbound@
    }

    /// The identity and connection state, with the queue left aside.
    pub open spec fn same_identity(&self, other: &TetherAgent) -> bool {
        &&& self.role_spec() == other.role_spec()
        &&& self.id_spec() == other.id_spec()
        &&& self.broker_uri_spec() == other.broker_uri_spec()
        &&& self.connected_spec() == other.connected_spec()
    }

    /// Whether the transport last reported the connection up; purely
    /// observational.
    pub fn is_connected(&self) -> (r: bool)
        ensures
            r == self.connected_spec(),
    {
        self.connected
    }

    /// The agent's role and id.
    pub fn description(&self) -> (r: (&str, &str))
        ensures
            r.0@ == self.role_spec(),
            r.1@ == self.id_spec(),
    {
        (self.role.as_str(), self.id.as_str())
    }

    /// The URI the shell uses to reach the broker.
    pub fn broker_uri(&self) -> (r: &str)
        ensures
            r@ == self.broker_uri_spec(),
    {
        self.broker_uri.as_str()
    }

    pub fn set_role(&mut self, role: &str)
        ensures
            final(self).role_spec() == role@,
            final(self).id_spec() == old(self).id_spec(),
            final(self).broker_uri_spec() == old(self).broker_uri_spec(),
            final(self).connected_spec() == old(self).connected_spec(),
            final(self).inbound_spec() == old(self).inbound_spec(),
    {
        self.role = role.to_owned();
    }

    pub fn set_id(&mut self, id: &str)
        ensures
            final(self).id_spec() == id@,
            final(self).role_spec() == old(self).role_spec(),
            final(self).broker_uri_spec() == old(self).broker_uri_spec(),
            final(self).connected_spec() == old(self).connected_spec(),
            final(self).inbound_spec() == old(self).inbound_spec(),
    {
        self.id = id.to_owned();
    }

    /// The transport shell's report of a connect or a disconnect event. The
    /// agent only observes the transition; it never reconnects by itself.
    pub fn set_connected(&mut self, connected: bool)
        ensures
            final(self).connected_spec() == connected,
            final(self).role_spec() == old(self).role_spec(),
            final(self).id_spec() == old(self).id_spec(),
            final(self).broker_uri_spec() == old(self).broker_uri_spec(),
            final(self).inbound_spec() == old(self).inbound_spec(),
    {
        self.connected = connected;
    }

    /// The transport shell deposits one received message at the back of the
    /// inbound queue.
    pub fn enqueue_message(&mut self, message: InboundMessage)
        ensures
            final(self).inbound_spec() == old(self).inbound_spec().push(message),
            final(self).same_identity(old(self)),
    {
        self.inbound.push(message);
    }

    /// How many received messages wait in the inbound queue.
    pub fn pending_count(&self) -> (n: usize)
        ensures
            n == self.inbound_spec().len(),
    {
        self.inbound.len()
    }

    /// A non-blocking, single-item dequeue: takes the oldest waiting message,
    /// if any, and classifies its topic — a conforming three-part topic is
    /// recognized (its plug name names the plug the message belongs to), any
    /// other topic is handed back as custom, payload intact. An empty queue
    /// answers `None` at once; each call drains at most this one message, so
    /// a backlog is drained by calling repeatedly.
    pub fn check_messages(&mut self) -> (r: Option<(TetherOrCustomTopic, InboundMessage)>)
        ensures
            match r {
                None => old(self).inbound_spec().len() == 0 && *final(self) == *old(self),
                Some((cls, message)) => {
                    &&& old(self).inbound_spec().len() > 0
                    &&& message == old(self).inbound_spec()[0]
                    &&& final(self).inbound_spec() == old(self).inbound_spec().drop_first()
                    &&& final(self).same_identity(old(self))
                    &&& classifies(cls, message.topic@)
                },
            },
    {
        if self.inbound.len() == 0 {
            return None;
        }
        let message = self.inbound.remove(0);
        let cls = match parse(message.topic.as_str()) {
            Ok(t) => TetherOrCustomTopic::Tether(t),
            Err(_) => TetherOrCustomTopic::Custom(message.topic.clone()),
        };
        proof {
            assert(final(self).inbound_spec() =~= old(self).inbound_spec().drop_first());
        }
        Some((cls, message))
    }

    /// Empties the inbound queue by repeated single-item dequeues: a queue of
    /// `n` messages takes exactly `n` calls, and every message comes out, in
    /// arrival order.
    pub fn drain_all(&mut self) -> (drained: Vec<(TetherOrCustomTopic, InboundMessage)>)
        ensures
            drained@.len() == old(self).inbound_spec().len(),
            final(self).inbound_spec().len() == 0,
            final(self).same_identity(old(self)),
            drained_matches(drained@, old(self).inbound_spec()),
    {
        let ghost orig = *self;
        let mut drained: Vec<(TetherOrCustomTopic, InboundMessage)> = Vec::new();
        while self.pending_count() > 0
            invariant
                drained@.len() + self.inbound_spec().len() == orig.inbound_spec().len(),
                self.inbound_spec() == orig.inbound_spec().skip(drained@.len() as int),
                self.same_identity(&orig),
                drained_matches(drained@, orig.inbound_spec()),
            decreases self.inbound_spec().len(),
        {
            let ghost done = drained@.len() as int;
            let ghost before = self.inbound_spec();
            match self.check_messages() {
                Some(pair) => {
                    let ghost gpair = pair;
                    let ghost prev = drained@;
                    proof {
                        assert(before[0] == orig.inbound_spec()[done]);
                        assert(before.drop_first() =~= orig.inbound_spec().skip(done + 1));
                    }
                    drained.push(pair);
                    proof {
                        assert forall|k: int| 0 <= k < drained@.len() implies (
                        #[trigger] drained@[k]).1 == orig.inbound_spec()[k] && classifies(
                            drained@[k].0,
                            drained@[k].1.topic@,
                        ) by {
                            if k < done {
                                assert(drained@[k] == prev[k]);
                                assert(prev[k].1 == orig.inbound_spec()[k]);
                            } else {
                                assert(drained@[k] == gpair);
                                assert(gpair.1 == before[0]);
                                assert(classifies(gpair.0, gpair.1.topic@));
                            }
                        }
                        assert(drained_matches(drained@, orig.inbound_spec()));
                    }
                },
                None => {},
            }
        }
        drained
    }

    /// Prepares the wire message a publish through an output plug comes to:
    /// the plug's resolved topic, quality of service and retain flag carry
    /// over, and a missing payload is sent as an empty one. Publishing
    /// through an input plug is a caller bug, ruled out by precondition.
    pub fn publish(&self, plug_definition: &PlugDefinition, payload: Option<&[u8]>) -> (r:
        OutboundMessage)
        requires
            plug_definition is OutputPlugDefinition,
        ensures
            r.topic@ == plug_definition.spec_common().topic@,
            r.qos == plug_definition.spec_common().qos,
            r.retained == plug_definition.spec_retain(),
            r.payload@ == match payload {
                Some(bytes) => bytes@,
                None => Seq::<u8>::empty(),
            },
    {
        let bytes: Vec<u8> = match payload {
            Some(bytes) => slice_to_vec(bytes),
            None => Vec::new(),
        };
        let retained = match plug_definition {
            PlugDefinition::InputPlugDefinition(_) => vstd::pervasive::unreached(),
            PlugDefinition::OutputPlugDefinition(plug) => plug.retain(),
        };
        OutboundMessage {
            topic: plug_definition.common().topic.clone(),
            payload: bytes,
            qos: plug_definition.common().qos,
            retained,
        }
    }

    /// Prepares a wire message for an ad hoc topic, bypassing plug definitions
    /// and the convention entirely; the quality of service defaults to 1 and
    /// the retain flag to off.
    pub fn publish_raw(&self, topic: &str, payload: &[u8], qos: Option<i32>, retained: Option<
        bool,
    >) -> (r: OutboundMessage)
        ensures
            r.topic@ == topic@,
            r.payload@ == payload@,
            r.qos == match qos {
                Some(q) => q,
                None => 1i32,
            },
            r.retained == match retained {
                Some(b) => b,
                None => false,
            },
    {
        OutboundMessage {
            topic: topic.to_owned(),
            payload: slice_to_vec(payload),
            qos: match qos {
                Some(q) => q,
                None => 1,
            },
            retained: match retained {
                Some(b) => b,
                None => false,
            },
        }
    }
}

} // verus!
