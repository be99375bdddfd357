use vstd::prelude::*;

use crate::frame::{is_header, Envelope, EnvelopeModel};
use crate::json::{empty_object, field_models, lemma_object_view, Json, JsonModel};

verus! {

/// Relies on uuid::Uuid::new_v4 and the Display impl of Uuid: a random
/// identifier, written in the hyphenated form of 36 characters. Nothing else
/// is claimed of its value.
#[verifier::external_body]
fn fresh_id() -> (r: String)
    ensures
        r@.len() == 36,
{
    uuid::Uuid::new_v4().to_string()
}

pub open spec fn opt_view(o: Option<String>) -> Option<Seq<char>> {
    match o {
        Some(s) => Some(s@),
        None => None,
    }
}

/// A header position as it goes on the wire: a string, or `null` when absent.
pub open spec fn opt_json(o: Option<Seq<char>>) -> JsonModel {
    match o {
        Some(s) => JsonModel::Str(s),
        None => JsonModel::Null,
    }
}

/// What a header position of an incoming frame does to the current value:
/// `null` clears it, a string replaces it, anything else leaves it.
pub open spec fn header_value(cur: Option<Seq<char>>, v: JsonModel) -> Option<Seq<char>> {
    match v {
        JsonModel::Null => None,
        JsonModel::Str(s) => Some(s),
        _ => cur,
    }
}

pub open spec fn message_model(
    join_ref: Option<Seq<char>>,
    msg_ref: Option<Seq<char>>,
    topic: Option<Seq<char>>,
    event: Seq<char>,
    payload: JsonModel,
) -> EnvelopeModel {
    EnvelopeModel {
        join_ref: opt_json(join_ref),
        msg_ref: opt_json(msg_ref),
        topic: opt_json(topic),
        event,
        payload,
    }
}

/// The payload of a `phx_reply`: `{"response": .., "status": ..}`, where a
/// `null` response is written as the empty object.
pub open spec fn reply_payload(status: Seq<char>, response: JsonModel) -> JsonModel {
    JsonModel::Object(
        seq![
            ("response"@, if response == JsonModel::Null { empty_object() } else { response }),
            ("status"@, JsonModel::Str(status)),
        ],
    )
}

/// Membership of one connection in one topic, with the references that
/// were current when it was joined (absent where the peer sent `null`).
#[derive(Debug, PartialEq)]
pub struct Channel {
    pub topic: String,
    pub join_ref: Option<String>,
    pub msg_ref: Option<String>,
}

pub struct ChannelModel {
    pub topic: Seq<char>,
    pub join_ref: Option<Seq<char>>,
    pub msg_ref: Option<Seq<char>>,
}

impl View for Channel {
    type V = ChannelModel;

    open spec fn view(&self) -> ChannelModel {
        ChannelModel { topic: self.topic@, join_ref: opt_view(self.join_ref), msg_ref: opt_view(self.msg_ref) }
    }
}

impl Channel {
    pub fn new(topic: String, join_ref: String, msg_ref: String) -> (r: Channel)
        ensures
            r@ == (ChannelModel { topic: topic@, join_ref: Some(join_ref@), msg_ref: Some(msg_ref@) }),
    {
        Channel { topic, join_ref: Some(join_ref), msg_ref: Some(msg_ref) }
    }
}

/// The `phx_close` frame that tears a channel down, addressed with the
/// references the channel was joined with.
pub open spec fn close_message(c: ChannelModel) -> EnvelopeModel {
    message_model(c.join_ref, c.msg_ref, Some(c.topic), "phx_close"@, empty_object())
}

/// How a published frame is to be delivered.
#[derive(Debug, PartialEq, Eq, Structural, Clone, Copy)]
pub enum Action {
    /// To every connection.
    Broadcast,
    /// To every connection but the sender.
    BroadcastFrom,
}

/// What travels on the fanout bus.
#[derive(Debug, Clone, PartialEq)]
pub struct BroadcastEnvelope {
    pub action: Action,
    pub from: Option<String>,
    pub payload: Envelope,
}

pub struct BroadcastModel {
    pub action: Action,
    pub from: Option<Seq<char>>,
    pub payload: EnvelopeModel,
}

impl View for BroadcastEnvelope {
    type V = BroadcastModel;

    open spec fn view(&self) -> BroadcastModel {
        BroadcastModel { action: self.action, from: opt_view(self.from), payload: self.payload@ }
    }
}

/// What handling a frame asks of the connection: a frame to send to this
/// peer, or an envelope to publish on the bus.
#[derive(Debug, PartialEq)]
pub enum Outbound {
    Send(Envelope),
    Publish(BroadcastEnvelope),
}

pub enum OutboundModel {
    Send(EnvelopeModel),
    Publish(BroadcastModel),
}

impl View for Outbound {
    type V = OutboundModel;

    open spec fn view(&self) -> OutboundModel {
        match self {
            Outbound::Send(e) => OutboundModel::Send(e@),
            Outbound::Publish(b) => OutboundModel::Publish(b@),
        }
    }
}

pub open spec fn outbound_models(v: Seq<Outbound>) -> Seq<OutboundModel> {
    Seq::new(v.len(), |i: int| v[i]@)
}

pub struct SocketModel {
    pub id: Seq<char>,
    pub join_ref: Option<Seq<char>>,
    pub msg_ref: Option<Seq<char>>,
    pub topic: Option<Seq<char>>,
    pub channels: Seq<ChannelModel>,
    pub assigns: JsonModel,
}

impl SocketModel {
    /// No two channels share a topic.
    pub open spec fn wf(self) -> bool {
        forall|i: int, k: int|
            0 <= i < self.channels.len() && 0 <= k < self.channels.len() && i != k
                ==> self.channels[i].topic != self.channels[k].topic
    }

    pub open spec fn has_channel(self, t: Seq<char>) -> bool {
        exists|i: int| 0 <= i < self.channels.len() && self.channels[i].topic == t
    }

    pub open spec fn channel_index(self, t: Seq<char>) -> int {
        choose|i: int| 0 <= i < self.channels.len() && self.channels[i].topic == t
    }

    pub open spec fn push(self, event: Seq<char>, payload: JsonModel) -> EnvelopeModel {
        message_model(self.join_ref, self.msg_ref, self.topic, event, payload)
    }

    pub open spec fn reply(self, status: Seq<char>, response: JsonModel) -> EnvelopeModel {
        self.push("phx_reply"@, reply_payload(status, response))
    }

    pub open spec fn publish(
        self,
        from: Option<Seq<char>>,
        action: Action,
        topic: Seq<char>,
        event: Seq<char>,
        payload: JsonModel,
    ) -> BroadcastModel {
        BroadcastModel {
            action,
            from,
            payload: message_model(self.join_ref, None, Some(topic), event, payload),
        }
    }

    pub open spec fn apply_header(self, e: EnvelopeModel) -> SocketModel {
        SocketModel {
            join_ref: header_value(self.join_ref, e.join_ref),
            msg_ref: header_value(self.msg_ref, e.msg_ref),
            topic: header_value(self.topic, e.topic),
            ..self
        }
    }

    /// Joining `t` with the current references; a channel already there stays.
    pub open spec fn joined(self, t: Seq<char>) -> SocketModel {
        if self.has_channel(t) {
            self
        } else {
            SocketModel {
                channels: self.channels.push(
                    ChannelModel { topic: t, join_ref: self.join_ref, msg_ref: self.msg_ref },
                ),
                ..self
            }
        }
    }

    pub open spec fn left(self, t: Seq<char>) -> SocketModel {
        if self.has_channel(t) {
            SocketModel { channels: self.channels.remove(self.channel_index(t)), ..self }
        } else {
            self
        }
    }

    pub open spec fn on_heartbeat(self, e: EnvelopeModel) -> Seq<OutboundModel> {
        if self.topic == Some("phoenix"@) && e.event == "heartbeat"@ {
            seq![OutboundModel::Send(self.reply("ok"@, JsonModel::Null))]
        } else {
            seq![]
        }
    }

    pub open spec fn on_join(self, e: EnvelopeModel) -> (SocketModel, Seq<OutboundModel>) {
        match e.topic {
            JsonModel::Str(t) => (
                self.joined(t),
                seq![OutboundModel::Send(self.reply("ok"@, JsonModel::Null))],
            ),
            _ => (self, seq![]),
        }
    }

    pub open spec fn on_leave(self, e: EnvelopeModel) -> (SocketModel, Seq<OutboundModel>) {
        match e.topic {
            JsonModel::Str(t) => if self.has_channel(t) {
                (
                    self.left(t),
                    seq![
                        OutboundModel::Send(self.reply("ok"@, JsonModel::Null)),
                        OutboundModel::Send(close_message(self.channels[self.channel_index(t)])),
                    ],
                )
            } else {
                (self, seq![])
            },
            _ => (self, seq![]),
        }
    }

    pub open spec fn on_event(self, e: EnvelopeModel) -> Seq<OutboundModel> {
        match self.topic {
            Some(t) => seq![
                OutboundModel::Publish(self.publish(None, Action::Broadcast, t, "boardcast"@, e.payload)),
                OutboundModel::Publish(
                    self.publish(Some(self.id), Action::BroadcastFrom, t, "boardcast_from"@, e.payload),
                ),
            ],
            None => seq![],
        }
    }

    /// One incoming frame: the header moves the cursor, then the event picks
    /// the handler.
    pub open spec fn step(self, e: EnvelopeModel) -> (SocketModel, Seq<OutboundModel>) {
        let s = self.apply_header(e);
        if e.event == "heartbeat"@ {
            (s, s.on_heartbeat(e))
        } else if e.event == "phx_join"@ {
            s.on_join(e)
        } else if e.event == "phx_leave"@ {
            s.on_leave(e)
        } else {
            (s, s.on_event(e))
        }
    }

    /// What this connection forwards to its peer of an envelope off the bus.
    pub open spec fn deliver(self, b: BroadcastModel) -> Option<EnvelopeModel> {
        match b.action {
            Action::Broadcast => Some(b.payload),
            Action::BroadcastFrom => if b.from == Some(self.id) {
                None
            } else {
                Some(b.payload)
            },
        }
    }
}

/// Whether `s` spells `lit`.
fn is_text(s: &String, lit: &str) -> (r: bool)
    ensures
        r == (s@ == lit@),
{
    let t = lit.to_owned();
    s.eq(&t)
}

fn opt_header(o: Option<String>) -> (r: Json)
    ensures
        r@ == opt_json(opt_view(o)),
{
    match o {
        Some(s) => Json::Str(s),
        None => Json::Null,
    }
}

fn reply_payload_of(status: &str, response: Json) -> (r: Json)
    ensures
        r@ == reply_payload(status@, response@),
{
    let ghost given = response@;
    let response = if response.check_null() {
        Json::empty_object()
    } else {
        response
    };
    let v: Vec<(String, Json)> = vec![("response".to_owned(), response), ("status".to_owned(), Json::string(status))];
    proof {
        lemma_object_view(v);
        assert(field_models(v@) =~= seq![
            ("response"@, if given == JsonModel::Null { empty_object() } else { given }),
            ("status"@, JsonModel::Str(status@)),
        ]);
    }
    Json::Object(v)
}

/// The state of one connection.
#[derive(Debug)]
pub struct Socket {
    id: String,
    join_ref: Option<String>,
    msg_ref: Option<String>,
    topic: Option<String>,
    channels: Vec<Channel>,
    assigns: Json,
}

impl View for Socket {
    type V = SocketModel;

    closed spec fn view(&self) -> SocketModel {
        SocketModel {
            id: self.id@,
            join_ref: opt_view(self.join_ref),
            msg_ref: opt_view(self.msg_ref),
            topic: opt_view(self.topic),
            channels: self.channels@.map_values(|c: Channel| c@),
            assigns: self.assigns@,
        }
    }
}

impl Socket {
    pub open spec fn wf(&self) -> bool {
        self@.wf()
    }

    /// A new connection state under a fresh random identifier.
    pub fn new() -> (r: Socket)
        ensures
            r.wf(),
            r@.join_ref is None,
            r@.msg_ref is None,
            r@.topic is None,
            r@.channels.len() == 0,
            r@.assigns == JsonModel::Null,
            r@.id.len() == 36,
    {
        Socket::with_id(fresh_id())
    }

    /// A new connection state under the identifier `id`.
    pub fn with_id(id: String) -> (r: Socket)
        ensures
            r.wf(),
            r@ == (SocketModel {
                id: id@,
                join_ref: None,
                msg_ref: None,
                topic: None,
                channels: Seq::empty(),
                assigns: JsonModel::Null,
            }),
    {
        let r = Socket { id, join_ref: None, msg_ref: None, topic: None, channels: Vec::new(), assigns: Json::Null };
        assert(r@.channels =~= Seq::empty());
        r
    }

    pub fn id(&self) -> (r: &String)
        ensures
            r@ == self@.id,
    {
        &self.id
    }

    pub fn topic(&self) -> (r: Option<String>)
        ensures
            opt_view(r) == self@.topic,
    {
        self.topic.clone()
    }

    fn set_join_ref(&mut self, join_ref: &Json)
        ensures
            final(self)@ == (SocketModel { join_ref: header_value(old(self)@.join_ref, join_ref@), ..old(self)@ }),
    {
        match join_ref {
            Json::Null => self.join_ref = None,
            Json::Str(s) => self.join_ref = Some(s.clone()),
            _ => {},
        }
    }

    fn set_msg_ref(&mut self, msg_ref: &Json)
        ensures
            final(self)@ == (SocketModel { msg_ref: header_value(old(self)@.msg_ref, msg_ref@), ..old(self)@ }),
    {
        match msg_ref {
            Json::Null => self.msg_ref = None,
            Json::Str(s) => self.msg_ref = Some(s.clone()),
            _ => {},
        }
    }

    fn set_topic(&mut self, topic: &Json)
        ensures
            final(self)@ == (SocketModel { topic: header_value(old(self)@.topic, topic@), ..old(self)@ }),
    {
        match topic {
            Json::Null => self.topic = None,
            Json::Str(s) => self.topic = Some(s.clone()),
            _ => {},
        }
    }

    /// Moves the connection's cursor to the header of `message`.
    pub fn update(&mut self, message: &Envelope)
        ensures
            final(self)@ == old(self)@.apply_header(message@),
    {
        self.set_join_ref(&message.join_ref);
        self.set_msg_ref(&message.msg_ref);
        self.set_topic(&message.topic);
    }

    pub fn reply_message(
        join_ref: Option<String>,
        msg_ref: Option<String>,
        topic: Option<String>,
        event: &str,
        message: Json,
    ) -> (r: Envelope)
        ensures
            r@ == message_model(opt_view(join_ref), opt_view(msg_ref), opt_view(topic), event@, message@),
    {
        Envelope {
            join_ref: opt_header(join_ref),
            msg_ref: opt_header(msg_ref),
            topic: opt_header(topic),
            event: event.to_owned(),
            payload: message,
        }
    }

    /// A frame for this peer, addressed with the current cursor.
    pub fn push(&self, event: &str, message: Json) -> (r: Envelope)
        ensures
            r@ == self@.push(event@, message@),
    {
        Socket::reply_message(self.join_ref.clone(), self.msg_ref.clone(), self.topic.clone(), event, message)
    }

    pub fn do_reply(&self, status: &str, response: Json) -> (r: Envelope)
        ensures
            r@ == self@.reply(status@, response@),
    {
        let message = reply_payload_of(status, response);
        self.push("phx_reply", message)
    }

    pub fn reply_ok(&self, response: Json) -> (r: Envelope)
        ensures
            r@ == self@.reply("ok"@, response@),
    {
        self.do_reply("ok", response)
    }

    pub fn reply_error(&self, response: Json) -> (r: Envelope)
        ensures
            r@ == self@.reply("error"@, response@),
    {
        self.do_reply("error", response)
    }

    /// The `phx_close` frame for a channel that was left.
    pub fn close_channel(&self, channel: Channel) -> (r: Envelope)
        ensures
            r@ == close_message(channel@),
    {
        let payload = Json::empty_object();
        Socket::reply_message(
            channel.join_ref,
            channel.msg_ref,
            Some(channel.topic),
            "phx_close",
            payload,
        )
    }

    pub fn do_boardcast(
        &self,
        from: Option<String>,
        action: Action,
        topic: String,
        event: &str,
        message: Json,
    ) -> (r: BroadcastEnvelope)
        ensures
            r@ == self@.publish(opt_view(from), action, topic@, event@, message@),
    {
        let payload = Socket::reply_message(self.join_ref.clone(), None, Some(topic), event, message);
        BroadcastEnvelope { action, from, payload }
    }

    /// An envelope for every connection.
    pub fn boardcast(&self, topic: String, event: &str, message: Json) -> (r: BroadcastEnvelope)
        ensures
            r@ == self@.publish(None, Action::Broadcast, topic@, event@, message@),
    {
        self.do_boardcast(None, Action::Broadcast, topic, event, message)
    }

    /// An envelope for every connection but this one.
    pub fn boardcast_from(&self, topic: String, event: &str, message: Json) -> (r: BroadcastEnvelope)
        ensures
            r@ == self@.publish(Some(self@.id), Action::BroadcastFrom, topic@, event@, message@),
    {
        self.do_boardcast(Some(self.id.clone()), Action::BroadcastFrom, topic, event, message)
    }

    /// The application's own data about this connection.
    pub fn assigns(&self) -> (r: &Json)
        ensures
            r@ == self@.assigns,
    {
        &self.assigns
    }

    pub fn assign(&mut self, value: Json)
        ensures
            final(self)@ == (SocketModel { assigns: value@, ..old(self)@ }),
    {
        self.assigns = value;
    }

    /// Whether a channel for `topic` is joined.
    pub fn has_channel(&self, topic: &String) -> (r: bool)
        ensures
            r == self@.has_channel(topic@),
    {
        self.find_channel(topic).is_some()
    }

    /// The number of joined channels.
    pub fn channel_count(&self) -> (r: usize)
        ensures
            r == self@.channels.len(),
    {
        self.channels.len()
    }

    /// Where the channel for `topic` stands, if there is one.
    fn find_channel(&self, topic: &String) -> (r: Option<usize>)
        ensures
            match r {
                Some(i) => i < self@.channels.len() && self@.channels[i as int].topic == topic@,
                None => !self@.has_channel(topic@),
            },
    {
        let mut i: usize = 0;
        while i < self.channels.len()
            invariant
                i <= self.channels@.len(),
                self@.channels.len() == self.channels@.len(),
                forall|k: int| 0 <= k < i ==> self@.channels[k].topic != topic@,
            decreases self.channels@.len() - i,
        {
            if self.channels[i].topic.eq(topic) {
                return Some(i);
            }
            i += 1;
        }
        None
    }

    /// Joins `topic` with the current references, unless it is joined already.
    pub fn join_channel(&mut self, topic: String)
        requires
            old(self).wf(),
        ensures
            final(self).wf(),
            final(self)@ == old(self)@.joined(topic@),
    {
        if self.find_channel(&topic).is_some() {
            return;
        }
        let channel = Channel { topic, join_ref: self.join_ref.clone(), msg_ref: self.msg_ref.clone() };
        let ghost before = self.channels@;
        self.channels.push(channel);
        proof {
            assert(self.channels@.map_values(|c: Channel| c@) =~= before.map_values(|c: Channel| c@).push(channel@));
        }
    }

    /// Removes the channel for `topic` and hands it back, if there was one.
    pub fn leave_channel(&mut self, topic: &String) -> (r: Option<Channel>)
        requires
            old(self).wf(),
        ensures
            final(self).wf(),
            final(self)@ == old(self)@.left(topic@),
            match r {
                Some(c) => old(self)@.has_channel(topic@) && c@ == old(self)@.channels[old(self)@.channel_index(topic@)],
                None => !old(self)@.has_channel(topic@),
            },
    {
        match self.find_channel(topic) {
            None => None,
            Some(i) => {
                let ghost m = self@;
                proof {
                    let j = m.channel_index(topic@);
                    assert(m.has_channel(topic@));
                    assert(j == i as int);
                }
                let ghost before = self.channels@;
                let c = self.channels.remove(i);
                proof {
                    assert(self.channels@.map_values(|c: Channel| c@) =~= before.map_values(|c: Channel| c@).remove(i as int));
                    assert forall|a: int, b: int|
                        0 <= a < self@.channels.len() && 0 <= b < self@.channels.len() && a != b
                        implies self@.channels[a].topic != self@.channels[b].topic by {
                        let a0 = if a < i { a } else { a + 1 };
                        let b0 = if b < i { b } else { b + 1 };
                        assert(self@.channels[a] == m.channels[a0]);
                        assert(self@.channels[b] == m.channels[b0]);
                    }
                }
                Some(c)
            },
        }
    }

    /// A heartbeat on the reserved topic `phoenix` is answered with an ok
    /// reply; any other is dropped.
    pub fn handle_event_heartbeat(&self, message: &Envelope) -> (r: Vec<Outbound>)
        ensures
            outbound_models(r@) == self@.on_heartbeat(message@),
    {
        let on_phoenix = match &self.topic {
            Some(t) => is_text(t, "phoenix"),
            None => false,
        };
        if on_phoenix && is_text(&message.event, "heartbeat") {
            let reply = self.reply_ok(Json::Null);
            let r = vec![Outbound::Send(reply)];
            assert(outbound_models(r@) =~= self@.on_heartbeat(message@));
            r
        } else {
            let r: Vec<Outbound> = Vec::new();
            assert(outbound_models(r@) =~= self@.on_heartbeat(message@));
            r
        }
    }

    /// Joins the topic that `message` names, unless it is joined already, and
    /// answers with an ok reply. Without a topic string nothing happens.
    pub fn handle_event_phx_join(&mut self, message: &Envelope) -> (r: Vec<Outbound>)
        requires
            old(self).wf(),
        ensures
            final(self).wf(),
            (final(self)@, outbound_models(r@)) == old(self)@.on_join(message@),
    {
        match &message.topic {
            Json::Str(t) => {
                self.join_channel(t.clone());
                let reply = self.reply_ok(Json::Null);
                let r = vec![Outbound::Send(reply)];
                assert(outbound_models(r@) =~= old(self)@.on_join(message@).1);
                r
            },
            _ => {
                let r: Vec<Outbound> = Vec::new();
                assert(outbound_models(r@) =~= seq![]);
                r
            },
        }
    }

    /// Leaves the topic that `message` names: an ok reply, then the
    /// channel's `phx_close`. A topic that was not joined is ignored.
    pub fn handle_event_phx_leave(&mut self, message: &Envelope) -> (r: Vec<Outbound>)
        requires
            old(self).wf(),
        ensures
            final(self).wf(),
            (final(self)@, outbound_models(r@)) == old(self)@.on_leave(message@),
    {
        match &message.topic {
            Json::Str(t) => match self.leave_channel(t) {
                Some(c) => {
                    let reply = self.reply_ok(Json::Null);
                    let close = self.close_channel(c);
                    let r = vec![Outbound::Send(reply), Outbound::Send(close)];
                    assert(outbound_models(r@) =~= old(self)@.on_leave(message@).1);
                    r
                },
                None => {
                    let r: Vec<Outbound> = Vec::new();
                    assert(outbound_models(r@) =~= seq![]);
                    r
                },
            },
            _ => {
                let r: Vec<Outbound> = Vec::new();
                assert(outbound_models(r@) =~= seq![]);
                r
            },
        }
    }

    /// Any other event: its payload is published to the current topic twice,
    /// once for every connection and once for every connection but this one.
    pub fn handle_event(&self, message: Envelope) -> (r: Vec<Outbound>)
        ensures
            outbound_models(r@) == self@.on_event(message@),
    {
        match self.topic() {
            Some(t) => {
                let second = message.payload.copy();
                let a = self.boardcast(t.clone(), "boardcast", message.payload);
                let b = self.boardcast_from(t, "boardcast_from", second);
                let r = vec![Outbound::Publish(a), Outbound::Publish(b)];
                assert(outbound_models(r@) =~= self@.on_event(message@));
                r
            },
            None => {
                let r: Vec<Outbound> = Vec::new();
                assert(outbound_models(r@) =~= seq![]);
                r
            },
        }
    }

    /// Handles one incoming frame.
    pub fn receive(&mut self, message: Envelope) -> (r: Vec<Outbound>)
        requires
            old(self).wf(),
        ensures
            final(self).wf(),
            (final(self)@, outbound_models(r@)) == old(self)@.step(message@),
    {
        self.update(&message);
        if is_text(&message.event, "heartbeat") {
            self.handle_event_heartbeat(&message)
        } else if is_text(&message.event, "phx_join") {
            self.handle_event_phx_join(&message)
        } else if is_text(&message.event, "phx_leave") {
            self.handle_event_phx_leave(&message)
        } else {
            self.handle_event(message)
        }
    }

    /// The frame, if any, that this connection forwards to its peer for an
    /// envelope taken off the bus.
    pub fn deliver(&self, b: BroadcastEnvelope) -> (r: Option<Envelope>)
        ensures
            match r {
                Some(e) => self@.deliver(b@) == Some(e@),
                None => self@.deliver(b@) is None,
            },
    {
        let BroadcastEnvelope { action, from, payload } = b;
        match action {
            Action::Broadcast => Some(payload),
            Action::BroadcastFrom => match from {
                Some(f) => if f.eq(&self.id) {
                    None
                } else {
                    Some(payload)
                },
                None => Some(payload),
            },
        }
    }
}

/// The event names that the protocol itself handles are distinct.
proof fn lemma_control_events_distinct()
    ensures
        "heartbeat"@ != "phx_join"@,
        "heartbeat"@ != "phx_leave"@,
        "phx_join"@ != "phx_leave"@,
{
    reveal_strlit("heartbeat");
    reveal_strlit("phx_join");
    reveal_strlit("phx_leave");
    assert("heartbeat"@[0] != "phx_join"@[0]);
    assert("heartbeat"@[0] != "phx_leave"@[0]);
    assert("phx_join"@[4] != "phx_leave"@[4]);
}

/// Joining a topic twice in a row leaves the state as the first join left
/// it, with exactly one channel for that topic, and the second join is
/// answered with an ok reply as the first was.
pub proof fn lemma_join_twice(s: SocketModel, e: EnvelopeModel, t: Seq<char>)
    requires
        s.wf(),
        e.event == "phx_join"@,
        e.topic == JsonModel::Str(t),
    ensures
        s.step(e).0.wf(),
        s.step(e).0.step(e).0 == s.step(e).0,
        s.step(e).0.step(e).1 == seq![OutboundModel::Send(s.step(e).0.reply("ok"@, JsonModel::Null))],
        s.step(e).0.has_channel(t),
        forall|i: int, k: int|
            0 <= i < s.step(e).0.channels.len() && 0 <= k < s.step(e).0.channels.len()
                && s.step(e).0.channels[i].topic == t && s.step(e).0.channels[k].topic == t ==> i == k,
{
    lemma_control_events_distinct();
    let s1 = s.step(e).0;
    let h = s.apply_header(e);
    assert(h.wf());
    if !h.has_channel(t) {
        let n = h.channels.len() as int;
        assert(s1.channels[n].topic == t);
        assert forall|i: int, k: int|
            0 <= i < s1.channels.len() && 0 <= k < s1.channels.len() && i != k
            implies s1.channels[i].topic != s1.channels[k].topic by {
            if i < n && k < n {
                assert(s1.channels[i] == h.channels[i]);
                assert(s1.channels[k] == h.channels[k]);
            } else if i < n {
                assert(s1.channels[i] == h.channels[i]);
            } else if k < n {
                assert(s1.channels[k] == h.channels[k]);
            }
        }
    }
    assert(s1.apply_header(e) == s1);
}

/// Leaving a topic that was never joined answers nothing and keeps every
/// channel.
pub proof fn lemma_leave_unjoined(s: SocketModel, e: EnvelopeModel, t: Seq<char>)
    requires
        e.event == "phx_leave"@,
        e.topic == JsonModel::Str(t),
        !s.has_channel(t),
    ensures
        s.step(e).1 == Seq::<OutboundModel>::empty(),
        s.step(e).0.channels == s.channels,
{
    lemma_control_events_distinct();
}

/// A heartbeat on topic `phoenix` is answered by exactly one ok reply whose
/// response is the empty object; on any other topic it is answered by
/// nothing.
pub proof fn lemma_heartbeat(s: SocketModel, e: EnvelopeModel)
    requires
        e.event == "heartbeat"@,
        is_header(e.topic),
    ensures
        e.topic == JsonModel::Str("phoenix"@) ==> s.step(e).1 == seq![
            OutboundModel::Send(s.apply_header(e).reply("ok"@, JsonModel::Null)),
        ],
        e.topic == JsonModel::Str("phoenix"@) ==> reply_payload("ok"@, JsonModel::Null) == JsonModel::Object(
            seq![("response"@, empty_object()), ("status"@, JsonModel::Str("ok"@))],
        ),
        e.topic != JsonModel::Str("phoenix"@) ==> s.step(e).1.len() == 0,
{
}

/// An envelope published with `Action::BroadcastFrom` is dropped by the
/// connection that sent it and forwarded unchanged by every other one.
pub proof fn lemma_deliver_from(s: SocketModel, b: BroadcastModel)
    requires
        b.action == Action::BroadcastFrom,
    ensures
        b.from == Some(s.id) ==> s.deliver(b) is None,
        b.from != Some(s.id) ==> s.deliver(b) == Some(b.payload),
{
}

/// An application event from connection `a` reaches `a` once, as the
/// broadcast, and reaches any other connection `b` twice, as the broadcast
/// and as the broadcast that excludes its sender.
pub proof fn lemma_event_fanout(a: SocketModel, b: SocketModel, e: EnvelopeModel)
    requires
        a.id != b.id,
        e.event != "heartbeat"@,
        e.event != "phx_join"@,
        e.event != "phx_leave"@,
        a.apply_header(e).topic is Some,
    ensures
        a.step(e).1.len() == 2,
        a.step(e).1[0] is Publish,
        a.step(e).1[1] is Publish,
        a.deliver(a.step(e).1[0]->Publish_0) == Some(a.step(e).1[0]->Publish_0.payload),
        a.deliver(a.step(e).1[1]->Publish_0) is None,
        b.deliver(a.step(e).1[0]->Publish_0) == Some(a.step(e).1[0]->Publish_0.payload),
        b.deliver(a.step(e).1[1]->Publish_0) == Some(a.step(e).1[1]->Publish_0.payload),
        a.step(e).1[0]->Publish_0.payload.event == "boardcast"@,
        a.step(e).1[1]->Publish_0.payload.event == "boardcast_from"@,
        a.step(e).1[0]->Publish_0.payload.payload == e.payload,
        a.step(e).1[1]->Publish_0.payload.payload == e.payload,
{
}

} // verus!
