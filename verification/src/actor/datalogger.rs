//! The actor that logs the readings.
//!
//! It takes the frames of both sources and hands each to the sinks that are
//! set: the time-series database and the broker of the home automation. For
//! each sink it remembers whether the last reading got through, and it tells
//! its subscribers when a sink is first reached and when it is lost. While
//! things stay as they are it says nothing: a sink that stays down, or stays
//! up, makes no stream of messages. The sinks do not touch each other's
//! state.
use vstd::prelude::*;

use crate::service::hassmqtt::below;
use crate::service::hassmqtt::speaks_to;
use crate::service::hassmqtt::HassMqttClient;
use crate::service::hassmqtt::HassMqttClientError;
use crate::service::hassmqtt::Message;
use crate::service::influxdb::option_view;
use crate::service::influxdb::writes_to;
use crate::service::influxdb::InfluxDBClient;
use crate::service::influxdb::InfluxDBClientError;
use crate::service::influxdb::WriteRequest;
use crate::settings::HassMqtt;
use crate::settings::InfluxDB;
use crate::text::decimal::decimal;

verus! {

/// How many messages the channel of the logger holds for a subscriber.
pub const CHANNEL_CAPACITY: usize = 1;

/// What the actor tells its subscribers.
#[derive(Clone, Copy, Debug, PartialEq, Eq)]
pub enum DataLoggerMessage {
    /// A reading was written to the database, after none had been.
    InfluxDbConnected,
    /// A reading was not written to the database, after the last one had
    /// been.
    InfluxDbDisconnected,
    /// A reading was published to the broker, after none had been.
    HassMqttConnected,
    /// A reading was not published to the broker, after the last one had
    /// been.
    HassMqttDisconnected,
}

/// A sink of the readings.
#[derive(Clone, Copy, Debug, PartialEq, Eq)]
pub enum Sink {
    InfluxDb,
    HassMqtt,
}

/// The message that says that `sink` is reached.
pub open spec fn connected_message(sink: Sink) -> DataLoggerMessage {
    match sink {
        Sink::InfluxDb => DataLoggerMessage::InfluxDbConnected,
        Sink::HassMqtt => DataLoggerMessage::HassMqttConnected,
    }
}

/// The message that says that `sink` is lost.
pub open spec fn disconnected_message(sink: Sink) -> DataLoggerMessage {
    match sink {
        Sink::InfluxDb => DataLoggerMessage::InfluxDbDisconnected,
        Sink::HassMqtt => DataLoggerMessage::HassMqttDisconnected,
    }
}

/// What the actor says when a reading has got through to `sink` (`ok`) or
/// has not, the last one having got through (`connected`) or not.
pub open spec fn sent_message(sink: Sink, connected: bool, ok: bool) -> Option<DataLoggerMessage> {
    if ok && !connected {
        Some(connected_message(sink))
    } else if !ok && connected {
        Some(disconnected_message(sink))
    } else {
        None
    }
}

/// Whether a sink counts as reached after the readings of `sends`, in order,
/// each of which got through or not, having counted as reached
/// (`connected`) or not before them.
pub open spec fn connected_after(connected: bool, sends: Seq<bool>) -> bool {
    if sends.len() == 0 {
        connected
    } else {
        sends.last()
    }
}

/// What the actor says of `sink` during the readings of `sends`, in order.
pub open spec fn messages_during(sink: Sink, connected: bool, sends: Seq<bool>) -> Seq<
    DataLoggerMessage,
>
    decreases sends.len(),
{
    if sends.len() == 0 {
        Seq::empty()
    } else {
        let before = messages_during(sink, connected, sends.drop_last());
        match sent_message(sink, connected_after(connected, sends.drop_last()), sends.last()) {
            Some(m) => before.push(m),
            None => before,
        }
    }
}

/// The actor speaks only when things change: a reading that ends as the last
/// one did makes it say nothing, and what it says tells how the reading
/// ended.
pub proof fn lemma_speaks_on_change(sink: Sink, connected: bool, ok: bool)
    ensures
        sent_message(sink, ok, ok) is None,
        sent_message(sink, connected, ok) is Some <==> connected != ok,
        sent_message(sink, connected, ok) == Some(connected_message(sink)) ==> ok,
        sent_message(sink, connected, ok) == Some(disconnected_message(sink)) ==> !ok,
{
}

/// What the actor says of a sink alternates: after the word that the sink
/// is reached comes the word that it is lost, and the other way round; an
/// actor that starts with the sink unreached says first that it is reached;
/// and it never says more than there were readings.
pub proof fn lemma_messages_alternate(sink: Sink, connected: bool, sends: Seq<bool>)
    ensures
        ({
            let said = messages_during(sink, connected, sends);
            &&& forall|i: int| 0 <= i < said.len() - 1 ==> #[trigger] said[i] != said[i + 1]
            &&& forall|i: int|
                0 <= i < said.len() ==> #[trigger] said[i] == connected_message(sink) || said[i]
                    == disconnected_message(sink)
            &&& said.len() > 0 ==> (said.last() == connected_message(sink) <==> connected_after(
                connected,
                sends,
            ))
            &&& said.len() > 0 ==> (said[0] == connected_message(sink) <==> !connected)
            &&& said.len() == 0 ==> connected_after(connected, sends) == connected
            &&& said.len() <= sends.len()
        }),
    decreases sends.len(),
{
    if sends.len() > 0 {
        lemma_messages_alternate(sink, connected, sends.drop_last());
    }
}

/// What comes back from a sink.
#[derive(Debug, PartialEq, Eq)]
pub enum DataLoggerEvent {
    /// A write to the database has ended, well or not.
    Written(Result<(), InfluxDBClientError>),
    /// A publication to the broker has ended, well or not.
    Published(Result<(), HassMqttClientError>),
}

/// The sink that an event comes back from.
pub open spec fn sink_of(event: DataLoggerEvent) -> Sink {
    match event {
        DataLoggerEvent::Written(_) => Sink::InfluxDb,
        DataLoggerEvent::Published(_) => Sink::HassMqtt,
    }
}

/// Whether an event says that the reading got through.
pub open spec fn is_success(event: DataLoggerEvent) -> bool {
    match event {
        DataLoggerEvent::Written(outcome) => outcome is Ok,
        DataLoggerEvent::Published(outcome) => outcome is Ok,
    }
}

/// The actor that logs the readings.
pub struct DataLoggerActor {
    influxdb: Option<InfluxDBClient>,
    hassmqtt: Option<HassMqttClient>,
    influxdb_connected: bool,
    hassmqtt_connected: bool,
}

impl DataLoggerActor {
    /// Whether the last reading got through to `sink`.
    pub closed spec fn connected(&self, sink: Sink) -> bool {
        match sink {
            Sink::InfluxDb => self.influxdb_connected,
            Sink::HassMqtt => self.hassmqtt_connected,
        }
    }

    /// The writer of the database, if a database is set.
    pub closed spec fn influxdb(&self) -> Option<InfluxDBClient> {
        self.influxdb
    }

    /// The client of the broker, if a broker is set.
    pub closed spec fn hassmqtt(&self) -> Option<HassMqttClient> {
        self.hassmqtt
    }

    /// The actor for the sinks that have settings, none of them reached
    /// yet. A sink without settings is not written to. The topics of the
    /// broker bear no prefix.
    pub fn create(
        influxdb_settings: &Option<InfluxDB>,
        hassmqtt_settings: &Option<HassMqtt>,
    ) -> (actor: DataLoggerActor)
        ensures
            !actor.connected(Sink::InfluxDb),
            !actor.connected(Sink::HassMqtt),
            match actor.influxdb() {
                Some(client) => influxdb_settings is Some && writes_to(
                    client,
                    influxdb_settings->0,
                ),
                None => influxdb_settings is None,
            },
            match actor.hassmqtt() {
                Some(client) => hassmqtt_settings is Some && speaks_to(
                    client,
                    hassmqtt_settings->0,
                    None,
                ),
                None => hassmqtt_settings is None,
            },
    {
        let influxdb = match influxdb_settings {
            Some(settings) => Some(InfluxDBClient::new(settings)),
            None => None,
        };
        let hassmqtt = match hassmqtt_settings {
            Some(settings) => Some(HassMqttClient::new(settings, None)),
            None => None,
        };
        DataLoggerActor { influxdb, hassmqtt, influxdb_connected: false, hassmqtt_connected: false }
    }

    /// What the actor publishes to the broker when the broker is reached for
    /// the first time: the discovery messages of the sensors and the word
    /// that the monitor is online, as [`HassMqttClient::announce`] gives
    /// them; nothing where no broker is set.
    pub fn announce(&self) -> (messages: Vec<Message>)
        ensures
            match self.hassmqtt() {
                Some(client) => crate::service::hassmqtt::message_views(messages@)
                    == crate::service::hassmqtt::announcement(client),
                None => messages@.len() == 0,
            },
    {
        match &self.hassmqtt {
            Some(client) => client.announce(),
            None => Vec::new(),
        }
    }

    /// What the names of the measurements begin with, if anything.
    pub fn prefix(&self) -> (prefix: Option<String>)
        ensures
            option_view(prefix) == match self.influxdb() {
                Some(client) => option_view(client.settings.prefix),
                None => None,
            },
    {
        match &self.influxdb {
            Some(client) => match &client.settings.prefix {
                Some(p) => Some(p.clone()),
                None => None,
            },
            None => None,
        }
    }

    /// A frame has come, whose line for the database is `line_data`. The
    /// result is the request to make: the one that writes the line, where a
    /// database is set, and none otherwise.
    pub fn record(&self, line_data: String) -> (request: Option<WriteRequest>)
        ensures
            request is Some <==> self.influxdb() is Some,
            request matches Some(r) ==> self.influxdb() matches Some(client) && r.url@
                == "http://"@ + client.settings.host@ + ":"@ + decimal(client.settings.port as nat)
                + "/write"@ && r.db@ == client.settings.database@ && r.precision@ == "ms"@
                && r.body@ == line_data@,
    {
        match &self.influxdb {
            Some(client) => Some(client.publish(line_data)),
            None => None,
        }
    }

    /// A frame has come, whose message for the broker is `message`. The
    /// result is the message to publish: `message` below the topic prefix,
    /// where a broker is set, and none otherwise.
    pub fn publish(&self, message: Message) -> (out: Option<Message>)
        ensures
            out is Some <==> self.hassmqtt() is Some,
            out matches Some(m) ==> self.hassmqtt() matches Some(client) && m@ == below(
                client.topic_prefix@,
                message@,
            ),
    {
        match &self.hassmqtt {
            Some(client) => Some(client.publish(message)),
            None => None,
        }
    }

    /// Something has come back from a sink. The result is what the actor
    /// publishes: that the sink is reached, where the reading got through
    /// and the last one had not; that the sink is lost, where the reading
    /// did not get through and the last one had; and nothing otherwise. The
    /// state of the other sink is not touched.
    pub fn run(&mut self, event: &DataLoggerEvent) -> (message: Option<DataLoggerMessage>)
        ensures
            forall|sink: Sink|
                #[trigger] final(self).connected(sink) == if sink == sink_of(*event) {
                    is_success(*event)
                } else {
                    old(self).connected(sink)
                },
            final(self).influxdb() == old(self).influxdb(),
            final(self).hassmqtt() == old(self).hassmqtt(),
            message == sent_message(
                sink_of(*event),
                old(self).connected(sink_of(*event)),
                is_success(*event),
            ),
    {
        match event {
            DataLoggerEvent::Written(outcome) => self.written(outcome),
            DataLoggerEvent::Published(outcome) => self.published(outcome),
        }
    }

    /// A write to the database has ended. The result is what the actor
    /// publishes: `InfluxDbConnected` where the write ended well and the
    /// last one had not, `InfluxDbDisconnected` where it failed and the last
    /// one had not, and nothing otherwise. The broker's state is not
    /// touched.
    fn written(&mut self, outcome: &Result<(), InfluxDBClientError>) -> (message: Option<
        DataLoggerMessage,
    >)
        ensures
            final(self).connected(Sink::InfluxDb) == outcome is Ok,
            final(self).connected(Sink::HassMqtt) == old(self).connected(Sink::HassMqtt),
            final(self).influxdb() == old(self).influxdb(),
            final(self).hassmqtt() == old(self).hassmqtt(),
            message == sent_message(
                Sink::InfluxDb,
                old(self).connected(Sink::InfluxDb),
                outcome is Ok,
            ),
    {
        let ok = outcome.is_ok();
        let message = if ok && !self.influxdb_connected {
            Some(DataLoggerMessage::InfluxDbConnected)
        } else if !ok && self.influxdb_connected {
            Some(DataLoggerMessage::InfluxDbDisconnected)
        } else {
            None
        };
        self.influxdb_connected = ok;
        message
    }

    /// A publication to the broker has ended. The result is what the actor
    /// publishes: `HassMqttConnected` where the publication ended well and
    /// the last one had not, `HassMqttDisconnected` where it failed and the
    /// last one had not, and nothing otherwise. The database's state is not
    /// touched.
    fn published(&mut self, outcome: &Result<(), HassMqttClientError>) -> (message: Option<
        DataLoggerMessage,
    >)
        ensures
            final(self).connected(Sink::HassMqtt) == outcome is Ok,
            final(self).connected(Sink::InfluxDb) == old(self).connected(Sink::InfluxDb),
            final(self).influxdb() == old(self).influxdb(),
            final(self).hassmqtt() == old(self).hassmqtt(),
            message == sent_message(
                Sink::HassMqtt,
                old(self).connected(Sink::HassMqtt),
                outcome is Ok,
            ),
    {
        let ok = outcome.is_ok();
        let message = if ok && !self.hassmqtt_connected {
            Some(DataLoggerMessage::HassMqttConnected)
        } else if !ok && self.hassmqtt_connected {
            Some(DataLoggerMessage::HassMqttDisconnected)
        } else {
            None
        };
        self.hassmqtt_connected = ok;
        message
    }
}

} // verus!
