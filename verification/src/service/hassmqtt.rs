//! The home automation: the topics that the monitor publishes under, the
//! sensors that it announces, and the messages that announce them.
//!
//! A sensor is announced by a retained discovery message: a topic and a JSON
//! object that tells the home automation where the sensor's state is
//! published and how to read it.
use vstd::prelude::*;
use vstd::string::*;

use crate::driver::linky::LinkyFrame;
use crate::driver::rpict::RpictFrame;
use crate::service::json::bool_value;
use crate::service::json::json_bool;
use crate::service::json::json_object;
use crate::service::json::json_string;
use crate::service::json::json_text;
use crate::service::json::member_texts;
use crate::service::json::object_value;
use crate::service::json::string_value;
use crate::service::json::value_text;
use crate::text::push_str;
use crate::text::string_of;

verus! {

/// The name under which the monitor appears in the home automation.
pub const DEVICE_NAME: &'static str = "energy-monitor";

/// The version that the monitor announces.
pub const VERSION: &'static str = "0.1.0";

/// Why a message was not published.
#[derive(Debug, PartialEq, Eq)]
pub enum HassMqttClientError {
    /// The broker's client did not take the message.
    Publish,
}

/// A message for the broker.
#[derive(Debug, PartialEq)]
pub struct Message {
    pub topic: String,
    pub payload: String,
}

/// What a [`Message`] holds, as mathematical values.
pub struct MessageView {
    pub topic: Seq<char>,
    pub payload: Seq<char>,
}

impl View for Message {
    type V = MessageView;

    open spec fn view(&self) -> MessageView {
        MessageView { topic: self.topic@, payload: self.payload@ }
    }
}

/// A reading that can be published as the state of its sensors.
pub trait Publishable {
    /// The message that carries the reading: the topic of its source, and
    /// the reading as a JSON object.
    fn to_state_message(&self) -> Message;
}

/// A sensor, as it is announced to the home automation.
#[derive(Debug)]
pub struct Sensor {
    /// The name of the sensor, which is the name of its value in the state of
    /// its source.
    pub name: String,
    /// The source that measures it.
    pub source: String,
    pub device_class: String,
    pub state_class: String,
    pub unit_of_measurement: String,
}

/// What a [`Sensor`] holds, as mathematical values.
pub struct SensorView {
    pub name: Seq<char>,
    pub source: Seq<char>,
    pub device_class: Seq<char>,
    pub state_class: Seq<char>,
    pub unit_of_measurement: Seq<char>,
}

impl View for Sensor {
    type V = SensorView;

    open spec fn view(&self) -> SensorView {
        SensorView {
            name: self.name@,
            source: self.source@,
            device_class: self.device_class@,
            state_class: self.state_class@,
            unit_of_measurement: self.unit_of_measurement@,
        }
    }
}

/// The member of the name `name` whose value is the string `value`.
pub open spec fn string_member(name: Seq<char>, value: Seq<char>) -> (Seq<char>, Seq<char>) {
    (name, json_string(value))
}

/// The members of the object that describes the monitor.
pub open spec fn device_members() -> Seq<(Seq<char>, Seq<char>)> {
    seq![
        string_member("manufacturer"@, "DIY"@),
        string_member("name"@, DEVICE_NAME@),
        string_member("sw_version"@, VERSION@),
    ]
}

/// The topic, below the discovery prefix, that announces the sensor `name`.
pub open spec fn config_topic(name: Seq<char>) -> Seq<char> {
    "sensor/energy-monitor/"@ + name + "/config"@
}

/// The topic, below the topic prefix, of the state of `source`.
pub open spec fn state_topic(source: Seq<char>) -> Seq<char> {
    "energy-monitor/"@ + source
}

/// The template by which the home automation reads the sensor `name` out of
/// the state of its source.
pub open spec fn value_template(name: Seq<char>) -> Seq<char> {
    "{{ value_json."@ + name + " }}"@
}

/// The identifier of the sensor `name` of `source`.
pub open spec fn unique_id(source: Seq<char>, name: Seq<char>) -> Seq<char> {
    "energy-monitor_"@ + source + "_"@ + name
}

/// The name that the home automation shows for the sensor `name` of `source`.
pub open spec fn display_name(source: Seq<char>, name: Seq<char>) -> Seq<char> {
    "energy-monitor "@ + source + " "@ + name
}

/// The members of the discovery message of `sensor`: where the monitor says
/// whether it is there, what the monitor is, and where and how the state of
/// the sensor is to be read. Every sensor is enabled, counts as diagnostic,
/// and bears the same icon.
pub open spec fn discovery_members(sensor: SensorView, status_topic: Seq<char>) -> Seq<
    (Seq<char>, Seq<char>),
> {
    seq![
        string_member("availability_topic"@, status_topic),
        ("device"@, json_object(device_members())),
        string_member("device_class"@, sensor.device_class),
        ("enabled_by_default"@, json_bool(true)),
        string_member("entity_category"@, "diagnostic"@),
        string_member("icon"@, "mdi:lightning-bolt"@),
        string_member("name"@, display_name(sensor.source, sensor.name)),
        string_member("state_class"@, sensor.state_class),
        string_member("state_topic"@, state_topic(sensor.source)),
        string_member("unique_id"@, unique_id(sensor.source, sensor.name)),
        string_member("unit_of_measurement"@, sensor.unit_of_measurement),
        string_member("value_template"@, value_template(sensor.name)),
    ]
}

/// The discovery message of `sensor`: under the topic of the sensor, the
/// JSON object of its members.
pub open spec fn config_message(sensor: SensorView, status_topic: Seq<char>) -> MessageView {
    MessageView {
        topic: config_topic(sensor.name),
        payload: json_object(discovery_members(sensor, status_topic)),
    }
}

/// The member of the name `name` whose value is the string `value`.
fn string_member_of(name: &str, value: &str) -> (member: (String, serde_json::Value))
    ensures
        (member.0@, json_text(member.1)) == string_member(name@, value@),
{
    (String::from_str(name), string_value(value))
}

/// `a` and `b` in a row.
fn join2(a: &str, b: &str) -> (out: String)
    ensures
        out@ == a@ + b@,
{
    let mut out: Vec<char> = Vec::new();
    push_str(&mut out, a);
    push_str(&mut out, b);
    string_of(&out)
}

/// `a`, `b` and `c` in a row.
fn join3(a: &str, b: &str, c: &str) -> (out: String)
    ensures
        out@ == a@ + b@ + c@,
{
    let mut out: Vec<char> = Vec::new();
    push_str(&mut out, a);
    push_str(&mut out, b);
    push_str(&mut out, c);
    string_of(&out)
}

/// `a`, `b`, `c` and `d` in a row.
fn join4(a: &str, b: &str, c: &str, d: &str) -> (out: String)
    ensures
        out@ == a@ + b@ + c@ + d@,
{
    let mut out: Vec<char> = Vec::new();
    push_str(&mut out, a);
    push_str(&mut out, b);
    push_str(&mut out, c);
    push_str(&mut out, d);
    string_of(&out)
}

impl Sensor {
    /// The discovery message of the sensor, for a monitor whose availability
    /// is published under `status_topic`.
    pub fn to_config_message(&self, status_topic: &str) -> (message: Message)
        ensures
            message@ == config_message(self@, status_topic@),
    {
        let topic = join3("sensor/energy-monitor/", self.name.as_str(), "/config");
        let state = join2("energy-monitor/", self.source.as_str());
        let template = join3("{{ value_json.", self.name.as_str(), " }}");
        let id = join4("energy-monitor_", self.source.as_str(), "_", self.name.as_str());
        let shown = join4("energy-monitor ", self.source.as_str(), " ", self.name.as_str());

        let mut device: Vec<(String, serde_json::Value)> = Vec::new();
        device.push(string_member_of("manufacturer", "DIY"));
        device.push(string_member_of("name", DEVICE_NAME));
        device.push(string_member_of("sw_version", VERSION));
        assert(member_texts(device@) == device_members());

        let mut members: Vec<(String, serde_json::Value)> = Vec::new();
        members.push(string_member_of("availability_topic", status_topic));
        members.push((String::from_str("device"), object_value(device)));
        members.push(string_member_of("device_class", self.device_class.as_str()));
        members.push((String::from_str("enabled_by_default"), bool_value(true)));
        members.push(string_member_of("entity_category", "diagnostic"));
        members.push(string_member_of("icon", "mdi:lightning-bolt"));
        members.push(string_member_of("name", shown.as_str()));
        members.push(string_member_of("state_class", self.state_class.as_str()));
        members.push(string_member_of("state_topic", state.as_str()));
        members.push(string_member_of("unique_id", id.as_str()));
        members.push(string_member_of("unit_of_measurement", self.unit_of_measurement.as_str()));
        members.push(string_member_of("value_template", template.as_str()));
        assert(member_texts(members@) == discovery_members(self@, status_topic@));

        let payload = value_text(&object_value(members));
        Message { topic, payload }
    }
}

/// The class of the `metric`-th value of a phase, counted from nought.
pub open spec fn metric_class(metric: int) -> Seq<char> {
    if metric == 0 {
        "power"@
    } else if metric == 1 {
        "apparent_power"@
    } else if metric == 2 {
        "current"@
    } else if metric == 3 {
        "voltage"@
    } else {
        "power_factor"@
    }
}

/// The unit of the `metric`-th value of a phase.
pub open spec fn metric_unit(metric: int) -> Seq<char> {
    if metric == 0 {
        "W"@
    } else if metric == 1 {
        "VA"@
    } else if metric == 2 {
        "A"@
    } else if metric == 3 {
        "V"@
    } else {
        "%"@
    }
}

/// The name of the `index`-th sensor of the power module, counted from
/// nought: the name of the value in a sample, the phase before the measure.
pub open spec fn rpict_name(index: int) -> Seq<char> {
    if index == 0 {
        "l1_real_power"@
    } else if index == 1 {
        "l1_apparent_power"@
    } else if index == 2 {
        "l1_irms"@
    } else if index == 3 {
        "l1_vrms"@
    } else if index == 4 {
        "l1_power_factor"@
    } else if index == 5 {
        "l2_real_power"@
    } else if index == 6 {
        "l2_apparent_power"@
    } else if index == 7 {
        "l2_irms"@
    } else if index == 8 {
        "l2_vrms"@
    } else if index == 9 {
        "l2_power_factor"@
    } else if index == 10 {
        "l3_real_power"@
    } else if index == 11 {
        "l3_apparent_power"@
    } else if index == 12 {
        "l3_irms"@
    } else if index == 13 {
        "l3_vrms"@
    } else {
        "l3_power_factor"@
    }
}

/// The `index`-th sensor of the power module: its name, and the class and
/// the unit of its measure, which is the same for the three phases.
pub open spec fn rpict_sensor(index: int) -> SensorView {
    SensorView {
        name: rpict_name(index),
        source: "rpict"@,
        device_class: metric_class(index % 5),
        state_class: "measurement"@,
        unit_of_measurement: metric_unit(index % 5),
    }
}

/// The sensor of an index of the meter.
pub open spec fn linky_sensor(name: Seq<char>) -> SensorView {
    SensorView {
        name,
        source: "linky"@,
        device_class: "energy"@,
        state_class: "total"@,
        unit_of_measurement: "Wh"@,
    }
}

/// The views of a vector of sensors, in order.
pub open spec fn sensor_views(sensors: Seq<Sensor>) -> Seq<SensorView> {
    sensors.map_values(|s: Sensor| s@)
}

/// The name of the `index`-th sensor of the power module.
fn rpict_name_of(index: usize) -> (name: &'static str)
    ensures
        name@ == rpict_name(index as int),
{
    if index == 0 {
        "l1_real_power"
    } else if index == 1 {
        "l1_apparent_power"
    } else if index == 2 {
        "l1_irms"
    } else if index == 3 {
        "l1_vrms"
    } else if index == 4 {
        "l1_power_factor"
    } else if index == 5 {
        "l2_real_power"
    } else if index == 6 {
        "l2_apparent_power"
    } else if index == 7 {
        "l2_irms"
    } else if index == 8 {
        "l2_vrms"
    } else if index == 9 {
        "l2_power_factor"
    } else if index == 10 {
        "l3_real_power"
    } else if index == 11 {
        "l3_apparent_power"
    } else if index == 12 {
        "l3_irms"
    } else if index == 13 {
        "l3_vrms"
    } else {
        "l3_power_factor"
    }
}

/// The class of the `metric`-th value of a phase.
fn metric_class_of(metric: usize) -> (class: &'static str)
    ensures
        class@ == metric_class(metric as int),
{
    if metric == 0 {
        "power"
    } else if metric == 1 {
        "apparent_power"
    } else if metric == 2 {
        "current"
    } else if metric == 3 {
        "voltage"
    } else {
        "power_factor"
    }
}

/// The unit of the `metric`-th value of a phase.
fn metric_unit_of(metric: usize) -> (unit: &'static str)
    ensures
        unit@ == metric_unit(metric as int),
{
    if metric == 0 {
        "W"
    } else if metric == 1 {
        "VA"
    } else if metric == 2 {
        "A"
    } else if metric == 3 {
        "V"
    } else {
        "%"
    }
}

/// The sensors of the power module: fifteen, for each of the three phases,
/// in order, its five values in the order of the line.
pub open spec fn rpict_sensors() -> Seq<SensorView> {
    Seq::new(15, |i: int| rpict_sensor(i))
}

/// The sensors of the meter: the peak index, then the off-peak index.
pub open spec fn linky_sensors() -> Seq<SensorView> {
    seq![linky_sensor("hchp"@), linky_sensor("hchc"@)]
}

impl RpictFrame {
    /// The sensors of the power module.
    pub fn sensors() -> (sensors: Vec<Sensor>)
        ensures
            sensors.len() == 15,
            sensor_views(sensors@) == rpict_sensors(),
            forall|i: int| 0 <= i < 15 ==> (#[trigger] sensors[i])@ == rpict_sensor(i),
    {
        let mut sensors: Vec<Sensor> = Vec::new();
        let mut i: usize = 0;
        while i < 15
            invariant
                i <= 15,
                sensors.len() == i,
                forall|k: int| 0 <= k < i ==> (#[trigger] sensors[k])@ == rpict_sensor(k),
            decreases 15 - i,
        {
            let metric = i % 5;
            let sensor = Sensor {
                name: String::from_str(rpict_name_of(i)),
                source: String::from_str("rpict"),
                device_class: String::from_str(metric_class_of(metric)),
                state_class: String::from_str("measurement"),
                unit_of_measurement: String::from_str(metric_unit_of(metric)),
            };
            assert(sensor@ == rpict_sensor(i as int));
            sensors.push(sensor);
            i += 1;
        }
        assert(sensor_views(sensors@) =~= rpict_sensors());
        sensors
    }
}

impl LinkyFrame {
    /// The sensors of the meter.
    pub fn sensors() -> (sensors: Vec<Sensor>)
        ensures
            sensors.len() == 2,
            sensor_views(sensors@) == linky_sensors(),
            sensors[0]@ == linky_sensor("hchp"@),
            sensors[1]@ == linky_sensor("hchc"@),
    {
        let mut sensors: Vec<Sensor> = Vec::new();
        sensors.push(
            Sensor {
                name: String::from_str("hchp"),
                source: String::from_str("linky"),
                device_class: String::from_str("energy"),
                state_class: String::from_str("total"),
                unit_of_measurement: String::from_str("Wh"),
            },
        );
        sensors.push(
            Sensor {
                name: String::from_str("hchc"),
                source: String::from_str("linky"),
                device_class: String::from_str("energy"),
                state_class: String::from_str("total"),
                unit_of_measurement: String::from_str("Wh"),
            },
        );
        assert(sensor_views(sensors@) == seq![linky_sensor("hchp"@), linky_sensor("hchc"@)]);
        sensors
    }
}

/// The views of a vector of messages, in order.
pub open spec fn message_views(messages: Seq<Message>) -> Seq<MessageView> {
    messages.map_values(|m: Message| m@)
}

/// What every topic of the monitor begins with: the prefix and a slash, where
/// a prefix is given and is not empty, and nothing otherwise.
pub open spec fn topic_root(prefix: Option<Seq<char>>) -> Seq<char> {
    match prefix {
        Some(p) => if p.len() > 0 {
            p + "/"@
        } else {
            Seq::empty()
        },
        None => Seq::empty(),
    }
}

/// `message` with `root` before its topic.
pub open spec fn below(root: Seq<char>, message: MessageView) -> MessageView {
    MessageView { topic: root + message.topic, payload: message.payload }
}

/// What a client publishes when it has connected: the discovery message of
/// every sensor, those of the power module before those of the meter, each
/// below the discovery prefix; then `online`, under the status topic.
pub open spec fn announcement(client: HassMqttClient) -> Seq<MessageView> {
    (rpict_sensors() + linky_sensors()).map_values(
        |s: SensorView|
            below(client.discovery_topic_prefix@, config_message(s, client.status_topic@)),
    ).push(MessageView { topic: client.status_topic@, payload: "online"@ })
}

/// How long the broker waits for a sign of life, in seconds.
pub const KEEP_ALIVE_SECS: u64 = 60;

/// The client of the broker: who it is, whom it talks to, and the topics
/// that it publishes under.
pub struct HassMqttClient {
    /// The name by which the broker knows the client.
    pub client_id: String,
    pub host: String,
    pub port: u16,
    /// The user and the password, where the settings give both.
    pub credentials: Option<(String, String)>,
    /// What the topics of the states begin with.
    pub topic_prefix: String,
    /// What the topics of the discovery messages begin with.
    pub discovery_topic_prefix: String,
    /// The topic of the monitor's availability.
    pub status_topic: String,
}

/// Whether `client` is the client for the broker of `settings`, with its
/// topics below `prefix`: it bears the name of the monitor, publishes below
/// the root that the prefix makes, and logs in only where the settings hold
/// both a user and a password.
pub open spec fn speaks_to(
    client: HassMqttClient,
    settings: crate::settings::HassMqtt,
    prefix: Option<Seq<char>>,
) -> bool {
    &&& client.topic_prefix@ == topic_root(prefix)
    &&& client.discovery_topic_prefix@ == client.topic_prefix@ + "homeassistant/"@
    &&& client.status_topic@ == client.topic_prefix@ + DEVICE_NAME@ + "/status"@
    &&& client.client_id@ == client.topic_prefix@ + DEVICE_NAME@
    &&& client.host@ == settings.host@
    &&& client.port == settings.port
    &&& match client.credentials {
        Some(c) => settings.username matches Some(u) && settings.password matches Some(p) && c.0@
            == u@ && c.1@ == p@,
        None => settings.username is None || settings.password is None,
    }
}

impl HassMqttClient {
    /// The client for the broker of `settings`, with its topics below
    /// `topic_prefix`.
    pub fn new(settings: &crate::settings::HassMqtt, topic_prefix: Option<&String>) -> (client:
        HassMqttClient)
        ensures
            speaks_to(
                client,
                *settings,
                match topic_prefix {
                    Some(p) => Some(p@),
                    None => None,
                },
            ),
    {
        let mut root: Vec<char> = Vec::new();
        match topic_prefix {
            Some(p) => {
                let chars = crate::text::chars_of(p.as_str());
                if chars.len() > 0 {
                    crate::text::push_chars(&mut root, &chars);
                    push_str(&mut root, "/");
                }
            },
            None => {},
        }
        let topic_prefix = string_of(&root);
        let credentials = match (&settings.username, &settings.password) {
            (Some(u), Some(p)) => Some((u.clone(), p.clone())),
            _ => None,
        };
        HassMqttClient {
            client_id: join2(topic_prefix.as_str(), DEVICE_NAME),
            host: settings.host.clone(),
            port: settings.port,
            credentials,
            discovery_topic_prefix: join2(topic_prefix.as_str(), "homeassistant/"),
            status_topic: join3(topic_prefix.as_str(), DEVICE_NAME, "/status"),
            topic_prefix,
        }
    }

    /// What the broker publishes for the client when the client is lost:
    /// `offline`, under the status topic.
    pub fn last_will(&self) -> (message: Message)
        ensures
            message@ == (MessageView { topic: self.status_topic@, payload: "offline"@ }),
    {
        Message { topic: self.status_topic.clone(), payload: String::from_str("offline") }
    }

    /// The discovery messages of `sensors`, in order, each below the
    /// discovery prefix.
    fn discovery_messages(&self, sensors: &Vec<Sensor>, out: &mut Vec<Message>)
        ensures
            message_views(final(out)@) == message_views(old(out)@) + sensor_views(
                sensors@,
            ).map_values(
                |s: SensorView|
                    below(self.discovery_topic_prefix@, config_message(s, self.status_topic@)),
            ),
    {
        let ghost announce = |s: SensorView|
            below(self.discovery_topic_prefix@, config_message(s, self.status_topic@));
        let ghost all = sensor_views(sensors@).map_values(announce);
        let mut i: usize = 0;
        assert(message_views(out@) == message_views(old(out)@) + all.take(0));
        while i < sensors.len()
            invariant
                i <= sensors.len(),
                all == sensor_views(sensors@).map_values(announce),
                announce == |s: SensorView|
                    below(self.discovery_topic_prefix@, config_message(s, self.status_topic@)),
                message_views(out@) == message_views(old(out)@) + all.take(i as int),
            decreases sensors.len() - i,
        {
            let Message { topic, payload } = sensors[i].to_config_message(
                self.status_topic.as_str(),
            );
            let message = Message {
                topic: join2(self.discovery_topic_prefix.as_str(), topic.as_str()),
                payload,
            };
            let ghost before = message_views(out@);
            let ghost view = message@;
            assert(view == all[i as int]);
            out.push(message);
            assert(message_views(out@) == before.push(view));
            assert(all.take(i + 1) == all.take(i as int).push(all[i as int]));
            i += 1;
        }
        assert(all.take(sensors.len() as int) == all);
    }

    /// What the client publishes when it has connected: see
    /// [`announcement`].
    pub fn announce(&self) -> (messages: Vec<Message>)
        ensures
            message_views(messages@) == announcement(*self),
    {
        let mut messages: Vec<Message> = Vec::new();
        let ghost announce = |s: SensorView|
            below(self.discovery_topic_prefix@, config_message(s, self.status_topic@));
        assert(message_views(messages@) == Seq::<MessageView>::empty());
        self.discovery_messages(&RpictFrame::sensors(), &mut messages);
        self.discovery_messages(&LinkyFrame::sensors(), &mut messages);
        assert(message_views(messages@) == (rpict_sensors() + linky_sensors()).map_values(
            announce,
        ));
        let ghost before = message_views(messages@);
        let online = Message {
            topic: self.status_topic.clone(),
            payload: String::from_str("online"),
        };
        let ghost view = online@;
        messages.push(online);
        assert(message_views(messages@) == before.push(view));
        messages
    }

    /// The message as the client publishes it: below the topic prefix.
    pub fn publish(&self, message: Message) -> (out: Message)
        ensures
            out@ == below(self.topic_prefix@, message@),
    {
        Message {
            topic: join2(self.topic_prefix.as_str(), message.topic.as_str()),
            payload: message.payload,
        }
    }
}

impl LinkyFrame {
    /// The message that carries a reading of the meter, whose JSON object is
    /// `payload`.
    pub fn state_message(payload: String) -> (message: Message)
        ensures
            message@ == (MessageView { topic: state_topic("linky"@), payload: payload@ }),
    {
        Message { topic: join2("energy-monitor/", "linky"), payload }
    }
}

impl RpictFrame {
    /// The message that carries a sample of the power module, whose JSON
    /// object is `payload`.
    pub fn state_message(payload: String) -> (message: Message)
        ensures
            message@ == (MessageView { topic: state_topic("rpict"@), payload: payload@ }),
    {
        Message { topic: join2("energy-monitor/", "rpict"), payload }
    }
}

} // verus!
