use energy_monitor::driver::linky::LinkyFrame;
use energy_monitor::driver::rpict::RpictFrame;
use energy_monitor::service::hassmqtt::HassMqttClient;
use energy_monitor::service::hassmqtt::Message;
use energy_monitor::service::hassmqtt::Sensor;
use energy_monitor::settings::HassMqtt;

fn settings() -> HassMqtt {
    HassMqtt { host: "broker.lan".to_string(), port: 1883, username: None, password: None }
}

#[test]
fn test_sensorconfig_to_discovery_message() {
    // Given
    let now = Sensor {
        name: "sensor".to_string(),
        source: "source".to_string(),
        device_class: "device_class".to_string(),
        state_class: "state_class".to_string(),
        unit_of_measurement: "unit_of_measurement".to_string(),
    };
    // When
    let Message { topic, payload } = now.to_config_message("status");
    // Then
    assert_eq!(topic, "sensor/energy-monitor/sensor/config");
    assert_eq!(
        payload,
        r#"{"availability_topic":"status","device":{"manufacturer":"DIY","name":"energy-monitor","sw_version":"0.1.0"},"device_class":"device_class","enabled_by_default":true,"entity_category":"diagnostic","icon":"mdi:lightning-bolt","name":"energy-monitor source sensor","state_class":"state_class","state_topic":"energy-monitor/source","unique_id":"energy-monitor_source_sensor","unit_of_measurement":"unit_of_measurement","value_template":"{{ value_json.sensor }}"}"#
    );
}

#[test]
fn test_discovery_message_is_json() {
    let sensor = Sensor {
        name: "a\"b".to_string(),
        source: "back\\slash".to_string(),
        device_class: "line\nfeed".to_string(),
        state_class: "tab\t".to_string(),
        unit_of_measurement: "\u{b0}C \u{1}".to_string(),
    };
    let Message { topic, payload } = sensor.to_config_message("st\"atus");
    assert_eq!(topic, "sensor/energy-monitor/a\"b/config");
    let value: serde_json::Value = serde_json::from_str(&payload).unwrap();
    assert_eq!(value["availability_topic"], "st\"atus");
    assert_eq!(value["state_topic"], "energy-monitor/back\\slash");
    assert_eq!(value["value_template"], "{{ value_json.a\"b }}");
    assert_eq!(value["unique_id"], "energy-monitor_back\\slash_a\"b");
    assert_eq!(value["name"], "energy-monitor back\\slash a\"b");
    assert_eq!(value["device_class"], "line\nfeed");
    assert_eq!(value["state_class"], "tab\t");
    assert_eq!(value["unit_of_measurement"], "\u{b0}C \u{1}");
    assert_eq!(value["enabled_by_default"], true);
    assert_eq!(value["entity_category"], "diagnostic");
    assert_eq!(value["icon"], "mdi:lightning-bolt");
    assert_eq!(value["device"]["name"], "energy-monitor");
    assert_eq!(value["device"]["manufacturer"], "DIY");
    assert_eq!(value["device"]["sw_version"], "0.1.0");
    assert_eq!(serde_json::to_string(&value).unwrap(), payload);
}

#[test]
fn test_rpict_sensors() {
    let sensors = RpictFrame::sensors();
    let names: Vec<&str> = sensors.iter().map(|s| s.name.as_str()).collect();
    assert_eq!(
        names,
        vec![
            "l1_real_power",
            "l1_apparent_power",
            "l1_irms",
            "l1_vrms",
            "l1_power_factor",
            "l2_real_power",
            "l2_apparent_power",
            "l2_irms",
            "l2_vrms",
            "l2_power_factor",
            "l3_real_power",
            "l3_apparent_power",
            "l3_irms",
            "l3_vrms",
            "l3_power_factor",
        ]
    );
    let classes: Vec<&str> = sensors.iter().take(5).map(|s| s.device_class.as_str()).collect();
    assert_eq!(classes, vec!["power", "apparent_power", "current", "voltage", "power_factor"]);
    let units: Vec<&str> = sensors.iter().skip(10).map(|s| s.unit_of_measurement.as_str()).collect();
    assert_eq!(units, vec!["W", "VA", "A", "V", "%"]);
    for s in &sensors {
        assert_eq!(s.source, "rpict");
        assert_eq!(s.state_class, "measurement");
    }
}

#[test]
fn test_linky_sensors() {
    let sensors = LinkyFrame::sensors();
    assert_eq!(sensors.len(), 2);
    assert_eq!(sensors[0].name, "hchp");
    assert_eq!(sensors[1].name, "hchc");
    for s in &sensors {
        assert_eq!(s.source, "linky");
        assert_eq!(s.device_class, "energy");
        assert_eq!(s.state_class, "total");
        assert_eq!(s.unit_of_measurement, "Wh");
    }
}

#[test]
fn test_client_topics() {
    let prefix = "1234".to_string();
    let client = HassMqttClient::new(&settings(), Some(&prefix));
    assert_eq!(client.topic_prefix, "1234/");
    assert_eq!(client.discovery_topic_prefix, "1234/homeassistant/");
    assert_eq!(client.status_topic, "1234/energy-monitor/status");
    assert_eq!(client.client_id, "1234/energy-monitor");
    assert_eq!(client.host, "broker.lan");
    assert_eq!(client.port, 1883);
    assert_eq!(client.credentials, None);

    let client = HassMqttClient::new(&settings(), None);
    assert_eq!(client.topic_prefix, "");
    assert_eq!(client.discovery_topic_prefix, "homeassistant/");
    assert_eq!(client.status_topic, "energy-monitor/status");
    assert_eq!(client.client_id, "energy-monitor");

    let empty = String::new();
    let client = HassMqttClient::new(&settings(), Some(&empty));
    assert_eq!(client.topic_prefix, "");
    assert_eq!(client.status_topic, "energy-monitor/status");
}

#[test]
fn test_client_credentials() {
    let mut s = settings();
    s.username = Some("user".to_string());
    assert_eq!(HassMqttClient::new(&s, None).credentials, None);
    s.password = Some("secret".to_string());
    assert_eq!(
        HassMqttClient::new(&s, None).credentials,
        Some(("user".to_string(), "secret".to_string()))
    );
    s.username = None;
    assert_eq!(HassMqttClient::new(&s, None).credentials, None);
}

#[test]
fn test_client_last_will() {
    let prefix = "p".to_string();
    let client = HassMqttClient::new(&settings(), Some(&prefix));
    assert_eq!(
        client.last_will(),
        Message { topic: "p/energy-monitor/status".to_string(), payload: "offline".to_string() }
    );
}

#[test]
fn test_client_announce() {
    let prefix = "99".to_string();
    let client = HassMqttClient::new(&settings(), Some(&prefix));
    let messages = client.announce();
    assert_eq!(messages.len(), 18);
    let mut sensors = RpictFrame::sensors();
    sensors.extend(LinkyFrame::sensors());
    for (message, sensor) in messages.iter().zip(sensors.iter()) {
        assert_eq!(
            message.topic,
            format!("99/homeassistant/sensor/energy-monitor/{}/config", sensor.name)
        );
        let payload: serde_json::Value = serde_json::from_str(&message.payload).unwrap();
        assert_eq!(payload["availability_topic"], "99/energy-monitor/status");
        assert_eq!(payload["state_topic"], format!("energy-monitor/{}", sensor.source));
        assert_eq!(message.payload, sensor.to_config_message("99/energy-monitor/status").payload);
    }
    assert_eq!(
        messages[17],
        Message { topic: "99/energy-monitor/status".to_string(), payload: "online".to_string() }
    );
}

#[test]
fn test_client_publish() {
    let prefix = "7".to_string();
    let client = HassMqttClient::new(&settings(), Some(&prefix));
    let payload = r#"{"adco":"041876097767","ptec":"HP","hchc":19650909,"hchp":43280553,"timestamp":"2023-07-09T14:01:10Z"}"#;
    let message = client.publish(LinkyFrame::state_message(payload.to_string()));
    assert_eq!(message.topic, "7/energy-monitor/linky");
    assert_eq!(message.payload, payload);
    let message = client.publish(RpictFrame::state_message("{}".to_string()));
    assert_eq!(message.topic, "7/energy-monitor/rpict");
    assert_eq!(message.payload, "{}");
}

#[test]
fn test_state_messages() {
    assert_eq!(
        LinkyFrame::state_message("x".to_string()),
        Message { topic: "energy-monitor/linky".to_string(), payload: "x".to_string() }
    );
    assert_eq!(
        RpictFrame::state_message("y".to_string()),
        Message { topic: "energy-monitor/rpict".to_string(), payload: "y".to_string() }
    );
}
