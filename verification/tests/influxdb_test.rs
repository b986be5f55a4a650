use energy_monitor::clock::Timestamp;
use energy_monitor::driver::linky::LinkyFrame;
use energy_monitor::driver::rpict::RpictFrame;
use energy_monitor::service::influxdb::line_data;
use energy_monitor::service::influxdb::InfluxDBClient;
use energy_monitor::service::influxdb::InfluxDBClientError;
use energy_monitor::service::influxdb::InfluxDbSerialize;
use energy_monitor::service::influxdb::WriteOutcome;
use energy_monitor::settings::InfluxDB;

fn settings() -> InfluxDB {
    InfluxDB {
        host: "influx.lan".to_string(),
        port: 8086,
        database: "energy".to_string(),
        prefix: Some("home".to_string()),
    }
}

#[test]
fn test_influxdb_serialization_rpictframe() {
    // Given
    let now = Timestamp::from_millis(1657113606);
    let frame = RpictFrame::parse(
        "11 -82.96 422.95 1.64 257.65 0.194 -50.23 144.52 0.56 259.95 0.346 24.55 47.17 0.18 259.70 0.509",
        now,
    )
    .unwrap();
    let names = RpictFrame::sensors();
    let texts = [
        &frame.l1_real_power,
        &frame.l1_apparent_power,
        &frame.l1_irms,
        &frame.l1_vrms,
        &frame.l1_power_factor,
        &frame.l2_real_power,
        &frame.l2_apparent_power,
        &frame.l2_irms,
        &frame.l2_vrms,
        &frame.l2_power_factor,
        &frame.l3_real_power,
        &frame.l3_apparent_power,
        &frame.l3_irms,
        &frame.l3_vrms,
        &frame.l3_power_factor,
    ];
    let fields: Vec<(String, String)> = names
        .iter()
        .zip(texts.iter())
        .map(|(sensor, text)| (sensor.name.clone(), format!("{}", text.parse::<f32>().unwrap())))
        .collect();
    // When
    let actual = line_data(
        &Some("prefix".to_string()),
        "rpict",
        "node_id",
        &format!("{}", frame.node_id),
        &fields,
        frame.timestamp.timestamp_millis(),
    );
    // Then
    assert_eq!(
        actual,
        "prefix.rpict,node_id=11 \
    l1_real_power=-82.96,l1_apparent_power=422.95,l1_irms=1.64,l1_vrms=257.65,l1_power_factor=0.194,\
    l2_real_power=-50.23,l2_apparent_power=144.52,l2_irms=0.56,l2_vrms=259.95,l2_power_factor=0.346,\
    l3_real_power=24.55,l3_apparent_power=47.17,l3_irms=0.18,l3_vrms=259.7,l3_power_factor=0.509 1657113606"
    );
}

#[test]
fn test_influxdb_serialization_linkyframe() {
    // Given
    let now = Timestamp::from_millis(1657113606);
    let frame = LinkyFrame {
        adco: "041876097767".to_string(),
        ptec: "HP".to_string(),
        hchc: 19_650_909,
        hchp: 43_280_553,
        timestamp: now,
    };
    // When
    let actual = frame.to_line_data(&Some("prefix".to_string()));
    // Then
    assert_eq!(
        actual,
        "prefix.linky,adco=041876097767 hc_index=19650909,hp_index=43280553 1657113606"
    );
}

#[test]
fn test_influxdb_line_without_prefix() {
    let frame = LinkyFrame {
        adco: "1".to_string(),
        ptec: "HC".to_string(),
        hchc: 0,
        hchp: u32::MAX,
        timestamp: Timestamp::from_millis(-5),
    };
    assert_eq!(frame.to_line_data(&None), "linky,adco=1 hc_index=0,hp_index=4294967295 -5");
    assert_eq!(
        frame.to_line_data(&Some(String::new())),
        ".linky,adco=1 hc_index=0,hp_index=4294967295 -5"
    );
}

#[test]
fn test_influxdb_line_data() {
    let one = vec![("a".to_string(), "1".to_string())];
    assert_eq!(line_data(&None, "m", "t", "v", &one, 0), "m,t=v a=1 0");
    assert_eq!(line_data(&None, "m", "t", "v", &Vec::new(), 7), "m,t=v  7");
    let three = vec![
        ("a".to_string(), "1".to_string()),
        ("b".to_string(), "2".to_string()),
        ("c".to_string(), "3".to_string()),
    ];
    assert_eq!(
        line_data(&Some("p".to_string()), "m", "t", "v", &three, i64::MIN),
        "p.m,t=v a=1,b=2,c=3 -9223372036854775808"
    );
}

#[test]
fn test_influxdb_base_url() {
    assert_eq!(settings().base_url(), "http://influx.lan:8086");
    let mut s = settings();
    s.port = 0;
    s.host = "::1".to_string();
    assert_eq!(s.base_url(), "http://::1:0");
}

#[test]
fn test_influxdb_publish() {
    let client = InfluxDBClient::new(&settings());
    assert_eq!(client.settings.host, "influx.lan");
    assert_eq!(client.settings.prefix, Some("home".to_string()));
    let request = client.publish("m,t=v a=1 0".to_string());
    assert_eq!(request.url, "http://influx.lan:8086/write");
    assert_eq!(request.db, "energy");
    assert_eq!(request.precision, "ms");
    assert_eq!(request.body, "m,t=v a=1 0");
}

#[test]
fn test_influxdb_settle() {
    assert_eq!(InfluxDBClient::settle(WriteOutcome::Status(204)), Ok(()));
    assert_eq!(
        InfluxDBClient::settle(WriteOutcome::Status(200)),
        Err(InfluxDBClientError::UnexpectedResponse)
    );
    assert_eq!(
        InfluxDBClient::settle(WriteOutcome::Status(500)),
        Err(InfluxDBClientError::UnexpectedResponse)
    );
    assert_eq!(InfluxDBClient::settle(WriteOutcome::TimedOut), Err(InfluxDBClientError::TimedOut));
    assert_eq!(InfluxDBClient::settle(WriteOutcome::Failed), Err(InfluxDBClientError::Unknown));
}
