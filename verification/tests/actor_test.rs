use energy_monitor::actor::button::ButtonActor;
use energy_monitor::actor::button::ButtonMessage;
use energy_monitor::driver::gpio::Level;
use energy_monitor::actor::datalogger::DataLoggerActor;
use energy_monitor::actor::datalogger::DataLoggerEvent;
use energy_monitor::actor::datalogger::DataLoggerMessage;
use energy_monitor::actor::display::DisplayAction;
use energy_monitor::actor::display::DisplayActor;
use energy_monitor::actor::display::DisplayMessage;
use energy_monitor::actor::hmi::HmiActor;
use energy_monitor::actor::linky::LinkyActor;
use energy_monitor::actor::linky::LinkyMessage;
use energy_monitor::actor::producer::Producer;
use energy_monitor::actor::producer::CHANNEL_CAPACITY;
use energy_monitor::actor::producer::Signal;
use energy_monitor::actor::producer::Stage;
use energy_monitor::actor::rpict::RpictActor;
use energy_monitor::actor::rpict::RpictMessage;
use energy_monitor::clock::Timestamp;
use energy_monitor::display::pages::LandingPage;
use energy_monitor::display::pages::LinkyPage;
use energy_monitor::display::pages::Page;
use energy_monitor::driver::linky::LinkyFrame;
use energy_monitor::driver::linky::TariffPeriod;
use energy_monitor::driver::serial::Parity;
use energy_monitor::service::hassmqtt::HassMqttClientError;
use energy_monitor::service::hassmqtt::Message;
use energy_monitor::service::influxdb::InfluxDBClientError;
use energy_monitor::settings::HassMqtt;
use energy_monitor::settings::InfluxDB;
use tokio::sync::broadcast;
use tokio::sync::broadcast::error::TryRecvError;

const METER: &str = "\u{02}\nADCO 041876097767 U\r\nPTEC HP..\r\nHCHC 019650909 -\r\nHCHP 043280553 1\r\n\u{03}";
const MODULE: &str =
    "11 -82.96 422.95 1.64 257.65 0.194 -50.23 144.52 0.56 259.95 0.346 24.55 47.17 0.18 259.70 0.509\n";

#[test]
fn test_producer_that_connects() {
    let mut p = Producer::new();
    assert_eq!(p.stage(), Stage::Idle);
    assert!(!p.is_open());
    p.start();
    assert_eq!(p.stage(), Stage::Connecting);
    assert_eq!(p.opened(true), Some(Signal::Connected));
    assert_eq!(p.stage(), Stage::Connected);
    assert!(p.is_open());
    assert_eq!(p.opened(true), None);
    p.published();
    assert_eq!(p.stage(), Stage::Streaming);
    p.published();
    assert_eq!(p.stage(), Stage::Streaming);
    assert_eq!(p.ended(), Some(Signal::Disconnected));
    assert_eq!(p.stage(), Stage::Terminated);
    assert_eq!(p.ended(), None);
    assert_eq!(p.opened(true), None);
    p.start();
    p.published();
    assert_eq!(p.stage(), Stage::Terminated);
}

#[test]
fn test_producer_that_cannot_connect() {
    let mut p = Producer::new();
    assert_eq!(p.opened(false), None);
    assert_eq!(p.ended(), None);
    assert_eq!(p.stage(), Stage::Idle);
    p.start();
    assert_eq!(p.opened(false), Some(Signal::Disconnected));
    assert_eq!(p.stage(), Stage::Terminated);
    assert_eq!(p.ended(), None);
    assert!(!p.is_open());
}

#[test]
fn test_linky_actor() {
    let mut actor = LinkyActor::create("/dev/ttyAMA0");
    assert_eq!(actor.serial_path(), "/dev/ttyAMA0");
    let line = actor.serial_line();
    assert_eq!((line.baud_rate, line.parity, line.data_bits, line.stop_bits), (1200, Parity::Even, 7, 1));
    let now = Timestamp::from_millis(5);
    assert!(actor.received('\u{03}', now).is_none());
    actor.start();
    assert!(matches!(actor.opened(true), Some(LinkyMessage::Connected)));
    assert!(actor.is_open());
    let mut frames = Vec::new();
    for c in METER.chars().chain(METER.chars()) {
        if let Some(LinkyMessage::NewFrame(frame)) = actor.received(c, now) {
            frames.push(frame);
        }
    }
    assert_eq!(frames.len(), 2);
    assert_eq!(frames[0].adco, "041876097767");
    assert_eq!(frames[0].ptec, "HP");
    assert_eq!(frames[0].hchc, 19_650_909);
    assert_eq!(frames[0].hchp, 43_280_553);
    assert_eq!(frames[0].timestamp, now);
    assert_eq!(frames[1], frames[0]);
    assert!(matches!(actor.ended(), Some(LinkyMessage::Disconnected)));
    assert!(actor.ended().is_none());
    for c in METER.chars() {
        assert!(actor.received(c, now).is_none());
    }
}

#[test]
fn test_linky_actor_that_cannot_connect() {
    let mut actor = LinkyActor::create("/dev/none");
    actor.start();
    assert!(matches!(actor.opened(false), Some(LinkyMessage::Disconnected)));
    assert!(!actor.is_open());
    assert!(actor.opened(true).is_none());
    assert!(actor.ended().is_none());
}

#[test]
fn test_rpict_actor() {
    let mut actor = RpictActor::create("/dev/ttyS0");
    assert_eq!(actor.serial_path(), "/dev/ttyS0");
    let line = actor.serial_line();
    assert_eq!((line.baud_rate, line.parity, line.data_bits, line.stop_bits), (38400, Parity::Off, 8, 1));
    let now = Timestamp::from_millis(9);
    actor.start();
    assert!(matches!(actor.opened(true), Some(RpictMessage::Connected)));
    let mut frames = Vec::new();
    for c in MODULE.chars().chain("broken line\n".chars()).chain(MODULE.chars()) {
        if let Some(RpictMessage::NewFrame(frame)) = actor.received(c, now) {
            frames.push(frame);
        }
    }
    assert_eq!(frames.len(), 2);
    assert_eq!(frames[0].node_id, 11);
    assert_eq!(frames[0].l3_power_factor, "0.509");
    assert!(matches!(actor.ended(), Some(RpictMessage::Disconnected)));
    assert!(actor.ended().is_none());
}

#[test]
fn test_button_press() {
    let mut actor = ButtonActor::new(17, 50, 30);
    assert_eq!(actor.pin(), 17);
    assert_eq!(actor.debounce_ms(), 50);
    actor.run();
    actor.edge();
    assert_eq!(actor.settled(Level::High), Some(ButtonMessage::Press));
}

#[test]
fn test_button_held_or_bouncing() {
    let mut actor = ButtonActor::new(17, 50, 30);
    actor.run();
    actor.edge();
    assert_eq!(actor.settled(Level::Low), None);
}

#[test]
fn test_button_first_timer_is_long() {
    let mut actor = ButtonActor::new(17, 50, 30);
    let first = actor.run().unwrap();
    assert_eq!(first.timeout_secs, 60);
    let second = actor.edge().unwrap();
    assert_eq!(second.timeout_secs, 30);
    assert_ne!(first.id, second.id);
    let mut actor = ButtonActor::new(17, 50, u64::MAX);
    assert_eq!(actor.run().unwrap().timeout_secs, u64::MAX);
    let mut actor = ButtonActor::new(17, 50, u64::MAX / 2);
    assert_eq!(actor.run().unwrap().timeout_secs, u64::MAX - 1);
}

#[test]
fn test_button_only_the_last_timer_fires() {
    let mut actor = ButtonActor::new(17, 50, 30);
    let first = actor.run().unwrap();
    let second = actor.edge().unwrap();
    assert_eq!(actor.timed_out(first.id), None);
    assert_eq!(actor.timed_out(second.id), Some(ButtonMessage::Inactivity));
    assert_eq!(actor.timed_out(second.id), None);
    assert_eq!(actor.timed_out(first.id), None);
    let third = actor.edge().unwrap();
    assert_eq!(actor.timed_out(second.id), None);
    assert_eq!(actor.timed_out(third.id), Some(ButtonMessage::Inactivity));
}

#[test]
fn test_button_timer_that_was_never_started() {
    let mut actor = ButtonActor::new(17, 50, 30);
    assert_eq!(actor.timed_out(0), None);
    assert_eq!(actor.timed_out(1), None);
    let first = actor.run().unwrap();
    assert_eq!(actor.timed_out(first.id + 1), None);
    assert_eq!(actor.timed_out(first.id), Some(ButtonMessage::Inactivity));
}

fn database() -> Option<InfluxDB> {
    Some(InfluxDB {
        host: "h".to_string(),
        port: 1,
        database: "d".to_string(),
        prefix: Some("p".to_string()),
    })
}

fn broker() -> Option<HassMqtt> {
    Some(HassMqtt { host: "b".to_string(), port: 1883, username: None, password: None })
}

#[test]
fn test_datalogger_speaks_on_change() {
    let mut actor = DataLoggerActor::create(&database(), &None);
    assert_eq!(actor.prefix(), Some("p".to_string()));
    let request = actor.record("line".to_string()).unwrap();
    assert_eq!(request.url, "http://h:1/write");
    assert_eq!(request.db, "d");
    assert_eq!(request.body, "line");
    assert_eq!(actor.run(&DataLoggerEvent::Written(Err(InfluxDBClientError::TimedOut))), None);
    assert_eq!(actor.run(&DataLoggerEvent::Written(Ok(()))), Some(DataLoggerMessage::InfluxDbConnected));
    assert_eq!(actor.run(&DataLoggerEvent::Written(Ok(()))), None);
    assert_eq!(actor.run(&DataLoggerEvent::Written(Ok(()))), None);
    assert_eq!(actor.run(&DataLoggerEvent::Written(Err(InfluxDBClientError::TimedOut))), Some(DataLoggerMessage::InfluxDbDisconnected));
    assert_eq!(actor.run(&DataLoggerEvent::Written(Err(InfluxDBClientError::TimedOut))), None);
    assert_eq!(actor.run(&DataLoggerEvent::Written(Err(InfluxDBClientError::Unknown))), None);
    assert_eq!(actor.run(&DataLoggerEvent::Written(Ok(()))), Some(DataLoggerMessage::InfluxDbConnected));
}

#[test]
fn test_datalogger_sinks_are_independent() {
    let mut actor = DataLoggerActor::create(&database(), &broker());
    let message = Message { topic: "energy-monitor/linky".to_string(), payload: "{}".to_string() };
    let out = actor.publish(message).unwrap();
    assert_eq!(out.topic, "energy-monitor/linky");
    assert_eq!(actor.announce().len(), 18);
    assert_eq!(actor.announce()[17].topic, "energy-monitor/status");
    assert_eq!(out.payload, "{}");
    assert_eq!(actor.run(&DataLoggerEvent::Published(Ok(()))), Some(DataLoggerMessage::HassMqttConnected));
    assert_eq!(actor.run(&DataLoggerEvent::Written(Ok(()))), Some(DataLoggerMessage::InfluxDbConnected));
    assert_eq!(actor.run(&DataLoggerEvent::Published(Err(HassMqttClientError::Publish))), Some(DataLoggerMessage::HassMqttDisconnected));
    assert_eq!(actor.run(&DataLoggerEvent::Written(Ok(()))), None);
    assert_eq!(actor.run(&DataLoggerEvent::Published(Err(HassMqttClientError::Publish))), None);
    assert_eq!(actor.run(&DataLoggerEvent::Written(Err(InfluxDBClientError::UnexpectedResponse))), Some(DataLoggerMessage::InfluxDbDisconnected));
    assert_eq!(actor.run(&DataLoggerEvent::Published(Ok(()))), Some(DataLoggerMessage::HassMqttConnected));
    assert_eq!(actor.run(&DataLoggerEvent::Published(Ok(()))), None);
}

#[test]
fn test_datalogger_without_sinks() {
    let actor = DataLoggerActor::create(&None, &None);
    assert!(actor.record("line".to_string()).is_none());
    assert!(actor.publish(Message { topic: "t".to_string(), payload: "p".to_string() }).is_none());
    assert_eq!(actor.prefix(), None);
    assert!(actor.announce().is_empty());
}

#[test]
fn test_display_draws_what_is_shown() {
    let mut actor = DisplayActor::new();
    assert_eq!(actor.current_page(), Page::Landing);
    assert!(actor.update_display(Page::Landing, false));
    assert!(!actor.update_display(Page::Rpict, false));
    assert!(!actor.update_display(Page::Linky, false));
    assert_eq!(actor.current_page(), Page::Landing);
    assert!(actor.update_display(Page::Linky, true));
    assert_eq!(actor.current_page(), Page::Linky);
    assert!(actor.update_display(Page::Linky, false));
    assert!(!actor.update_display(Page::Landing, false));
}

#[test]
fn test_display_run() {
    let mut actor = DisplayActor::new();
    let landing = LandingPage::new("0.1.0");
    let linky = LinkyPage::new();
    assert_eq!(actor.run(&DisplayMessage::SetDisplayOn), DisplayAction::On);
    assert_eq!(actor.run(&DisplayMessage::SetDisplayOff), DisplayAction::Off);
    assert_eq!(
        actor.run(&DisplayMessage::DisplayLandingPage { page: landing.copy(), replace: false }),
        DisplayAction::Draw(Page::Landing)
    );
    assert_eq!(actor.run(&DisplayMessage::DisplayRpictPage { replace: false }), DisplayAction::Skip);
    assert_eq!(
        actor.run(&DisplayMessage::DisplayLinkyPage { page: linky.copy(), replace: false }),
        DisplayAction::Skip
    );
    assert_eq!(
        actor.run(&DisplayMessage::DisplayRpictPage { replace: true }),
        DisplayAction::Draw(Page::Rpict)
    );
    assert_eq!(
        actor.run(&DisplayMessage::DisplayLandingPage { page: landing.copy(), replace: false }),
        DisplayAction::Skip
    );
    assert_eq!(
        actor.run(&DisplayMessage::DisplayLinkyPage { page: linky.copy(), replace: true }),
        DisplayAction::Draw(Page::Linky)
    );
    assert_eq!(actor.run(&DisplayMessage::Shutdown), DisplayAction::Stop);
    assert_eq!(actor.current_page(), Page::Linky);
}

fn reading() -> LinkyFrame {
    LinkyFrame {
        adco: "041876097767".to_string(),
        ptec: "HC".to_string(),
        hchc: 19_650_909,
        hchp: 43_280_553,
        timestamp: Timestamp::epoch(),
    }
}

#[test]
fn test_hmi_startup() {
    let actor = HmiActor::create("0.1.0");
    assert!(actor.is_display_active());
    assert_eq!(actor.page(), Page::Landing);
    let messages = actor.run();
    assert_eq!(messages.len(), 2);
    assert!(matches!(&messages[0], DisplayMessage::DisplayLandingPage { page, replace: true }
        if *page == LandingPage::new("0.1.0")));
    assert!(matches!(messages[1], DisplayMessage::SetDisplayOn));
}

#[test]
fn test_hmi_connections() {
    let mut actor = HmiActor::create("0.1.0");
    let sent = actor.handle_rpict(&RpictMessage::Connected);
    assert!(matches!(sent, DisplayMessage::DisplayLandingPage { page, replace: false }
        if page.is_rpict_on && !page.is_linky_on && !page.is_wifi_on));
    let sent = actor.handle_linky(&LinkyMessage::Connected);
    assert!(matches!(sent, DisplayMessage::DisplayLandingPage { page, replace: false }
        if page.is_rpict_on && page.is_linky_on && !page.is_wifi_on));
    let sent = actor.handle_datalogger(DataLoggerMessage::InfluxDbConnected);
    assert!(matches!(sent, DisplayMessage::DisplayLandingPage { page, replace: false }
        if page.is_rpict_on && page.is_linky_on && page.is_wifi_on));
    let sent = actor.handle_rpict(&RpictMessage::Disconnected);
    assert!(matches!(sent, DisplayMessage::DisplayLandingPage { page, replace: false }
        if !page.is_rpict_on && page.is_linky_on && page.is_wifi_on));
    let sent = actor.handle_linky(&LinkyMessage::Disconnected);
    assert!(matches!(sent, DisplayMessage::DisplayLandingPage { page, replace: false }
        if !page.is_rpict_on && !page.is_linky_on && page.is_wifi_on));
    let sent = actor.handle_datalogger(DataLoggerMessage::HassMqttDisconnected);
    assert!(matches!(sent, DisplayMessage::DisplayLandingPage { page, replace: false }
        if !page.is_rpict_on && !page.is_linky_on && page.is_wifi_on));
    let sent = actor.handle_datalogger(DataLoggerMessage::InfluxDbDisconnected);
    assert!(matches!(sent, DisplayMessage::DisplayLandingPage { page, replace: false }
        if !page.is_rpict_on && !page.is_linky_on && !page.is_wifi_on && page.version == "0.1.0"));
    let sent = actor.handle_datalogger(DataLoggerMessage::HassMqttConnected);
    assert!(matches!(sent, DisplayMessage::DisplayLandingPage { page, replace: false }
        if !page.is_wifi_on));
}

#[test]
fn test_hmi_frames() {
    let mut actor = HmiActor::create("0.1.0");
    actor.handle_button(ButtonMessage::Inactivity);
    let sent = actor.handle_linky(&LinkyMessage::NewFrame(reading()));
    assert!(matches!(sent, DisplayMessage::DisplayLinkyPage { page, replace: false }
        if page.adco == "041876097767"
        && page.hchp == Some(43_280_553)
        && page.hchc == Some(19_650_909)
        && page.ptec == TariffPeriod::HC));
    let module = RpictActor::create("x");
    drop(module);
    let frame = energy_monitor::driver::rpict::RpictFrame::parse(MODULE, Timestamp::epoch()).unwrap();
    let sent = actor.handle_rpict(&RpictMessage::NewFrame(frame));
    assert!(matches!(sent, DisplayMessage::DisplayRpictPage { replace: false }));
    assert_eq!(actor.page(), Page::Landing);
}

#[test]
fn test_hmi_button() {
    let mut actor = HmiActor::create("0.1.0");
    actor.handle_linky(&LinkyMessage::NewFrame(reading()));
    let sent = actor.handle_button(ButtonMessage::Press);
    assert!(matches!(sent, DisplayMessage::DisplayRpictPage { replace: true }));
    assert_eq!(actor.page(), Page::Rpict);
    let sent = actor.handle_button(ButtonMessage::Press);
    assert!(matches!(sent, DisplayMessage::DisplayLinkyPage { page, replace: true }
        if page.adco == "041876097767"));
    assert_eq!(actor.page(), Page::Linky);
    let sent = actor.handle_button(ButtonMessage::Inactivity);
    assert!(matches!(sent, DisplayMessage::SetDisplayOff));
    assert!(!actor.is_display_active());
    let sent = actor.handle_button(ButtonMessage::Inactivity);
    assert!(matches!(sent, DisplayMessage::SetDisplayOff));
    let sent = actor.handle_button(ButtonMessage::Press);
    assert!(matches!(sent, DisplayMessage::SetDisplayOn));
    assert!(actor.is_display_active());
    assert_eq!(actor.page(), Page::Linky);
    let sent = actor.handle_button(ButtonMessage::Press);
    assert!(matches!(sent, DisplayMessage::DisplayLandingPage { replace: true, .. }));
    assert_eq!(actor.page(), Page::Landing);
    assert!(matches!(actor.shutdown(), DisplayMessage::Shutdown));
}

#[test]
fn test_subscriber_that_falls_behind() {
    let (tx, mut rx) = broadcast::channel(CHANNEL_CAPACITY);
    let held = CHANNEL_CAPACITY.next_power_of_two() as u32;
    let skipped = 3;
    let now = Timestamp::epoch();
    let mut actor = LinkyActor::create("/dev/ttyAMA0");
    actor.start();
    assert!(actor.opened(true).is_some());
    for index in 0..held + skipped {
        let text = format!(
            "\u{02}\nADCO 041876097767 U\r\nPTEC HP..\r\nHCHC {} -\r\nHCHP 043280553 1\r\u{03}",
            index
        );
        for c in text.chars() {
            if let Some(message) = actor.received(c, now) {
                assert!(tx.send(message).is_ok());
            }
        }
    }
    assert!(matches!(rx.try_recv(), Err(TryRecvError::Lagged(n)) if n == skipped as u64));
    for index in skipped..held + skipped {
        assert!(matches!(rx.try_recv(), Ok(LinkyMessage::NewFrame(frame)) if frame.hchc == index));
    }
    assert!(matches!(rx.try_recv(), Err(TryRecvError::Empty)));
    let text = "\u{02}\nADCO 1 U\r\nPTEC HP..\r\nHCHC 77 -\r\nHCHP 3 1\r\u{03}";
    for c in text.chars() {
        if let Some(message) = actor.received(c, now) {
            assert!(tx.send(message).is_ok());
        }
    }
    assert!(matches!(rx.try_recv(), Ok(LinkyMessage::NewFrame(frame)) if frame.hchc == 77));
}

#[test]
fn test_producer_without_a_subscriber() {
    let (tx, rx) = broadcast::channel(CHANNEL_CAPACITY);
    drop(rx);
    let mut actor = RpictActor::create("/dev/ttyS0");
    actor.start();
    assert!(tx.send(actor.opened(true).unwrap()).is_err());
    let mut frames = 0;
    for c in MODULE.chars().chain(MODULE.chars()) {
        if let Some(message) = actor.received(c, Timestamp::epoch()) {
            frames += 1;
            assert!(tx.send(message).is_err());
        }
    }
    assert_eq!(frames, 2);
    assert!(actor.is_open());
    let mut late = tx.subscribe();
    for c in MODULE.chars() {
        if let Some(message) = actor.received(c, Timestamp::epoch()) {
            assert!(tx.send(message).is_ok());
        }
    }
    assert!(matches!(late.try_recv(), Ok(RpictMessage::NewFrame(frame)) if frame.node_id == 11));
    assert!(matches!(actor.ended(), Some(RpictMessage::Disconnected)));
    assert!(actor.ended().is_none());
}
