use energy_monitor::clock::Timestamp;
use energy_monitor::driver::error::ParseError;
use energy_monitor::driver::rpict::Rpict;
use energy_monitor::driver::rpict::RpictDecoder;
use energy_monitor::driver::rpict::RpictFrame;

const FRAME: &str =
    "11 -82.96 422.95 1.64 257.65 0.194 -50.23 144.52 0.56 259.95 0.346 24.55 47.17 0.18 259.70 0.509";

fn now() -> Timestamp {
    let t = chrono::Utc::now();
    Timestamp::new(t.timestamp(), t.timestamp_subsec_nanos()).unwrap()
}

fn frame(now: Timestamp) -> RpictFrame {
    RpictFrame {
        node_id: 11,
        l1_real_power: "-82.96".to_string(),
        l1_apparent_power: "422.95".to_string(),
        l1_irms: "1.64".to_string(),
        l1_vrms: "257.65".to_string(),
        l1_power_factor: "0.194".to_string(),
        l2_real_power: "-50.23".to_string(),
        l2_apparent_power: "144.52".to_string(),
        l2_irms: "0.56".to_string(),
        l2_vrms: "259.95".to_string(),
        l2_power_factor: "0.346".to_string(),
        l3_real_power: "24.55".to_string(),
        l3_apparent_power: "47.17".to_string(),
        l3_irms: "0.18".to_string(),
        l3_vrms: "259.70".to_string(),
        l3_power_factor: "0.509".to_string(),
        timestamp: now,
    }
}

fn values(frame: &RpictFrame) -> Vec<f32> {
    [
        &frame.l1_real_power,
        &frame.l1_apparent_power,
        &frame.l1_irms,
        &frame.l1_vrms,
        &frame.l1_power_factor,
        &frame.l2_real_power,
        &frame.l2_apparent_power,
        &frame.l2_irms,
        &frame.l2_vrms,
        &frame.l2_power_factor,
        &frame.l3_real_power,
        &frame.l3_apparent_power,
        &frame.l3_irms,
        &frame.l3_vrms,
        &frame.l3_power_factor,
    ]
    .iter()
    .map(|text| text.parse::<f32>().unwrap())
    .collect()
}

fn expected_values() -> Vec<f32> {
    vec![
        -82.96, 422.95, 1.64, 257.65, 0.194, -50.23, 144.52, 0.56, 259.95, 0.346, 24.55, 47.17,
        0.18, 259.70, 0.509,
    ]
}

#[test]
fn test_rpictiterator() {
    // Given
    let now = now();
    let input = FRAME.chars().chain(vec!['\n']);
    // When
    let frames = Rpict::builder()
        .with_source_iter(input.collect())
        .with_dt_gen(now)
        .build()
        .unwrap();
    // Then
    assert_eq!(frames, vec![frame(now)]);
    assert_eq!(values(&frames[0]), expected_values());
}

#[test]
fn test_rpictiterator_with_two_frames() {
    // Given
    let now = now();
    let input = FRAME.chars().chain(vec!['\n']);
    let input_len = FRAME.len() + 1;
    // When
    let frames = Rpict::builder()
        .with_source_iter(input.clone().cycle().take(input_len * 2).collect())
        .with_dt_gen(now)
        .build()
        .unwrap();
    // Then
    assert_eq!(frames, vec![frame(now), frame(now)]);
}

#[test]
fn test_rpictiterator_with_corrupted_frame() {
    // Given
    let now = now();
    let input = FRAME[..10].chars().chain(vec!['\n']);
    // When
    let frames = Rpict::builder()
        .with_source_iter(input.collect())
        .with_dt_gen(now)
        .build()
        .unwrap();
    // Then
    assert_eq!(frames, Vec::new());
}

#[test]
fn test_rpictframe_parse() {
    // Given
    let now = now();
    // When
    let result = RpictFrame::parse(FRAME, now).unwrap();
    // Then
    assert_eq!(result, frame(now));
    assert_eq!(result.node_id, 11);
    assert_eq!(values(&result), expected_values());
}

#[test]
fn test_rpictframe_parse_not_enough_data_missing_start() {
    // Given
    let input = &FRAME[10..];
    // When
    let result = RpictFrame::parse(input, now());
    // Then
    assert_eq!(result, Err(ParseError))
}

#[test]
fn test_rpictframe_parse_not_enough_data_missing_end() {
    // Given
    let input = &FRAME[..10];
    // When
    let result = RpictFrame::parse(input, now());
    // Then
    assert_eq!(result, Err(ParseError))
}

#[test]
fn test_rpictframe_parse_too_much_data() {
    // Given
    let input = FRAME.to_string() + " 259.70 0.509";
    // When
    let result = RpictFrame::parse(&input, now());
    // Then
    assert_eq!(result, Err(ParseError))
}

#[test]
fn test_rpict_line_from_the_wire() {
    let now = Timestamp::from_millis(1_657_113_606);
    let input = "11 -82.96 422.95 1.64 257.65 0.194 -50.23 144.52 0.56 259.95 0.346 24.55 47.17 0.18 259.70 0.509\n";
    let frames = Rpict::builder()
        .with_source_iter(input.chars().collect())
        .with_dt_gen(now)
        .build()
        .unwrap();
    assert_eq!(frames.len(), 1);
    assert_eq!(frames[0].node_id, 11);
    assert_eq!(values(&frames[0]), expected_values());
    assert_eq!(frames[0].timestamp, now);
}

#[test]
fn test_rpict_word_that_is_no_number() {
    let now = Timestamp::epoch();
    let good = FRAME.to_string();
    assert!(RpictFrame::parse(&good.replace("1.64", "1.6x4"), now).is_err());
    assert!(RpictFrame::parse(&good.replace("1.64", "."), now).is_err());
    assert!(RpictFrame::parse(&good.replace("1.64", "1e"), now).is_err());
    assert!(RpictFrame::parse(&good.replace("1.64", "--1"), now).is_err());
    assert!(RpictFrame::parse(&good.replace("1.64", "1.2.3"), now).is_err());
    assert!(RpictFrame::parse(&good.replace("11 ", "256 "), now).is_err());
    assert!(RpictFrame::parse(&good.replace("11 ", "-1 "), now).is_err());
    assert!(RpictFrame::parse(&good.replace("11 ", "1.0 "), now).is_err());
    assert_eq!(RpictFrame::parse(&good.replace("11 ", "255 "), now).unwrap().node_id, 255);
    assert_eq!(RpictFrame::parse(&good.replace("11 ", "+07 "), now).unwrap().node_id, 7);
}

#[test]
fn test_rpict_numbers_in_every_form() {
    let now = Timestamp::epoch();
    for text in [
        "7", "007", "3.14", "-3.14", "+3.14", "2.5E10", "2.5e10", "2.5E-10", "2.5e+3", "5.", ".5",
        "1e5", "0", "-0", "+.5e-3",
    ] {
        assert!(text.parse::<f32>().is_ok(), "{}", text);
        let line = FRAME.replace("1.64", text);
        let frame = RpictFrame::parse(&line, now).unwrap();
        assert_eq!(frame.l1_irms, text);
    }
    for text in [
        "+", "-", ".", "e5", "1e", "1e+", "1.5e", "in", "infinit", "na", "1,5", "0x10", "1_0",
        "1f", "++1", "1.e", "..5", "nano", "infinityy",
    ] {
        assert!(text.parse::<f32>().is_err(), "{}", text);
        let line = FRAME.replace("1.64", text);
        assert_eq!(RpictFrame::parse(&line, now), Err(ParseError), "{}", text);
    }
}

#[test]
fn test_rpict_words_for_infinity_and_not_a_number() {
    let now = Timestamp::epoch();
    for text in ["inf", "-inf", "+infinity", "Infinity", "INF", "NaN", "nan", "-NAN", "+nan"] {
        let line = FRAME.replace("1.64", text);
        assert_eq!(RpictFrame::parse(&line, now), Err(ParseError), "{}", text);
    }
    let input = "1 NaN 3 4 5 6 7 8 9 10 11 12 13 14 15 inf\n";
    let frames = Rpict::builder()
        .with_source_iter(input.chars().collect())
        .with_dt_gen(now)
        .build()
        .unwrap();
    assert_eq!(frames, Vec::new());
    let input = "1 2 3 4 5 6 7 8 9 10 11 12 13 14 15 16\n";
    let frames = Rpict::builder()
        .with_source_iter(input.chars().collect())
        .with_dt_gen(now)
        .build()
        .unwrap();
    assert_eq!(frames.len(), 1);
}

#[test]
fn test_rpict_whitespace_of_every_kind() {
    let now = Timestamp::epoch();
    let line = FRAME.replace(' ', " \t\r\u{0C} ");
    let line = format!("  {}\r", line);
    assert_eq!(RpictFrame::parse(&line, now).unwrap(), frame(now));
}

#[test]
fn test_rpict_decoder_by_character() {
    let mut decoder = RpictDecoder::new();
    let mut frames = Vec::new();
    let input = format!("garbage\n{}\r\n12 1 2\n{}\n{}", FRAME, FRAME, FRAME);
    for (i, c) in input.chars().enumerate() {
        if let Some(frame) = decoder.push(c, Timestamp::from_millis(i as i64)) {
            frames.push(frame);
        }
    }
    assert_eq!(frames.len(), 2);
    let first = ("garbage\n".len() + FRAME.len() + 1) as i64;
    assert_eq!(frames[0], frame(Timestamp::from_millis(first)));
    assert_eq!(frames[1].node_id, 11);
}

#[test]
fn test_rpict_without_source() {
    let result = Rpict::builder().with_port_path("/dev/ttyAMA0".to_string()).build();
    assert!(result.is_err());
}
