use energy_monitor::clock::Timestamp;
use energy_monitor::driver::error::ParseError;
use energy_monitor::driver::linky::FieldMap;
use energy_monitor::driver::linky::Linky;
use energy_monitor::driver::linky::LinkyDecoder;
use energy_monitor::driver::linky::LinkyFrame;
use energy_monitor::driver::linky::TariffPeriod;

const ADCO: &str = "\nADCO 041876097767 U\r";
const FRAME: &str = "\u{02}\
                     \nADCO 041876097767 U\r\
                     \nOPTARIF HC.. <\r\
                     \nISOUSC 30 9\r\
                     \nHCHC 019650909 -\r\
                     \nHCHP 043280553 1\r\
                     \nPTEC HP..\r\
                     \nIINST1 018 Q\r\
                     \nIINST2 019 S\r\
                     \nIINST3 017 R\r\
                     \nIMAX1 060 6\r\
                     \nIMAX2 060 7\r\
                     \nIMAX3 060 8\r\
                     \nPMAX 10737 8\r\
                     \nPAPP 12690 3\r\
                     \nHHPHC A ,\r\
                     \nMOTDETAT 000000 B\r\
                     \nPPOT 00 #\r
                     \u{03}";

fn now() -> Timestamp {
    let t = chrono::Utc::now();
    Timestamp::new(t.timestamp(), t.timestamp_subsec_nanos()).unwrap()
}

fn frame(now: Timestamp) -> LinkyFrame {
    LinkyFrame {
        adco: "041876097767".to_string(),
        ptec: "HP".to_string(),
        hchc: 19_650_909,
        hchp: 43_280_553,
        timestamp: now,
    }
}

fn full_map() -> FieldMap {
    let mut map = FieldMap::new();
    map.insert("ADCO".to_string(), "041876097767".to_string());
    map.insert("PTEC".to_string(), "HP".to_string());
    map.insert("HCHC".to_string(), "019650909".to_string());
    map.insert("HCHP".to_string(), "043280553".to_string());
    map
}

#[test]
fn test_linky_iterator() {
    // Given
    let now = now();
    let input = FRAME.chars();
    // When
    let frames = Linky::builder()
        .with_source_iter(input.collect())
        .with_dt_gen(now)
        .build()
        .unwrap();
    // Then
    assert_eq!(frames, vec![frame(now)]);
}

#[test]
fn test_linky_iterator_two_frames() {
    // Given
    let now = now();
    let input = FRAME.chars().cycle().take(FRAME.len() * 2);
    // When
    let frames = Linky::builder()
        .with_source_iter(input.collect())
        .with_dt_gen(now)
        .build()
        .unwrap();
    // Then
    assert_eq!(frames, vec![frame(now), frame(now)]);
}

#[test]
fn test_linky_iterator_frame_truncated_left() {
    // Given
    let now = now();
    let input = FRAME[10..].chars().chain(ADCO.chars());
    // When
    let frames = Linky::builder()
        .with_source_iter(input.collect())
        .with_dt_gen(now)
        .build()
        .unwrap();
    // Then
    assert_eq!(frames, Vec::new());
}

#[test]
fn test_linky_iterator_frame_truncated_right() {
    // Given
    let now = now();
    let input = FRAME[..10].chars().chain(ADCO.chars());
    // When
    let frames = Linky::builder()
        .with_source_iter(input.collect())
        .with_dt_gen(now)
        .build()
        .unwrap();
    // Then
    assert_eq!(frames, Vec::new());
}

#[test]
fn test_linkyframe_parse() {
    // Given
    let now = now();
    let map = full_map();
    // When
    let result = LinkyFrame::parse(&map, now).unwrap();
    // Then
    assert_eq!(result, frame(now));
}

#[test]
fn test_linkyframe_parse_with_missing_key() {
    // Given
    let now = now();
    let map = FieldMap::new();
    // When
    let result = LinkyFrame::parse(&map, now);
    // Then
    assert_eq!(result, Err(ParseError));
}

#[test]
fn test_linkyframe_parse_with_extra_keys() {
    // Given
    let now = now();
    let mut map = full_map();
    map.insert("MORE".to_string(), "dummy".to_string());
    // When
    let result = LinkyFrame::parse(&map, now).unwrap();
    // Then
    assert_eq!(result, frame(now));
}

#[test]
fn test_linkyframe_ptec() {
    // Given
    let frame = frame(now());
    // When & Then
    assert_eq!(TariffPeriod::HC, LinkyFrame { ptec: String::from("HC"), ..frame.clone() }.ptec());
    assert_eq!(TariffPeriod::HP, LinkyFrame { ptec: String::from("HP"), ..frame.clone() }.ptec());
    assert_eq!(TariffPeriod::Unknown, LinkyFrame { ptec: String::from("?"), ..frame.clone() }.ptec());
}

#[test]
fn test_linky_frame_from_the_wire() {
    let now = Timestamp::from_millis(1_657_113_606);
    let input = "\u{02}\nADCO 041876097767 U\r\nPTEC HP..\r\nHCHC 019650909 -\r\nHCHP 043280553 1\r\n\u{03}";
    let frames = Linky::builder()
        .with_source_iter(input.chars().collect())
        .with_dt_gen(now)
        .build()
        .unwrap();
    assert_eq!(frames, vec![frame(now)]);
}

#[test]
fn test_linky_frame_with_a_missing_key() {
    let now = Timestamp::epoch();
    for missing in ["ADCO", "PTEC", "HCHC", "HCHP"] {
        let mut input = String::from("\u{02}");
        for group in ["ADCO 041876097767 U", "PTEC HP..", "HCHC 019650909 -", "HCHP 043280553 1"] {
            if !group.starts_with(missing) {
                input.push('\n');
                input.push_str(group);
                input.push('\r');
            }
        }
        input.push('\u{03}');
        let frames = Linky::builder()
            .with_source_iter(input.chars().collect())
            .with_dt_gen(now)
            .build()
            .unwrap();
        assert_eq!(frames, Vec::new());
    }
}

#[test]
fn test_linky_index_that_is_no_number() {
    let now = Timestamp::epoch();
    let mut map = full_map();
    map.insert("HCHC".to_string(), "12a".to_string());
    assert_eq!(LinkyFrame::parse(&map, now), Err(ParseError));
    map.insert("HCHC".to_string(), "4294967296".to_string());
    assert_eq!(LinkyFrame::parse(&map, now), Err(ParseError));
    map.insert("HCHC".to_string(), "4294967295".to_string());
    assert_eq!(LinkyFrame::parse(&map, now).unwrap().hchc, u32::MAX);
    map.insert("HCHC".to_string(), "+7".to_string());
    assert_eq!(LinkyFrame::parse(&map, now).unwrap().hchc, 7);
    map.insert("HCHC".to_string(), "".to_string());
    assert_eq!(LinkyFrame::parse(&map, now), Err(ParseError));
}

#[test]
fn test_linky_short_tariff_period_is_kept() {
    let now = Timestamp::epoch();
    let input = "\u{02}\nADCO 1 U\r\nPTEC H\r\nHCHC 2 -\r\nHCHP 3 1\r\u{03}";
    let frames = Linky::builder()
        .with_source_iter(input.chars().collect())
        .with_dt_gen(now)
        .build()
        .unwrap();
    assert_eq!(frames.len(), 1);
    assert_eq!(frames[0].ptec, "H");
    assert_eq!(frames[0].ptec(), TariffPeriod::Unknown);
}

#[test]
fn test_linky_decoder_by_character() {
    let mut decoder = LinkyDecoder::new();
    let mut frames = Vec::new();
    for (i, c) in FRAME.chars().enumerate() {
        if let Some(frame) = decoder.push(c, Timestamp::from_millis(i as i64)) {
            frames.push(frame);
        }
    }
    let last = (FRAME.chars().count() - 1) as i64;
    assert_eq!(frames, vec![frame(Timestamp::from_millis(last))]);
}

#[test]
fn test_linky_without_source() {
    let result = Linky::builder().with_port_path("/dev/ttyAMA0".to_string()).build();
    assert!(result.is_err());
}

#[test]
fn test_linky_frame_whose_opening_was_missed() {
    let now = Timestamp::epoch();
    let input = "\nADCO 041876097767 U\r\nPTEC HP..\r\nHCHC 019650909 -\r\nHCHP 043280553 1\r\u{03}";
    let frames = Linky::builder()
        .with_source_iter(input.chars().collect())
        .with_dt_gen(now)
        .build()
        .unwrap();
    assert_eq!(frames, Vec::new());
    let input = format!("{}{}", input, FRAME);
    let frames = Linky::builder()
        .with_source_iter(input.chars().collect())
        .with_dt_gen(now)
        .build()
        .unwrap();
    assert_eq!(frames, vec![frame(now)]);
}

#[test]
fn test_linky_one_frame_for_each_pair_of_marks() {
    let now = Timestamp::epoch();
    let input = format!("{}\u{03}\u{03}\nADCO 1 U\r\u{03}", FRAME);
    let frames = Linky::builder()
        .with_source_iter(input.chars().collect())
        .with_dt_gen(now)
        .build()
        .unwrap();
    assert_eq!(frames, vec![frame(now)]);
}

#[test]
fn test_linky_frame_that_opens_twice() {
    let now = Timestamp::epoch();
    let input = format!("\u{02}\nADCO 999 U\r\nPTEC HC..\r{}", FRAME);
    let frames = Linky::builder()
        .with_source_iter(input.chars().collect())
        .with_dt_gen(now)
        .build()
        .unwrap();
    assert_eq!(frames, vec![frame(now)]);
    let input = "\u{02}\nADCO 1 U\r\nPTEC HC..\r\nHCHC 2 -\r\u{02}\nHCHP 3 1\r\u{03}";
    let frames = Linky::builder()
        .with_source_iter(input.chars().collect())
        .with_dt_gen(now)
        .build()
        .unwrap();
    assert_eq!(frames, Vec::new());
}

#[test]
fn test_linky_last_group_of_a_label_counts() {
    let now = Timestamp::epoch();
    let input = "\u{02}\nADCO 1 U\r\nPTEC HC..\r\nHCHC 2 -\r\nHCHP 3 1\r\nADCO 7 U\r\nHCHC x -\r\nHCHC 5 -\r\u{03}";
    let frames = Linky::builder()
        .with_source_iter(input.chars().collect())
        .with_dt_gen(now)
        .build()
        .unwrap();
    assert_eq!(frames.len(), 1);
    assert_eq!(frames[0].adco, "7");
    assert_eq!(frames[0].ptec, "HC");
    assert_eq!(frames[0].hchc, 5);
    assert_eq!(frames[0].hchp, 3);
}

#[test]
fn test_linky_group_without_line_feed() {
    let now = Timestamp::epoch();
    let input = "\u{02}ADCO 1 U\r\nPTEC HC..\r\nHCHC 2 -\r\nHCHP 3 1\r\u{03}";
    let frames = Linky::builder()
        .with_source_iter(input.chars().collect())
        .with_dt_gen(now)
        .build()
        .unwrap();
    assert_eq!(frames.len(), 1);
    assert_eq!(frames[0].adco, "1");
}

#[test]
fn test_linky_labels_do_not_carry_over() {
    let now = Timestamp::epoch();
    let input = "\u{02}\nADCO 1 U\r\nPTEC HC..\r\u{03}\u{02}\nHCHC 2 -\r\nHCHP 3 1\r\u{03}";
    let frames = Linky::builder()
        .with_source_iter(input.chars().collect())
        .with_dt_gen(now)
        .build()
        .unwrap();
    assert_eq!(frames, Vec::new());
}

#[test]
fn test_linky_frame_with_an_index_that_is_no_number() {
    let now = Timestamp::epoch();
    for index in ["x", "-1", "1.5", "4294967296", "12e3"] {
        let input = format!(
            "\u{02}\nADCO 1 U\r\nPTEC HC..\r\nHCHC {} -\r\nHCHP 3 1\r\u{03}",
            index
        );
        let frames = Linky::builder()
            .with_source_iter(input.chars().collect())
            .with_dt_gen(now)
            .build()
            .unwrap();
        assert_eq!(frames, Vec::new(), "{}", index);
    }
}
