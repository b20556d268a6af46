use smartaudio::checksum::crc8_dvb_s2;
use smartaudio::parser::State;
use smartaudio::RawSmartAudioFrame;
use smartaudio::SmartAudioError;
use smartaudio::SmartAudioParser;

#[test]
fn test_raw_responses_parsing() {
    let raw_settings_v10: [u8; 10] = [
        0xAA, 0x55, // Header
        0x01, // Version/Command
        0x06, // Length
        0x00, // Channel
        0x00, // Power Level
        0x01, // Operation Mode
        0x16, 0xE9, // Current Frequency 5865
        0x4D, // CRC8
    ];

    let raw_settings_v20: [u8; 10] = [
        0xAA, 0x55, // Headers
        0x09, // Version/Command
        0x06, // Length
        0x01, // Channel
        0x00, // Power Level
        0x1A, // Operation/Mode
        0x16, 0xE9, // Current Frequency 5865
        0x0A, // CRC8
    ];

    let raw_settings_v21: [u8; 16] = [
        0xAA, 0x55, // Headers
        0x11, // Version/Command
        0x0C, // Length
        0x00, // Channel
        0x00, // Power Level
        0x00, // Operation Mode
        0x16, 0xE9, // Current Frequency 5865
        0x0E, // current power in dBm
        0x03, // amount of power levels
        0x00, // dBm level 1
        0x0E, // dBm level 2
        0x14, // dBm level 3
        0x1A, // dBm level 4
        0x01, // CRC8
    ];

    let raw_set_power_v20: [u8; 7] = [
        0xAA, 0x55, // Headers
        0x02, // Command
        0x03, // Length
        0x00, // Power Level
        0x01, // reserved
        0x0F, // CRC8
    ];

    let raw_set_power_v21: [u8; 7] = [
        0xAA, 0x55, // Headers
        0x02, // Command
        0x03, // Length
        0x0E, // Power Level in dBm
        0x01, // reserved
        0x6D, // CRC8
    ];
    let raw_set_channel: [u8; 7] = [
        0xAA, 0x55, // Headers
        0x03, // Command
        0x03, // Length
        0x00, // Channel
        0x01, // Reserved
        0x4A, // CRC8
    ];
    let raw_set_frequency: [u8; 8] = [
        0xAA, 0x55, // Headers
        0x04, // Command
        0x04, // Length
        0x16, 0xE9, // Current Frequency 5865
        0x01, // Reserved
        0xF8, // CRC8
    ];

    let raw_set_mode: [u8; 7] = [
        0xAA, 0x55, // Headers
        0x05, // Command
        0x03, // Length
        0x0A, // Pit mode bits
        0x01, // Reserved
        0x4F, // CRC8
    ];

    let packets = [
        &raw_settings_v10[..],
        &raw_settings_v20[..],
        &raw_settings_v21[..],
        &raw_set_channel[..],
        &raw_set_frequency[..],
        &raw_set_mode[..],
        &raw_set_power_v20[..],
        &raw_set_power_v21[..],
    ];

    for raw_bytes in packets {
        let mut parser = SmartAudioParser::new();
        for b in &raw_bytes[0..raw_bytes.len() - 1] {
            let result = parser.push_byte_raw(*b);
            assert!(matches!(result, Ok(None)));
        }
        let last_index = raw_bytes.len() - 1;
        let p = parser
            .push_byte_raw(raw_bytes[last_index])
            .unwrap()
            .unwrap();
        assert_eq!(p.len(), raw_bytes.len());
        assert_eq!(p.crc(), *raw_bytes.last().unwrap());
    }
}

#[test]
fn checksum_values() {
    assert_eq!(crc8_dvb_s2(&[]), 0x00);
    assert_eq!(crc8_dvb_s2(&[0x00]), 0x00);
    assert_eq!(crc8_dvb_s2(&[0x01]), 0xD5);
    assert_eq!(crc8_dvb_s2(&[0x80]), 0xEF);
    assert_eq!(crc8_dvb_s2(&[0xFF]), 0xF9);
    assert_eq!(crc8_dvb_s2(&[0x03, 0x00]), 0x1D);
    assert_eq!(crc8_dvb_s2(&[0xAA, 0x55, 0x03, 0x00]), 0x9F);
    assert_eq!(
        crc8_dvb_s2(&[0x09, 0x06, 0x01, 0x00, 0x1A, 0x16, 0xE9]),
        0x0A
    );
}

#[test]
fn checksum_of_data_and_its_checksum_is_zero() {
    let data: [u8; 7] = [0x09, 0x06, 0x01, 0x00, 0x1A, 0x16, 0xE9];
    let mut with_crc = data.to_vec();
    with_crc.push(crc8_dvb_s2(&data));
    assert_eq!(crc8_dvb_s2(&with_crc), 0);
}

#[test]
fn frame_view_accessors() {
    let raw: [u8; 10] = [0xAA, 0x55, 0x09, 0x06, 0x01, 0x00, 0x1A, 0x16, 0xE9, 0x0A];
    let frame = RawSmartAudioFrame::new(&raw).unwrap();
    assert_eq!(frame.commnand(), 0x09);
    assert_eq!(frame.payload(), &[0x01, 0x00, 0x1A, 0x16, 0xE9]);
    assert_eq!(frame.len(), 10);
    assert!(!frame.is_empty());
    assert_eq!(frame.crc(), 0x0A);
    let copy = frame.clone();
    assert_eq!(copy.len(), 10);
    assert_eq!(copy.payload(), frame.payload());
}

#[test]
fn frame_view_takes_four_bytes() {
    assert!(RawSmartAudioFrame::new(&[]).is_none());
    assert!(RawSmartAudioFrame::new(&[0xAA]).is_none());
    assert!(RawSmartAudioFrame::new(&[0xAA, 0x55, 0x01]).is_none());
    let four = RawSmartAudioFrame::new(&[0xAA, 0x55, 0x01, 0x07]).unwrap();
    assert_eq!(four.len(), 4);
    assert_eq!(four.commnand(), 0x01);
    assert_eq!(four.crc(), 0x07);
    assert!(four.payload().is_empty());
    assert!(!four.is_empty());
    let five = RawSmartAudioFrame::new(&[0xAA, 0x55, 0x01, 0x07, 0x08]).unwrap();
    assert!(five.payload().is_empty());
    assert_eq!(five.crc(), 0x08);
    let six = RawSmartAudioFrame::new(&[0xAA, 0x55, 0x01, 0x07, 0x08, 0x09]).unwrap();
    assert_eq!(six.payload(), &[0x08]);
}

#[test]
fn raw_frame_holds_all_bytes() {
    let raw: [u8; 8] = [0xAA, 0x55, 0x04, 0x04, 0x16, 0xE9, 0x01, 0xF8];
    let mut parser = SmartAudioParser::new();
    for byte in &raw[..7] {
        assert!(matches!(parser.push_byte_raw(*byte), Ok(None)));
    }
    let frame = parser.push_byte_raw(raw[7]).unwrap().unwrap();
    assert_eq!(frame.commnand(), 0x04);
    assert_eq!(frame.payload(), &[0x16, 0xE9, 0x01]);
    assert_eq!(frame.crc(), 0xF8);
    assert_eq!(frame.len(), 8);
}

#[test]
fn every_byte_before_the_header_is_refused() {
    let mut parser = SmartAudioParser::new();
    for byte in 0..=255u8 {
        if byte == 0xAA {
            continue;
        }
        assert_eq!(
            parser.push_byte_raw(byte).err(),
            Some(SmartAudioError::UnexpetedDataForState(
                State::AwaitingHeader1,
                byte
            ))
        );
    }
    assert!(matches!(parser.push_byte_raw(0xAA), Ok(None)));
}

#[test]
fn second_header_byte_is_checked() {
    for byte in [0x00u8, 0x54, 0x56, 0xAA, 0xFF] {
        let mut parser = SmartAudioParser::new();
        assert!(matches!(parser.push_byte_raw(0xAA), Ok(None)));
        assert_eq!(
            parser.push_byte_raw(byte).err(),
            Some(SmartAudioError::UnexpetedDataForState(
                State::AwaitingHeader2,
                byte
            ))
        );
        // Back at the start: the second header byte alone is not expected.
        assert_eq!(
            parser.push_byte_raw(0x55).err(),
            Some(SmartAudioError::UnexpetedDataForState(
                State::AwaitingHeader1,
                0x55
            ))
        );
    }
}

#[test]
fn length_field_is_checked() {
    for length in 0..=255u8 {
        let mut parser = SmartAudioParser::new();
        assert!(matches!(parser.push_byte_raw(0xAA), Ok(None)));
        assert!(matches!(parser.push_byte_raw(0x55), Ok(None)));
        assert!(matches!(parser.push_byte_raw(0x02), Ok(None)));
        let pushed = parser.push_byte_raw(length);
        if (3..28).contains(&length) {
            assert!(matches!(pushed, Ok(None)));
        } else {
            assert_eq!(
                pushed.err(),
                Some(SmartAudioError::UnexpetedDataForState(
                    State::AwaitingLength,
                    length
                ))
            );
            assert!(matches!(parser.push_byte_raw(0xAA), Ok(None)));
        }
    }
}

#[test]
fn any_command_code_is_taken() {
    for code in [0x00u8, 0x01, 0x42, 0xAA, 0x55, 0xFF] {
        let mut parser = SmartAudioParser::new();
        assert!(matches!(parser.push_byte_raw(0xAA), Ok(None)));
        assert!(matches!(parser.push_byte_raw(0x55), Ok(None)));
        assert!(matches!(parser.push_byte_raw(code), Ok(None)));
        assert!(matches!(parser.push_byte_raw(0x03), Ok(None)));
    }
}

#[test]
fn shortest_and_longest_frame() {
    let shortest: [u8; 7] = [0xAA, 0x55, 0x42, 0x03, 0x01, 0x02, 0x69];
    let mut parser = SmartAudioParser::new();
    for byte in &shortest[..6] {
        assert!(matches!(parser.push_byte_raw(*byte), Ok(None)));
    }
    let frame = parser.push_byte_raw(shortest[6]).unwrap().unwrap();
    assert_eq!(frame.len(), 7);
    assert_eq!(frame.payload(), &[0x01, 0x02]);

    let mut longest: Vec<u8> = vec![0xAA, 0x55, 0x02, 27];
    for value in 0..26u8 {
        longest.push(value);
    }
    longest.push(0xE1);
    assert_eq!(longest.len(), 31);
    for byte in &longest[..30] {
        assert!(matches!(parser.push_byte_raw(*byte), Ok(None)));
    }
    let frame = parser.push_byte_raw(longest[30]).unwrap().unwrap();
    assert_eq!(frame.len(), 31);
    assert_eq!(frame.commnand(), 0x02);
    assert_eq!(frame.payload().len(), 26);
    assert_eq!(frame.payload()[25], 25);
    assert_eq!(frame.crc(), 0xE1);
}

#[test]
fn wrong_checksum_names_both() {
    let raw: [u8; 7] = [0xAA, 0x55, 0x05, 0x03, 0x0A, 0x01, 0x4F];
    for wrong in 0..=255u8 {
        if wrong == 0x4F {
            continue;
        }
        let mut parser = SmartAudioParser::new();
        for byte in &raw[..6] {
            assert!(matches!(parser.push_byte_raw(*byte), Ok(None)));
        }
        assert_eq!(
            parser.push_byte_raw(wrong).err(),
            Some(SmartAudioError::InvalidCrc {
                calculated_crc: 0x4F,
                frame_crc: wrong
            })
        );
        // Ready for the next frame.
        for byte in &raw[..6] {
            assert!(matches!(parser.push_byte_raw(*byte), Ok(None)));
        }
        let frame = parser.push_byte_raw(raw[6]).unwrap().unwrap();
        assert_eq!(frame.len(), 7);
    }
}

#[test]
fn reset_gives_up_the_frame() {
    let raw: [u8; 7] = [0xAA, 0x55, 0x05, 0x03, 0x0A, 0x01, 0x4F];
    for held in 0..7usize {
        let mut parser = SmartAudioParser::new();
        for byte in &raw[..held] {
            assert!(matches!(parser.push_byte_raw(*byte), Ok(None)));
        }
        parser.reset();
        assert_eq!(
            parser.push_byte_raw(0x55).err(),
            Some(SmartAudioError::UnexpetedDataForState(
                State::AwaitingHeader1,
                0x55
            ))
        );
        for byte in &raw[..6] {
            assert!(matches!(parser.push_byte_raw(*byte), Ok(None)));
        }
        assert!(matches!(parser.push_byte_raw(raw[6]), Ok(Some(_))));
    }
}

#[test]
fn frames_follow_one_another() {
    let first: [u8; 7] = [0xAA, 0x55, 0x05, 0x03, 0x0A, 0x01, 0x4F];
    let second: [u8; 8] = [0xAA, 0x55, 0x04, 0x04, 0x16, 0xE9, 0x01, 0xF8];
    let mut parser = SmartAudioParser::new();
    for round in 0..3 {
        for byte in &first[..6] {
            assert!(matches!(parser.push_byte_raw(*byte), Ok(None)));
        }
        let frame = parser.push_byte_raw(first[6]).unwrap().unwrap();
        assert_eq!(frame.commnand(), 0x05, "round {}", round);
        for byte in &second[..7] {
            assert!(matches!(parser.push_byte_raw(*byte), Ok(None)));
        }
        let frame = parser.push_byte_raw(second[7]).unwrap().unwrap();
        assert_eq!(frame.commnand(), 0x04);
        assert_eq!(frame.len(), 8);
    }
}

#[test]
fn header_bytes_inside_a_frame_are_data() {
    let body: [u8; 4] = [0x03, 0x03, 0xAA, 0x55];
    let crc = crc8_dvb_s2(&body);
    let mut parser = SmartAudioParser::new();
    for byte in [0xAA, 0x55, 0x03, 0x03, 0xAA, 0x55] {
        assert!(matches!(parser.push_byte_raw(byte), Ok(None)));
    }
    let frame = parser.push_byte_raw(crc).unwrap().unwrap();
    assert_eq!(frame.payload(), &[0xAA, 0x55]);
}

#[test]
fn state_default_is_the_first() {
    assert_eq!(State::default(), State::AwaitingHeader1);
}
