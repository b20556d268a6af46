use smartaudio::commands::Power;
use smartaudio::parser::State;
use smartaudio::RawSmartAudioFrame;
use smartaudio::Response;
use smartaudio::SetChannelCommand;
use smartaudio::SetChannelResponse;
use smartaudio::SetFrequencyCommand;
use smartaudio::SetFrequencyResponse;
use smartaudio::SetModeCommand;
use smartaudio::SetModeResponse;
use smartaudio::SetPowerCommand;
use smartaudio::SetPowerResponse;
use smartaudio::SmartAudioCommand;
use smartaudio::SmartAudioError;
use smartaudio::SmartAudioParser;
use smartaudio::SmartAudioReponse;

fn frames() -> Vec<Vec<u8>> {
    vec![
        vec![0xAA, 0x55, 0x01, 0x06, 0x00, 0x00, 0x01, 0x16, 0xE9, 0x4D],
        vec![0xAA, 0x55, 0x09, 0x06, 0x01, 0x00, 0x1A, 0x16, 0xE9, 0x0A],
        vec![
            0xAA, 0x55, 0x11, 0x0C, 0x00, 0x00, 0x00, 0x16, 0xE9, 0x0E, 0x03, 0x00, 0x0E, 0x14,
            0x1A, 0x01,
        ],
        vec![0xAA, 0x55, 0x02, 0x03, 0x00, 0x01, 0x0F],
        vec![0xAA, 0x55, 0x02, 0x03, 0x0E, 0x01, 0x6D],
        vec![0xAA, 0x55, 0x03, 0x03, 0x00, 0x01, 0x4A],
        vec![0xAA, 0x55, 0x04, 0x04, 0x16, 0xE9, 0x01, 0xF8],
        vec![0xAA, 0x55, 0x05, 0x03, 0x0A, 0x01, 0x4F],
    ]
}

fn push_frame(parser: &mut SmartAudioParser, frame: &[u8]) -> Response {
    for byte in &frame[..frame.len() - 1] {
        assert!(matches!(parser.push_byte(*byte), Ok(None)));
    }
    parser.push_byte(frame[frame.len() - 1]).unwrap().unwrap()
}

#[test]
fn valid_frames_are_assembled_byte_by_byte() {
    let mut parser = SmartAudioParser::new();
    for frame in frames() {
        for byte in &frame[..frame.len() - 1] {
            assert!(matches!(parser.push_byte_raw(*byte), Ok(None)));
        }
        let view = parser
            .push_byte_raw(frame[frame.len() - 1])
            .unwrap()
            .unwrap();
        assert_eq!(view.len(), frame.len());
        assert_eq!(view.commnand(), frame[2]);
        assert_eq!(view.payload(), &frame[4..frame.len() - 1]);
        assert_eq!(view.crc(), frame[frame.len() - 1]);
    }
}

#[test]
fn any_other_checksum_is_refused() {
    let all = frames();
    for frame in &all {
        let right = frame[frame.len() - 1];
        for wrong in [right ^ 0x01, right ^ 0x80, right.wrapping_add(1), !right] {
            let mut parser = SmartAudioParser::new();
            for byte in &frame[..frame.len() - 1] {
                assert!(matches!(parser.push_byte(*byte), Ok(None)));
            }
            assert_eq!(
                parser.push_byte(wrong).err(),
                Some(SmartAudioError::InvalidCrc {
                    calculated_crc: right,
                    frame_crc: wrong
                })
            );
            let response = push_frame(&mut parser, &all[5]);
            assert!(matches!(
                response,
                Response::SetChannel(SetChannelResponse { channel: 0 })
            ));
        }
    }
}

#[test]
fn unexpected_byte_names_state_and_byte() {
    let good: [u8; 7] = [0xAA, 0x55, 0x03, 0x03, 0x00, 0x01, 0x4A];
    let cases: [(&[u8], u8, State); 6] = [
        (&[], 0x00, State::AwaitingHeader1),
        (&[], 0x55, State::AwaitingHeader1),
        (&[0xAA], 0xAA, State::AwaitingHeader2),
        (&[0xAA], 0x00, State::AwaitingHeader2),
        (&[0xAA, 0x55, 0x03], 0x02, State::AwaitingLength),
        (&[0xAA, 0x55, 0x03], 0x1C, State::AwaitingLength),
    ];
    for (start, byte, state) in cases {
        let mut parser = SmartAudioParser::new();
        for b in start {
            assert!(matches!(parser.push_byte(*b), Ok(None)));
        }
        assert_eq!(
            parser.push_byte(byte).err(),
            Some(SmartAudioError::UnexpetedDataForState(state, byte))
        );
        let response = push_frame(&mut parser, &good);
        assert!(matches!(
            response,
            Response::SetChannel(SetChannelResponse { channel: 0 })
        ));
    }
}

#[test]
fn set_mode_round_trip() {
    for bits in 0..16u8 {
        let command = SetModeCommand {
            pitmode_in_range_active: bits & 1 != 0,
            pitmode_out_range_active: bits & 2 != 0,
            pitmode_enabled: bits & 4 != 0,
            unlocked: bits & 8 != 0,
        };
        let mut buffer: [u8; 6] = [0; 6];
        let size = command.to_bytes(&mut buffer).unwrap();
        let frame = RawSmartAudioFrame::new(&buffer[..size]).unwrap();
        let response = SetModeResponse::from_raw_frame(&frame);
        assert_eq!(
            response,
            SetModeResponse {
                pitmode_in_range_active: command.pitmode_in_range_active,
                pitmode_out_range_active: command.pitmode_out_range_active,
                pitmode_enabled: command.pitmode_enabled,
                unlocked: command.unlocked,
            }
        );
    }
}

#[test]
fn set_channel_round_trip() {
    for channel in [0u8, 1, 39, 0x80, 0xFF] {
        let mut buffer: [u8; 6] = [0; 6];
        let size = SetChannelCommand { channel }.to_bytes(&mut buffer).unwrap();
        let frame = RawSmartAudioFrame::new(&buffer[..size]).unwrap();
        assert_eq!(
            SetChannelResponse::from_raw_frame(&frame),
            SetChannelResponse { channel }
        );
    }
}

#[test]
fn set_frequency_round_trip() {
    for frequency in [0u16, 1, 255, 256, 5865, 0x8000, 0xFFFF] {
        let mut buffer: [u8; 7] = [0; 7];
        let size = SetFrequencyCommand { frequency }
            .to_bytes(&mut buffer)
            .unwrap();
        let frame = RawSmartAudioFrame::new(&buffer[..size]).unwrap();
        assert_eq!(
            SetFrequencyResponse::from_raw_frame(&frame),
            SetFrequencyResponse { frequency }
        );
    }
}

#[test]
fn set_power_round_trip() {
    for value in [0u8, 1, 14, 0x7F] {
        let mut buffer: [u8; 6] = [0; 6];
        let size = SetPowerCommand {
            power: Power::Level(value),
        }
        .to_bytes(&mut buffer)
        .unwrap();
        let frame = RawSmartAudioFrame::new(&buffer[..size]).unwrap();
        assert_eq!(
            SetPowerResponse::from_raw_frame(&frame),
            SetPowerResponse { power: value }
        );
        let size = SetPowerCommand {
            power: Power::dBm(value),
        }
        .to_bytes(&mut buffer)
        .unwrap();
        let frame = RawSmartAudioFrame::new(&buffer[..size]).unwrap();
        assert_eq!(
            SetPowerResponse::from_raw_frame(&frame),
            SetPowerResponse {
                power: value + 0x80
            }
        );
    }
}

#[test]
fn concatenated_frames_come_out_in_order() {
    let all = frames();
    let mut input: Vec<u8> = Vec::new();
    for frame in &all {
        input.extend_from_slice(frame);
    }
    let mut parser = SmartAudioParser::new();
    let mut scan = parser.iter_frames(&input);
    let mut end = 0;
    for frame in &all {
        let item = scan.next().unwrap().unwrap();
        end += frame.len();
        assert_eq!(scan.position, end);
        let alone = RawSmartAudioFrame::new(frame).unwrap();
        let expected = Response::parse(&alone).unwrap();
        assert_eq!(format!("{:?}", item), format!("{:?}", expected));
    }
    assert!(scan.next().is_none());
}
