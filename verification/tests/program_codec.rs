use led_strip_core::led_strip_animations::{AnimationConfig, LedStripAnimation, PlaybackState};
use led_strip_core::program_codec::{ProgramDecodeError, decode_program};

#[test]
fn decode_program_roundtrips_through_the_standard_encoding() {
    let program: Vec<u8> = vec![0xe0, 0x50, 0x0f, 0x00, 0x20, 0x11, 0x01];
    let body: Vec<u8> = base64::encode(&program).into_bytes();
    let decoded = decode_program(&body).expect("a valid body should decode");
    assert_eq!(decoded, program);
}

#[test]
fn decode_program_computes_and_does_not_echo_its_input() {
    let body: Vec<u8> = b"AAAA".to_vec();
    let decoded = decode_program(&body).unwrap();
    assert_eq!(decoded, vec![0u8, 0, 0]);
    assert_ne!(decoded, body);
}

#[test]
fn decode_program_accepts_the_empty_body() {
    let decoded = decode_program(&Vec::new()).unwrap();
    assert!(decoded.is_empty());
}

#[test]
fn decode_program_rejects_an_invalid_byte() {
    let body: Vec<u8> = b"!!!!".to_vec();
    match decode_program(&body) {
        Err(ProgramDecodeError::InvalidByte(offset, value)) => {
            assert_eq!(offset, 0);
            assert_eq!(value, b'!');
        }
        other => panic!("expected an invalid-byte rejection, got {:?}", other),
    }
}

#[test]
fn decode_program_rejects_an_invalid_last_symbol() {
    let body: Vec<u8> = b"/x==".to_vec();
    assert_eq!(decode_program(&body), Err(ProgramDecodeError::InvalidLastSymbol(1, b'x')));
}

#[test]
fn decode_program_rejects_an_invalid_length() {
    let body: Vec<u8> = b"A".to_vec();
    assert_eq!(decode_program(&body), Err(ProgramDecodeError::InvalidLength));
}

#[test]
fn decoded_program_loads_into_the_coordinator() {
    let body: Vec<u8> = b"4FAPACARAYEQ4wFxQAEAAeRAAAA=".to_vec();
    let program = decode_program(&body).expect("the demo program should decode");
    let mut coordinator = LedStripAnimation::new(AnimationConfig::default());
    coordinator.load_program(program.clone());
    match &coordinator.playback {
        PlaybackState::Running(p) => assert_eq!(p, &program),
        PlaybackState::Halted => panic!("expected running"),
    }
}
