use sipacker::alaw::{decode_g711_alaw, encode_g711_alaw};
use sipacker::audio::{AudioError, AudioSystem};
use sipacker::rtp::RtpFactory;

#[test]
fn rtp_sequence_and_timestamp_advance() {
    // one hundred A-law bytes sent as five 20-byte chunks: contiguous
    // sequence numbers, timestamps 0, 20, 40, 60, 80
    let mut factory = RtpFactory::new(8);
    for i in 0..5u32 {
        let packet = factory.create_rtp_packet(vec![0u8; 20]);
        assert_eq!(packet.pt, 8);
        assert_eq!(packet.sequence_number, i as u16);
        assert_eq!(packet.timestamp, i * 20);
        assert_eq!(packet.ssrc, 0);
        assert_eq!(packet.payload.len(), 20);
    }
}

#[test]
fn rtp_whole_frame_advances_by_its_length() {
    let mut factory = RtpFactory::new(8);
    let first = factory.create_rtp_packet(vec![1u8; 100]);
    let second = factory.create_rtp_packet(vec![2u8; 100]);
    assert_eq!(first.timestamp, 0);
    assert_eq!(second.timestamp, 100);
    assert_eq!(first.sequence_number, 0);
    assert_eq!(second.sequence_number, 1);
}

#[test]
fn rtp_sequence_wraps_modulo_16_bits() {
    let mut factory = RtpFactory::new(8);
    for _ in 0..65536 {
        let _ = factory.create_rtp_packet(Vec::new());
    }
    let wrapped = factory.create_rtp_packet(Vec::new());
    assert_eq!(wrapped.sequence_number, 0);
}

#[test]
fn alaw_known_values() {
    assert_eq!(encode_g711_alaw(&vec![0i16]), vec![0xd5u8]);
    assert_eq!(encode_g711_alaw(&vec![-1i16]), vec![0x55u8]);
    assert_eq!(encode_g711_alaw(&vec![1000i16]), vec![0xfau8]);
    assert_eq!(decode_g711_alaw(&vec![0xd5u8]), vec![8i16]);
    assert_eq!(decode_g711_alaw(&vec![0x55u8]), vec![-8i16]);
}

#[test]
fn alaw_round_trip_within_quantization_bounds() {
    let mut samples: Vec<i16> = Vec::new();
    let mut x: i32 = i16::MIN as i32;
    while x <= i16::MAX as i32 {
        samples.push(x as i16);
        x += 1;
    }
    let encoded = encode_g711_alaw(&samples);
    let decoded = decode_g711_alaw(&encoded);
    assert_eq!(decoded.len(), samples.len());
    for (s, d) in samples.iter().zip(decoded.iter()) {
        let err = *d as i32 - *s as i32;
        assert!(-511 <= err && err <= 512, "sample {s}: err {err}");
        if -256 <= *s && *s < 256 {
            assert!(-8 <= err && err <= 8, "small sample {s}: err {err}");
        }
        if *s >= 0 {
            assert!(*d > 0);
        } else {
            assert!(*d < 0);
        }
    }
}

#[test]
fn alaw_frame_lengths_match() {
    let samples = vec![0i16, 500, -500, 32767, -32768];
    let encoded = encode_g711_alaw(&samples);
    assert_eq!(encoded.len(), 5);
    let decoded = decode_g711_alaw(&encoded);
    assert_eq!(decoded.len(), 5);
}

#[test]
fn audio_streams_created_once() {
    let mut audio = AudioSystem::build();
    assert!(audio.create_output_stream().is_ok());
    assert_eq!(audio.create_output_stream(), Err(AudioError::AlreadyCreated));
    assert!(audio.create_input_stream().is_ok());
    assert_eq!(audio.create_input_stream(), Err(AudioError::AlreadyCreated));
    audio.destroy_output_stream();
    assert!(audio.create_output_stream().is_ok());
    audio.destroy_input_stream();
    assert!(audio.create_input_stream().is_ok());
}
