use bevy_fundsp::wav::{WaveData, decode_wav16, encode_wav16, wave_frames};

#[test]
fn wav_header_layout() {
    let w = WaveData { sample_rate: 44100, channels: 1, samples: vec![0i16, 1000, -1000] };
    let b = encode_wav16(&w);
    assert_eq!(b.len(), 44 + 6);
    assert_eq!(&b[0..4], b"RIFF");
    assert_eq!(&b[8..12], b"WAVE");
    assert_eq!(&b[12..16], b"fmt ");
    assert_eq!(&b[36..40], b"data");
    assert_eq!(u32::from_le_bytes([b[4], b[5], b[6], b[7]]), 6 + 36);
    assert_eq!(u32::from_le_bytes([b[16], b[17], b[18], b[19]]), 16);
    assert_eq!(u16::from_le_bytes([b[20], b[21]]), 1);
    assert_eq!(u16::from_le_bytes([b[22], b[23]]), 1);
    assert_eq!(u32::from_le_bytes([b[24], b[25], b[26], b[27]]), 44100);
    assert_eq!(u32::from_le_bytes([b[28], b[29], b[30], b[31]]), 88200);
    assert_eq!(u16::from_le_bytes([b[32], b[33]]), 2);
    assert_eq!(u16::from_le_bytes([b[34], b[35]]), 16);
    assert_eq!(u32::from_le_bytes([b[40], b[41], b[42], b[43]]), 6);
    assert_eq!(i16::from_le_bytes([b[44], b[45]]), 0);
    assert_eq!(i16::from_le_bytes([b[46], b[47]]), 1000);
    assert_eq!(i16::from_le_bytes([b[48], b[49]]), -1000);
}

#[test]
fn wav_round_trip() {
    let w = WaveData {
        sample_rate: 48000,
        channels: 2,
        samples: vec![5i16, -5, 32767, -32768, 0, 1],
    };
    let b = encode_wav16(&w);
    let d = decode_wav16(&b).unwrap();
    assert_eq!(d.sample_rate, 48000);
    assert_eq!(d.channels, 2);
    assert_eq!(d.samples, w.samples);
    assert_eq!(wave_frames(&d), 3);
}

#[test]
fn wav_round_trip_empty() {
    let w = WaveData { sample_rate: 8000, channels: 1, samples: vec![] };
    let b = encode_wav16(&w);
    assert_eq!(b.len(), 44);
    let d = decode_wav16(&b).unwrap();
    assert_eq!(d.sample_rate, 8000);
    assert_eq!(d.channels, 1);
    assert_eq!(d.samples.len(), 0);
}

#[test]
fn wav_rejects_garbage() {
    assert!(decode_wav16(&vec![1u8, 2, 3]).is_none());
    let w = WaveData { sample_rate: 8000, channels: 1, samples: vec![0i16, 0] };
    let mut b = encode_wav16(&w);
    b[0] = 0x00;
    assert!(decode_wav16(&b).is_none());
    let mut b2 = encode_wav16(&w);
    b2[34] = 8;
    assert!(decode_wav16(&b2).is_none());
    let mut b3 = encode_wav16(&w);
    b3.push(0);
    assert!(decode_wav16(&b3).is_none());
}
