use std::collections::VecDeque;

use meeting_transcriber::audio::{decode_pcm_frame, take_complete_frames, PcmSamples};

#[test]
fn complete_frames_leave_the_tail_queued() {
    let mut q: VecDeque<u8> = (0u8..10).collect();
    let frames = take_complete_frames(&mut q, 4);
    assert_eq!(frames, vec![vec![0, 1, 2, 3], vec![4, 5, 6, 7]]);
    assert_eq!(q.iter().copied().collect::<Vec<u8>>(), vec![8, 9]);

    let mut short: VecDeque<u8> = vec![1u8, 2].into_iter().collect();
    assert!(take_complete_frames(&mut short, 4).is_empty());
    assert_eq!(short.len(), 2);
}

#[test]
fn decodes_16_bit_samples() {
    match decode_pcm_frame(&vec![0x01, 0x00, 0xff, 0xff, 0x00, 0x80, 0xff, 0x7f], 16, false) {
        Some(PcmSamples::Int { samples, full_scale }) => {
            assert_eq!(samples, vec![1, -1, -32768, 32767]);
            assert_eq!(full_scale, 32767);
        }
        _ => panic!("16-bit frame should decode"),
    }
}

#[test]
fn decodes_24_bit_samples_with_sign_extension() {
    match decode_pcm_frame(&vec![0xff, 0xff, 0x7f, 0x00, 0x00, 0x80, 0xff, 0xff, 0xff], 24, false) {
        Some(PcmSamples::Int { samples, full_scale }) => {
            assert_eq!(samples, vec![8388607, -8388608, -1]);
            assert_eq!(full_scale, 8388607);
        }
        _ => panic!("24-bit frame should decode"),
    }
}

#[test]
fn decodes_8_bit_samples() {
    match decode_pcm_frame(&vec![0, 128, 255], 8, false) {
        Some(PcmSamples::Int { samples, full_scale }) => {
            assert_eq!(samples, vec![-128, 0, 127]);
            assert_eq!(full_scale, 128);
        }
        _ => panic!("8-bit frame should decode"),
    }
}

#[test]
fn decodes_float_samples_bit_for_bit() {
    let mut bytes = Vec::new();
    bytes.extend_from_slice(&1.0f32.to_le_bytes());
    bytes.extend_from_slice(&(-0.25f32).to_le_bytes());
    match decode_pcm_frame(&bytes, 32, true) {
        Some(PcmSamples::Float32Bits(bits)) => {
            let values: Vec<f32> = bits.into_iter().map(f32::from_bits).collect();
            assert_eq!(values, vec![1.0, -0.25]);
        }
        _ => panic!("float frame should decode"),
    }
}

#[test]
fn other_formats_are_skipped() {
    assert!(decode_pcm_frame(&vec![0, 0, 0, 0], 32, false).is_none());
    assert!(decode_pcm_frame(&vec![0, 0], 12, false).is_none());
}
