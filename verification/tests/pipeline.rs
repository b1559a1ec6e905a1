//! Tests of the sample pipeline: decimation, WAV encoding and decoding, the
//! base64 payload, and the capture engine around them.

use openvoice::payload::encode_payload;
use openvoice::pcm::{decimate, mix_to_mono, pcm_from_u16, resample_to_target};
use openvoice::recorder::{
    choose_device, label_devices, AudioRecorder, CaptureError, DeviceChoice, SampleFormat,
    StreamSettings,
};
use openvoice::wav::{decode_wav, encode_wav};

/// The quantization the capture edge applies to normalized float samples.
fn quantize(x: f32) -> i16 {
    (x.clamp(-1.0, 1.0) * i16::MAX as f32) as i16
}

fn quantize_all(xs: &[f32]) -> Vec<i16> {
    xs.iter().map(|&x| quantize(x)).collect()
}

/// A plain reference base64 encoder to hold the payload's text against.
fn reference_base64(bytes: &[u8]) -> String {
    let alphabet = b"ABCDEFGHIJKLMNOPQRSTUVWXYZabcdefghijklmnopqrstuvwxyz0123456789+/";
    let mut out = String::new();
    for chunk in bytes.chunks(3) {
        let b0 = chunk[0] as u32;
        let b1 = if chunk.len() > 1 { chunk[1] as u32 } else { 0 };
        let b2 = if chunk.len() > 2 { chunk[2] as u32 } else { 0 };
        let v = (b0 << 16) | (b1 << 8) | b2;
        out.push(alphabet[(v >> 18) as usize] as char);
        out.push(alphabet[((v >> 12) & 63) as usize] as char);
        if chunk.len() > 1 {
            out.push(alphabet[((v >> 6) & 63) as usize] as char);
        } else {
            out.push('=');
        }
        if chunk.len() > 2 {
            out.push(alphabet[(v & 63) as usize] as char);
        } else {
            out.push('=');
        }
    }
    out
}

#[test]
fn test_downsample() {
    let samples: Vec<f32> = (0..44100).map(|i| (i as f32 / 44100.0).sin()).collect();
    let q = quantize_all(&samples);
    let downsampled = decimate(&q, 44100, 16000);
    assert!(downsampled.len() < q.len());
    assert!((downsampled.len() as f32 - 16000.0).abs() < 100.0);
}

#[test]
fn test_samples_to_wav() {
    let samples: Vec<f32> = vec![0.0, 0.5, 1.0, 0.5, 0.0, -0.5, -1.0, -0.5];
    let q = quantize_all(&samples);
    let wav = encode_wav(&q, 16000);
    assert!(!wav.is_empty());
    // WAV header is 44 bytes
    assert!(wav.len() > 44);
}

#[test]
fn decimation_length_and_mapping() {
    let samples: Vec<i16> = (0..1000).map(|i| i as i16).collect();
    let out = decimate(&samples, 44100, 16000);
    assert_eq!(out.len(), 1000 * 16000 / 44100);
    for (i, &v) in out.iter().enumerate() {
        assert_eq!(v as usize, i * 44100 / 16000);
    }
}

#[test]
fn resample_at_or_below_target_is_a_no_op() {
    let samples: Vec<i16> = vec![5, -7, 100, -32768, 32767];
    assert_eq!(resample_to_target(&samples, 16000, 16000), samples);
    assert_eq!(resample_to_target(&samples, 8000, 16000), samples);
    assert_ne!(resample_to_target(&samples, 32000, 16000), samples);
}

#[test]
fn stereo_mix_averages_frames() {
    let samples: Vec<i16> = vec![1000, 2000, -300, -501, 7, 8];
    let mixed = mix_to_mono(&samples, 2);
    assert_eq!(mixed, vec![1500, -400, 7]);
}

#[test]
fn mono_mix_keeps_single_channel() {
    let samples: Vec<i16> = vec![4, -4, 9];
    assert_eq!(mix_to_mono(&samples, 1), samples);
}

#[test]
fn u16_samples_center_on_zero() {
    assert_eq!(pcm_from_u16(0), -32768);
    assert_eq!(pcm_from_u16(32768), 0);
    assert_eq!(pcm_from_u16(65535), 32767);
}

#[test]
fn wav_round_trip_is_exact_within_a_quantization_step() {
    let originals: Vec<f32> = vec![0.0, 0.25, -0.25, 0.5, 1.0, -1.0, 0.333, -0.875];
    let q = quantize_all(&originals);
    let wav = encode_wav(&q, 8000);
    let (decoded, rate) = decode_wav(&wav).expect("a fresh encoding must decode");
    assert_eq!(rate, 8000);
    assert_eq!(decoded, q);
    for (d, o) in decoded.iter().zip(originals.iter()) {
        let back = *d as f32 / i16::MAX as f32;
        assert!((back - o).abs() <= 1.0 / 32767.0);
    }
}

#[test]
fn wav_matches_independent_reader() {
    let samples: Vec<i16> = vec![0, 1, -1, 32767, -32768, 12345, -20000];
    let wav = encode_wav(&samples, 16000);
    let reader = hound::WavReader::new(std::io::Cursor::new(wav)).expect("hound must accept it");
    let spec = reader.spec();
    assert_eq!(spec.channels, 1);
    assert_eq!(spec.sample_rate, 16000);
    assert_eq!(spec.bits_per_sample, 16);
    assert_eq!(spec.sample_format, hound::SampleFormat::Int);
    let read: Vec<i16> = reader.into_samples::<i16>().map(|s| s.unwrap()).collect();
    assert_eq!(read, samples);
}

#[test]
fn decode_rejects_tampered_streams() {
    let samples: Vec<i16> = vec![3, 1, 4, 1, 5];
    let wav = encode_wav(&samples, 16000);
    assert!(decode_wav(&wav).is_some());
    let mut bad_tag = wav.clone();
    bad_tag[0] = b'X';
    assert!(decode_wav(&bad_tag).is_none());
    let mut bad_size = wav.clone();
    bad_size[40] ^= 0xff;
    assert!(decode_wav(&bad_size).is_none());
    let truncated = wav[..wav.len() - 1].to_vec();
    assert!(decode_wav(&truncated).is_none());
    assert!(decode_wav(&wav[..40].to_vec()).is_none());
}

#[test]
fn payload_base64_matches_reference() {
    let samples: Vec<i16> = vec![0, 257, -2, 31000];
    let p = encode_payload(&samples, 16000);
    assert_eq!(p.text, reference_base64(&p.wav));
    assert!(p.text.starts_with("UklGR"));
    // One payload per remainder class of the byte length, to exercise
    // every padding shape.
    for n in 1..=3usize {
        let samples: Vec<i16> = (0..n).map(|i| (i as i16 + 1) * -77).collect();
        let p = encode_payload(&samples, 8000);
        assert_eq!(p.wav.len() % 3, (44 + 2 * n) % 3);
        assert_eq!(p.text, reference_base64(&p.wav));
    }
    let empty: Vec<u8> = Vec::new();
    assert_eq!(reference_base64(&empty), "");
    assert_eq!(reference_base64(b"Man"), "TWFu");
    assert_eq!(reference_base64(b"Ma"), "TWE=");
    assert_eq!(reference_base64(b"M"), "TQ==");
}

#[test]
fn finalize_on_empty_buffer_fails_with_empty_buffer() {
    let rec = AudioRecorder::new();
    match rec.finalize_payload() {
        Err(CaptureError::EmptyBuffer) => {}
        other => panic!("expected EmptyBuffer, got {:?}", other.map(|p| p.wav.len())),
    }
    assert_eq!(rec.get_audio_base64(), Err("No audio recorded".to_string()));
}

#[test]
fn silence_for_one_second_at_44100_finalizes_to_16000_samples() {
    let mut rec = AudioRecorder::new();
    let settings = StreamSettings { format: SampleFormat::Float32, sample_rate: 44100, channels: 1 };
    rec.prepare_capture(Some(settings)).expect("valid settings must be accepted");
    rec.mark_stream_live();
    assert!(rec.is_recording());
    let block: Vec<i16> = vec![0; 44100];
    rec.append_block(&block);
    rec.signal_stop();
    assert!(!rec.is_recording());
    let payload = rec.finalize_payload().expect("a full buffer must encode");
    let (samples, rate) = decode_wav(&payload.wav).expect("the payload must decode");
    assert_eq!(rate, 16000);
    assert_eq!(samples.len(), 16000);
    assert!(samples.iter().all(|&s| s == 0));
}

#[test]
fn prepare_capture_rejects_bad_configurations() {
    let mut rec = AudioRecorder::new();
    assert_eq!(rec.prepare_capture(None), Err(CaptureError::NoDevice));
    let other = StreamSettings { format: SampleFormat::Other, sample_rate: 44100, channels: 1 };
    assert_eq!(rec.prepare_capture(Some(other)), Err(CaptureError::UnsupportedFormat));
    let zero_ch = StreamSettings { format: SampleFormat::Int16, sample_rate: 44100, channels: 0 };
    assert_eq!(rec.prepare_capture(Some(zero_ch)), Err(CaptureError::UnsupportedFormat));
    let good = StreamSettings { format: SampleFormat::Uint16, sample_rate: 22050, channels: 2 };
    assert_eq!(rec.prepare_capture(Some(good)), Ok(()));
    rec.mark_stream_live();
    assert_eq!(rec.prepare_capture(Some(good)), Err(CaptureError::AlreadyCapturing));
}

#[test]
fn device_labeling_marks_the_default() {
    let names = vec!["USB Mic".to_string(), "Built-in".to_string()];
    let devices = label_devices(&names, &Some("Built-in".to_string()));
    assert_eq!(devices.len(), 2);
    assert_eq!(devices[0].name, "USB Mic");
    assert!(!devices[0].is_default);
    assert!(devices[1].is_default);
    let unlabeled = label_devices(&names, &None);
    assert!(unlabeled.iter().all(|d| !d.is_default));
}

#[test]
fn device_choice_prefers_the_named_device() {
    let names = vec!["A".to_string(), "B".to_string(), "B".to_string()];
    assert_eq!(choose_device(&names, &None), DeviceChoice::SystemDefault);
    assert_eq!(choose_device(&names, &Some("B".to_string())), DeviceChoice::ByIndex(1));
    assert_eq!(choose_device(&names, &Some("C".to_string())), DeviceChoice::SystemDefault);
}
