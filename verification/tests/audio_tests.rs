use speekium::audio::{
    downmix_to_mono, find_suitable_config, process_audio_data, resample_linear, samples_to_wav,
    AudioError, AudioRecorder, StreamConfigOption, SAMPLE_RATE,
};

#[test]
fn test_samples_to_wav() {
    let samples = vec![0i16; 16000];  // 1 second of silence
    let wav = samples_to_wav(&samples, 16000);

    // Check RIFF header
    assert_eq!(&wav[0..4], b"RIFF");
    assert_eq!(&wav[8..12], b"WAVE");

    // Check data size
    assert!(wav.len() > 44);  // Header + data
}

fn le32_at(bytes: &[u8], at: usize) -> u32 {
    u32::from_le_bytes([bytes[at], bytes[at + 1], bytes[at + 2], bytes[at + 3]])
}

fn le16_at(bytes: &[u8], at: usize) -> u16 {
    u16::from_le_bytes([bytes[at], bytes[at + 1]])
}

#[test]
fn wav_round_trip_reports_sizes() {
    let n = 100usize;
    let samples = vec![0i16; n];
    let wav = samples_to_wav(&samples, SAMPLE_RATE);
    assert_eq!(wav.len(), 44 + 2 * n);
    assert_eq!(&wav[0..4], b"RIFF");
    assert_eq!(le32_at(&wav, 4), (2 * n + 36) as u32);
    assert_eq!(&wav[8..12], b"WAVE");
    assert_eq!(&wav[12..16], b"fmt ");
    assert_eq!(le32_at(&wav, 16), 16);
    assert_eq!(le16_at(&wav, 20), 1, "PCM format");
    assert_eq!(le16_at(&wav, 22), 1, "mono");
    assert_eq!(le32_at(&wav, 24), SAMPLE_RATE);
    assert_eq!(le32_at(&wav, 28), SAMPLE_RATE * 2, "byte rate");
    assert_eq!(le16_at(&wav, 32), 2, "block align");
    assert_eq!(le16_at(&wav, 34), 16, "bits per sample");
    assert_eq!(&wav[36..40], b"data");
    assert_eq!(le32_at(&wav, 40), (2 * n) as u32, "data_size must be 2*N");
}

#[test]
fn wav_payload_is_little_endian_samples() {
    let samples = vec![1i16, -2, 300];
    let wav = samples_to_wav(&samples, SAMPLE_RATE);
    assert_eq!(wav.len(), 44 + 6);
    assert_eq!(i16::from_le_bytes([wav[44], wav[45]]), 1);
    assert_eq!(i16::from_le_bytes([wav[46], wav[47]]), -2);
    assert_eq!(i16::from_le_bytes([wav[48], wav[49]]), 300);
}

#[test]
fn resample_length_is_scaled_and_rounded_up() {
    // 5 samples from 3 Hz to 4 Hz: ceil(5 * 4 / 3) = 7.
    let samples = vec![0i16, 30, 60, 90, 120];
    let out = resample_linear(&samples, 3, 4);
    assert_eq!(out.len(), 7);
    // 16000 -> 48000 triples the count.
    let samples = vec![5i16; 160];
    assert_eq!(resample_linear(&samples, 16000, 48000).len(), 480);
    // 48000 -> 16000 takes a third, rounded up.
    let samples = vec![5i16; 481];
    assert_eq!(resample_linear(&samples, 48000, 16000).len(), 161);
}

#[test]
fn resample_at_equal_rates_is_identity() {
    let samples = vec![3i16, -7, 1000, 0, 42];
    let out = resample_linear(&samples, 16000, 16000);
    assert_eq!(out, samples);
}

#[test]
fn resample_interpolates_between_neighbours() {
    // Doubling the rate of [0, 100]: position 1 falls halfway.
    let samples = vec![0i16, 100];
    let out = resample_linear(&samples, 1, 2);
    assert_eq!(out.len(), 4);
    assert_eq!(out[0], 0);
    assert_eq!(out[1], 50);
    assert_eq!(out[2], 100, "positions past the last pair hold the last sample");
}

#[test]
fn downmix_averages_frames() {
    let stereo = vec![10i16, 20, -10, -20, 5, 6];
    let mono = downmix_to_mono(&stereo, 2);
    assert_eq!(mono, vec![15, -15, 5]);
    // A short trailing frame is averaged over its own length.
    let ragged = vec![10i16, 20, 7];
    assert_eq!(downmix_to_mono(&ragged, 2), vec![15, 7]);
    // Mono input passes through.
    let mono_in = vec![1i16, 2, 3];
    assert_eq!(downmix_to_mono(&mono_in, 1), mono_in);
}

#[test]
fn process_audio_pipeline_composes() {
    let stereo = vec![10i16, 20, 30, 40];
    let out = process_audio_data(&stereo, SAMPLE_RATE, 2, SAMPLE_RATE);
    assert_eq!(out, vec![15, 35]);
    let mono = vec![4i16, 8];
    assert_eq!(process_audio_data(&mono, SAMPLE_RATE, 1, SAMPLE_RATE), mono);
}

#[test]
fn recorder_session_lifecycle() {
    let mut rec = AudioRecorder::new();
    assert!(!rec.is_recording());
    assert!(matches!(rec.stop_recording(SAMPLE_RATE), Err(AudioError::NotRecording)));
    rec.start_recording().expect("fresh recorder starts");
    assert!(rec.is_recording());
    assert_eq!(rec.start_recording(), Err(AudioError::AlreadyRecording));
    rec.append_samples(&vec![1i16, 2, 3]);
    rec.append_samples(&vec![4i16]);
    let enc = rec.stop_recording(SAMPLE_RATE).expect("samples were captured");
    assert!(!rec.is_recording());
    assert_eq!(enc.sample_count, 4);
    assert_eq!(enc.sample_rate, SAMPLE_RATE);
    assert_eq!(enc.duration_ms, 4000 / SAMPLE_RATE as u64);
    assert_eq!(enc.wav.len(), 44 + 8);
}

#[test]
fn empty_recording_is_rejected_before_encoding() {
    let mut rec = AudioRecorder::new();
    rec.start_recording().expect("starts");
    let r = rec.stop_recording(SAMPLE_RATE);
    assert!(matches!(r, Err(AudioError::EmptyRecording)));
    assert!(!rec.is_recording(), "the session still ends");
}

#[test]
fn samples_after_stop_are_dropped() {
    let mut rec = AudioRecorder::new();
    rec.start_recording().expect("starts");
    rec.append_samples(&vec![1i16]);
    let _ = rec.stop_recording(SAMPLE_RATE);
    rec.append_samples(&vec![2i16, 3]);
    assert_eq!(rec.buffer.len(), 0);
}

#[test]
fn audio_error_messages_match() {
    assert_eq!(AudioError::AlreadyRecording.message(), "Already recording");
    assert_eq!(AudioError::NotRecording.message(), "Not recording");
    assert_eq!(AudioError::EmptyRecording.message(), "No audio data recorded");
}

#[test]
fn config_choice_prefers_exact_mono() {
    let cs = vec![
        StreamConfigOption { channels: 2, min_rate: 8000, max_rate: 48000 },
        StreamConfigOption { channels: 1, min_rate: 8000, max_rate: 48000 },
    ];
    assert_eq!(find_suitable_config(&cs, 16000), Some(1));
    let cs = vec![
        StreamConfigOption { channels: 2, min_rate: 8000, max_rate: 48000 },
        StreamConfigOption { channels: 1, min_rate: 44100, max_rate: 48000 },
    ];
    assert_eq!(find_suitable_config(&cs, 16000), Some(0), "any channel count spanning the rate");
    let cs = vec![StreamConfigOption { channels: 1, min_rate: 44100, max_rate: 48000 }];
    assert_eq!(find_suitable_config(&cs, 16000), None, "fall back to the device default");
}
