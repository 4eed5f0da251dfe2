use eva_wake::capture::{encode_audio_chunk, pcm16_le_bytes, AudioCaptureService, ChunkBuffer};
use eva_wake::error::AudioCaptureError;
use eva_wake::framer::Framer;
use eva_wake::pipeline::{
    plan_resampling, route_samples, select_format, CaptureBridge, FormatTag, NativeFormat, RateStage, ResamplePlan,
};
use eva_wake::sample::{downmix, recenter_u16, u16_to_mono_i16};

#[test]
fn stereo_downmix_keeps_left_channel() {
    let data: Vec<f32> = vec![0.1, 0.9, 0.2, -0.8, 0.3, 0.7];
    assert_eq!(downmix(&data, 2), vec![0.1, 0.2, 0.3]);
    let ints: Vec<i16> = vec![10, -10, 20, -20];
    assert_eq!(downmix(&ints, 2), vec![10, 20]);
}

#[test]
fn downmix_mono_and_partial_frame() {
    let data: Vec<i16> = vec![1, 2, 3];
    assert_eq!(downmix(&data, 1), vec![1, 2, 3]);
    let six: Vec<i16> = vec![1, 2, 3, 4, 5, 6, 7];
    assert_eq!(downmix(&six, 3), vec![1, 4, 7]);
    let empty: Vec<i16> = Vec::new();
    assert_eq!(downmix(&empty, 2), Vec::<i16>::new());
}

#[test]
fn unsigned_samples_are_recentred() {
    assert_eq!(recenter_u16(0), -32768);
    assert_eq!(recenter_u16(32768), 0);
    assert_eq!(recenter_u16(65535), 32767);
    assert_eq!(u16_to_mono_i16(&vec![40000, 0, 100, 0], 2), vec![7232, -32668]);
}

#[test]
fn framer_yields_full_frames_only() {
    let mut f: Framer<i16> = Framer::new();
    let first: Vec<i16> = (0..1000).map(|i| i as i16).collect();
    let frames = f.push(&first);
    assert_eq!(frames.len(), 1);
    assert_eq!(frames[0].len(), 512);
    assert_eq!(f.pending_len(), 488);
    let none = f.push(&vec![0i16; 23]);
    assert!(none.is_empty());
    assert_eq!(f.pending_len(), 511);
    let one = f.push(&vec![7i16; 1]);
    assert_eq!(one.len(), 1);
    assert_eq!(f.pending_len(), 0);
}

#[test]
fn framer_session_reassembles_stream() {
    let mut f: Framer<i16> = Framer::new();
    let mut input: Vec<i16> = Vec::new();
    let mut output: Vec<i16> = Vec::new();
    let sizes = [100usize, 700, 3, 512, 1500, 0, 37];
    let mut next: i16 = 0;
    for n in sizes {
        let chunk: Vec<i16> = (0..n).map(|_| { next = next.wrapping_add(1); next }).collect();
        input.extend_from_slice(&chunk);
        for frame in f.push(&chunk) {
            assert_eq!(frame.len(), 512);
            output.extend_from_slice(&frame);
        }
    }
    let total: usize = sizes.iter().sum();
    assert_eq!(output.len(), total / 512 * 512);
    assert_eq!(f.pending_len(), total % 512);
    assert_eq!(&input[..output.len()], &output[..]);
}

#[test]
fn passthrough_at_engine_rate() {
    assert_eq!(plan_resampling(16000), ResamplePlan::Passthrough);
    let samples: Vec<f32> = (0..1024).map(|i| (i as f32) / 2048.0).collect();
    let mut f: Framer<f32> = Framer::new();
    let frames = f.push(&samples);
    let joined: Vec<f32> = frames.concat();
    assert_eq!(joined, samples);
}

#[test]
fn resampler_plan_for_other_rates() {
    assert_eq!(
        plan_resampling(48000),
        ResamplePlan::Sinc {
            input_rate: 48000,
            output_rate: 16000,
            chunk_size: 512,
            sinc_len: 256,
            oversampling_factor: 256,
            channels: 1,
        }
    );
    assert!(matches!(plan_resampling(44100), ResamplePlan::Sinc { input_rate: 44100, .. }));
}

#[test]
fn only_three_formats_are_supported() {
    assert_eq!(select_format(FormatTag::F32), Some(NativeFormat::F32));
    assert_eq!(select_format(FormatTag::I16), Some(NativeFormat::I16));
    assert_eq!(select_format(FormatTag::U16), Some(NativeFormat::U16));
    assert_eq!(select_format(FormatTag::I32), None);
    assert_eq!(select_format(FormatTag::F64), None);
    assert_eq!(select_format(FormatTag::U8), None);
}

#[test]
fn bridge_goes_quiet_after_failed_send() {
    let mut b = CaptureBridge::new();
    assert!(b.on_callback(true, 480));
    assert!(!b.on_callback(false, 480));
    assert!(b.on_send_failed());
    assert!(!b.on_send_failed());
    assert!(!b.on_callback(true, 480));
    assert_eq!(b.callback_count(), 3);
    assert_eq!(b.total_samples(), 1440);
}

#[test]
fn pcm_bytes_are_little_endian() {
    assert_eq!(pcm16_le_bytes(&vec![-1, 256, 1]), vec![255, 255, 0, 1, 1, 0]);
    assert_eq!(pcm16_le_bytes(&vec![i16::MIN]), vec![0, 128]);
}

#[test]
fn audio_chunk_encoding() {
    assert_eq!(encode_audio_chunk(&vec![1, 2]), "AQACAA==");
    assert_eq!(encode_audio_chunk(&vec![]), "");
}

#[test]
fn chunk_buffer_forwards_long_chunks() {
    let mut b = ChunkBuffer::new();
    assert_eq!(b.process_audio_chunk(&vec![0; 100]), None);
    let r = b.process_audio_chunk(&vec![0; 1024]);
    assert_eq!(r, Some("A".repeat(2731) + "="));
    assert_eq!(b.len(), 1124);
}

#[test]
fn chunk_buffer_keeps_last_five_seconds() {
    let mut b = ChunkBuffer::new();
    for _ in 0..234 {
        b.process_audio_chunk(&vec![1; 1024]);
    }
    assert_eq!(b.len(), 239616);
    b.process_audio_chunk(&vec![2; 1024]);
    assert_eq!(b.len(), 120000);
}

#[test]
fn capture_start_and_stop() {
    let mut c = AudioCaptureService::new();
    assert!(!c.is_recording());
    assert_eq!(c.start_capture(Err(AudioCaptureError::NoInputDevice)), Err(AudioCaptureError::NoInputDevice));
    assert!(!c.is_recording());
    assert_eq!(c.start_capture(Ok(())), Ok(()));
    assert!(c.is_recording());
    assert_eq!(c.start_capture(Err(AudioCaptureError::NoInputDevice)), Ok(()));
    assert_eq!(c.stop_capture(), Ok(()));
    assert!(!c.is_recording());
    assert_eq!(c.stop_capture(), Ok(()));
}

#[test]
fn capture_error_messages() {
    assert_eq!(AudioCaptureError::NoInputDevice.message(), "No input device available");
    assert_eq!(AudioCaptureError::DeviceConfigError("c".to_string()).message(), "Device config error: c");
    assert_eq!(AudioCaptureError::StreamBuildError("b".to_string()).message(), "Stream build error: b");
    assert_eq!(AudioCaptureError::StreamPlayError("p".to_string()).message(), "Stream play error: p");
    assert_eq!(AudioCaptureError::OpenAIError("o".to_string()).message(), "OpenAI error: o");
}

#[test]
fn routing_passthrough_is_identity() {
    let mut blocks: Framer<i16> = Framer::new();
    let mono: Vec<i16> = vec![5, -3, 9, 0, 32767];
    match route_samples(&plan_resampling(16000), &mut blocks, mono.clone()) {
        RateStage::Ready(out) => assert_eq!(out, mono),
        RateStage::Blocks(_) => panic!("passthrough expected"),
    }
    assert_eq!(blocks.pending_len(), 0);
}

#[test]
fn routing_resampled_input_in_blocks() {
    let mut blocks: Framer<i16> = Framer::new();
    let mono: Vec<i16> = (0..1200).map(|i| i as i16).collect();
    match route_samples(&plan_resampling(48000), &mut blocks, mono.clone()) {
        RateStage::Blocks(b) => {
            assert_eq!(b.len(), 2);
            assert_eq!(b[0][..], mono[..512]);
            assert_eq!(b[1][..], mono[512..1024]);
        }
        RateStage::Ready(_) => panic!("blocks expected"),
    }
    assert_eq!(blocks.pending_len(), 176);
}

#[test]
fn callback_path_ignores_slow_consumer() {
    let (tx, rx) = std::sync::mpsc::channel::<Vec<i16>>();
    let mut bridge = CaptureBridge::new();
    let mut framer: Framer<i16> = Framer::new();
    let data: Vec<i16> = (0..960).map(|i| (i % 300) as i16).collect();
    let mut worst = std::time::Duration::ZERO;
    for _ in 0..2000 {
        let started = std::time::Instant::now();
        if bridge.on_callback(true, data.len()) {
            let mono = downmix(&data, 2);
            for frame in framer.push(&mono) {
                if tx.send(frame).is_err() {
                    bridge.on_send_failed();
                }
            }
        }
        worst = worst.max(started.elapsed());
    }
    assert!(worst < std::time::Duration::from_millis(50));
    assert_eq!(rx.try_iter().count(), 2000 * 480 / 512);
}
