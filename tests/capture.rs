use std::sync::{Arc, Mutex};
use volp_raspberrypi::error::PipelineError;
use volp_raspberrypi::sink::{AudioFormat, CaptureBuffer};

fn le_samples(bytes: &[u8]) -> Vec<i16> {
    bytes.chunks(2).map(|c| i16::from_le_bytes([c[0], c[1]])).collect()
}

#[test]
fn recorder_format_is_mono_44100() {
    let f = AudioFormat::recorder();
    assert_eq!(f.channels, 1);
    assert_eq!(f.sample_rate, 44100);
}

#[test]
fn unstorable_formats_are_rejected() {
    assert_eq!(AudioFormat::new(0, 44100), Err(PipelineError::FormatRejected));
    assert_eq!(AudioFormat::new(1, 0), Err(PipelineError::FormatRejected));
    assert_eq!(AudioFormat::new(2, u32::MAX), Err(PipelineError::FormatRejected));
    assert_eq!(AudioFormat::new(2, 48000), Ok(AudioFormat { channels: 2, sample_rate: 48000 }));
}

#[test]
fn finalize_produces_a_pcm_container() {
    let mut buf = CaptureBuffer::new(AudioFormat::recorder());
    buf.write(&[1, -2, 300]);
    buf.write_i32(&[65536 * 7, -65536]);
    let bytes = buf.finalize().unwrap();
    assert_eq!(bytes.len(), 44 + 2 * 5);
    assert_eq!(&bytes[0..4], b"RIFF");
    assert_eq!(&bytes[8..12], b"WAVE");
    assert_eq!(&bytes[36..40], b"data");
    assert_eq!(u32::from_le_bytes([bytes[40], bytes[41], bytes[42], bytes[43]]), 10);
    assert_eq!(u32::from_le_bytes([bytes[4], bytes[5], bytes[6], bytes[7]]), 36 + 10);
    assert_eq!(&bytes[12..16], b"fmt ");
    assert_eq!(u32::from_le_bytes([bytes[16], bytes[17], bytes[18], bytes[19]]), 16);
    assert_eq!(u16::from_le_bytes([bytes[20], bytes[21]]), 1);
    assert_eq!(u16::from_le_bytes([bytes[22], bytes[23]]), 1);
    assert_eq!(u32::from_le_bytes([bytes[24], bytes[25], bytes[26], bytes[27]]), 44100);
    assert_eq!(u32::from_le_bytes([bytes[28], bytes[29], bytes[30], bytes[31]]), 88200);
    assert_eq!(u16::from_le_bytes([bytes[32], bytes[33]]), 2);
    assert_eq!(u16::from_le_bytes([bytes[34], bytes[35]]), 16);
    assert_eq!(le_samples(&bytes[44..]), vec![1, -2, 300, 7, -1]);
}

#[test]
fn stereo_container_records_both_channels() {
    let mut buf = CaptureBuffer::new(AudioFormat::new(2, 48000).unwrap());
    buf.write(&[-1, 1, i16::MIN, i16::MAX]);
    let bytes = buf.finalize().unwrap();
    assert_eq!(bytes.len(), 44 + 8);
    assert_eq!(u16::from_le_bytes([bytes[22], bytes[23]]), 2);
    assert_eq!(u32::from_le_bytes([bytes[28], bytes[29], bytes[30], bytes[31]]), 192000);
    assert_eq!(u16::from_le_bytes([bytes[32], bytes[33]]), 4);
    assert_eq!(&bytes[44..], &[0xff, 0xff, 0x01, 0x00, 0x00, 0x80, 0xff, 0x7f]);
}

#[test]
fn empty_capture_is_a_bare_header() {
    let mut buf = CaptureBuffer::new(AudioFormat::recorder());
    let bytes = buf.finalize().unwrap();
    assert_eq!(bytes.len(), 44);
}

#[test]
fn writes_after_finalize_change_nothing() {
    let mut buf = CaptureBuffer::new(AudioFormat::recorder());
    buf.write(&[5, 6]);
    let first = buf.finalize().unwrap();
    buf.write(&[7, 8, 9]);
    buf.write_i32(&[65536]);
    assert!(buf.is_finalized());
    assert_eq!(buf.sample_count(), 2);
    assert_eq!(buf.finalize(), Err(PipelineError::AlreadyFinalized));
    assert_eq!(le_samples(&first[44..]), vec![5, 6]);
}

#[test]
fn unfinished_channel_group_fails_to_finalize() {
    let mut buf = CaptureBuffer::new(AudioFormat::new(2, 44100).unwrap());
    buf.write(&[1, 2, 3]);
    assert_eq!(buf.finalize(), Err(PipelineError::IoFailure));
    assert!(buf.is_finalized());
}

#[test]
fn contended_writes_keep_whole_frames() {
    let shared = Arc::new(Mutex::new(CaptureBuffer::new(AudioFormat::recorder())));
    let producers: Vec<Vec<i16>> = (0..6).map(|p| vec![p as i16 * 10; 4]).collect();
    for (i, frame) in producers.iter().enumerate() {
        if i == 3 {
            // the finalizer holds the lock: a producer that cannot take it drops its frame
            let held = shared.lock().unwrap();
            assert!(shared.try_lock().is_err());
            drop(held);
            continue;
        }
        if let Ok(mut guard) = shared.try_lock() {
            guard.write(frame);
        }
    }
    let bytes = shared.lock().unwrap().finalize().unwrap();
    if let Ok(mut guard) = shared.try_lock() {
        guard.write(&[99; 4]);
    }
    let samples = le_samples(&bytes[44..]);
    assert_eq!(samples.len() % 4, 0);
    for chunk in samples.chunks(4) {
        assert!(chunk.iter().all(|s| *s == chunk[0]));
    }
    assert_eq!(samples, [vec![0; 4], vec![10; 4], vec![20; 4], vec![40; 4], vec![50; 4]].concat());
    assert_eq!(shared.lock().unwrap().sample_count(), 20);
}
