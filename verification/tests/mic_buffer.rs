use renarrator::mic_buffer::{MicPassthroughSource, MicRingBuffer, MAX_BUFFERED_SAMPLES, SILENCE};

fn bits(samples: &[f32]) -> Vec<u32> {
    samples.iter().map(|s| s.to_bits()).collect()
}

fn pop(ring: &mut MicRingBuffer) -> f32 {
    f32::from_bits(ring.pop_sample())
}

#[test]
fn mic_ring_buffer_returns_silence_when_empty() {
    let mut ring = MicRingBuffer::new();
    assert_eq!(pop(&mut ring), 0.0);
    assert_eq!(f32::from_bits(SILENCE), 0.0);
}

#[test]
fn mic_ring_buffer_is_fifo_and_capped() {
    let mut ring = MicRingBuffer::new();
    let samples: Vec<f32> = (0..=100_000).map(|i| i as f32).collect();
    ring.push_samples(&bits(&samples));
    assert_eq!(pop(&mut ring), 4_001.0);
    assert_eq!(pop(&mut ring), 4_002.0);
    for _ in 0..95_997 {
        ring.pop_sample();
    }
    assert_eq!(pop(&mut ring), 100_000.0);
    assert_eq!(pop(&mut ring), 0.0);
}

#[test]
fn mic_passthrough_source_never_ends() {
    let mut ring = MicRingBuffer::new();
    ring.push_samples(&bits(&[0.25, -0.5]));
    let source = MicPassthroughSource::new(1, 1);
    assert_eq!(source.next(&mut ring).map(f32::from_bits), Some(0.25));
    assert_eq!(source.next(&mut ring).map(f32::from_bits), Some(-0.5));
    for _ in 0..100 {
        assert_eq!(source.next(&mut ring).map(f32::from_bits), Some(0.0));
    }
    assert_eq!(source.channels(), 1);
    assert_eq!(source.sample_rate(), 1);
    assert_eq!(source.current_span_len(), None);
    assert_eq!(source.total_duration(), None);
}

#[test]
fn pushing_in_pieces_is_pushing_at_once() {
    let samples: Vec<u32> = (0..(MAX_BUFFERED_SAMPLES as u32 + 500)).collect();
    let mut whole = MicRingBuffer::new();
    whole.push_samples(&samples);
    let mut pieces = MicRingBuffer::new();
    for piece in samples.chunks(777) {
        pieces.push_samples(piece);
    }
    for _ in 0..=MAX_BUFFERED_SAMPLES {
        assert_eq!(whole.pop_sample(), pieces.pop_sample());
    }
}

#[test]
fn full_buffer_keeps_exactly_the_bound() {
    let mut ring = MicRingBuffer::new();
    ring.push_samples(&vec![1; MAX_BUFFERED_SAMPLES]);
    ring.push_samples(&[2]);
    for _ in 0..MAX_BUFFERED_SAMPLES - 1 {
        assert_eq!(ring.pop_sample(), 1);
    }
    assert_eq!(ring.pop_sample(), 2);
    assert_eq!(ring.pop_sample(), SILENCE);
}

#[test]
fn device_format_is_kept_and_zero_becomes_one() {
    let stereo = MicPassthroughSource::new(2, 48_000);
    assert_eq!((stereo.channels(), stereo.sample_rate()), (2, 48_000));
    let broken = MicPassthroughSource::new(0, 0);
    assert_eq!((broken.channels(), broken.sample_rate()), (1, 1));
}
