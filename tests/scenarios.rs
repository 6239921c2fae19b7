use std::cell::Cell;
use std::rc::Rc;

use crave_engine::{
    commit_mixed, on_end_check, on_input, output_callback, parse_input_line, AudioBufferConfig, AudioClip, AudioProducer, DecodeErrorKind,
    Decoder, DecoderError, InputCommand, PlayerCommand, ProducerStatus, RefillNext, SampleRing, TransportState,
};

const RATE: u32 = 44100;

/// An interleaved stereo source held in memory, decoded in fixed blocks.
struct MemorySource {
    samples: Vec<u32>,
    pos: usize,
    block: usize,
    sought: Rc<Cell<Option<u64>>>,
}

impl MemorySource {
    fn new(samples: Vec<u32>, block: usize) -> Self {
        MemorySource { samples, pos: 0, block, sought: Rc::new(Cell::new(None)) }
    }
}

impl Decoder for MemorySource {
    fn sought_ms(&self) -> Option<u64> {
        self.sought.get()
    }

    fn decode(&mut self) -> Result<Vec<u32>, DecoderError> {
        if self.pos >= self.samples.len() {
            return Err(DecoderError { kind: DecodeErrorKind::EndOfStream });
        }
        let end = (self.pos + self.block).min(self.samples.len());
        let out = self.samples[self.pos..end].to_vec();
        self.pos = end;
        Ok(out)
    }

    fn seek(&mut self, to_ms: u64) -> Result<(), DecoderError> {
        self.sought.set(Some(to_ms));
        self.pos = (to_ms as usize * RATE as usize / 1000) * 2;
        Ok(())
    }
}

fn mix_f32(a: u32, b: u32) -> u32 {
    (f32::from_bits(a) + f32::from_bits(b) / 2.0).to_bits()
}

/// One refill phase, as the worker runs it.
fn refill(producer: &mut AudioProducer<MemorySource>, ring: &mut SampleRing, log: &mut Vec<ProducerStatus>) -> RefillNext {
    loop {
        if let Some(status) = producer.check_room(ring) {
            log.push(status);
            return RefillNext::AwaitRequest;
        }
        let mixed = producer.decode_and_mix(&mix_f32);
        let (status, next) = commit_mixed(ring, mixed);
        if let Some(status) = status {
            log.push(status);
        }
        if next != RefillNext::KeepFilling {
            return next;
        }
    }
}

fn source_of(seconds: usize) -> Vec<u32> {
    (0..seconds * RATE as usize * 2).map(|i| i as u32 + 1).collect()
}

fn producer_for(samples: Vec<u32>, start: Option<u64>) -> AudioProducer<MemorySource> {
    let clip = match AudioClip::new(MemorySource::new(samples, 2304), start, None) {
        Ok(c) => c,
        Err(_) => panic!("clip refused"),
    };
    AudioProducer::new(vec![clip], AudioBufferConfig::default())
}

#[test]
fn single_clip_playback() {
    let source = source_of(32);
    let config = AudioBufferConfig::default();
    let mut producer = producer_for(source.clone(), Some(0));
    let mut ring = config.create_ring_buffer();
    let mut log = Vec::new();
    refill(&mut producer, &mut ring, &mut log);
    assert_eq!(log.last(), Some(&ProducerStatus::BufferFull));
    let mut written = Vec::new();
    for _ in 0..200 {
        let mut data = vec![0u32; 441];
        let report = output_callback(false, &mut ring, &mut data, config.tolerance, false);
        assert!(!report.underrun);
        if report.request_data {
            refill(&mut producer, &mut ring, &mut log);
        }
        written.extend_from_slice(&data);
    }
    assert_eq!(written.len(), 88_200);
    for (k, &v) in written.iter().enumerate() {
        assert_eq!(v, source[2 * k + 1]);
    }
    assert!(!log.contains(&ProducerStatus::BufferUnderrun));
}

#[test]
fn mix_two_identical_clips() {
    let src: Vec<f32> = (0..4608).map(|i| ((i % 200) as f32 / 100.0) - 1.0).collect();
    let bits: Vec<u32> = src.iter().map(|s| s.to_bits()).collect();
    let clips = vec![
        AudioClip::new(MemorySource::new(bits.clone(), 2304), None, None).ok().unwrap(),
        AudioClip::new(MemorySource::new(bits.clone(), 2304), None, None).ok().unwrap(),
    ];
    let mut producer = AudioProducer::new(clips, AudioBufferConfig::default());
    let block = producer.decode_and_mix(&mix_f32).unwrap();
    assert_eq!(block.len(), 2304);
    for (i, &m) in block.iter().enumerate() {
        let v = f32::from_bits(m);
        assert_eq!(v, src[i] + src[i] / 2.0);
        assert!((-1.5..=1.5).contains(&v));
    }
}

#[test]
fn start_offset_skips_to_position() {
    let source = source_of(31);
    let config = AudioBufferConfig::default();
    let clip_source = MemorySource::new(source.clone(), 2304);
    let sought = clip_source.sought.clone();
    let clip = AudioClip::new(clip_source, Some(30_000), None).ok().unwrap();
    assert_eq!(sought.get(), Some(30_000));
    let mut producer = AudioProducer::new(vec![clip], config);
    let mut ring = config.create_ring_buffer();
    let mut log = Vec::new();
    refill(&mut producer, &mut ring, &mut log);
    let mut data = vec![0u32; 64];
    output_callback(false, &mut ring, &mut data, config.tolerance, false);
    let start = 30 * RATE as usize * 2;
    assert_ne!(data[0], 0);
    assert_eq!(data[0], source[start + 1]);
}

#[test]
fn pause_then_resume_skips_nothing() {
    let mut ring = SampleRing::new(1024);
    let samples: Vec<u32> = (1..=200).collect();
    ring.push_slice(&samples);
    let mut data = vec![0u32; 4];
    output_callback(false, &mut ring, &mut data, 0, false);
    assert_eq!(data, vec![2, 4, 6, 8]);
    let mut transport = TransportState::initial().apply(PlayerCommand::Pause);
    for _ in 0..10 {
        let mut data = vec![5u32; 4];
        output_callback(transport.is_paused(), &mut ring, &mut data, 0, false);
        assert_eq!(data, vec![0, 0, 0, 0]);
    }
    transport = transport.apply(PlayerCommand::Play);
    output_callback(transport.is_paused(), &mut ring, &mut data, 0, false);
    assert_eq!(data, vec![10, 12, 14, 16]);
}

#[test]
fn underrun_writes_silence_and_is_reported() {
    let mut ring = SampleRing::new(64);
    ring.push_slice(&[1, 2, 3, 4]);
    let mut data = vec![9u32; 5];
    let report = output_callback(false, &mut ring, &mut data, 32, false);
    assert_eq!(data, vec![2, 4, 0, 0, 0]);
    assert!(report.underrun);
    assert!(report.request_data);
}

#[test]
fn short_clip_ends_cleanly() {
    let source: Vec<u32> = (1..=3000).collect();
    let config = AudioBufferConfig::default();
    let mut producer = producer_for(source, None);
    let mut ring = config.create_ring_buffer();
    let mut log = Vec::new();
    assert_eq!(refill(&mut producer, &mut ring, &mut log), RefillNext::AwaitRequest);
    assert_eq!(
        log,
        vec![ProducerStatus::BufferRecharge, ProducerStatus::BufferRecharge, ProducerStatus::DecodingDone]
    );
    let mut data = vec![0u32; 1500];
    output_callback(false, &mut ring, &mut data, config.tolerance, false);
    assert!(ring.is_empty());
    let mut ends = 0;
    if refill(&mut producer, &mut ring, &mut log) == RefillNext::Finish {
        ends += 1;
    }
    assert_eq!(ends, 1);
    assert_eq!(log.last(), Some(&ProducerStatus::DecodingDone));
    let mut after = vec![7u32; 8];
    let report = output_callback(false, &mut ring, &mut after, config.tolerance, true);
    assert_eq!(after, vec![0; 8]);
    assert!(!report.underrun);
}

#[test]
fn input_lines_are_trimmed_and_recognised() {
    assert_eq!(parse_input_line("p"), InputCommand::TogglePlayPause);
    assert_eq!(parse_input_line("  p \n"), InputCommand::TogglePlayPause);
    assert_eq!(parse_input_line("q\n"), InputCommand::Quit);
    assert_eq!(parse_input_line("\tq"), InputCommand::Quit);
    assert_eq!(parse_input_line("pq"), InputCommand::Unknown);
    assert_eq!(parse_input_line(""), InputCommand::Unknown);
    assert_eq!(parse_input_line("x"), InputCommand::Unknown);
}

#[test]
fn supervisor_forwards_toggle_and_quits() {
    let start = TransportState::initial();
    let step = on_input(start, parse_input_line(" p\n"));
    assert_eq!(step.state, TransportState::Paused);
    assert_eq!(step.command, Some(PlayerCommand::TogglePlayPause));
    assert!(step.running);
    let step = on_input(step.state, InputCommand::TogglePlayPause);
    assert_eq!(step.state, TransportState::Playing);
    let step = on_input(step.state, InputCommand::Unknown);
    assert_eq!(step.command, None);
    assert!(step.running);
    let step = on_input(step.state, parse_input_line("q"));
    assert!(!step.running);
    assert_eq!(step.command, None);
}

#[test]
fn supervisor_exits_at_end_of_stream() {
    let step = on_end_check(TransportState::Paused, false);
    assert!(step.running);
    assert_eq!(step.state, TransportState::Paused);
    let step = on_end_check(TransportState::Paused, true);
    assert!(!step.running);
    assert_eq!(step.state, TransportState::Ended);
}
