use lfs_stt::accumulator::{Accumulator, AccumulatorAction, AccumulatorEvent};
use lfs_stt::capture::AudioInputConfig;
use lfs_stt::carry::SampleCarry;
use lfs_stt::downmix::to_mono;
use lfs_stt::recording::{FlagObserver, RecordingFlag};
use lfs_stt::relay::FrameRelay;

fn average(l: f32, r: f32) -> f32 {
    (l + r) / 2.0
}

/// A stand-in for the streaming rate converter: consumes chunks of
/// `CHUNK` mono samples and emits one output sample per three input samples,
/// the 3:1 ratio of a 48000 Hz native rate against the canonical 16000 Hz.
const CHUNK: usize = 96;

fn convert_chunk(chunk: &[f32]) -> Vec<f32> {
    chunk.iter().copied().step_by(3).collect()
}

/// Native rate 48000 Hz stereo, 10 callbacks of 480 frame-pairs each, with a
/// begin before the third callback and an end after the eighth: the session
/// dispatched holds the audio of exactly 6 callbacks, 6 * 480 * 16000/48000
/// = 960 mono samples.
#[test]
fn ten_callbacks_with_one_session() {
    let config = AudioInputConfig::new(2, 48000).unwrap();
    let mut relay: FrameRelay<Vec<f32>> = FrameRelay::new(16);
    let mut carry: SampleCarry<f32> = SampleCarry::new();
    let mut acc: Accumulator<f32> = Accumulator::new(16000 * 30);
    let mut flag = RecordingFlag::new();
    let mut observer = FlagObserver::new();
    let mut sessions: Vec<Vec<f32>> = Vec::new();

    for callback in 0..10usize {
        if callback == 2 {
            flag.begin();
        }

        // The capture callback: one hardware block of 480 interleaved
        // stereo frame-pairs, handed off without blocking.
        let block: Vec<f32> = (0..960).map(|i| (callback * 960 + i) as f32).collect();
        relay.offer(block);

        // The resampler worker: drain the relay, downmix, feed the carry,
        // convert every full chunk, and let the accumulator react.
        while let Some(raw) = relay.take() {
            let mono = to_mono(raw, config.input_channels, &average).unwrap();
            assert_eq!(mono.len(), 480);
            carry.push_samples(mono);
            while let Some(chunk) = carry.take_chunk(CHUNK) {
                let resampled = convert_chunk(&chunk);
                if let Some(change) = observer.observe(&flag) {
                    acc.step(AccumulatorEvent::Recording(change));
                }
                match acc.step(AccumulatorEvent::Frame(resampled)) {
                    AccumulatorAction::Dispatch(done) => sessions.push(done),
                    AccumulatorAction::NoDispatch => {}
                }
            }
        }

        if callback == 7 {
            flag.end();
            if let Some(change) = observer.observe(&flag) {
                if let AccumulatorAction::Dispatch(done) =
                    acc.step(AccumulatorEvent::Recording(change))
                {
                    sessions.push(done);
                }
            }
        }
    }

    // Nothing pends in the carry (480 splits evenly into 96-sample chunks),
    // and exactly one session was dispatched, of exactly 960 samples.
    assert_eq!(carry.pending_len(), 0);
    assert_eq!(sessions.len(), 1);
    assert_eq!(sessions[0].len(), 960);

    // The session is the converted audio of callbacks 2..=7 (the six blocks
    // between the begin and the end), in order, and nothing else.
    let mut expected: Vec<f32> = Vec::new();
    for callback in 2..8usize {
        let block: Vec<f32> = (0..960).map(|i| (callback * 960 + i) as f32).collect();
        let mono = to_mono(block, 2, &average).unwrap();
        for chunk in mono.chunks(CHUNK) {
            expected.extend(convert_chunk(chunk));
        }
    }
    assert_eq!(sessions[0], expected);
}
