use audio_out::engine::SampleOffsetEvent;
use audio_out::AudioOutput;
use audio_out::engine::VolumeControlEvent;
use audio_out::signal::Channel;
use audio_out::signal::ChannelLayout;
use audio_out::signal::DecodedBuffer;
use audio_out::signal::SignalSpec;
use audio_out::sim::SimulatedStream;

fn spec_with(rate: u32, roles: Vec<Channel>) -> SignalSpec {
    SignalSpec { rate, channels: ChannelLayout { roles } }
}

fn stereo_spec(rate: u32) -> SignalSpec {
    spec_with(rate, vec![Channel::FrontLeft, Channel::FrontRight])
}

fn mono_spec(rate: u32) -> SignalSpec {
    spec_with(rate, vec![Channel::FrontLeft])
}

fn unity_volume() -> VolumeControlEvent {
    VolumeControlEvent { volume: Some(1000) }
}

#[test]
fn zero_frame_write_changes_nothing() {
    let spec = stereo_spec(48000);
    let mut s = SimulatedStream::try_open(&spec, 1024).expect("open");
    let empty = DecodedBuffer::<i16> { planes: vec![Vec::new(), Vec::new()] };
    let before_len = s.ring.len();
    let before_offset = s.state.offset;
    assert!(s.write(&empty).is_ok());
    assert_eq!(s.ring.len(), before_len);
    assert_eq!(s.state.offset, before_offset);
}

#[test]
fn facade_trait_writes_and_flushes() {
    let spec = mono_spec(8000);
    let mut s = SimulatedStream::try_open(&spec, 16).expect("open");
    s.send_volume(unity_volume());
    let block = DecodedBuffer::<i16> { planes: vec![vec![5, 6]] };
    assert!(AudioOutput::write(&mut s, &block).is_ok());
    let empty = DecodedBuffer::<i16> { planes: vec![Vec::new()] };
    assert!(AudioOutput::write(&mut s, &empty).is_ok());
    AudioOutput::flush(&mut s);
    let (out, _) = s.callback(2);
    assert_eq!(out, vec![5, 6]);
}

#[test]
fn underrun_fills_with_silence_and_still_advances_clock() {
    let spec = stereo_spec(48000);
    let mut s = SimulatedStream::try_open(&spec, 1024).expect("open");
    let (out, notify) = s.callback(100);
    assert_eq!(out.len(), 100);
    assert!(out.iter().all(|&v| v == 0i16));
    assert_eq!(s.state.offset, 100);
    assert!(notify.is_none());
}

#[test]
fn partial_underrun_mutes_exactly_the_tail() {
    let spec = mono_spec(8000);
    let mut s = SimulatedStream::try_open(&spec, 1024).expect("open");
    s.send_volume(unity_volume());
    let block = DecodedBuffer::<i16> { planes: vec![vec![7, -7, 9]] };
    assert!(s.write(&block).is_ok());
    let (out, _) = s.callback(5);
    assert_eq!(out, vec![7, -7, 9, 0, 0]);
    assert_eq!(s.state.offset, 5);
}

#[test]
fn end_to_end_stereo_second_in_fifty_chunks() {
    // One second at 48000 Hz stereo, written as 50 blocks of 960 frames,
    // drained by a simulated device asking 1920 samples per period.
    let spec = stereo_spec(48000);
    let mut s = SimulatedStream::try_open(&spec, 960).expect("open");
    // 200 ms of 48000 Hz stereo audio.
    assert_eq!(s.ring.capacity(), 19200);
    s.send_volume(unity_volume());

    let mut expected: Vec<i16> = Vec::new();
    let mut delivered: Vec<i16> = Vec::new();
    let mut notifications: Vec<u64> = Vec::new();

    for chunk in 0..50u32 {
        let mut left = Vec::new();
        let mut right = Vec::new();
        for f in 0..960u32 {
            let t = (chunk * 960 + f) as i64;
            let l = ((t * 37) % 1000) as i16;
            let r = -(((t * 11) % 1000) as i16);
            left.push(l);
            right.push(r);
            expected.push(l);
            expected.push(r);
        }
        let block = DecodedBuffer::<i16> { planes: vec![left, right] };
        assert!(s.write(&block).is_ok());
        let (out, notify) = s.callback(1920);
        delivered.extend_from_slice(&out);
        if let Some(secs) = notify {
            notifications.push(secs);
        }
    }

    // The sink received every sample, in original interleaved order.
    assert_eq!(delivered.len(), 96000);
    assert_eq!(delivered, expected);
    assert_eq!(s.ring.len(), 0);
    // Exactly one whole second elapsed: one edge-triggered notification.
    assert_eq!(notifications, vec![1]);
    assert_eq!(s.state.offset, 96000);
}

#[test]
fn repeated_equal_volume_events_give_bit_identical_output() {
    let spec = mono_spec(8000);
    let mut once = SimulatedStream::try_open(&spec, 64).expect("open");
    let mut repeated = SimulatedStream::try_open(&spec, 64).expect("open");

    once.send_volume(VolumeControlEvent { volume: Some(700) });
    let mut out_once: Vec<i16> = Vec::new();
    let mut out_repeated: Vec<i16> = Vec::new();
    for round in 0..10i16 {
        let samples: Vec<i16> = (0..64).map(|i| (round * 64 + i) - 320).collect();
        let block = DecodedBuffer::<i16> { planes: vec![samples.clone()] };
        let block2 = DecodedBuffer::<i16> { planes: vec![samples] };

        assert!(once.write(&block).is_ok());
        let (a, _) = once.callback(64);
        out_once.extend_from_slice(&a);

        // The same gain is requested again before every period.
        repeated.send_volume(VolumeControlEvent { volume: Some(700) });
        assert!(repeated.write(&block2).is_ok());
        let (b, _) = repeated.callback(64);
        out_repeated.extend_from_slice(&b);
    }
    assert_eq!(out_once, out_repeated);
}

#[test]
fn later_volume_event_supersedes_earlier_pending_one() {
    let spec = mono_spec(8000);
    let mut s = SimulatedStream::try_open(&spec, 16).expect("open");
    s.send_volume(VolumeControlEvent { volume: Some(100) });
    s.send_volume(unity_volume());
    let block = DecodedBuffer::<i16> { planes: vec![vec![100, -100]] };
    assert!(s.write(&block).is_ok());
    let (out, _) = s.callback(2);
    // Last writer wins: the unity gain, not the tenth.
    assert_eq!(out, vec![100, -100]);
}

#[test]
fn volume_event_without_value_is_ignored() {
    let spec = mono_spec(8000);
    let mut s = SimulatedStream::try_open(&spec, 16).expect("open");
    s.send_volume(unity_volume());
    s.send_volume(VolumeControlEvent { volume: None });
    let block = DecodedBuffer::<i16> { planes: vec![vec![50]] };
    assert!(s.write(&block).is_ok());
    let (out, _) = s.callback(1);
    assert_eq!(out, vec![50]);
}

#[test]
fn one_notification_per_second_with_strictly_increasing_values() {
    // 44100 samples/second mono, continuous feed: exactly one notification
    // per 44100 samples advanced, each a strictly larger second.
    let spec = mono_spec(44100);
    let mut s = SimulatedStream::try_open(&spec, 441).expect("open");
    let mut notifications: Vec<u64> = Vec::new();
    for round in 0..300u32 {
        let base = (round * 441) as i64;
        let samples: Vec<i16> = (0..441).map(|i| ((base + i) % 97) as i16).collect();
        let block = DecodedBuffer::<i16> { planes: vec![samples] };
        assert!(s.write(&block).is_ok());
        let (_, notify) = s.callback(441);
        if let Some(secs) = notify {
            notifications.push(secs);
        }
    }
    // 300 * 441 = 132300 samples = exactly 3 whole seconds.
    assert_eq!(notifications, vec![1, 2, 3]);
    for w in notifications.windows(2) {
        assert!(w[0] < w[1]);
    }
}

#[test]
fn seek_recomputes_elapsed_from_the_override() {
    let spec = mono_spec(44100);
    let mut s = SimulatedStream::try_open(&spec, 441).expect("open");
    // Play a little, far from any second boundary.
    let block = DecodedBuffer::<i16> { planes: vec![vec![1; 441]] };
    assert!(s.write(&block).is_ok());
    let (_, notify) = s.callback(441);
    assert!(notify.is_none());
    // Seek to ten seconds; the next period reports time from the override,
    // not from the pre-seek trajectory.
    s.send_offset(SampleOffsetEvent { sample_offset: Some(441000) });
    let block = DecodedBuffer::<i16> { planes: vec![vec![2; 441]] };
    assert!(s.write(&block).is_ok());
    let (_, notify) = s.callback(441);
    assert_eq!(notify, Some(10));
    assert_eq!(s.state.offset, 441441);
}

#[test]
fn blocking_write_larger_than_the_window_loses_nothing() {
    let spec = mono_spec(100);  // a 20-sample latency window
    let mut s = SimulatedStream::try_open(&spec, 64).expect("open");
    assert_eq!(s.ring.capacity(), 20);
    s.send_volume(unity_volume());
    // Consume the pending gain so the blocking write runs at unity.
    let _ = s.callback(0);

    let samples: Vec<i16> = (0..50).map(|i| (i * 3 - 75) as i16).collect();
    let mut delivered = s.write_blocking(&samples, 7);
    // The write completed even though the block was larger than the whole
    // window; finish draining what is still pending.
    while s.ring.len() > 0 {
        let n = s.ring.len().min(7);
        let (out, _) = s.callback(n);
        delivered.extend_from_slice(&out);
    }
    assert_eq!(delivered, samples);
}

#[test]
fn oversized_write_completes_through_backpressure_without_loss() {
    // A 100 Hz mono stream has a 20-sample latency window; a 50-sample
    // write is larger than the whole ring and must proceed in rounds as a
    // fake consumer drains at its own rate.
    let spec = mono_spec(100);
    let mut s = SimulatedStream::try_open(&spec, 64).expect("open");
    assert_eq!(s.ring.capacity(), 20);
    s.send_volume(unity_volume());

    let samples: Vec<i16> = (0..50).map(|i| (i * 3 - 75) as i16).collect();
    let mut delivered: Vec<i16> = Vec::new();
    let mut start: usize = 0;
    let mut rounds = 0;
    while start < samples.len() {
        // The producer offers the rest; only what fits is accepted.
        let accepted = s.write_chunk(&samples, start);
        start += accepted;
        // The fake consumer drains at its own, slower rate; asking only for
        // what is pending keeps silence out of the comparison.
        let n = s.ring.len().min(7);
        let (out, _) = s.callback(n);
        delivered.extend_from_slice(&out);
        rounds += 1;
        assert!(rounds < 100, "backpressure loop must make progress");
    }
    // Drain what is still pending.
    while s.ring.len() > 0 {
        let n = s.ring.len().min(7);
        let (out, _) = s.callback(n);
        delivered.extend_from_slice(&out);
    }
    assert_eq!(delivered.len(), 50);
    assert_eq!(delivered, samples);
}
