use audio_out::engine::SampleOffsetEvent;
use audio_out::engine::VolumeControlEvent;
use audio_out::output::run_callback;
use audio_out::output::try_open;
use audio_out::output::CpalAudioOutput;
use audio_out::output::CpalAudioOutputImpl;
use audio_out::output::PulseAudioOutput;
use audio_out::output::SampleFormat;
use audio_out::signal::Channel;
use audio_out::signal::ChannelLayout;
use audio_out::signal::DecodedBuffer;
use audio_out::signal::SignalSpec;
use audio_out::AudioOutputError;

fn stereo_spec(rate: u32) -> SignalSpec {
    SignalSpec {
        rate,
        channels: ChannelLayout { roles: vec![Channel::FrontLeft, Channel::FrontRight] },
    }
}

fn control_channels() -> (
    std::sync::mpsc::Sender<VolumeControlEvent>,
    tokio::sync::Mutex<std::sync::mpsc::Receiver<VolumeControlEvent>>,
    std::sync::mpsc::Sender<SampleOffsetEvent>,
    tokio::sync::Mutex<std::sync::mpsc::Receiver<SampleOffsetEvent>>,
) {
    let (vtx, vrx) = std::sync::mpsc::channel();
    let (otx, orx) = std::sync::mpsc::channel();
    (vtx, tokio::sync::Mutex::new(vrx), otx, tokio::sync::Mutex::new(orx))
}

#[test]
fn shared_ring_delivers_written_samples_to_the_callback() {
    let spec = stereo_spec(48000);
    let (mut backend, consumer, mut state) =
        CpalAudioOutputImpl::try_open(&spec, 960, None).expect("open");
    assert!(!backend.needs_resampler);
    assert_eq!(state.samples_per_sec, 96000);

    let block = DecodedBuffer::<i16> { planes: vec![vec![1, 2, 3], vec![4, 5, 6]] };
    assert!(backend.write(&block).is_ok());

    let (vtx, vol, _otx, off) = control_channels();
    vtx.send(VolumeControlEvent { volume: Some(1000) }).expect("send");
    let mut data = vec![0i16; 6];
    let notify = run_callback(&mut state, &consumer, &vol, &off, &mut data);
    assert_eq!(data, vec![1, 4, 2, 5, 3, 6]);
    assert_eq!(state.offset, 6);
    assert!(notify.is_none());
}

#[test]
fn callback_on_empty_ring_emits_silence() {
    let spec = stereo_spec(48000);
    let (_backend, consumer, mut state) =
        CpalAudioOutputImpl::try_open(&spec, 960, None).expect("open");
    let (_vtx, vol, _otx, off) = control_channels();
    let mut data = vec![99i16; 4];
    let _ = run_callback(&mut state, &consumer, &vol, &off, &mut data);
    assert_eq!(data, vec![0, 0, 0, 0]);
    assert_eq!(state.offset, 4);
}

#[test]
fn default_gain_halves_samples_on_the_real_path() {
    let spec = stereo_spec(48000);
    let (mut backend, consumer, mut state) =
        CpalAudioOutputImpl::try_open(&spec, 960, None).expect("open");
    assert!(backend.write_interleaved(&vec![9i16, 8, -9, 100]).is_ok());
    let (_vtx, vol, _otx, off) = control_channels();
    let mut data = vec![0i16; 4];
    let _ = run_callback(&mut state, &consumer, &vol, &off, &mut data);
    assert_eq!(data, vec![4, 4, -4, 50]);
}

#[test]
fn seek_event_reaches_the_clock_through_the_real_channels() {
    let spec = stereo_spec(48000);
    let (_backend, consumer, mut state) =
        CpalAudioOutputImpl::try_open(&spec, 960, None).expect("open");
    let (_vtx, vol, otx, off) = control_channels();
    otx.send(SampleOffsetEvent { sample_offset: Some(96000) }).expect("send");
    let mut data = Vec::new();
    let notify = run_callback(&mut state, &consumer, &vol, &off, &mut data);
    assert_eq!(state.offset, 96000);
    assert_eq!(notify, Some(1));
}

#[test]
fn flush_drains_resampler_remainder_into_the_ring() {
    let spec = stereo_spec(48000);
    let (mut backend, consumer, mut state) =
        CpalAudioOutputImpl::try_open(&spec, 960, None).expect("open");
    assert!(backend.flush(&vec![10i16, 20]).is_ok());
    let (vtx, vol, _otx, off) = control_channels();
    vtx.send(VolumeControlEvent { volume: Some(1000) }).expect("send");
    let mut data = vec![0i16; 2];
    let _ = run_callback(&mut state, &consumer, &vol, &off, &mut data);
    assert_eq!(data, vec![10, 20]);
}

#[test]
fn unsupported_device_format_falls_back_to_float() {
    assert_eq!(CpalAudioOutput::select_output_format(SampleFormat::Other), SampleFormat::F32);
    assert_eq!(CpalAudioOutput::select_output_format(SampleFormat::I16), SampleFormat::I16);
    assert_eq!(CpalAudioOutput::select_output_format(SampleFormat::U16), SampleFormat::U16);
    assert_eq!(CpalAudioOutput::select_output_format(SampleFormat::F32), SampleFormat::F32);
}

#[test]
fn blocking_backend_refuses_unmappable_channel_role() {
    let spec = SignalSpec {
        rate: 44100,
        channels: ChannelLayout {
            roles: vec![Channel::FrontLeft, Channel::FrontRight, Channel::RearLeftCentre],
        },
    };
    match PulseAudioOutput::try_open(&spec, 512) {
        Err(AudioOutputError::OpenStreamError) => {},
        other => panic!("expected OpenStreamError, got {:?}", other.map(|_| ())),
    }
}

#[test]
fn blocking_backend_opens_and_interleaves() {
    let spec = stereo_spec(44100);
    let mut out = try_open(&spec, 512).expect("open");
    assert_eq!(out.rate, 44100);
    let block = DecodedBuffer::<i16> { planes: vec![vec![1, 2], vec![3, 4]] };
    let samples = out.write(&block).expect("write");
    assert_eq!(samples, vec![1, 3, 2, 4]);
    let empty = DecodedBuffer::<i16> { planes: vec![Vec::new(), Vec::new()] };
    let none = out.write(&empty).expect("zero-frame write succeeds");
    assert!(none.is_empty());
    out.flush();
}
