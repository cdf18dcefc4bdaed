use audio_out::clock::elapsed_seconds;
use audio_out::engine::process_output;
use audio_out::engine::CallbackState;
use audio_out::clock::samples_per_sec;
use audio_out::files::DeleteFilesEvent;
use audio_out::sample::clamp_gain;
use audio_out::sample::OutputSample;
use audio_out::signal::map_channels_to_pa_channelmap;
use audio_out::signal::Channel;
use audio_out::signal::ChannelLayout;
use audio_out::signal::PaPosition;

#[test]
fn gain_scales_i16_toward_zero() {
    assert_eq!(<i16 as OutputSample>::scaled(100, 500), 50);
    assert_eq!(<i16 as OutputSample>::scaled(-100, 500), -50);
    assert_eq!(<i16 as OutputSample>::scaled(101, 500), 50);
    assert_eq!(<i16 as OutputSample>::scaled(-101, 500), -50);
    assert_eq!(<i16 as OutputSample>::scaled(32767, 1000), 32767);
    assert_eq!(<i16 as OutputSample>::scaled(-32768, 1000), -32768);
    assert_eq!(<i16 as OutputSample>::scaled(32767, 0), 0);
    assert_eq!(<i16 as OutputSample>::mid(), 0);
}

#[test]
fn gain_scales_u16() {
    assert_eq!(<u16 as OutputSample>::scaled(1000, 500), 500);
    assert_eq!(<u16 as OutputSample>::scaled(65535, 1000), 65535);
    assert_eq!(<u16 as OutputSample>::scaled(3, 500), 1);
    assert_eq!(<u16 as OutputSample>::mid(), 32768);
}

#[test]
fn engine_drives_u16_with_offset_midpoint_silence() {
    let mut state = CallbackState::new(8000);
    let mut data: Vec<u16> = vec![40000, 20000, 1111, 2222];
    // Two samples came from the ring; the stale tail is an underrun.
    let notify = process_output(&mut data, 2, Some(1000), None, &mut state);
    assert_eq!(data, vec![40000, 20000, 32768, 32768]);
    assert_eq!(state.offset, 4);
    assert!(notify.is_none());
}

#[test]
fn engine_applies_default_gain_before_first_volume_event() {
    let mut state = CallbackState::new(8000);
    assert_eq!(state.gain, 500);
    let mut data: Vec<i16> = vec![100, -100];
    let notify = process_output(&mut data, 2, None, None, &mut state);
    assert_eq!(data, vec![50, -50]);
    assert!(notify.is_none());
}

#[test]
fn gain_requests_above_unity_are_capped() {
    assert_eq!(clamp_gain(1001), 1000);
    assert_eq!(clamp_gain(5000), 1000);
    assert_eq!(clamp_gain(1000), 1000);
    assert_eq!(clamp_gain(0), 0);
    assert_eq!(clamp_gain(250), 250);
}

#[test]
fn elapsed_seconds_is_floor_of_offset_over_time_base() {
    assert_eq!(elapsed_seconds(0, 44100), 0);
    assert_eq!(elapsed_seconds(44099, 44100), 0);
    assert_eq!(elapsed_seconds(44100, 44100), 1);
    assert_eq!(elapsed_seconds(88199, 44100), 1);
    assert_eq!(elapsed_seconds(88200, 44100), 2);
}

#[test]
fn time_base_is_rate_times_channels() {
    assert_eq!(samples_per_sec(48000, 2), 96000);
    assert_eq!(samples_per_sec(44100, 1), 44100);
}

#[test]
fn stereo_layout_maps_to_pa_positions() {
    let layout = ChannelLayout { roles: vec![Channel::FrontLeft, Channel::FrontRight] };
    let map = map_channels_to_pa_channelmap(&layout).expect("stereo must map");
    assert_eq!(map, vec![PaPosition::FrontLeft, PaPosition::FrontRight]);
}

#[test]
fn mono_front_left_maps_to_mono() {
    let layout = ChannelLayout { roles: vec![Channel::FrontLeft] };
    let map = map_channels_to_pa_channelmap(&layout).expect("mono must map");
    assert_eq!(map, vec![PaPosition::Mono]);
}

#[test]
fn surround_layout_maps_in_order() {
    let layout = ChannelLayout {
        roles: vec![
            Channel::FrontLeft,
            Channel::FrontRight,
            Channel::FrontCentre,
            Channel::Lfe1,
            Channel::RearLeft,
            Channel::RearRight,
        ],
    };
    let map = map_channels_to_pa_channelmap(&layout).expect("5.1 must map");
    assert_eq!(
        map,
        vec![
            PaPosition::FrontLeft,
            PaPosition::FrontRight,
            PaPosition::FrontCenter,
            PaPosition::Lfe,
            PaPosition::RearLeft,
            PaPosition::RearRight,
        ]
    );
}

#[test]
fn unmappable_role_refuses_whole_map() {
    let layout = ChannelLayout {
        roles: vec![Channel::FrontLeft, Channel::FrontRight, Channel::Lfe2],
    };
    assert!(map_channels_to_pa_channelmap(&layout).is_none());
}

#[test]
fn delete_files_event_keeps_paths_in_order() {
    let ev = DeleteFilesEvent::new(vec!["a.flac".to_string(), "b.flac".to_string()]);
    assert_eq!(ev.files(), &vec!["a.flac".to_string(), "b.flac".to_string()]);
}
