//! Tests of output stream configuration.
use transonic::playback::output::{
    asio_output_channels, device_name_from_friendly_name, select_asio_stream_config,
    validate_output_device_id, SupportedRateRange, OUTPUT_SELECTION_UNSUPPORTED,
};
use transonic::models::playback::PlaybackOutputDevice;
use transonic::playback::device_order::sort_output_devices;

#[test]
fn asio_output_channels_never_opens_a_mono_stream_on_a_stereo_capable_device() {
    // A mono source must still reach both outputs; ASIO has no mixer to do it.
    assert_eq!(asio_output_channels(1, 6), 2);
    assert_eq!(asio_output_channels(1, 2), 2);
    // Stereo and wider sources are passed through, bounded by the device.
    assert_eq!(asio_output_channels(2, 6), 2);
    assert_eq!(asio_output_channels(6, 6), 6);
    assert_eq!(asio_output_channels(6, 2), 2);
    // A genuinely mono-only device is still usable.
    assert_eq!(asio_output_channels(2, 1), 1);
}

fn range(channels: u16, min_sample_rate: u32, max_sample_rate: u32) -> SupportedRateRange {
    SupportedRateRange { channels, min_sample_rate, max_sample_rate }
}

#[test]
fn asio_config_prefers_the_source_rate() {
    let ranges = vec![range(2, 44_100, 48_000), range(2, 96_000, 96_000)];
    assert_eq!(select_asio_stream_config(2, 1, 44_100, &ranges), Ok((2, 44_100)));
}

#[test]
fn asio_config_falls_back_to_the_nearest_supported_rate() {
    let ranges = vec![range(6, 44_100, 44_100), range(2, 48_000, 48_000), range(2, 96_000, 96_000)];
    assert_eq!(select_asio_stream_config(2, 2, 88_200, &ranges), Ok((2, 96_000)));
    assert_eq!(select_asio_stream_config(2, 2, 44_100, &ranges), Ok((2, 48_000)));
}

#[test]
fn asio_config_reports_missing_channels_and_configs() {
    assert_eq!(
        select_asio_stream_config(0, 2, 44_100, &vec![]),
        Err("Audio output device error: ASIO device reports no output channels.".to_string())
    );
    assert_eq!(
        select_asio_stream_config(2, 2, 44_100, &vec![range(6, 44_100, 44_100)]),
        Err("Audio output device error: ASIO device supports no output config with 2 channel(s).".to_string())
    );
}

#[test]
fn device_name_is_taken_from_the_friendly_name() {
    assert_eq!(
        device_name_from_friendly_name("  Speakers (Realtek Audio) ", "Speakers"),
        Some("Realtek Audio".to_string())
    );
    assert_eq!(device_name_from_friendly_name("Speakers ( )", "Speakers"), None);
    assert_eq!(device_name_from_friendly_name("Headphones (USB)", "Speakers"), None);
}

#[test]
fn output_device_selection_is_refused_where_only_the_default_plays() {
    assert_eq!(validate_output_device_id(None), Ok(None));
    assert_eq!(validate_output_device_id(Some("   ".to_string())), Ok(None));
    assert_eq!(
        validate_output_device_id(Some(" wasapi:speakers ".to_string())),
        Err(OUTPUT_SELECTION_UNSUPPORTED.to_string())
    );
}

fn device(id: &str, name: &str, device_name: &str) -> PlaybackOutputDevice {
    PlaybackOutputDevice {
        id: id.to_string(),
        name: name.to_string(),
        device_name: device_name.to_string(),
    }
}

#[test]
fn output_devices_are_listed_by_name_without_regard_to_case() {
    let mut devices = vec![
        device("wasapi:2", "Speakers", "Realtek"),
        device("wasapi:1", "headphones", "USB"),
        device("wasapi:3", "Bluetooth", "Radio"),
    ];
    sort_output_devices(&mut devices);
    let names: Vec<&str> = devices.iter().map(|d| d.name.as_str()).collect();
    assert_eq!(names, vec!["Bluetooth", "headphones", "Speakers"]);
}

#[test]
fn output_devices_with_one_name_are_listed_by_device_name_then_id() {
    let mut devices = vec![
        device("asio:b", "Line Out", "zeta"),
        device("asio:c", "line out", "Alpha"),
        device("asio:a", "LINE OUT", "alpha"),
    ];
    sort_output_devices(&mut devices);
    let ids: Vec<&str> = devices.iter().map(|d| d.id.as_str()).collect();
    assert_eq!(ids, vec!["asio:a", "asio:c", "asio:b"]);
}
