use spur::digits::u64_to_string;
use spur::options::SType;
use spur::parser::get_filename_from_arg;
use spur::paths::{get_home_path, get_stream_path, get_video_directory_path, get_video_path};
use spur::{constants, get_filename_for_recording, Config, CustomError};

#[test]
fn decimal_rendering_is_exact() {
    assert_eq!(u64_to_string(0), "0");
    assert_eq!(u64_to_string(7), "7");
    assert_eq!(u64_to_string(1234), "1234");
    assert_eq!(u64_to_string(1000), "1000");
    assert_eq!(u64_to_string(u64::MAX), "18446744073709551615");
}

#[test]
fn video_directory_is_under_home() {
    assert_eq!(get_video_directory_path("/home/u"), "/home/u/Videos/spur");
}

#[test]
fn video_path_joins_directory_and_filename() {
    let filename = String::from("clip.mkv");
    assert_eq!(get_video_path("/home/u", &filename), "/home/u/Videos/spur/clip.mkv");
}

#[test]
fn stream_path_targets_the_streaming_endpoint() {
    let vid = String::from("abc123");
    assert_eq!(get_stream_path(&vid), "rtmp://someendpoint:1935/abc123");
}

#[test]
fn filename_for_recording_appends_container_extension() {
    assert_eq!(get_filename_for_recording(Some("clip")), "clip.mkv");
}

#[test]
fn filename_for_recording_defaults_to_a_timestamp() {
    let name = get_filename_for_recording(None);
    assert!(name.ends_with(".mkv"));
    let stem = &name[..name.len() - 4];
    assert!(!stem.is_empty());
    assert!(stem.chars().all(|c| c.is_ascii_digit()));
}

#[test]
fn filename_from_arg_shapes_by_session_type() {
    assert_eq!(get_filename_from_arg(SType::Record, Some("clip")), "clip.mkv");
    assert_eq!(get_filename_from_arg(SType::Stream, Some("clip")), "/live/clip");
}

#[test]
fn filename_from_arg_defaults_to_a_timestamp() {
    let name = get_filename_from_arg(SType::Record, None);
    assert!(name.ends_with(".mkv"));
    let streamed = get_filename_from_arg(SType::Stream, None);
    assert!(streamed.starts_with("/live/"));
    assert!(streamed["/live/".len()..].chars().all(|c| c.is_ascii_digit()));
}

#[test]
fn target_path_for_recording_lies_in_the_video_directory() {
    let config = Config::new(String::from("u1"), SType::Record, Some("clip"));
    assert_eq!(config.get_target_path("/home/u"), "/home/u/Videos/spur/clip.mkv");
}

#[test]
fn target_path_for_streaming_uses_the_acquired_identifier() {
    let mut config = Config::new(String::from("u1"), SType::Stream, None);
    config.vid = Some(String::from("v42"));
    assert_eq!(config.get_target_path("/home/u"), "rtmp://someendpoint:1935/v42");
}

#[test]
fn home_path_is_a_directory_or_a_named_error() {
    match get_home_path() {
        Ok(home) => assert!(!home.is_empty()),
        Err(e) => assert_eq!(e, CustomError::CouldNotFindHome),
    }
}

#[test]
fn constants_hold_the_documented_values() {
    assert_eq!(constants::VIDEOS_FOLDER_FROM_HOME, "Videos/spur");
    assert_eq!(constants::STREAM_API, "rtmp://someendpoint:1935");
    assert_eq!(constants::STREAM_API_PATH, "live");
    assert_eq!(constants::GRACE_PERIOD_SECS, 5);
    assert_eq!(constants::CMD, "spur");
}
