use video_server::clock::{current_date, date_at};
use video_server::get_api::hello_world;
use video_server::health::health_check;
use video_server::ids::{id_of_bytes, new_video_id};
use video_server::layout::{
    input_directory, output_directory, playlist_path, playlist_url, segment_path,
    segment_pattern_path, segment_url, thumbnail_name, thumbnail_path, thumbnail_url, upload_path,
};

#[test]
fn bytes_are_written_with_hyphens() {
    let bytes = [
        0x00, 0x11, 0x22, 0x33, 0x44, 0x55, 0x46, 0x77, 0x88, 0x99, 0xaa, 0xbb, 0xcc, 0xdd, 0xee, 0xff,
    ];
    assert_eq!(id_of_bytes(bytes), "00112233-4455-4677-8899-aabbccddeeff");
}

#[test]
fn different_bytes_give_different_ids() {
    let mut bytes = [0u8; 16];
    let first = id_of_bytes(bytes);
    bytes[15] = 1;
    assert_ne!(first, id_of_bytes(bytes));
}

#[test]
fn new_ids_are_random_and_marked() {
    let id = new_video_id();
    assert_eq!(id.len(), 36);
    assert_eq!(id.chars().nth(14), Some('4'));
    assert!(matches!(id.chars().nth(19), Some('8' | '9' | 'a' | 'b')));
    assert!(id.chars().all(|c| c == '-' || c.is_ascii_digit() || ('a'..='f').contains(&c)));
    assert_ne!(id, new_video_id());
}

#[test]
fn dates_are_written_in_utc() {
    assert_eq!(date_at(0, 0), Some("1970-01-01T00:00:00+00:00".to_string()));
    assert_eq!(date_at(1_431_648_000, 5_000_000), Some("2015-05-15T00:00:00.005+00:00".to_string()));
    assert_eq!(date_at(253_402_300_799, 0), Some("9999-12-31T23:59:59+00:00".to_string()));
}

#[test]
fn moments_out_of_range_have_no_date() {
    assert_eq!(date_at(i64::MAX, 0), None);
    assert_eq!(date_at(0, 2_000_000_000), None);
}

#[test]
fn the_current_date_is_a_date() {
    let date = current_date();
    assert!(date.ends_with("+00:00"));
    assert!(date.as_str() > "2020-01-01T00:00:00+00:00");
}

#[test]
fn paths_and_addresses() {
    assert_eq!(input_directory("x"), "videos/input/x");
    assert_eq!(output_directory("x"), "videos/output/x");
    assert_eq!(upload_path("x", "clip.mp4"), "videos/input/x/clip.mp4");
    assert_eq!(playlist_path("x"), "videos/output/x/playlist.m3u8");
    assert_eq!(segment_path("x", "segment_000.ts"), "videos/output/x/segment_000.ts");
    assert_eq!(segment_pattern_path("x"), "videos/output/x/segment_%03d.ts");
    assert_eq!(thumbnail_path("x"), "videos/output/x/thumbnail.jpg");
    assert_eq!(thumbnail_name("x"), "x/thumbnail.jpg");
    assert_eq!(playlist_url("x"), "/api/stream/x/playlist.m3u8");
    assert_eq!(segment_url("x", "a.ts"), "/api/stream/x/a.ts");
    assert_eq!(thumbnail_url("x"), "/api/videos/x/thumbnail");
}

#[test]
fn the_playlist_lies_beside_the_segments() {
    assert_eq!(playlist_path("x"), segment_path("x", "playlist.m3u8"));
    assert_eq!(playlist_url("x"), segment_url("x", "playlist.m3u8"));
    assert_eq!(segment_pattern_path("x"), segment_path("x", "segment_%03d.ts"));
    assert_eq!(thumbnail_path("x"), segment_path("x", "thumbnail.jpg"));
    assert_eq!(format!("videos/output/{}", thumbnail_name("x")), thumbnail_path("x"));
}

#[test]
fn directories_are_apart() {
    assert_ne!(input_directory("x"), output_directory("x"));
    assert_ne!(output_directory("x"), output_directory("y"));
    assert_ne!(segment_path("x", "a.ts"), segment_path("y", "a.ts"));
    assert_ne!(upload_path("x", "a.mp4"), upload_path("y", "a.mp4"));
}

#[test]
fn the_server_tells_that_it_is_there() {
    assert_eq!(health_check(), "server is running");
    assert_eq!(hello_world(), "Hello world");
}
