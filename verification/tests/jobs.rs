use video_server::catalog::{delete_video, update_video};
use video_server::number::Number;
use video_server::probe::{pick_resolution, read_probe, Probe, StreamInfo};
use video_server::processing::{
    begin_processing, process_video, use_report, Job, JobAction, JobEvent, Source,
};

type Action = JobAction<f64>;

fn source() -> Source {
    Source { id: "v".to_string(), path: "videos/input/v/a.mp4".to_string() }
}

fn stream(codec_type: &str, width: Option<i64>, height: Option<i64>) -> StreamInfo {
    StreamInfo { codec_type: Some(codec_type.to_string()), width, height }
}

fn report() -> Vec<u8> {
    let text = r#"{"streams": [
        {"codec_type": "audio", "width": 1, "height": 1},
        {"codec_type": "video", "width": 640},
        {"codec_type": "video", "width": 1920, "height": 1080},
        {"codec_type": "video", "width": 1, "height": 2}
    ], "format": {"duration": "12.500000"}}"#;
    text.as_bytes().to_vec()
}

fn silent() -> Probe {
    Probe { duration: None, streams: vec![] }
}

#[test]
fn a_report_is_read() {
    assert_eq!(
        read_probe(report()),
        Probe {
            duration: Some("12.500000".to_string()),
            streams: vec![
                stream("audio", Some(1), Some(1)),
                stream("video", Some(640), None),
                stream("video", Some(1920), Some(1080)),
                stream("video", Some(1), Some(2)),
            ],
        }
    );
}

#[test]
fn a_report_that_cannot_be_read_says_nothing() {
    for bytes in [vec![], b"not json".to_vec(), vec![0xff, 0xfe], b"[]".to_vec(), b"{} trailing".to_vec()] {
        assert_eq!(read_probe(bytes), silent());
    }
}

#[test]
fn members_of_another_type_are_left_out() {
    let text = r#"{"streams": [{"codec_type": 5, "width": "640", "height": 480.5}, 7],
        "format": {"duration": 12.5}}"#;
    let nothing = StreamInfo { codec_type: None, width: None, height: None };
    assert_eq!(
        read_probe(text.as_bytes().to_vec()),
        Probe {
            duration: None,
            streams: vec![nothing, StreamInfo { codec_type: None, width: None, height: None }],
        }
    );
    let text = r#"{"streams": {"codec_type": "video"}, "format": "x"}"#;
    assert_eq!(read_probe(text.as_bytes().to_vec()), silent());
}

#[test]
fn numbers_out_of_range_are_left_out() {
    let text = r#"{"streams": [{"width": 9223372036854775808, "height": -9223372036854775808}]}"#;
    assert_eq!(
        read_probe(text.as_bytes().to_vec()).streams,
        vec![StreamInfo { codec_type: None, width: None, height: Some(i64::MIN) }]
    );
}

#[test]
fn the_first_sized_video_gives_the_resolution() {
    assert_eq!(pick_resolution(&read_probe(report()).streams), Some("1920x1080".to_string()));
    assert_eq!(pick_resolution(&vec![]), None);
    assert_eq!(pick_resolution(&vec![stream("audio", Some(1), Some(1))]), None);
    assert_eq!(pick_resolution(&vec![stream("video", Some(-3), Some(0))]), Some("-3x0".to_string()));
}

fn transcoding() -> Job<f64> {
    let (job, action): (Job<f64>, Action) = begin_processing(source());
    match action {
        JobAction::Transcode(command) => {
            assert_eq!(command.program, "ffmpeg");
            let args: Vec<&str> = command.args.iter().map(|a| a.as_str()).collect();
            assert_eq!(
                args,
                vec![
                    "-i", "videos/input/v/a.mp4", "-c:v", "libx264", "-c:a", "aac", "-preset", "fast",
                    "-crf", "23", "-sc_threshold", "0", "-g", "48", "-keyint_min", "48", "-hls_time",
                    "4", "-hls_playlist_type", "vod", "-hls_segment_filename",
                    "videos/output/v/segment_%03d.ts", "-y", "videos/output/v/playlist.m3u8",
                ]
            );
        }
        other => panic!("unexpected action {:?}", other),
    }
    job
}

fn probing() -> Job<f64> {
    let (job, action) = process_video(transcoding(), JobEvent::Transcoded(true));
    match action {
        JobAction::Probe(command) => {
            assert_eq!(command.program, "ffprobe");
            let args: Vec<&str> = command.args.iter().map(|a| a.as_str()).collect();
            assert_eq!(
                args,
                vec![
                    "-v", "quiet", "-print_format", "json", "-show_format", "-show_streams",
                    "videos/input/v/a.mp4",
                ]
            );
        }
        other => panic!("unexpected action {:?}", other),
    }
    job
}

#[test]
fn a_processed_video_is_recorded() {
    let (job, action) = process_video(probing(), JobEvent::Probed(Some(report())));
    assert_eq!(action, JobAction::Time("12.500000".to_string()));
    let (job, action) = process_video(job, JobEvent::Timed(Some((Number::Finite(12.5), "3.25".to_string()))));
    match action {
        JobAction::Capture(command) => {
            assert_eq!(command.program, "ffmpeg");
            let args: Vec<&str> = command.args.iter().map(|a| a.as_str()).collect();
            assert_eq!(
                args,
                vec![
                    "-ss", "3.25", "-i", "videos/input/v/a.mp4", "-vframes", "1", "-vf",
                    "scale=1280:-1", "-q:v", "2", "-y", "videos/output/v/thumbnail.jpg",
                ]
            );
        }
        other => panic!("unexpected action {:?}", other),
    }
    let (job, action) = process_video(job, JobEvent::Captured(true));
    assert_eq!(job, Job::Finished);
    assert_eq!(
        action,
        JobAction::Store(update_video(
            "v",
            Some(Number::Finite(12.5)),
            Some("1920x1080".to_string()),
            Some("v/thumbnail.jpg".to_string()),
        ))
    );
}

#[test]
fn a_thumbnail_that_failed_is_not_recorded() {
    let (job, _) = process_video(probing(), JobEvent::Probed(Some(report())));
    let (job, _) = process_video(job, JobEvent::Timed(Some((Number::Finite(12.5), "3.25".to_string()))));
    let (_, action) = process_video(job, JobEvent::Captured(false));
    assert_eq!(
        action,
        JobAction::Store(update_video("v", Some(Number::Finite(12.5)), Some("1920x1080".to_string()), None))
    );
}

#[test]
fn a_duration_that_is_no_number_is_not_recorded() {
    let (job, _) = process_video(probing(), JobEvent::Probed(Some(report())));
    let (job, action) = process_video(job, JobEvent::Timed(None));
    assert_eq!(job, Job::Finished);
    assert_eq!(action, JobAction::Store(update_video("v", None, Some("1920x1080".to_string()), None)));
}

#[test]
fn without_a_report_nothing_is_recorded() {
    let (job, action) = process_video(probing(), JobEvent::Probed(None));
    assert_eq!(job, Job::Finished);
    assert_eq!(action, JobAction::Store(update_video("v", None, None, None)));
}

#[test]
fn a_report_without_duration_takes_no_thumbnail() {
    let report = Probe { duration: None, streams: vec![stream("video", Some(2), Some(3))] };
    let (job, action): (Job<f64>, Action) = use_report(source(), report);
    assert_eq!(job, Job::Finished);
    assert_eq!(action, JobAction::Store(update_video("v", None, Some("2x3".to_string()), None)));
}

#[test]
fn a_video_that_cannot_be_transcoded_leaves_nothing() {
    let (job, action) = process_video(transcoding(), JobEvent::Transcoded(false));
    assert_eq!(job, Job::Finished);
    assert_eq!(
        action,
        JobAction::Discard(
            vec!["videos/input/v".to_string(), "videos/output/v".to_string()],
            delete_video("v"),
        )
    );
}
