use video_server::catalog::{count_view, find_video};
use video_server::number::Number;
use video_server::reply::{Content, Json, JsonReply, Reply};
use video_server::video_info::{
    describe_video, get_all_videos, get_thumbnail, get_video, request_video, summarize_video, Listing,
    LookupAction, LookupEvent, LookupState, Video,
};

fn header(name: &str, value: &str) -> (String, String) {
    (name.to_string(), value.to_string())
}

fn json_headers() -> Vec<(String, String)> {
    vec![header("content-type", "application/json"), header("access-control-allow-origin", "*")]
}

fn text(value: &str) -> Json<f64> {
    Json::Text(value.to_string())
}

fn member(key: &str, value: Json<f64>) -> (String, Json<f64>) {
    (key.to_string(), value)
}

fn processed() -> Video<f64> {
    Video {
        id: "v1".to_string(),
        title: "Title".to_string(),
        original_filename: "clip.mov".to_string(),
        file_extension: "mov".to_string(),
        duration: Some(Number::Finite(12.5)),
        resolution: Some("640x480".to_string()),
        upload_date: "2024-01-01T00:00:00+00:00".to_string(),
        description: Some("About".to_string()),
        view_count: 7,
        thumbnail: Some("v1/thumbnail.jpg".to_string()),
    }
}

fn fresh() -> Video<f64> {
    Video {
        id: "v2".to_string(),
        title: "Other".to_string(),
        original_filename: "b.mp4".to_string(),
        file_extension: "mp4".to_string(),
        duration: None,
        resolution: None,
        upload_date: "2024-01-02T00:00:00+00:00".to_string(),
        description: None,
        view_count: 0,
        thumbnail: None,
    }
}

fn shared_members(video: &Video<f64>) -> Vec<(String, Json<f64>)> {
    vec![
        member("id", text(&video.id)),
        member("title", text(&video.title)),
        member("original_filename", text(&video.original_filename)),
        member("file_extension", text(&video.file_extension)),
        member("duration", match &video.duration {
            Some(Number::Finite(r)) => Json::Real(*r),
            _ => Json::Null,
        }),
        member("resolution", video.resolution.as_ref().map_or(Json::Null, |t| text(t))),
        member("upload_date", text(&video.upload_date)),
        member("description", video.description.as_ref().map_or(Json::Null, |t| text(t))),
        member("view_count", Json::Integer(video.view_count)),
    ]
}

fn fetching() -> LookupState<f64> {
    let (state, action) = request_video::<f64>("v1".to_string());
    assert_eq!(action, LookupAction::Lock);
    let (state, action) = get_video(state, LookupEvent::Locked(true));
    assert_eq!(action, LookupAction::Execute(count_view("v1")));
    let (state, action) = get_video(state, LookupEvent::Counted);
    assert_eq!(action, LookupAction::Query(find_video("v1")));
    state
}

#[test]
fn a_ready_video_is_described() {
    let (state, action) = get_video(fetching(), LookupEvent::Fetched(Some(processed())));
    assert_eq!(action, LookupAction::CheckFile("videos/output/v1/playlist.m3u8".to_string()));
    let (state, action) = get_video(state, LookupEvent::Checked(true));
    assert_eq!(state, LookupState::Finished);
    let mut members = shared_members(&processed());
    members.push(member("playlist_url", text("/api/stream/v1/playlist.m3u8")));
    members.push(member("thumbnail_url", text("/api/videos/v1/thumbnail")));
    members.push(member("status", text("ready")));
    assert_eq!(
        action,
        LookupAction::Respond(JsonReply { status: 200, headers: json_headers(), body: Json::Object(members) })
    );
}

#[test]
fn a_fresh_video_is_processing() {
    let (state, _) = get_video(fetching(), LookupEvent::Fetched(Some(fresh())));
    let (_, action) = get_video(state, LookupEvent::Checked(false));
    let mut members = shared_members(&fresh());
    members.push(member("playlist_url", text("/api/stream/v2/playlist.m3u8")));
    members.push(member("thumbnail_url", Json::Null));
    members.push(member("status", text("processing")));
    assert_eq!(
        action,
        LookupAction::Respond(JsonReply { status: 200, headers: json_headers(), body: Json::Object(members) })
    );
}

#[test]
fn an_unknown_video_is_not_found() {
    let (state, action) = get_video(fetching(), LookupEvent::Fetched(None));
    assert_eq!(state, LookupState::Finished);
    assert_eq!(
        action,
        LookupAction::Respond(JsonReply {
            status: 404,
            headers: json_headers(),
            body: Json::Object(vec![
                member("id", text("v1")),
                member("status", text("not_found")),
                member("message", text("video not found")),
            ]),
        })
    );
}

#[test]
fn a_catalog_that_cannot_be_locked_is_an_error() {
    let (state, _) = request_video::<f64>("v1".to_string());
    let (state, action) = get_video(state, LookupEvent::Locked(false));
    assert_eq!(state, LookupState::Finished);
    assert_eq!(
        action,
        LookupAction::Respond(JsonReply {
            status: 500,
            headers: json_headers(),
            body: Json::Object(vec![member("error", text("database error"))]),
        })
    );
}

#[test]
fn all_videos_are_listed_in_order() {
    let mut first = shared_members(&fresh());
    first.push(member("thumbnail_url", Json::Null));
    first.push(member("playlist_url", text("/api/stream/v2/playlist.m3u8")));
    let mut second = shared_members(&processed());
    second.push(member("thumbnail_url", text("/api/videos/v1/thumbnail")));
    second.push(member("playlist_url", text("/api/stream/v1/playlist.m3u8")));
    assert_eq!(
        get_all_videos(Listing::Videos(vec![fresh(), processed()])),
        JsonReply {
            status: 200,
            headers: json_headers(),
            body: Json::Object(vec![
                member("videos", Json::Array(vec![Json::Object(first), Json::Object(second)])),
                member("total", Json::Count(2)),
            ]),
        }
    );
}

#[test]
fn an_empty_catalog_is_listed() {
    assert_eq!(
        get_all_videos::<f64>(Listing::Videos(vec![])).body,
        Json::Object(vec![member("videos", Json::Array(vec![])), member("total", Json::Count(0))])
    );
}

#[test]
fn failed_listings_tell_why() {
    let failures = [
        (Listing::Unavailable, "database error"),
        (Listing::Unprepared("locked".to_string()), "failed to prepare: locked"),
        (Listing::Unread("corrupt".to_string()), "failed to fetch: corrupt"),
    ];
    for (listing, message) in failures {
        assert_eq!(
            get_all_videos(listing),
            JsonReply {
                status: 500,
                headers: vec![],
                body: Json::Object(vec![member("error", text(message))]),
            }
        );
    }
}

#[test]
fn a_thumbnail_is_served() {
    assert_eq!(
        get_thumbnail(Some(vec![255, 216])),
        Reply {
            status: 200,
            headers: vec![
                header("content-type", "image/jpeg"),
                header("access-control-allow-origin", "*"),
                header("cache-control", "public, max-age=86400"),
            ],
            body: Content::Bytes(vec![255, 216]),
        }
    );
    assert_eq!(
        get_thumbnail(None),
        Reply { status: 404, headers: vec![], body: Content::Text("thumbnail not found".to_string()) }
    );
}

#[test]
fn a_duration_is_sent_where_it_is_finite() {
    let cases = vec![
        (Some(Number::Finite(-0.5)), Json::Real(-0.5)),
        (Some(Number::Infinity), Json::Null),
        (Some(Number::NegativeInfinity), Json::Null),
        (Some(Number::NotANumber), Json::Null),
        (None, Json::Null),
    ];
    for (duration, sent) in cases {
        let mut video = processed();
        video.duration = duration;
        match summarize_video(video) {
            Json::Object(members) => assert_eq!(members[4], member("duration", sent)),
            other => panic!("unexpected value {:?}", other),
        }
    }
    let mut video = processed();
    video.duration = Some(Number::Infinity);
    match describe_video(video, true) {
        Json::Object(members) => assert_eq!(members[4], member("duration", Json::Null)),
        other => panic!("unexpected value {:?}", other),
    }
}

#[test]
fn an_entry_of_a_list_is_a_description_without_status() {
    match (summarize_video(processed()), describe_video(processed(), true)) {
        (Json::Object(short), Json::Object(full)) => {
            assert_eq!(short.len(), 11);
            assert_eq!(full.len(), 12);
            for member in &full {
                assert_eq!(short.contains(member), member.0 != "status");
            }
        }
        other => panic!("unexpected values {:?}", other),
    }
}
