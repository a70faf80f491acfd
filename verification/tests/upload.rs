use video_server::catalog::{Param, INSERT_VIDEO};
use video_server::processing::Source;
use video_server::reply::{Content, Reply};
use video_server::upload_video::{
    begin_upload, handle_upload, is_supported, record_upload, start_upload, submit_form, FieldHeader,
    Recording, Submission, UploadAction, UploadEvent, UploadForm, UploadState,
};

type Action = UploadAction<f64>;

fn named(name: &str) -> UploadEvent {
    UploadEvent::Field(FieldHeader { name: Some(name.to_string()), file_name: None })
}

fn attached(file_name: &str) -> UploadEvent {
    UploadEvent::Field(FieldHeader {
        name: Some("video".to_string()),
        file_name: Some(file_name.to_string()),
    })
}

fn text(value: &str) -> UploadEvent {
    UploadEvent::TextRead(Some(value.to_string()))
}

fn started() -> UploadState {
    let (state, action): (UploadState, Action) = start_upload("v".to_string());
    assert_eq!(
        action,
        UploadAction::CreateDirectories(vec![
            "videos".to_string(),
            "videos/input/v".to_string(),
            "videos/output/v".to_string(),
        ])
    );
    let (state, action): (UploadState, Action) = handle_upload(state, UploadEvent::Prepared);
    assert_eq!(action, UploadAction::NextField);
    state
}

fn after(mut state: UploadState, events: Vec<UploadEvent>) -> (UploadState, Action) {
    let mut action = UploadAction::NextField;
    for event in events {
        (state, action) = handle_upload(state, event);
    }
    (state, action)
}

fn filled_events() -> Vec<UploadEvent> {
    vec![
        named("title"),
        text("My clip"),
        named("description"),
        text("A clip"),
        attached("clip.final.mp4"),
        UploadEvent::BytesRead(Ok(vec![1, 2, 3])),
    ]
}

fn plain(status: u16, body: &str) -> Reply {
    Reply { status, headers: vec![], body: Content::Text(body.to_string()) }
}

fn both() -> Vec<String> {
    vec!["videos/input/v".to_string(), "videos/output/v".to_string()]
}

#[test]
fn a_complete_upload_is_accepted() {
    let mut events = filled_events();
    events.push(UploadEvent::NoMoreFields);
    let (state, action) = after(started(), events);
    assert_eq!(action, UploadAction::SaveFile("videos/input/v/clip.final.mp4".to_string(), vec![1, 2, 3]));
    let (state, action): (UploadState, Action) = handle_upload(state, UploadEvent::Saved(None));
    match action {
        UploadAction::Record(statement) => {
            assert_eq!(statement.sql, INSERT_VIDEO);
            assert_eq!(statement.params.len(), 10);
            assert_eq!(statement.params[0], Param::Text("v".to_string()));
            assert_eq!(statement.params[3], Param::Text("mp4".to_string()));
            assert!(matches!(&statement.params[6], Param::Text(date) if date.ends_with("+00:00")));
        }
        other => panic!("unexpected action {:?}", other),
    }
    let (state, action): (UploadState, Action) = handle_upload(state, UploadEvent::Recorded(Recording::Written));
    assert_eq!(state, UploadState::Finished);
    assert_eq!(
        action,
        UploadAction::Accept(
            Source { id: "v".to_string(), path: "videos/input/v/clip.final.mp4".to_string() },
            plain(200, "Upload successful! Video processing started. id: v"),
        )
    );
}

#[test]
fn a_record_holds_what_was_submitted() {
    let submission = Submission {
        id: "v".to_string(),
        title: " My clip ".to_string(),
        description: "A clip".to_string(),
        file_name: "a.b.mkv".to_string(),
    };
    let (state, action): (UploadState, Action) = record_upload(submission, "today".to_string());
    assert_eq!(
        state,
        UploadState::Recording(Source { id: "v".to_string(), path: "videos/input/v/a.b.mkv".to_string() })
    );
    match action {
        UploadAction::Record(statement) => assert_eq!(
            statement.params,
            vec![
                Param::Text("v".to_string()),
                Param::Text(" My clip ".to_string()),
                Param::Text("a.b.mkv".to_string()),
                Param::Text("mkv".to_string()),
                Param::Null,
                Param::Null,
                Param::Text("today".to_string()),
                Param::Text("A clip".to_string()),
                Param::Integer(0),
                Param::Null,
            ]
        ),
        other => panic!("unexpected action {:?}", other),
    }
}

#[test]
fn each_upload_begins_under_an_id_of_its_own() {
    let (first, _): (UploadState, Action) = begin_upload();
    let (second, _): (UploadState, Action) = begin_upload();
    match (first, second) {
        (UploadState::Preparing(a), UploadState::Preparing(b)) => {
            assert_eq!(a.id.len(), 36);
            assert_ne!(a.id, b.id);
            assert_eq!((a.title, a.description, a.file), (None, None, None));
        }
        other => panic!("unexpected states {:?}", other),
    }
}

#[test]
fn the_last_readable_field_counts() {
    let mut events = filled_events();
    events.push(named("title"));
    events.push(text("Second"));
    events.push(named("title"));
    events.push(UploadEvent::TextRead(None));
    events.push(attached("other.avi"));
    events.push(UploadEvent::BytesRead(Ok(vec![9])));
    events.push(named("comment"));
    let (state, action) = after(started(), events);
    assert_eq!(action, UploadAction::NextField);
    assert_eq!(
        state,
        UploadState::Fields(UploadForm {
            id: "v".to_string(),
            title: Some("Second".to_string()),
            description: Some("A clip".to_string()),
            file: Some(("other.avi".to_string(), vec![9])),
        })
    );
}

#[test]
fn the_name_of_a_field_counts_before_its_file() {
    let header = FieldHeader {
        name: Some("title".to_string()),
        file_name: Some("notes.txt".to_string()),
    };
    let (state, action): (UploadState, Action) = handle_upload(started(), UploadEvent::Field(header));
    assert_eq!(action, UploadAction::ReadText);
    assert!(matches!(state, UploadState::ReadingTitle(_)));
}

#[test]
fn a_nameless_field_may_hold_the_file() {
    let header = FieldHeader { name: None, file_name: Some("x.mov".to_string()) };
    let (_, action): (UploadState, Action) = handle_upload(started(), UploadEvent::Field(header));
    assert_eq!(action, UploadAction::ReadBytes);
    let nothing = FieldHeader { name: None, file_name: None };
    let (_, action): (UploadState, Action) = handle_upload(started(), UploadEvent::Field(nothing));
    assert_eq!(action, UploadAction::NextField);
}

#[test]
fn other_kinds_of_files_are_refused() {
    for name in ["notes.txt", "clip.MP4", "mp4", "clip.mp4.zip", ""] {
        assert!(!is_supported(name));
        let (state, action) = after(started(), vec![attached(name)]);
        assert_eq!(state, UploadState::Finished);
        assert_eq!(
            action,
            UploadAction::Refuse(vec![], plain(400, "upload a video file (mp4, avi, mov, mkv)"))
        );
    }
    for name in ["a.mp4", "a.avi", "a.mov", "a.mkv", ".mp4"] {
        assert!(is_supported(name));
    }
}

fn form(title: Option<&str>, description: Option<&str>, file: bool) -> UploadForm {
    UploadForm {
        id: "v".to_string(),
        title: title.map(|t| t.to_string()),
        description: description.map(|t| t.to_string()),
        file: if file { Some(("a.mp4".to_string(), vec![])) } else { None },
    }
}

#[test]
fn an_incomplete_form_is_refused() {
    let cases = [
        (form(None, None, false), "title is required"),
        (form(Some(" \n"), Some("d"), true), "title is required"),
        (form(Some("t"), None, false), "description is required"),
        (form(Some("t"), Some("\u{3000}"), true), "description is required"),
        (form(Some("t"), Some("d"), false), "no video file uploaded"),
    ];
    for (incomplete, message) in cases {
        let (state, action): (UploadState, Action) = submit_form(incomplete);
        assert_eq!(state, UploadState::Finished);
        assert_eq!(action, UploadAction::Refuse(both(), plain(400, message)));
    }
}

#[test]
fn failures_to_read_are_refused() {
    let (_, action) = after(started(), vec![UploadEvent::FieldFailed("broken".to_string())]);
    assert_eq!(action, UploadAction::Refuse(both(), plain(400, "failed to read upload: broken")));
    let events = vec![attached("a.mp4"), UploadEvent::BytesRead(Err("cut off".to_string()))];
    let (_, action) = after(started(), events);
    assert_eq!(action, UploadAction::Refuse(both(), plain(400, "failed to read file: cut off")));
}

#[test]
fn failures_to_save_are_refused() {
    let mut events = filled_events();
    events.push(UploadEvent::NoMoreFields);
    events.push(UploadEvent::Saved(Some("disk full".to_string())));
    let (_, action) = after(started(), events);
    assert_eq!(action, UploadAction::Refuse(both(), plain(500, "failed to save: disk full")));

    let mut events = filled_events();
    events.push(UploadEvent::NoMoreFields);
    events.push(UploadEvent::Saved(None));
    events.push(UploadEvent::Recorded(Recording::Failed("no table".to_string())));
    let (_, action) = after(started(), events);
    assert_eq!(action, UploadAction::Refuse(vec![], plain(500, "failed to save: no table")));
}

#[test]
fn an_upload_goes_on_where_the_catalog_is_not_at_hand() {
    let mut events = filled_events();
    events.push(UploadEvent::NoMoreFields);
    events.push(UploadEvent::Saved(None));
    events.push(UploadEvent::Recorded(Recording::Unlocked));
    let (state, action) = after(started(), events);
    assert_eq!(state, UploadState::Finished);
    assert_eq!(
        action,
        UploadAction::Accept(
            Source { id: "v".to_string(), path: "videos/input/v/clip.final.mp4".to_string() },
            plain(200, "Upload successful! Video processing started. id: v"),
        )
    );
}
