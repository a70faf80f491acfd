use rusqlite::types::Value;
use rusqlite::{params_from_iter, Connection, Row};
use video_server::catalog::{list_videos, update_video, Param, Statement, CREATE_TABLE};
use video_server::number::Number;
use video_server::processing::{begin_processing, process_video, Job, JobAction, JobEvent, Source};
use video_server::reply::Json;
use video_server::upload_video::{
    handle_upload, start_upload, FieldHeader, Recording, UploadAction, UploadEvent, UploadState,
};
use video_server::video_info::{
    get_all_videos, get_video, request_video, Listing, LookupAction, LookupEvent, Video,
};

fn values(statement: &Statement<f64>) -> Vec<Value> {
    statement
        .params
        .iter()
        .map(|param| match param {
            Param::Null => Value::Null,
            Param::Text(text) => Value::Text(text.clone()),
            Param::Integer(n) => Value::Integer(*n),
            Param::Real(Number::Finite(r)) => Value::Real(*r),
            Param::Real(Number::Infinity) => Value::Real(f64::INFINITY),
            Param::Real(Number::NegativeInfinity) => Value::Real(f64::NEG_INFINITY),
            Param::Real(Number::NotANumber) => Value::Real(f64::NAN),
        })
        .collect()
}

fn execute(conn: &Connection, statement: &Statement<f64>) -> rusqlite::Result<usize> {
    conn.execute(&statement.sql, params_from_iter(values(statement)))
}

fn number(float: f64) -> Number<f64> {
    if float.is_nan() {
        Number::NotANumber
    } else if float.is_finite() {
        Number::Finite(float)
    } else if float > 0.0 {
        Number::Infinity
    } else {
        Number::NegativeInfinity
    }
}

fn video(row: &Row) -> rusqlite::Result<Video<f64>> {
    Ok(Video {
        id: row.get(0)?,
        title: row.get(1)?,
        original_filename: row.get(2)?,
        file_extension: row.get(3)?,
        duration: row.get::<usize, Option<f64>>(4)?.map(number),
        resolution: row.get(5)?,
        upload_date: row.get(6)?,
        description: row.get(7)?,
        view_count: row.get(8)?,
        thumbnail: row.get(9)?,
    })
}

fn catalog() -> Connection {
    let conn = Connection::open_in_memory().unwrap();
    conn.execute(CREATE_TABLE, []).unwrap();
    conn
}

fn field(name: &str, file_name: Option<&str>) -> UploadEvent {
    UploadEvent::Field(FieldHeader {
        name: Some(name.to_string()),
        file_name: file_name.map(|name| name.to_string()),
    })
}

fn upload(conn: &Connection, id: &str, title: &str, description: &str, file_name: &str) -> UploadAction<f64> {
    let (mut state, mut action): (UploadState, UploadAction<f64>) = start_upload(id.to_string());
    let mut fields = vec![
        (field("video", Some(file_name)), Some(UploadEvent::BytesRead(Ok(vec![7])))),
        (field("description", None), Some(UploadEvent::TextRead(Some(description.to_string())))),
        (field("title", None), Some(UploadEvent::TextRead(Some(title.to_string())))),
    ];
    let mut content = None;
    loop {
        let event = match action {
            UploadAction::CreateDirectories(_) => UploadEvent::Prepared,
            UploadAction::NextField => match fields.pop() {
                Some((head, rest)) => {
                    content = rest;
                    head
                }
                None => UploadEvent::NoMoreFields,
            },
            UploadAction::ReadText | UploadAction::ReadBytes => content.take().unwrap(),
            UploadAction::SaveFile(_, _) => UploadEvent::Saved(None),
            UploadAction::Record(statement) => {
                UploadEvent::Recorded(match execute(conn, &statement) {
                    Ok(_) => Recording::Written,
                    Err(e) => Recording::Failed(e.to_string()),
                })
            }
            UploadAction::Refuse(_, _) | UploadAction::Accept(_, _) => return action,
        };
        (state, action) = handle_upload(state, event);
    }
}

fn accepted(action: UploadAction<f64>) -> Source {
    match action {
        UploadAction::Accept(source, reply) => {
            assert_eq!(reply.status, 200);
            source
        }
        other => panic!("unexpected action {:?}", other),
    }
}

fn refused(action: UploadAction<f64>) -> u16 {
    match action {
        UploadAction::Refuse(_, reply) => reply.status,
        other => panic!("unexpected action {:?}", other),
    }
}

fn look_up(conn: &Connection, id: &str, playlist_exists: bool) -> (u16, Json<f64>) {
    let (mut state, mut action) = request_video::<f64>(id.to_string());
    loop {
        let event = match action {
            LookupAction::Lock => LookupEvent::Locked(true),
            LookupAction::Execute(statement) => {
                execute(conn, &statement).unwrap();
                LookupEvent::Counted
            }
            LookupAction::Query(statement) => LookupEvent::Fetched(
                conn.query_row(&statement.sql, params_from_iter(values(&statement)), video).ok(),
            ),
            LookupAction::CheckFile(_) => LookupEvent::Checked(playlist_exists),
            LookupAction::Respond(reply) => return (reply.status, reply.body),
        };
        (state, action) = get_video(state, event);
    }
}

fn member<'a>(json: &'a Json<f64>, key: &str) -> &'a Json<f64> {
    match json {
        Json::Object(members) => &members.iter().find(|(name, _)| name == key).unwrap().1,
        other => panic!("unexpected value {:?}", other),
    }
}

fn listed(conn: &Connection) -> (usize, Vec<String>) {
    let mut statement = conn.prepare(&list_videos::<f64>().sql).unwrap();
    let videos: Vec<Video<f64>> =
        statement.query_map([], video).unwrap().collect::<Result<_, _>>().unwrap();
    let reply = get_all_videos(Listing::Videos(videos));
    assert_eq!(reply.status, 200);
    let total = match member(&reply.body, "total") {
        Json::Count(total) => *total,
        other => panic!("unexpected total {:?}", other),
    };
    let mut ids = vec![];
    match member(&reply.body, "videos") {
        Json::Array(elements) => {
            for element in elements {
                match member(element, "id") {
                    Json::Text(id) => ids.push(id.clone()),
                    other => panic!("unexpected id {:?}", other),
                }
            }
        }
        other => panic!("unexpected listing {:?}", other),
    }
    ids.sort();
    (total, ids)
}

fn text(value: &str) -> Json<f64> {
    Json::Text(value.to_string())
}

#[test]
fn the_first_view_describes_the_upload() {
    let conn = catalog();
    accepted(upload(&conn, "v", "My clip", " About it ", "clip.final.mkv"));
    let (status, body) = look_up(&conn, "v", false);
    assert_eq!(status, 200);
    assert_eq!(member(&body, "id"), &text("v"));
    assert_eq!(member(&body, "title"), &text("My clip"));
    assert_eq!(member(&body, "description"), &text(" About it "));
    assert_eq!(member(&body, "original_filename"), &text("clip.final.mkv"));
    assert_eq!(member(&body, "file_extension"), &text("mkv"));
    assert_eq!(member(&body, "view_count"), &Json::Integer(1));
    assert_eq!(member(&body, "duration"), &Json::Null);
    assert_eq!(member(&body, "resolution"), &Json::Null);
    assert_eq!(member(&body, "thumbnail_url"), &Json::Null);
    assert_eq!(member(&body, "status"), &text("processing"));
}

#[test]
fn each_view_reports_its_own_count() {
    let conn = catalog();
    accepted(upload(&conn, "v", "One", "First", "a.mp4"));
    accepted(upload(&conn, "w", "Two", "Second", "b.mov"));
    for k in 1..=5 {
        assert_eq!(look_up(&conn, "x", false).0, 404);
        listed(&conn);
        let (_, body) = look_up(&conn, "v", k % 2 == 0);
        assert_eq!(member(&body, "view_count"), &Json::Integer(k));
        look_up(&conn, "w", true);
        look_up(&conn, "w", true);
    }
    let (_, body) = look_up(&conn, "w", true);
    assert_eq!(member(&body, "view_count"), &Json::Integer(11));
}

#[test]
fn the_listing_follows_uploads_and_failures() {
    let conn = catalog();
    assert_eq!(listed(&conn), (0, vec![]));
    accepted(upload(&conn, "v", "One", "First", "a.mp4"));
    assert_eq!(listed(&conn), (1, vec!["v".to_string()]));

    assert_eq!(refused(upload(&conn, "w", " ", "Second", "b.mp4")), 400);
    assert_eq!(refused(upload(&conn, "w", "Two", "", "b.mp4")), 400);
    assert_eq!(refused(upload(&conn, "w", "Two", "Second", "b.txt")), 400);
    assert_eq!(refused(upload(&conn, "v", "Two", "Second", "b.mp4")), 500);
    assert_eq!(listed(&conn), (1, vec!["v".to_string()]));

    let source = accepted(upload(&conn, "w", "Two", "Second", "b.mp4"));
    assert_eq!(listed(&conn), (2, vec!["v".to_string(), "w".to_string()]));
    look_up(&conn, "w", false);

    let (job, _): (Job<f64>, JobAction<f64>) = begin_processing(source);
    match process_video(job, JobEvent::Transcoded(false)).1 {
        JobAction::Discard(_, statement) => assert_eq!(execute(&conn, &statement).unwrap(), 1),
        other => panic!("unexpected action {:?}", other),
    }
    assert_eq!(listed(&conn), (1, vec!["v".to_string()]));
    assert_eq!(look_up(&conn, "w", false).0, 404);
}

#[test]
fn records_stay_sound() {
    let conn = catalog();
    for (id, file_name) in [("a", "x.mp4"), ("b", "..avi"), ("c", ".mov"), ("d", "p/q.r.mkv")] {
        let source = accepted(upload(&conn, id, " t", "d ", file_name));
        let (job, _): (Job<f64>, JobAction<f64>) = begin_processing(source);
        let (job, _) = process_video(job, JobEvent::Transcoded(true));
        match process_video(job, JobEvent::Probed(None)).1 {
            JobAction::Store(statement) => assert_eq!(execute(&conn, &statement).unwrap(), 1),
            other => panic!("unexpected action {:?}", other),
        }
    }
    assert_eq!(refused(upload(&conn, "e", "t", "\t\n", "x.mp4")), 400);
    assert_eq!(refused(upload(&conn, "e", "t", "d", "x.MP4")), 400);
    let mut statement = conn.prepare(&list_videos::<f64>().sql).unwrap();
    let videos: Vec<Video<f64>> =
        statement.query_map([], video).unwrap().collect::<Result<_, _>>().unwrap();
    assert_eq!(videos.len(), 4);
    for record in videos {
        assert!(!record.title.trim().is_empty());
        assert!(!record.description.unwrap().trim().is_empty());
        assert!(["mp4", "avi", "mov", "mkv"].contains(&record.file_extension.as_str()));
        assert!(record.original_filename.ends_with(&format!(".{}", record.file_extension)));
        assert!(record.view_count >= 0);
    }
}

#[test]
fn durations_without_end_are_described_as_null() {
    let conn = catalog();
    accepted(upload(&conn, "v", "One", "First", "a.mp4"));
    for duration in ["inf", "-infinity", "nan"] {
        let duration = number(duration.parse::<f64>().unwrap());
        execute(&conn, &update_video("v", Some(duration), Some("1x2".to_string()), None)).unwrap();
        let (status, body) = look_up(&conn, "v", true);
        assert_eq!(status, 200);
        assert_eq!(member(&body, "duration"), &Json::Null);
        assert_eq!(member(&body, "resolution"), &text("1x2"));
    }
    execute(&conn, &update_video("v", Some(number(2.5)), None, None)).unwrap();
    let (_, body) = look_up(&conn, "v", true);
    assert_eq!(member(&body, "duration"), &Json::Real(2.5));
}

#[test]
fn a_count_beyond_the_range_cannot_be_read() {
    let conn = catalog();
    accepted(upload(&conn, "v", "One", "First", "a.mp4"));
    conn.execute("UPDATE videos SET view_count = 9223372036854775806", []).unwrap();
    let (status, body) = look_up(&conn, "v", true);
    assert_eq!(status, 200);
    assert_eq!(member(&body, "view_count"), &Json::Integer(i64::MAX));
    assert_eq!(look_up(&conn, "v", true).0, 404);
    assert_eq!(look_up(&conn, "v", true).0, 404);
    let mut statement = conn.prepare(&list_videos::<f64>().sql).unwrap();
    let videos: Result<Vec<Video<f64>>, rusqlite::Error> =
        statement.query_map([], video).unwrap().collect();
    assert!(videos.is_err());
}
