use rusqlite::types::Value;
use rusqlite::{params_from_iter, Connection};
use video_server::catalog::{
    count_view, delete_video, find_video, insert_video, list_videos, update_video, Param, Statement,
    CREATE_TABLE, LIST_VIDEOS,
};
use video_server::number::Number;

fn values(statement: &Statement<f64>) -> Vec<Value> {
    statement
        .params
        .iter()
        .map(|param| match param {
            Param::Null => Value::Null,
            Param::Text(text) => Value::Text(text.clone()),
            Param::Integer(n) => Value::Integer(*n),
            Param::Real(Number::Finite(r)) => Value::Real(*r),
            Param::Real(Number::Infinity) => Value::Real(f64::INFINITY),
            Param::Real(Number::NegativeInfinity) => Value::Real(f64::NEG_INFINITY),
            Param::Real(Number::NotANumber) => Value::Real(f64::NAN),
        })
        .collect()
}

fn execute(conn: &Connection, statement: Statement<f64>) -> usize {
    conn.execute(&statement.sql, params_from_iter(values(&statement))).unwrap()
}

fn row(conn: &Connection, id: &str) -> Option<Vec<Value>> {
    let statement: Statement<f64> = find_video(id);
    conn.query_row(&statement.sql, params_from_iter(values(&statement)), |row| {
        (0..10).map(|i| row.get::<usize, Value>(i)).collect()
    })
    .ok()
}

fn insert(conn: &Connection, id: &str, date: &str) {
    let statement = insert_video(
        id,
        "Title".to_string(),
        "clip.mp4".to_string(),
        "mp4".to_string(),
        date.to_string(),
        "About".to_string(),
    );
    assert_eq!(execute(conn, statement), 1);
}

fn text(value: &str) -> Value {
    Value::Text(value.to_string())
}

fn catalog() -> Connection {
    let conn = Connection::open_in_memory().unwrap();
    conn.execute(CREATE_TABLE, []).unwrap();
    conn.execute(CREATE_TABLE, []).unwrap();
    conn
}

#[test]
fn a_new_record_is_found() {
    let conn = catalog();
    insert(&conn, "v", "2024");
    assert_eq!(
        row(&conn, "v"),
        Some(vec![
            text("v"),
            text("Title"),
            text("clip.mp4"),
            text("mp4"),
            Value::Null,
            Value::Null,
            text("2024"),
            text("About"),
            Value::Integer(0),
            Value::Null,
        ])
    );
    assert_eq!(row(&conn, "w"), None);
}

#[test]
fn a_view_is_counted_once() {
    let conn = catalog();
    insert(&conn, "v", "2024");
    insert(&conn, "w", "2024");
    assert_eq!(execute(&conn, count_view("v")), 1);
    assert_eq!(execute(&conn, count_view("v")), 1);
    assert_eq!(row(&conn, "v").unwrap()[8], Value::Integer(2));
    assert_eq!(row(&conn, "w").unwrap()[8], Value::Integer(0));
    assert_eq!(execute(&conn, count_view("x")), 0);
}

#[test]
fn a_record_is_completed() {
    let conn = catalog();
    insert(&conn, "v", "2024");
    let statement =
        update_video("v", Some(Number::Finite(12.5)), Some("640x480".to_string()), Some("v/thumbnail.jpg".to_string()));
    assert_eq!(execute(&conn, statement), 1);
    let found = row(&conn, "v").unwrap();
    assert_eq!(found[4], Value::Real(12.5));
    assert_eq!(found[5], text("640x480"));
    assert_eq!(found[9], text("v/thumbnail.jpg"));
    assert_eq!(found[1], text("Title"));
}

#[test]
fn a_record_is_removed() {
    let conn = catalog();
    insert(&conn, "v", "2024");
    insert(&conn, "w", "2024");
    assert_eq!(execute(&conn, delete_video("v")), 1);
    assert_eq!(row(&conn, "v"), None);
    assert!(row(&conn, "w").is_some());
}

#[test]
fn the_latest_upload_is_listed_first() {
    let conn = catalog();
    insert(&conn, "a", "2024-01-01T00:00:00+00:00");
    insert(&conn, "b", "2024-01-01T00:00:00.5+00:00");
    insert(&conn, "c", "2023-12-31T23:59:59+00:00");
    let listing: Statement<f64> = list_videos();
    assert_eq!(listing, Statement { sql: LIST_VIDEOS.to_string(), params: vec![] });
    let mut statement = conn.prepare(&listing.sql).unwrap();
    let ids: Vec<String> =
        statement.query_map([], |row| row.get(0)).unwrap().collect::<Result<_, _>>().unwrap();
    assert_eq!(ids, vec!["b", "a", "c"]);
}

#[test]
fn a_duration_that_is_not_a_number_is_kept_as_null() {
    let conn = catalog();
    insert(&conn, "v", "2024");
    let cases = vec![
        (Some(Number::Infinity), Value::Real(f64::INFINITY)),
        (Some(Number::NotANumber), Value::Null),
        (Some(Number::NegativeInfinity), Value::Real(f64::NEG_INFINITY)),
        (None, Value::Null),
        (Some(Number::Finite(3.0)), Value::Real(3.0)),
    ];
    for (duration, kept) in cases {
        assert_eq!(execute(&conn, update_video("v", duration, None, None)), 1);
        assert_eq!(row(&conn, "v").unwrap()[4], kept);
    }
}
