//! The statements by which the catalog of videos is kept.

use crate::number::Number;
use crate::text::optional_text;
use vstd::prelude::*;

verus! {

/// Makes the table of videos, where it is not there yet.
pub const CREATE_TABLE: &'static str = "CREATE TABLE IF NOT EXISTS videos (
            id TEXT PRIMARY KEY,
            title TEXT NOT NULL,
            original_filename TEXT NOT NULL,
            file_extension TEXT NOT NULL,
            duration REAL,
            resolution TEXT,
            upload_date TEXT NOT NULL,
            description TEXT,
            view_count INTEGER DEFAULT 0,
            thumbnail TEXT
        )";

/// Records a new video.
pub const INSERT_VIDEO: &'static str = "INSERT INTO videos (id, title, original_filename, file_extension, duration, resolution, upload_date, description, view_count, thumbnail)
             VALUES (?1, ?2, ?3, ?4, ?5, ?6, ?7, ?8, ?9, ?10)";

/// Completes the record of a processed video.
pub const UPDATE_VIDEO: &'static str =
    "UPDATE videos SET duration = ?1, resolution = ?2, thumbnail = ?3 WHERE id = ?4";

/// Removes the record of a video.
pub const DELETE_VIDEO: &'static str = "DELETE FROM videos WHERE id = ?1";

/// Counts one more view of a video.
pub const COUNT_VIEW: &'static str = "UPDATE videos SET view_count = view_count + 1 WHERE id = ?1";

/// Finds one video.
pub const FIND_VIDEO: &'static str = "SELECT id, title, original_filename, file_extension, duration, resolution, upload_date, description, view_count, thumbnail
         FROM videos WHERE id = ?1";

/// Lists all videos, the latest upload first.
pub const LIST_VIDEOS: &'static str = "SELECT id, title, original_filename, file_extension, duration, resolution, upload_date, description, view_count, thumbnail
         FROM videos ORDER BY upload_date DESC";

/// A value that a statement is given. `R` is the type of finite numbers.
#[derive(Debug, PartialEq)]
pub enum Param<R> {
    Null,
    Text(String),
    Integer(i64),
    Real(Number<R>),
}

/// A statement with the values of its parameters, the first one first.
#[derive(Debug, PartialEq)]
pub struct Statement<R> {
    pub sql: String,
    pub params: Vec<Param<R>>,
}

/// A parameter as a mathematical value.
pub enum ParamModel<R> {
    Null,
    Text(Seq<char>),
    Integer(int),
    Real(Number<R>),
}

/// A statement as a mathematical value.
pub struct StatementModel<R> {
    pub sql: Seq<char>,
    pub params: Seq<ParamModel<R>>,
}

impl<R> View for Param<R> {
    type V = ParamModel<R>;

    open spec fn view(&self) -> ParamModel<R> {
        match self {
            Param::Null => ParamModel::Null,
            Param::Text(text) => ParamModel::Text(text@),
            Param::Integer(n) => ParamModel::Integer(n as int),
            Param::Real(r) => ParamModel::Real(*r),
        }
    }
}

/// The parameters as mathematical values.
pub open spec fn param_models<R>(params: Seq<Param<R>>) -> Seq<ParamModel<R>> {
    Seq::new(params.len(), |i: int| params[i]@)
}

impl<R> View for Statement<R> {
    type V = StatementModel<R>;

    open spec fn view(&self) -> StatementModel<R> {
        StatementModel { sql: self.sql@, params: param_models(self.params@) }
    }
}

/// A text, or null where there is none.
pub open spec fn nullable_text<R>(text: Option<Seq<char>>) -> ParamModel<R> {
    match text {
        Some(t) => ParamModel::Text(t),
        None => ParamModel::Null,
    }
}

/// A number, or null where there is none.
pub open spec fn nullable_real<R>(number: Option<Number<R>>) -> ParamModel<R> {
    match number {
        Some(r) => ParamModel::Real(r),
        None => ParamModel::Null,
    }
}

/// The record of a video that has just been uploaded: not viewed yet, and with
/// nothing known that only processing tells.
pub open spec fn insertion<R>(
    id: Seq<char>,
    title: Seq<char>,
    file_name: Seq<char>,
    extension: Seq<char>,
    date: Seq<char>,
    description: Seq<char>,
) -> StatementModel<R> {
    StatementModel {
        sql: INSERT_VIDEO@,
        params: seq![
            ParamModel::Text(id),
            ParamModel::Text(title),
            ParamModel::Text(file_name),
            ParamModel::Text(extension),
            ParamModel::Null,
            ParamModel::Null,
            ParamModel::Text(date),
            ParamModel::Text(description),
            ParamModel::Integer(0),
            ParamModel::Null,
        ],
    }
}

/// The completion of a record by what processing told.
pub open spec fn completion<R>(
    id: Seq<char>,
    duration: Option<Number<R>>,
    resolution: Option<Seq<char>>,
    thumbnail: Option<Seq<char>>,
) -> StatementModel<R> {
    StatementModel {
        sql: UPDATE_VIDEO@,
        params: seq![
            nullable_real(duration),
            nullable_text(resolution),
            nullable_text(thumbnail),
            ParamModel::Text(id),
        ],
    }
}

/// A statement whose only parameter is the identifier of a video.
pub open spec fn keyed<R>(sql: Seq<char>, id: Seq<char>) -> StatementModel<R> {
    StatementModel { sql, params: seq![ParamModel::Text(id)] }
}

fn text_param<R>(text: Option<String>) -> (param: Param<R>)
    ensures
        param@ == nullable_text::<R>(optional_text(text)),
{
    match text {
        Some(t) => Param::Text(t),
        None => Param::Null,
    }
}

fn real_param<R>(number: Option<Number<R>>) -> (param: Param<R>)
    ensures
        param@ == nullable_real(number),
{
    match number {
        Some(r) => Param::Real(r),
        None => Param::Null,
    }
}

/// Writes the record of a new video.
pub fn insert_video<R>(
    id: &str,
    title: String,
    file_name: String,
    extension: String,
    date: String,
    description: String,
) -> (statement: Statement<R>)
    ensures
        statement@ == insertion::<R>(id@, title@, file_name@, extension@, date@, description@),
{
    let mut params: Vec<Param<R>> = Vec::new();
    params.push(Param::Text(id.to_owned()));
    params.push(Param::Text(title));
    params.push(Param::Text(file_name));
    params.push(Param::Text(extension));
    params.push(Param::Null);
    params.push(Param::Null);
    params.push(Param::Text(date));
    params.push(Param::Text(description));
    params.push(Param::Integer(0));
    params.push(Param::Null);
    assert(param_models(params@) =~= insertion::<R>(
        id@,
        title@,
        file_name@,
        extension@,
        date@,
        description@,
    ).params);
    Statement { sql: INSERT_VIDEO.to_owned(), params }
}

/// Completes the record of a processed video.
pub fn update_video<R>(
    id: &str,
    duration: Option<Number<R>>,
    resolution: Option<String>,
    thumbnail: Option<String>,
) -> (statement: Statement<R>)
    ensures
        statement@ == completion(id@, duration, optional_text(resolution), optional_text(thumbnail)),
{
    let mut params: Vec<Param<R>> = Vec::new();
    params.push(real_param(duration));
    params.push(text_param(resolution));
    params.push(text_param(thumbnail));
    params.push(Param::Text(id.to_owned()));
    assert(param_models(params@) =~= completion(
        id@,
        duration,
        optional_text(resolution),
        optional_text(thumbnail),
    ).params);
    Statement { sql: UPDATE_VIDEO.to_owned(), params }
}

fn keyed_statement<R>(sql: &str, id: &str) -> (statement: Statement<R>)
    ensures
        statement@ == keyed::<R>(sql@, id@),
{
    let mut params: Vec<Param<R>> = Vec::new();
    params.push(Param::Text(id.to_owned()));
    assert(param_models(params@) =~= keyed::<R>(sql@, id@).params);
    Statement { sql: sql.to_owned(), params }
}

/// Removes the record of a video.
pub fn delete_video<R>(id: &str) -> (statement: Statement<R>)
    ensures
        statement@ == keyed::<R>(DELETE_VIDEO@, id@),
{
    keyed_statement(DELETE_VIDEO, id)
}

/// Counts one more view of a video.
pub fn count_view<R>(id: &str) -> (statement: Statement<R>)
    ensures
        statement@ == keyed::<R>(COUNT_VIEW@, id@),
{
    keyed_statement(COUNT_VIEW, id)
}

/// Finds one video.
pub fn find_video<R>(id: &str) -> (statement: Statement<R>)
    ensures
        statement@ == keyed::<R>(FIND_VIDEO@, id@),
{
    keyed_statement(FIND_VIDEO, id)
}

/// Lists all videos.
pub fn list_videos<R>() -> (statement: Statement<R>)
    ensures
        statement@ == (StatementModel::<R> { sql: LIST_VIDEOS@, params: Seq::empty() }),
{
    let params: Vec<Param<R>> = Vec::new();
    assert(param_models(params@) =~= Seq::empty());
    Statement { sql: LIST_VIDEOS.to_owned(), params }
}

/// The statement only asks, and changes nothing.
pub open spec fn queries(sql: Seq<char>) -> bool {
    sql == FIND_VIDEO@ || sql == LIST_VIDEOS@
}

/// The statements that change the table differ from one another, and from those
/// that only ask.
pub proof fn law_statements_are_told_apart()
    ensures
        INSERT_VIDEO@ != UPDATE_VIDEO@,
        INSERT_VIDEO@ != DELETE_VIDEO@,
        INSERT_VIDEO@ != COUNT_VIEW@,
        UPDATE_VIDEO@ != DELETE_VIDEO@,
        UPDATE_VIDEO@ != COUNT_VIEW@,
        DELETE_VIDEO@ != COUNT_VIEW@,
        forall|sql: Seq<char>| #[trigger]
            queries(sql) ==> sql != INSERT_VIDEO@ && sql != UPDATE_VIDEO@ && sql != DELETE_VIDEO@
                && sql != COUNT_VIEW@,
{
    reveal_strlit("INSERT INTO videos (id, title, original_filename, file_extension, duration, resolution, upload_date, description, view_count, thumbnail)
             VALUES (?1, ?2, ?3, ?4, ?5, ?6, ?7, ?8, ?9, ?10)");
    reveal_strlit("UPDATE videos SET duration = ?1, resolution = ?2, thumbnail = ?3 WHERE id = ?4");
    reveal_strlit("DELETE FROM videos WHERE id = ?1");
    reveal_strlit("UPDATE videos SET view_count = view_count + 1 WHERE id = ?1");
    reveal_strlit("SELECT id, title, original_filename, file_extension, duration, resolution, upload_date, description, view_count, thumbnail
         FROM videos WHERE id = ?1");
    reveal_strlit("SELECT id, title, original_filename, file_extension, duration, resolution, upload_date, description, view_count, thumbnail
         FROM videos ORDER BY upload_date DESC");
    assert(INSERT_VIDEO@[0] == 'I');
    assert(DELETE_VIDEO@[0] == 'D');
    assert(UPDATE_VIDEO@[0] == 'U');
    assert(COUNT_VIEW@[0] == 'U');
    assert(UPDATE_VIDEO@[18] == 'd');
    assert(COUNT_VIEW@[18] == 'v');
    assert(FIND_VIDEO@[0] == 'S');
    assert(LIST_VIDEOS@[0] == 'S');
}

/// A statement is known by what it holds: its text, and each value in its order.
pub proof fn law_statements_hold_what_is_put_in<R>(statement: Statement<R>)
    ensures
        statement@.sql == statement.sql@,
        statement@.params.len() == statement.params@.len(),
        forall|i: int|
            0 <= i < statement.params@.len() ==> match statement.params@[i] {
                Param::Null => #[trigger] statement@.params[i] is Null,
                Param::Text(text) => statement@.params[i] == ParamModel::<R>::Text(text@),
                Param::Integer(n) => statement@.params[i] == ParamModel::<R>::Integer(n as int),
                Param::Real(r) => statement@.params[i] == ParamModel::Real(r),
            },
{
}

/// Where each value stands in the statements. What is given is put in unchanged;
/// a value that is not there is null.
pub proof fn law_values_stand_in_their_places<R>(
    id: Seq<char>,
    title: Seq<char>,
    file_name: Seq<char>,
    extension: Seq<char>,
    date: Seq<char>,
    description: Seq<char>,
    duration: Option<Number<R>>,
    resolution: Option<Seq<char>>,
    thumbnail: Option<Seq<char>>,
    sql: Seq<char>,
)
    ensures
        ({
            let new = insertion::<R>(id, title, file_name, extension, date, description);
            &&& new.sql == INSERT_VIDEO@
            &&& new.params.len() == 10
            &&& new.params[0] == ParamModel::<R>::Text(id)
            &&& new.params[1] == ParamModel::<R>::Text(title)
            &&& new.params[2] == ParamModel::<R>::Text(file_name)
            &&& new.params[3] == ParamModel::<R>::Text(extension)
            &&& new.params[6] == ParamModel::<R>::Text(date)
            &&& new.params[7] == ParamModel::<R>::Text(description)
            &&& new.params[8] == ParamModel::<R>::Integer(0)
            &&& new.params[4] is Null && new.params[5] is Null && new.params[9] is Null
        }),
        ({
            let done = completion(id, duration, resolution, thumbnail);
            &&& done.sql == UPDATE_VIDEO@
            &&& done.params.len() == 4
            &&& match duration {
                Some(number) => done.params[0] == ParamModel::Real(number),
                None => done.params[0] is Null,
            }
            &&& match resolution {
                Some(text) => done.params[1] == ParamModel::<R>::Text(text),
                None => done.params[1] is Null,
            }
            &&& match thumbnail {
                Some(text) => done.params[2] == ParamModel::<R>::Text(text),
                None => done.params[2] is Null,
            }
            &&& done.params[3] == ParamModel::<R>::Text(id)
        }),
        keyed::<R>(sql, id).sql == sql,
        keyed::<R>(sql, id).params.len() == 1,
        keyed::<R>(sql, id).params[0] == ParamModel::<R>::Text(id),
{
}

/// What the statements are put together from. All that name columns name the same
/// ten in the same order, those that are for one video pick it by its identifier
/// alone, and the listing leaves none out and puts the latest upload first.
pub proof fn law_statements_name_the_same_columns()
    ensures
        ({
            let columns =
                "id, title, original_filename, file_extension, duration, resolution, upload_date, description, view_count, thumbnail"@;
            let picked = " WHERE id = ?1"@;
            &&& FIND_VIDEO@ == "SELECT "@ + columns + "\n         FROM videos"@ + picked
            &&& LIST_VIDEOS@ == "SELECT "@ + columns
                + "\n         FROM videos ORDER BY upload_date DESC"@
            &&& INSERT_VIDEO@ == "INSERT INTO videos ("@ + columns
                + ")\n             VALUES (?1, ?2, ?3, ?4, ?5, ?6, ?7, ?8, ?9, ?10)"@
            &&& DELETE_VIDEO@ == "DELETE FROM videos"@ + picked
            &&& COUNT_VIEW@ == "UPDATE videos SET view_count = view_count + 1"@ + picked
            &&& UPDATE_VIDEO@ == "UPDATE videos SET duration = ?1, resolution = ?2, thumbnail = ?3"@
                + " WHERE id = ?4"@
        }),
{
    reveal_strlit("SELECT id, title, original_filename, file_extension, duration, resolution, upload_date, description, view_count, thumbnail
         FROM videos WHERE id = ?1");
    reveal_strlit("SELECT id, title, original_filename, file_extension, duration, resolution, upload_date, description, view_count, thumbnail
         FROM videos ORDER BY upload_date DESC");
    reveal_strlit("INSERT INTO videos (id, title, original_filename, file_extension, duration, resolution, upload_date, description, view_count, thumbnail)
             VALUES (?1, ?2, ?3, ?4, ?5, ?6, ?7, ?8, ?9, ?10)");
    reveal_strlit("DELETE FROM videos WHERE id = ?1");
    reveal_strlit("UPDATE videos SET view_count = view_count + 1 WHERE id = ?1");
    reveal_strlit("UPDATE videos SET duration = ?1, resolution = ?2, thumbnail = ?3 WHERE id = ?4");
    reveal_strlit("id, title, original_filename, file_extension, duration, resolution, upload_date, description, view_count, thumbnail");
    reveal_strlit(" WHERE id = ?1");
    reveal_strlit(" WHERE id = ?4");
    reveal_strlit("SELECT ");
    reveal_strlit("\n         FROM videos");
    reveal_strlit("\n         FROM videos ORDER BY upload_date DESC");
    reveal_strlit("INSERT INTO videos (");
    reveal_strlit(")\n             VALUES (?1, ?2, ?3, ?4, ?5, ?6, ?7, ?8, ?9, ?10)");
    reveal_strlit("DELETE FROM videos");
    reveal_strlit("UPDATE videos SET view_count = view_count + 1");
    reveal_strlit("UPDATE videos SET duration = ?1, resolution = ?2, thumbnail = ?3");
    let columns =
        "id, title, original_filename, file_extension, duration, resolution, upload_date, description, view_count, thumbnail"@;
    let picked = " WHERE id = ?1"@;
    assert(FIND_VIDEO@ =~= "SELECT "@ + columns + "\n         FROM videos"@ + picked);
    assert(LIST_VIDEOS@ =~= "SELECT "@ + columns
        + "\n         FROM videos ORDER BY upload_date DESC"@);
    assert(INSERT_VIDEO@ =~= "INSERT INTO videos ("@ + columns
        + ")\n             VALUES (?1, ?2, ?3, ?4, ?5, ?6, ?7, ?8, ?9, ?10)"@);
    assert(DELETE_VIDEO@ =~= "DELETE FROM videos"@ + picked);
    assert(COUNT_VIEW@ =~= "UPDATE videos SET view_count = view_count + 1"@ + picked);
    assert(UPDATE_VIDEO@ =~= "UPDATE videos SET duration = ?1, resolution = ?2, thumbnail = ?3"@
        + " WHERE id = ?4"@);
}

/// Whatever statements are given: each for its own purpose, and those for one video
/// with its identifier as their only value.
pub proof fn law_given_statements_are_for_that_video<R>(
    id: &str,
    removes: Statement<R>,
    counts: Statement<R>,
    finds: Statement<R>,
    lists: Statement<R>,
)
    requires
        call_ensures(delete_video::<R>, (id,), removes),
        call_ensures(count_view::<R>, (id,), counts),
        call_ensures(find_video::<R>, (id,), finds),
        call_ensures(list_videos::<R>, (), lists),
    ensures
        removes.sql@ == DELETE_VIDEO@,
        counts.sql@ == COUNT_VIEW@,
        finds.sql@ == FIND_VIDEO@,
        lists.sql@ == LIST_VIDEOS@,
        removes@.params == seq![ParamModel::<R>::Text(id@)],
        counts@.params == seq![ParamModel::<R>::Text(id@)],
        finds@.params == seq![ParamModel::<R>::Text(id@)],
        lists@.params.len() == 0,
{
}

/// The table has the ten columns in the order in which the statements name them. Its
/// key is the identifier, only what processing tells and the description may be
/// null, and nothing else is asked of a value.
pub proof fn law_table_has_the_columns()
    ensures
        ({
            let next = "\n            "@;
            CREATE_TABLE@ == "CREATE TABLE IF NOT EXISTS videos ("@
                + next + "id TEXT PRIMARY KEY,"@
                + next + "title TEXT NOT NULL,"@
                + next + "original_filename TEXT NOT NULL,"@
                + next + "file_extension TEXT NOT NULL,"@
                + next + "duration REAL,"@
                + next + "resolution TEXT,"@
                + next + "upload_date TEXT NOT NULL,"@
                + next + "description TEXT,"@
                + next + "view_count INTEGER DEFAULT 0,"@
                + next + "thumbnail TEXT"@
                + "\n        )"@
        }),
{
    reveal_strlit("CREATE TABLE IF NOT EXISTS videos (
            id TEXT PRIMARY KEY,
            title TEXT NOT NULL,
            original_filename TEXT NOT NULL,
            file_extension TEXT NOT NULL,
            duration REAL,
            resolution TEXT,
            upload_date TEXT NOT NULL,
            description TEXT,
            view_count INTEGER DEFAULT 0,
            thumbnail TEXT
        )");
    reveal_strlit("CREATE TABLE IF NOT EXISTS videos (");
    reveal_strlit("\n            ");
    reveal_strlit("\n        )");
    reveal_strlit("id TEXT PRIMARY KEY,");
    reveal_strlit("title TEXT NOT NULL,");
    reveal_strlit("original_filename TEXT NOT NULL,");
    reveal_strlit("file_extension TEXT NOT NULL,");
    reveal_strlit("duration REAL,");
    reveal_strlit("resolution TEXT,");
    reveal_strlit("upload_date TEXT NOT NULL,");
    reveal_strlit("description TEXT,");
    reveal_strlit("view_count INTEGER DEFAULT 0,");
    reveal_strlit("thumbnail TEXT");
    let next = "\n            "@;
    assert(CREATE_TABLE@ =~= "CREATE TABLE IF NOT EXISTS videos ("@
        + next + "id TEXT PRIMARY KEY,"@
        + next + "title TEXT NOT NULL,"@
        + next + "original_filename TEXT NOT NULL,"@
        + next + "file_extension TEXT NOT NULL,"@
        + next + "duration REAL,"@
        + next + "resolution TEXT,"@
        + next + "upload_date TEXT NOT NULL,"@
        + next + "description TEXT,"@
        + next + "view_count INTEGER DEFAULT 0,"@
        + next + "thumbnail TEXT"@
        + "\n        )"@);
}

} // verus!
