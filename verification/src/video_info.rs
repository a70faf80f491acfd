//! Answering what is known of the videos.

use crate::catalog::{
    count_view, find_video, keyed, ParamModel, Statement, StatementModel, COUNT_VIEW, FIND_VIDEO,
};
use crate::layout::{
    playlist_address, playlist_file, playlist_path, playlist_url, thumbnail_address, thumbnail_url,
};
use crate::number::Number;
use crate::reply::{
    array, cached_headers, cached_headers_for, element_models, headers_for, member_models, object,
    open_headers, plain, plain_reply, put, tells, Content, ContentModel, Json, JsonModel,
    JsonReply, JsonReplyModel, Reply, ReplyModel, INTERNAL_SERVER_ERROR, NOT_FOUND, OK,
};
use crate::text::optional_text;
use vstd::prelude::*;

verus! {

/// The record of a video. `R` is the type of finite numbers.
#[derive(Debug, PartialEq)]
pub struct Video<R> {
    pub id: String,
    pub title: String,
    pub original_filename: String,
    pub file_extension: String,
    pub duration: Option<Number<R>>,
    pub resolution: Option<String>,
    pub upload_date: String,
    pub description: Option<String>,
    pub view_count: i64,
    pub thumbnail: Option<String>,
}

/// The record of a video as a mathematical value.
pub struct VideoModel<R> {
    pub id: Seq<char>,
    pub title: Seq<char>,
    pub original_filename: Seq<char>,
    pub file_extension: Seq<char>,
    pub duration: Option<Number<R>>,
    pub resolution: Option<Seq<char>>,
    pub upload_date: Seq<char>,
    pub description: Option<Seq<char>>,
    pub view_count: int,
    pub thumbnail: Option<Seq<char>>,
}

impl<R> View for Video<R> {
    type V = VideoModel<R>;

    open spec fn view(&self) -> VideoModel<R> {
        VideoModel {
            id: self.id@,
            title: self.title@,
            original_filename: self.original_filename@,
            file_extension: self.file_extension@,
            duration: self.duration,
            resolution: optional_text(self.resolution),
            upload_date: self.upload_date@,
            description: optional_text(self.description),
            view_count: self.view_count as int,
            thumbnail: optional_text(self.thumbnail),
        }
    }
}

/// A text, or null where there is none.
pub open spec fn json_text<R>(text: Option<Seq<char>>) -> JsonModel<R> {
    match text {
        Some(t) => JsonModel::Text(t),
        None => JsonModel::Null,
    }
}

/// A finite number, or null where there is none: JSON has no other numbers.
pub open spec fn json_real<R>(number: Option<Number<R>>) -> JsonModel<R> {
    match number {
        Some(Number::Finite(r)) => JsonModel::Real(r),
        _ => JsonModel::Null,
    }
}

/// What every description of a video tells of its record.
pub open spec fn record_members<R>(video: VideoModel<R>) -> Seq<(Seq<char>, JsonModel<R>)> {
    seq![
        ("id"@, JsonModel::Text(video.id)),
        ("title"@, JsonModel::Text(video.title)),
        ("original_filename"@, JsonModel::Text(video.original_filename)),
        ("file_extension"@, JsonModel::Text(video.file_extension)),
        ("duration"@, json_real(video.duration)),
        ("resolution"@, json_text(video.resolution)),
        ("upload_date"@, JsonModel::Text(video.upload_date)),
        ("description"@, json_text(video.description)),
        ("view_count"@, JsonModel::Integer(video.view_count)),
    ]
}

/// The address of the thumbnail, where the record has one.
pub open spec fn recorded_thumbnail<R>(video: VideoModel<R>) -> Option<Seq<char>> {
    if video.thumbnail is Some {
        Some(thumbnail_address(video.id))
    } else {
        None
    }
}

/// Whether a video can be streamed yet.
pub open spec fn status_text(playlist_exists: bool) -> Seq<char> {
    if playlist_exists {
        "ready"@
    } else {
        "processing"@
    }
}

/// The full description of a video.
pub open spec fn detail<R>(video: VideoModel<R>, playlist_exists: bool) -> JsonModel<R> {
    JsonModel::Object(
        record_members(video) + seq![
            ("playlist_url"@, JsonModel::Text(playlist_address(video.id))),
            ("thumbnail_url"@, json_text(recorded_thumbnail(video))),
            ("status"@, JsonModel::Text(status_text(playlist_exists))),
        ],
    )
}

/// The description of a video in a list.
pub open spec fn summary<R>(video: VideoModel<R>) -> JsonModel<R> {
    JsonModel::Object(
        record_members(video) + seq![
            ("thumbnail_url"@, json_text(recorded_thumbnail(video))),
            ("playlist_url"@, JsonModel::Text(playlist_address(video.id))),
        ],
    )
}

/// An object that tells what went wrong.
pub open spec fn error_body<R>(message: Seq<char>) -> JsonModel<R> {
    JsonModel::Object(seq![("error"@, JsonModel::Text(message))])
}

fn text_or_null<R>(text: Option<String>) -> (json: Json<R>)
    ensures
        json@ == json_text::<R>(optional_text(text)),
{
    match text {
        Some(t) => Json::Text(t),
        None => Json::Null,
    }
}

fn real_or_null<R>(number: Option<Number<R>>) -> (json: Json<R>)
    ensures
        json@ == json_real(number),
{
    match number {
        Some(Number::Finite(r)) => Json::Real(r),
        _ => Json::Null,
    }
}

/// The members that every description shares, and the addresses of the playlist
/// and, where the record has one, of the thumbnail.
fn describe<R>(video: Video<R>) -> (description: (Vec<(String, Json<R>)>, String, Option<String>))
    ensures
        member_models(description.0@) == record_members(video@),
        description.1@ == playlist_address(video@.id),
        optional_text(description.2) == recorded_thumbnail(video@),
{
    let playlist = playlist_url(video.id.as_str());
    let thumbnail = match video.thumbnail {
        Some(_) => Some(thumbnail_url(video.id.as_str())),
        None => None,
    };
    let mut members: Vec<(String, Json<R>)> = Vec::new();
    put(&mut members, "id", Json::Text(video.id));
    put(&mut members, "title", Json::Text(video.title));
    put(&mut members, "original_filename", Json::Text(video.original_filename));
    put(&mut members, "file_extension", Json::Text(video.file_extension));
    put(&mut members, "duration", real_or_null(video.duration));
    put(&mut members, "resolution", text_or_null(video.resolution));
    put(&mut members, "upload_date", Json::Text(video.upload_date));
    put(&mut members, "description", text_or_null(video.description));
    put(&mut members, "view_count", Json::Integer(video.view_count));
    assert(member_models(members@) =~= record_members(video@));
    (members, playlist, thumbnail)
}

/// Describes a video in full.
pub fn describe_video<R>(video: Video<R>, playlist_exists: bool) -> (json: Json<R>)
    ensures
        json@ == detail(video@, playlist_exists),
{
    let (mut members, playlist, thumbnail) = describe(video);
    let status = if playlist_exists {
        "ready"
    } else {
        "processing"
    };
    put(&mut members, "playlist_url", Json::Text(playlist));
    put(&mut members, "thumbnail_url", text_or_null(thumbnail));
    put(&mut members, "status", Json::Text(status.to_owned()));
    assert(JsonModel::Object(member_models(members@)) == detail(video@, playlist_exists)) by {
        assert(member_models(members@) =~= detail(video@, playlist_exists)->Object_0);
    }
    object(members)
}

/// Describes a video for a list.
pub fn summarize_video<R>(video: Video<R>) -> (json: Json<R>)
    ensures
        json@ == summary(video@),
{
    let (mut members, playlist, thumbnail) = describe(video);
    put(&mut members, "thumbnail_url", text_or_null(thumbnail));
    put(&mut members, "playlist_url", Json::Text(playlist));
    assert(member_models(members@) =~= summary(video@)->Object_0);
    object(members)
}

fn error_object<R>(message: String) -> (json: Json<R>)
    ensures
        json@ == error_body::<R>(message@),
{
    let mut members: Vec<(String, Json<R>)> = Vec::new();
    put(&mut members, "error", Json::Text(message));
    assert(member_models(members@) =~= error_body::<R>(message@)->Object_0);
    object(members)
}

/// How far the answer to a request for one video has come.
#[derive(Debug, PartialEq)]
pub enum LookupState<R> {
    /// The catalog is being locked.
    Locking(String),
    /// The view is being counted.
    Counting(String),
    /// The record is being read.
    Fetching(String),
    /// The playlist is being looked for.
    Checking(Video<R>),
    /// The request is answered.
    Finished,
}

/// What came of an action.
#[derive(Debug, PartialEq)]
pub enum LookupEvent<R> {
    /// Whether the catalog could be locked.
    Locked(bool),
    /// The view was counted, or could not be.
    Counted,
    /// The record that was found.
    Fetched(Option<Video<R>>),
    /// Whether the playlist exists.
    Checked(bool),
}

/// What is to be done next.
#[derive(Debug, PartialEq)]
pub enum LookupAction<R> {
    /// Lock the catalog.
    Lock,
    /// Execute a statement, whatever comes of it.
    Execute(Statement<R>),
    /// Read the one record that a statement finds.
    Query(Statement<R>),
    /// Look whether a file exists.
    CheckFile(String),
    /// Answer the request.
    Respond(JsonReply<R>),
}

/// The state of a lookup as a mathematical value.
pub enum LookupStateModel<R> {
    Locking(Seq<char>),
    Counting(Seq<char>),
    Fetching(Seq<char>),
    Checking(VideoModel<R>),
    Finished,
}

/// An event of a lookup as a mathematical value.
pub enum LookupEventModel<R> {
    Locked(bool),
    Counted,
    Fetched(Option<VideoModel<R>>),
    Checked(bool),
}

/// An action of a lookup as a mathematical value.
pub enum LookupActionModel<R> {
    Lock,
    Execute(StatementModel<R>),
    Query(StatementModel<R>),
    CheckFile(Seq<char>),
    Respond(JsonReplyModel<R>),
}

impl<R> View for LookupState<R> {
    type V = LookupStateModel<R>;

    open spec fn view(&self) -> LookupStateModel<R> {
        match self {
            LookupState::Locking(id) => LookupStateModel::Locking(id@),
            LookupState::Counting(id) => LookupStateModel::Counting(id@),
            LookupState::Fetching(id) => LookupStateModel::Fetching(id@),
            LookupState::Checking(video) => LookupStateModel::Checking(video@),
            LookupState::Finished => LookupStateModel::Finished,
        }
    }
}

impl<R> View for LookupEvent<R> {
    type V = LookupEventModel<R>;

    open spec fn view(&self) -> LookupEventModel<R> {
        match self {
            LookupEvent::Locked(locked) => LookupEventModel::Locked(*locked),
            LookupEvent::Counted => LookupEventModel::Counted,
            LookupEvent::Fetched(None) => LookupEventModel::Fetched(None),
            LookupEvent::Fetched(Some(video)) => LookupEventModel::Fetched(Some(video@)),
            LookupEvent::Checked(exists) => LookupEventModel::Checked(*exists),
        }
    }
}

impl<R> View for LookupAction<R> {
    type V = LookupActionModel<R>;

    open spec fn view(&self) -> LookupActionModel<R> {
        match self {
            LookupAction::Lock => LookupActionModel::Lock,
            LookupAction::Execute(statement) => LookupActionModel::Execute(statement@),
            LookupAction::Query(statement) => LookupActionModel::Query(statement@),
            LookupAction::CheckFile(path) => LookupActionModel::CheckFile(path@),
            LookupAction::Respond(reply) => LookupActionModel::Respond(reply@),
        }
    }
}

/// The answer where the catalog cannot be locked.
pub open spec fn unavailable_reply<R>() -> JsonReplyModel<R> {
    JsonReplyModel {
        status: INTERNAL_SERVER_ERROR,
        headers: open_headers("application/json"@),
        body: error_body("database error"@),
    }
}

/// The answer where no record was found.
pub open spec fn unknown_reply<R>(id: Seq<char>) -> JsonReplyModel<R> {
    JsonReplyModel {
        status: NOT_FOUND,
        headers: open_headers("application/json"@),
        body: JsonModel::Object(
            seq![
                ("id"@, JsonModel::Text(id)),
                ("status"@, JsonModel::Text("not_found"@)),
                ("message"@, JsonModel::Text("video not found"@)),
            ],
        ),
    }
}

/// The answer that describes a video.
pub open spec fn detail_reply<R>(video: VideoModel<R>, playlist_exists: bool) -> JsonReplyModel<R> {
    JsonReplyModel {
        status: OK,
        headers: open_headers("application/json"@),
        body: detail(video, playlist_exists),
    }
}

/// The event tells what came of the action that the state waits for.
pub open spec fn lookup_answered<R>(state: LookupStateModel<R>, event: LookupEventModel<R>) -> bool {
    match state {
        LookupStateModel::Locking(_) => event is Locked,
        LookupStateModel::Counting(_) => event is Counted,
        LookupStateModel::Fetching(_) => event is Fetched,
        LookupStateModel::Checking(_) => event is Checked,
        LookupStateModel::Finished => false,
    }
}

/// The next state and the next action.
pub open spec fn lookup_step<R>(
    state: LookupStateModel<R>,
    event: LookupEventModel<R>,
) -> (LookupStateModel<R>, LookupActionModel<R>)
    recommends
        lookup_answered(state, event),
{
    match (state, event) {
        (LookupStateModel::Locking(id), LookupEventModel::Locked(true)) => (
            LookupStateModel::Counting(id),
            LookupActionModel::Execute(keyed(COUNT_VIEW@, id)),
        ),
        (LookupStateModel::Locking(_), LookupEventModel::Locked(false)) => (
            LookupStateModel::Finished,
            LookupActionModel::Respond(unavailable_reply()),
        ),
        (LookupStateModel::Counting(id), LookupEventModel::Counted) => (
            LookupStateModel::Fetching(id),
            LookupActionModel::Query(keyed(FIND_VIDEO@, id)),
        ),
        (LookupStateModel::Fetching(id), LookupEventModel::Fetched(Some(video))) => (
            LookupStateModel::Checking(video),
            LookupActionModel::CheckFile(playlist_file(id)),
        ),
        (LookupStateModel::Fetching(id), LookupEventModel::Fetched(None)) => (
            LookupStateModel::Finished,
            LookupActionModel::Respond(unknown_reply(id)),
        ),
        (LookupStateModel::Checking(video), LookupEventModel::Checked(exists)) => (
            LookupStateModel::Finished,
            LookupActionModel::Respond(detail_reply(video, exists)),
        ),
        _ => arbitrary(),
    }
}

fn unavailable<R>() -> (reply: JsonReply<R>)
    ensures
        reply@ == unavailable_reply::<R>(),
{
    JsonReply {
        status: INTERNAL_SERVER_ERROR,
        headers: headers_for("application/json"),
        body: error_object("database error".to_owned()),
    }
}

fn unknown<R>(id: String) -> (reply: JsonReply<R>)
    ensures
        reply@ == unknown_reply::<R>(id@),
{
    let mut members: Vec<(String, Json<R>)> = Vec::new();
    put(&mut members, "id", Json::Text(id));
    put(&mut members, "status", Json::Text("not_found".to_owned()));
    put(&mut members, "message", Json::Text("video not found".to_owned()));
    assert(member_models(members@) =~= unknown_reply::<R>(id@).body->Object_0);
    JsonReply {
        status: NOT_FOUND,
        headers: headers_for("application/json"),
        body: object(members),
    }
}

/// Begins to answer a request for one video.
pub fn request_video<R>(video_id: String) -> (next: (LookupState<R>, LookupAction<R>))
    ensures
        next.0@ == LookupStateModel::<R>::Locking(video_id@),
        next.1@ == LookupActionModel::<R>::Lock,
{
    (LookupState::Locking(video_id), LookupAction::Lock)
}

/// Goes on with the answer to a request for one video, by what came of the last
/// action.
pub fn get_video<R>(state: LookupState<R>, event: LookupEvent<R>) -> (next: (
    LookupState<R>,
    LookupAction<R>,
))
    requires
        lookup_answered(state@, event@),
    ensures
        (next.0@, next.1@) == lookup_step(state@, event@),
{
    match (state, event) {
        (LookupState::Locking(id), LookupEvent::Locked(locked)) => if locked {
            let statement = count_view(id.as_str());
            (LookupState::Counting(id), LookupAction::Execute(statement))
        } else {
            (LookupState::Finished, LookupAction::Respond(unavailable()))
        },
        (LookupState::Counting(id), LookupEvent::Counted) => {
            let statement = find_video(id.as_str());
            (LookupState::Fetching(id), LookupAction::Query(statement))
        },
        (LookupState::Fetching(id), LookupEvent::Fetched(Some(video))) => {
            let path = playlist_path(id.as_str());
            (LookupState::Checking(video), LookupAction::CheckFile(path))
        },
        (LookupState::Fetching(id), LookupEvent::Fetched(None)) => {
            (LookupState::Finished, LookupAction::Respond(unknown(id)))
        },
        (LookupState::Checking(video), LookupEvent::Checked(exists)) => {
            let reply = JsonReply {
                status: OK,
                headers: headers_for("application/json"),
                body: describe_video(video, exists),
            };
            (LookupState::Finished, LookupAction::Respond(reply))
        },
        _ => vstd::pervasive::unreached(),
    }
}

/// The event tells what came of the action. No event follows an answer.
pub open spec fn lookup_outcome<R>(action: LookupActionModel<R>, event: LookupEventModel<R>) -> bool {
    match action {
        LookupActionModel::Lock => event is Locked,
        LookupActionModel::Execute(_) => event is Counted,
        LookupActionModel::Query(_) => event is Fetched,
        LookupActionModel::CheckFile(_) => event is Checked,
        LookupActionModel::Respond(_) => false,
    }
}

/// A lookup waits for exactly the events that tell what came of the action just
/// given: when it begins, and after every step.
pub proof fn law_lookup_waits_for_its_action<R>(
    id: Seq<char>,
    state: LookupStateModel<R>,
    event: LookupEventModel<R>,
    answer: LookupEventModel<R>,
)
    ensures
        lookup_answered(LookupStateModel::Locking(id), answer) <==> lookup_outcome(
            LookupActionModel::Lock,
            answer,
        ),
        lookup_answered(state, event) ==> (lookup_answered(lookup_step(state, event).0, answer)
            <==> lookup_outcome(lookup_step(state, event).1, answer)),
{
}

/// The events carry a lookup from `state` to its end.
pub open spec fn lookup_run<R>(
    state: LookupStateModel<R>,
    events: Seq<LookupEventModel<R>>,
) -> bool
    decreases events.len(),
{
    if events.len() == 0 {
        state is Finished
    } else {
        lookup_answered(state, events[0]) && lookup_run(
            lookup_step(state, events[0]).0,
            events.drop_first(),
        )
    }
}

/// The actions that the events call forth.
pub open spec fn lookup_actions<R>(
    state: LookupStateModel<R>,
    events: Seq<LookupEventModel<R>>,
) -> Seq<LookupActionModel<R>>
    decreases events.len(),
{
    if events.len() == 0 {
        Seq::empty()
    } else {
        seq![lookup_step(state, events[0]).1] + lookup_actions(
            lookup_step(state, events[0]).0,
            events.drop_first(),
        )
    }
}

/// The actions of a whole lookup, by what comes of them.
pub open spec fn lookup_script<R>(
    id: Seq<char>,
    locked: bool,
    record: Option<VideoModel<R>>,
    playlist_exists: bool,
) -> Seq<LookupActionModel<R>> {
    if !locked {
        seq![LookupActionModel::Respond(unavailable_reply())]
    } else {
        let prefix = seq![
            LookupActionModel::Execute(keyed(COUNT_VIEW@, id)),
            LookupActionModel::Query(keyed(FIND_VIDEO@, id)),
        ];
        match record {
            None => prefix.push(LookupActionModel::Respond(unknown_reply(id))),
            Some(video) => prefix.push(LookupActionModel::CheckFile(playlist_file(id))).push(
                LookupActionModel::Respond(detail_reply(video, playlist_exists)),
            ),
        }
    }
}

/// Every lookup comes to its end, and what it does is settled by three things:
/// whether the catalog could be locked, which record was found, and whether the
/// playlist exists. In a catalog that was locked the view is counted once, and
/// before the record is read, so that the answer counts it.
pub proof fn law_lookup_follows_the_script<R>(id: Seq<char>, events: Seq<LookupEventModel<R>>)
    requires
        lookup_run(LookupStateModel::Locking(id), events),
    ensures
        exists|locked: bool, record: Option<VideoModel<R>>, playlist_exists: bool|
            {
                &&& lookup_actions(LookupStateModel::Locking(id), events) == #[trigger] lookup_script(
                    id,
                    locked,
                    record,
                    playlist_exists,
                )
                &&& events[0] == LookupEventModel::<R>::Locked(locked)
                &&& locked ==> events[2] == LookupEventModel::Fetched(record)
                &&& locked && record is Some ==> events[3] == LookupEventModel::<R>::Checked(
                    playlist_exists,
                )
            },
{
    reveal_with_fuel(lookup_run, 5);
    reveal_with_fuel(lookup_actions, 5);
    let start = LookupStateModel::<R>::Locking(id);
    let locked = events[0]->Locked_0;
    if !locked {
        assert(lookup_actions(start, events) =~= lookup_script(id, locked, None, false));
    } else {
        let after_lock = events.drop_first();
        let after_count = after_lock.drop_first();
        let record = after_count[0]->Fetched_0;
        assert(after_count[0] == events[2]);
        if record is None {
            assert(lookup_actions(start, events) =~= lookup_script(id, locked, record, false));
        } else {
            let after_fetch = after_count.drop_first();
            let playlist_exists = after_fetch[0]->Checked_0;
            assert(after_fetch[0] == events[3]);
            assert(lookup_actions(start, events) =~= lookup_script(
                id,
                locked,
                record,
                playlist_exists,
            ));
        }
    }
}

/// A duration is sent as a number exactly where it is finite, in the description
/// of one video and in the list; else null is sent.
pub proof fn law_finite_durations_are_sent<R>(video: VideoModel<R>, playlist_exists: bool)
    ensures
        ({
            let sent = match video.duration {
                Some(Number::Finite(r)) => JsonModel::Real(r),
                Some(Number::Infinity) => JsonModel::Null,
                Some(Number::NegativeInfinity) => JsonModel::Null,
                Some(Number::NotANumber) => JsonModel::Null,
                None => JsonModel::Null,
            };
            &&& detail(video, playlist_exists)->Object_0[4] == ("duration"@, sent)
            &&& summary(video)->Object_0[4] == ("duration"@, sent)
        }),
{
}

/// The description of a video in a list is its full description without the
/// status.
pub proof fn law_summary_is_the_detail_without_status<R>(
    video: VideoModel<R>,
    playlist_exists: bool,
)
    ensures
        summary(video)->Object_0.len() + 1 == detail(video, playlist_exists)->Object_0.len(),
        forall|key: Seq<char>, value: JsonModel<R>| #[trigger]
            summary(video)->Object_0.contains((key, value)) <==> key != "status"@ && detail(
                video,
                playlist_exists,
            )->Object_0.contains((key, value)),
{
    reveal_strlit("status");
    reveal_strlit("id");
    reveal_strlit("title");
    reveal_strlit("original_filename");
    reveal_strlit("file_extension");
    reveal_strlit("duration");
    reveal_strlit("resolution");
    reveal_strlit("upload_date");
    reveal_strlit("description");
    reveal_strlit("view_count");
    reveal_strlit("playlist_url");
    reveal_strlit("thumbnail_url");
    assert("status"@[0] == 's');
    let short = summary(video)->Object_0;
    let full = detail(video, playlist_exists)->Object_0;
    assert forall|i: int| 0 <= i < short.len() implies full.contains(#[trigger] short[i])
        && short[i].0 != "status"@ by {
        if i < 9 {
            assert(full[i] == short[i]);
        } else if i == 9 {
            assert(full[10] == short[i]);
        } else {
            assert(full[9] == short[i]);
        }
        assert(short[i].0[0] != 's');
    }
    assert forall|i: int| 0 <= i < full.len() && full[i].0 != "status"@ implies short.contains(
        #[trigger] full[i],
    ) by {
        if i < 9 {
            assert(short[i] == full[i]);
        } else if i == 9 {
            assert(short[10] == full[i]);
        } else {
            assert(short[9] == full[i]);
        }
    }
}

/// A video is called ready exactly where the playlist that would be served
/// exists.
pub proof fn law_ready_exactly_with_playlist<R>(video: VideoModel<R>, playlist_exists: bool)
    ensures
        detail(video, playlist_exists)->Object_0.last() == (
            "status"@,
            JsonModel::<R>::Text("ready"@),
        ) <==> playlist_exists,
{
    reveal_strlit("ready");
    reveal_strlit("processing");
    assert("ready"@.len() != "processing"@.len());
}

/// What is known when all videos are asked for.
#[derive(Debug, PartialEq)]
pub enum Listing<R> {
    /// The catalog could not be locked.
    Unavailable,
    /// The statement could not be prepared, for this reason.
    Unprepared(String),
    /// The records could not be read, for this reason.
    Unread(String),
    /// The records, in the order of the catalog.
    Videos(Vec<Video<R>>),
}

/// The records as mathematical values.
pub open spec fn video_models<R>(videos: Seq<Video<R>>) -> Seq<VideoModel<R>> {
    Seq::new(videos.len(), |i: int| videos[i]@)
}

/// The answer that describes all videos in their order, and counts them.
pub open spec fn list_reply<R>(videos: Seq<VideoModel<R>>) -> JsonReplyModel<R> {
    JsonReplyModel {
        status: OK,
        headers: open_headers("application/json"@),
        body: JsonModel::Object(
            seq![
                (
                    "videos"@,
                    JsonModel::Array(Seq::new(videos.len(), |i: int| summary(videos[i]))),
                ),
                ("total"@, JsonModel::Integer(videos.len() as int)),
            ],
        ),
    }
}

/// The answer that tells why there is no list.
pub open spec fn failure_reply<R>(message: Seq<char>) -> JsonReplyModel<R> {
    JsonReplyModel {
        status: INTERNAL_SERVER_ERROR,
        headers: Seq::empty(),
        body: error_body(message),
    }
}

/// The answer to a request for all videos.
pub open spec fn listing_reply<R>(listing: Listing<R>) -> JsonReplyModel<R> {
    match listing {
        Listing::Unavailable => failure_reply("database error"@),
        Listing::Unprepared(reason) => failure_reply("failed to prepare: "@ + reason@),
        Listing::Unread(reason) => failure_reply("failed to fetch: "@ + reason@),
        Listing::Videos(videos) => list_reply(video_models(videos@)),
    }
}

fn failure<R>(message: String) -> (reply: JsonReply<R>)
    ensures
        reply@ == failure_reply::<R>(message@),
{
    let headers: Vec<(String, String)> = Vec::new();
    assert(crate::reply::header_models(headers@) =~= Seq::empty());
    JsonReply { status: INTERNAL_SERVER_ERROR, headers, body: error_object(message) }
}

fn list<R>(videos: Vec<Video<R>>) -> (reply: JsonReply<R>)
    ensures
        reply@ == list_reply(video_models(videos@)),
{
    let total: usize = videos.len();
    let ghost models = video_models(videos@);
    let ghost expected = Seq::new(models.len(), |i: int| summary(models[i]));
    let mut elements: Vec<Json<R>> = Vec::new();
    for video in it: videos
        invariant
            models == video_models(it.seq()),
            expected == Seq::new(models.len(), |i: int| summary(models[i])),
            element_models(elements@) == expected.take(it.index()),
    {
        let ghost before = elements@;
        let ghost k = it.index();
        assert(models[k] == video@);
        elements.push(summarize_video(video));
        proof {
            assert(element_models(elements@) =~= element_models(before).push(expected[k]));
            assert(expected.take(k + 1) =~= expected.take(k).push(expected[k]));
        }
    }
    assert(expected.take(models.len() as int) =~= expected);
    let mut members: Vec<(String, Json<R>)> = Vec::new();
    put(&mut members, "videos", array(elements));
    put(&mut members, "total", Json::Count(total));
    assert(member_models(members@) =~= list_reply(models).body->Object_0);
    JsonReply { status: OK, headers: headers_for("application/json"), body: object(members) }
}

/// Answers a request for all videos.
pub fn get_all_videos<R>(listing: Listing<R>) -> (reply: JsonReply<R>)
    ensures
        reply@ == listing_reply(listing),
{
    match listing {
        Listing::Unavailable => failure("database error".to_owned()),
        Listing::Unprepared(reason) => failure(
            "failed to prepare: ".to_owned().concat(reason.as_str()),
        ),
        Listing::Unread(reason) => failure("failed to fetch: ".to_owned().concat(reason.as_str())),
        Listing::Videos(videos) => list(videos),
    }
}

/// The answer to a request for a thumbnail, by what its file holds, where it
/// can be read.
pub open spec fn thumbnail_reply(thumbnail: Option<Seq<u8>>) -> ReplyModel {
    match thumbnail {
        Some(bytes) => ReplyModel {
            status: OK,
            headers: cached_headers("image/jpeg"@, "public, max-age=86400"@),
            body: ContentModel::Bytes(bytes),
        },
        None => plain_reply(NOT_FOUND, "thumbnail not found"@),
    }
}

/// Answers a request for a thumbnail. `thumbnail` is what
/// [`crate::layout::thumbnail_path`] holds, where it can be read.
pub fn get_thumbnail(thumbnail: Option<Vec<u8>>) -> (reply: Reply)
    ensures
        reply@ == thumbnail_reply(
            match thumbnail {
                Some(bytes) => Some(bytes@),
                None => None,
            },
        ),
{
    match thumbnail {
        Some(bytes) => Reply {
            status: OK,
            headers: cached_headers_for("image/jpeg", "public, max-age=86400"),
            body: Content::Bytes(bytes),
        },
        None => plain(NOT_FOUND, "thumbnail not found".to_owned()),
    }
}

/// The object tells of the record: under each name stands the value that the record
/// holds, null where it holds none, and the addresses lead to that video.
pub open spec fn tells_of<R>(json: JsonModel<R>, video: Video<R>) -> bool {
    &&& tells(json, "id"@, JsonModel::Text(video.id@))
    &&& tells(json, "title"@, JsonModel::Text(video.title@))
    &&& tells(json, "original_filename"@, JsonModel::Text(video.original_filename@))
    &&& tells(json, "file_extension"@, JsonModel::Text(video.file_extension@))
    &&& tells(json, "upload_date"@, JsonModel::Text(video.upload_date@))
    &&& tells(json, "view_count"@, JsonModel::Integer(video.view_count as int))
    &&& match video.duration {
        Some(Number::Finite(r)) => tells(json, "duration"@, JsonModel::Real(r)),
        _ => tells(json, "duration"@, JsonModel::Null),
    }
    &&& match video.resolution {
        Some(text) => tells(json, "resolution"@, JsonModel::Text(text@)),
        None => tells(json, "resolution"@, JsonModel::Null),
    }
    &&& match video.description {
        Some(text) => tells(json, "description"@, JsonModel::Text(text@)),
        None => tells(json, "description"@, JsonModel::Null),
    }
    &&& tells(
        json,
        "playlist_url"@,
        JsonModel::Text("/api/stream/"@ + video.id@ + "/playlist.m3u8"@),
    )
    &&& match video.thumbnail {
        Some(_) => tells(
            json,
            "thumbnail_url"@,
            JsonModel::Text("/api/videos/"@ + video.id@ + "/thumbnail"@),
        ),
        None => tells(json, "thumbnail_url"@, JsonModel::Null),
    }
}

proof fn lemma_names_differ()
    ensures
        ({
            let names = seq![
                "id"@, "title"@, "original_filename"@, "file_extension"@, "duration"@,
                "resolution"@, "upload_date"@, "description"@, "view_count"@, "playlist_url"@,
                "thumbnail_url"@, "status"@,
            ];
            forall|i: int, j: int|
                0 <= i < 12 && 0 <= j < 12 && #[trigger] names[i] == #[trigger] names[j] ==> i == j
        }),
{
    reveal_strlit("id");
    reveal_strlit("title");
    reveal_strlit("original_filename");
    reveal_strlit("file_extension");
    reveal_strlit("duration");
    reveal_strlit("resolution");
    reveal_strlit("upload_date");
    reveal_strlit("description");
    reveal_strlit("view_count");
    reveal_strlit("playlist_url");
    reveal_strlit("thumbnail_url");
    reveal_strlit("status");
    let names = seq![
        "id"@, "title"@, "original_filename"@, "file_extension"@, "duration"@, "resolution"@,
        "upload_date"@, "description"@, "view_count"@, "playlist_url"@, "thumbnail_url"@,
        "status"@,
    ];
    let lengths = seq![2int, 5, 17, 14, 8, 10, 11, 11, 10, 12, 13, 6];
    assert forall|i: int| 0 <= i < 12 implies (#[trigger] names[i]).len() == lengths[i] by {}
    assert(names[5][0] == 'r' && names[8][0] == 'v');
    assert(names[6][0] == 'u' && names[7][0] == 'd');
    assert forall|i: int, j: int|
        0 <= i < 12 && 0 <= j < 12 && #[trigger] names[i] == #[trigger] names[j] implies i == j by {
        assert(lengths[i] == lengths[j]);
    }
}

proof fn lemma_told_at<R>(json: JsonModel<R>, i: int)
    requires
        json is Object,
        0 <= i < json->Object_0.len(),
        forall|j: int|
            0 <= j < json->Object_0.len() && (#[trigger] json->Object_0[j]).0
                == json->Object_0[i].0 ==> j == i,
    ensures
        tells(json, json->Object_0[i].0, json->Object_0[i].1),
{
    assert(json->Object_0[i] == (json->Object_0[i].0, json->Object_0[i].1));
}

/// A description tells of each value of the record, the single one and the entry of
/// a list alike, and the single one tells the status too. It holds nothing else.
pub proof fn law_descriptions_tell_the_record<R>(video: Video<R>, playlist_exists: bool)
    ensures
        tells_of(detail(video@, playlist_exists), video),
        tells_of(summary(video@), video),
        tells(
            detail(video@, playlist_exists),
            "status"@,
            JsonModel::Text(
                if playlist_exists {
                    "ready"@
                } else {
                    "processing"@
                },
            ),
        ),
        detail(video@, playlist_exists)->Object_0.len() == 12,
        summary(video@)->Object_0.len() == 11,
{
    lemma_names_differ();
    let names = seq![
        "id"@, "title"@, "original_filename"@, "file_extension"@, "duration"@, "resolution"@,
        "upload_date"@, "description"@, "view_count"@, "playlist_url"@, "thumbnail_url"@,
        "status"@,
    ];
    let full = detail(video@, playlist_exists);
    let short = summary(video@);
    assert forall|i: int| 0 <= i < 12 implies (#[trigger] full->Object_0[i]).0 == names[i] by {}
    assert forall|i: int| 0 <= i < 11 implies (#[trigger] short->Object_0[i]).0 == names[if i == 9 {
        10
    } else if i == 10 {
        9
    } else {
        i
    }] by {}
    assert forall|i: int| 0 <= i < 12 implies tells(
        full,
        (#[trigger] full->Object_0[i]).0,
        full->Object_0[i].1,
    ) by {
        assert(names[i] == names[i]);
        lemma_told_at(full, i);
    }
    assert forall|i: int| 0 <= i < 11 implies tells(
        short,
        (#[trigger] short->Object_0[i]).0,
        short->Object_0[i].1,
    ) by {
        lemma_told_at(short, i);
    }
    assert(full->Object_0[0].0 == "id"@ && short->Object_0[0].0 == "id"@);
    assert(full->Object_0[1].0 == "title"@ && short->Object_0[1].0 == "title"@);
    assert(full->Object_0[2].0 == names[2] && short->Object_0[2].0 == names[2]);
    assert(full->Object_0[3].0 == names[3] && short->Object_0[3].0 == names[3]);
    assert(full->Object_0[4].0 == names[4] && short->Object_0[4].0 == names[4]);
    assert(full->Object_0[5].0 == names[5] && short->Object_0[5].0 == names[5]);
    assert(full->Object_0[6].0 == names[6] && short->Object_0[6].0 == names[6]);
    assert(full->Object_0[7].0 == names[7] && short->Object_0[7].0 == names[7]);
    assert(full->Object_0[8].0 == names[8] && short->Object_0[8].0 == names[8]);
    assert(full->Object_0[9].0 == names[9] && short->Object_0[10].0 == names[9]);
    assert(full->Object_0[10].0 == names[10] && short->Object_0[9].0 == names[10]);
    assert(full->Object_0[11].0 == names[11]);
}

/// A request for a video whose record is found is answered with that record: every
/// value in the body is the one that was found, the count of views among them, and
/// the status is that of the playlist.
pub proof fn law_found_video_is_answered_with_its_record<R>(
    id: Seq<char>,
    video: Video<R>,
    playlist_exists: bool,
    events: Seq<LookupEventModel<R>>,
)
    requires
        lookup_run(LookupStateModel::Locking(id), events),
        events[0] == LookupEvent::<R>::Locked(true)@,
        events[2] == LookupEvent::Fetched(Some(video))@,
        events[3] == LookupEvent::<R>::Checked(playlist_exists)@,
    ensures
        ({
            let action = lookup_actions(LookupStateModel::Locking(id), events).last();
            let reply = action->Respond_0;
            &&& action is Respond
            &&& reply.status == 200
            &&& reply.headers == seq![
                ("content-type"@, "application/json"@),
                ("access-control-allow-origin"@, "*"@),
            ]
            &&& tells_of(reply.body, video)
            &&& tells(reply.body, "view_count"@, JsonModel::Integer(video.view_count as int))
            &&& tells(
                reply.body,
                "status"@,
                JsonModel::Text(
                    if playlist_exists {
                        "ready"@
                    } else {
                        "processing"@
                    },
                ),
            )
            &&& reply.body->Object_0.len() == 12
        }),
{
    law_lookup_follows_the_script(id, events);
    law_descriptions_tell_the_record(video, playlist_exists);
}

/// What a lookup asks for: with the catalog at hand one more view of that video,
/// then its record, and then whether the playlist of that video exists. A video
/// that is not found is answered so under its identifier, and without the catalog
/// nothing is asked.
pub proof fn law_lookup_asks_for_that_video<R>(id: Seq<char>, video: VideoModel<R>)
    ensures
        ({
            let (counting, count) = lookup_step(
                LookupStateModel::<R>::Locking(id),
                LookupEventModel::Locked(true),
            );
            let (fetching, fetch) = lookup_step(counting, LookupEventModel::Counted);
            let (checking, check) = lookup_step(fetching, LookupEventModel::Fetched(Some(video)));
            let (ended, answer) = lookup_step(fetching, LookupEventModel::Fetched(None));
            &&& count is Execute
            &&& count->Execute_0.sql == COUNT_VIEW@
            &&& count->Execute_0.params == seq![ParamModel::<R>::Text(id)]
            &&& fetch is Query
            &&& fetch->Query_0.sql == FIND_VIDEO@
            &&& fetch->Query_0.params == seq![ParamModel::<R>::Text(id)]
            &&& check == LookupActionModel::<R>::CheckFile(
                "videos/output/"@ + id + "/playlist.m3u8"@,
            )
            &&& ended is Finished
            &&& answer is Respond
            &&& answer->Respond_0.status == 404
            &&& answer->Respond_0.headers == seq![
                ("content-type"@, "application/json"@),
                ("access-control-allow-origin"@, "*"@),
            ]
            &&& answer->Respond_0.body is Object
            &&& answer->Respond_0.body->Object_0 == seq![
                ("id"@, JsonModel::<R>::Text(id)),
                ("status"@, JsonModel::Text("not_found"@)),
                ("message"@, JsonModel::Text("video not found"@)),
            ]
        }),
        ({
            let (ended, answer) = lookup_step(
                LookupStateModel::<R>::Locking(id),
                LookupEventModel::Locked(false),
            );
            &&& ended is Finished
            &&& answer is Respond
            &&& answer->Respond_0.status == 500
            &&& answer->Respond_0.headers == seq![
                ("content-type"@, "application/json"@),
                ("access-control-allow-origin"@, "*"@),
            ]
            &&& answer->Respond_0.body is Object
            &&& answer->Respond_0.body->Object_0 == seq![
                ("error"@, JsonModel::<R>::Text("database error"@)),
            ]
        }),
{
}

/// The answer to a request for all videos holds one entry for each record, in the
/// order of the records, and each entry tells of its own record. The total is
/// their number.
pub proof fn law_list_tells_of_every_record<R>(videos: Vec<Video<R>>)
    ensures
        ({
            let reply = listing_reply(Listing::Videos(videos));
            &&& reply.status == 200
            &&& reply.headers == seq![
                ("content-type"@, "application/json"@),
                ("access-control-allow-origin"@, "*"@),
            ]
            &&& reply.body is Object
            &&& reply.body->Object_0.len() == 2
            &&& tells(reply.body, "total"@, JsonModel::Integer(videos@.len() as int))
            &&& exists|entries: Seq<JsonModel<R>>|
                {
                    &&& #[trigger] tells(reply.body, "videos"@, JsonModel::Array(entries))
                    &&& entries.len() == videos@.len()
                    &&& forall|i: int|
                        0 <= i < videos@.len() ==> tells_of(#[trigger] entries[i], videos@[i])
                            && entries[i]->Object_0.len() == 11
                }
        }),
{
    reveal_strlit("videos");
    reveal_strlit("total");
    let reply = listing_reply(Listing::Videos(videos));
    let entries = reply.body->Object_0[0].1->Array_0;
    assert(reply.body->Object_0[0].0 == "videos"@ && reply.body->Object_0[1].0 == "total"@);
    assert("videos"@.len() == 6 && "total"@.len() == 5);
    lemma_told_at(reply.body, 0);
    lemma_told_at(reply.body, 1);
    assert(tells(reply.body, "videos"@, JsonModel::Array(entries)));
    assert forall|i: int| 0 <= i < videos@.len() implies tells_of(#[trigger] entries[i], videos@[i])
        && entries[i]->Object_0.len() == 11 by {
        law_descriptions_tell_the_record(videos@[i], false);
        assert(entries[i] == summary(videos@[i]@));
    }
}

/// A request for all videos that fails is answered with the reason, as it was
/// given.
pub proof fn law_failed_list_tells_the_reason<R>(reason: String)
    ensures
        ({
            let unavailable = listing_reply(Listing::<R>::Unavailable);
            let unprepared = listing_reply(Listing::<R>::Unprepared(reason));
            let unread = listing_reply(Listing::<R>::Unread(reason));
            &&& unavailable.status == 500 && unprepared.status == 500 && unread.status == 500
            &&& unavailable.headers.len() == 0 && unprepared.headers.len() == 0
                && unread.headers.len() == 0
            &&& unavailable.body is Object && unprepared.body is Object && unread.body is Object
            &&& unavailable.body->Object_0 == seq![("error"@, JsonModel::<R>::Text("database error"@))]
            &&& unprepared.body->Object_0 == seq![
                ("error"@, JsonModel::<R>::Text("failed to prepare: "@ + reason@)),
            ]
            &&& unread.body->Object_0 == seq![
                ("error"@, JsonModel::<R>::Text("failed to fetch: "@ + reason@)),
            ]
        }),
{
}

/// A thumbnail is sent byte for byte, to be kept for a day, and one that is not
/// stored is answered as not found.
pub proof fn law_thumbnails_are_sent_unchanged(bytes: Seq<u8>)
    ensures
        thumbnail_reply(Some(bytes)).status == 200,
        thumbnail_reply(Some(bytes)).body == ContentModel::Bytes(bytes),
        thumbnail_reply(Some(bytes)).headers == seq![
            ("content-type"@, "image/jpeg"@),
            ("access-control-allow-origin"@, "*"@),
            ("cache-control"@, "public, max-age=86400"@),
        ],
        thumbnail_reply(None).status == 404,
        thumbnail_reply(None).headers.len() == 0,
        thumbnail_reply(None).body == ContentModel::Text("thumbnail not found"@),
{
    assert(thumbnail_reply(Some(bytes)).headers =~= seq![
        ("content-type"@, "image/jpeg"@),
        ("access-control-allow-origin"@, "*"@),
        ("cache-control"@, "public, max-age=86400"@),
    ]);
}

/// The answer that describes a video sends the count of the record, whatever it is,
/// under `view_count`, and so does the entry of a list.
pub proof fn law_count_is_sent<R>(video: VideoModel<R>, playlist_exists: bool)
    ensures
        detail_reply(video, playlist_exists).status == 200,
        tells(
            detail_reply(video, playlist_exists).body,
            "view_count"@,
            JsonModel::Integer(video.view_count),
        ),
        tells(detail_reply(video, playlist_exists).body, "id"@, JsonModel::Text(video.id)),
        tells(summary(video), "view_count"@, JsonModel::Integer(video.view_count)),
        tells(summary(video), "id"@, JsonModel::Text(video.id)),
{
    lemma_names_differ();
    let names = seq![
        "id"@, "title"@, "original_filename"@, "file_extension"@, "duration"@, "resolution"@,
        "upload_date"@, "description"@, "view_count"@, "playlist_url"@, "thumbnail_url"@,
        "status"@,
    ];
    let full = detail_reply(video, playlist_exists).body;
    let short = summary(video);
    assert forall|i: int| 0 <= i < 12 implies (#[trigger] full->Object_0[i]).0 == names[i] by {}
    assert forall|i: int| 0 <= i < 11 implies (#[trigger] short->Object_0[i]).0 == names[if i == 9 {
        10
    } else if i == 10 {
        9
    } else {
        i
    }] by {}
    assert(names[0] == names[0] && names[8] == names[8]);
    lemma_told_at(full, 0);
    lemma_told_at(full, 8);
    lemma_told_at(short, 0);
    lemma_told_at(short, 8);
}

/// What is known of an action of a lookup is what it holds: the statement, the path
/// and the answer.
pub proof fn law_lookup_actions_hold_what_is_put_in<R>(
    statement: Statement<R>,
    path: String,
    reply: JsonReply<R>,
    id: String,
    video: Video<R>,
)
    ensures
        LookupAction::<R>::Lock@ == LookupActionModel::<R>::Lock,
        LookupAction::Execute(statement)@ == LookupActionModel::Execute(statement@),
        LookupAction::Query(statement)@ == LookupActionModel::Query(statement@),
        LookupAction::<R>::CheckFile(path)@ == LookupActionModel::<R>::CheckFile(path@),
        LookupAction::Respond(reply)@ == LookupActionModel::Respond(reply@),
        LookupState::<R>::Locking(id)@ == LookupStateModel::<R>::Locking(id@),
        LookupState::<R>::Counting(id)@ == LookupStateModel::<R>::Counting(id@),
        LookupState::<R>::Fetching(id)@ == LookupStateModel::<R>::Fetching(id@),
        LookupState::Checking(video)@ == LookupStateModel::Checking(video@),
        LookupState::<R>::Finished@ == LookupStateModel::<R>::Finished,
{
}

/// Whatever `get_all_videos` answers: one entry for each record, in their order, each
/// telling of its own record, and their number as the total; or the reason why
/// there is no list.
pub proof fn law_get_all_videos_gives_every_record<R>(
    videos: Vec<Video<R>>,
    reason: String,
    listed: JsonReply<R>,
    unprepared: JsonReply<R>,
    unread: JsonReply<R>,
)
    requires
        call_ensures(get_all_videos::<R>, (Listing::Videos(videos),), listed),
        call_ensures(get_all_videos::<R>, (Listing::Unprepared(reason),), unprepared),
        call_ensures(get_all_videos::<R>, (Listing::Unread(reason),), unread),
    ensures
        listed.status == 200,
        tells(listed.body@, "total"@, JsonModel::Integer(videos@.len() as int)),
        exists|entries: Seq<JsonModel<R>>|
            {
                &&& #[trigger] tells(listed.body@, "videos"@, JsonModel::Array(entries))
                &&& entries.len() == videos@.len()
                &&& forall|i: int|
                    0 <= i < videos@.len() ==> tells_of(#[trigger] entries[i], videos@[i])
            },
        unprepared.status == 500,
        unread.status == 500,
        tells(
            unprepared.body@,
            "error"@,
            JsonModel::Text("failed to prepare: "@ + reason@),
        ),
        tells(unread.body@, "error"@, JsonModel::Text("failed to fetch: "@ + reason@)),
{
    law_list_tells_of_every_record(videos);
    law_failed_list_tells_the_reason::<R>(reason);
    lemma_told_at(unprepared.body@, 0);
    lemma_told_at(unread.body@, 0);
    let entries = choose|entries: Seq<JsonModel<R>>|
        {
            &&& #[trigger] tells(
                listing_reply(Listing::Videos(videos)).body,
                "videos"@,
                JsonModel::Array(entries),
            )
            &&& entries.len() == videos@.len()
            &&& forall|i: int|
                0 <= i < videos@.len() ==> tells_of(#[trigger] entries[i], videos@[i])
                    && entries[i]->Object_0.len() == 11
        };
    assert(tells(listed.body@, "videos"@, JsonModel::Array(entries)));
}

/// Whatever `get_video` answers at its end: the record that was found, value for
/// value, with the status of the playlist; or under the identifier that it was not
/// found.
pub proof fn law_get_video_gives_the_record<R>(
    id: String,
    video: Video<R>,
    playlist_exists: bool,
    told: (LookupState<R>, LookupAction<R>),
    missing: (LookupState<R>, LookupAction<R>),
    described: Json<R>,
    summarized: Json<R>,
)
    requires
        call_ensures(
            get_video::<R>,
            (LookupState::Checking(video), LookupEvent::Checked(playlist_exists)),
            told,
        ),
        call_ensures(
            get_video::<R>,
            (LookupState::Fetching(id), LookupEvent::Fetched(None)),
            missing,
        ),
        call_ensures(describe_video::<R>, (video, playlist_exists), described),
        call_ensures(summarize_video::<R>, (video,), summarized),
    ensures
        told.1 is Respond,
        told.1->Respond_0.status == 200,
        tells_of(told.1->Respond_0.body@, video),
        tells(
            told.1->Respond_0.body@,
            "status"@,
            JsonModel::Text(
                if playlist_exists {
                    "ready"@
                } else {
                    "processing"@
                },
            ),
        ),
        missing.1 is Respond,
        missing.1->Respond_0.status == 404,
        missing.1->Respond_0.body@ is Object,
        missing.1->Respond_0.body@->Object_0[0] == ("id"@, JsonModel::<R>::Text(id@)),
        told.1->Respond_0.body@ == described@,
        tells_of(summarized@, video),
{
    law_descriptions_tell_the_record(video, playlist_exists);
    law_lookup_asks_for_that_video(id@, video@);
}

/// Whatever `get_video` does before: count a view of that video and look for its
/// record by the same identifier, and then for its playlist.
pub proof fn law_get_video_asks_for_that_video<R>(
    id: String,
    video: Video<R>,
    begun: (LookupState<R>, LookupAction<R>),
    counted: (LookupState<R>, LookupAction<R>),
    asked: (LookupState<R>, LookupAction<R>),
    checked: (LookupState<R>, LookupAction<R>),
)
    requires
        call_ensures(request_video::<R>, (id,), begun),
        call_ensures(get_video::<R>, (LookupState::Locking(id), LookupEvent::Locked(true)), counted),
        call_ensures(get_video::<R>, (LookupState::Counting(id), LookupEvent::Counted), asked),
        call_ensures(
            get_video::<R>,
            (LookupState::Fetching(id), LookupEvent::Fetched(Some(video))),
            checked,
        ),
    ensures
        begun.0@ == LookupStateModel::<R>::Locking(id@),
        begun.1 is Lock,
        counted.0@ == LookupStateModel::<R>::Counting(id@),
        counted.1 is Execute,
        counted.1->Execute_0.sql@ == COUNT_VIEW@,
        counted.1->Execute_0@.params == seq![ParamModel::<R>::Text(id@)],
        asked.0@ == LookupStateModel::<R>::Fetching(id@),
        asked.1 is Query,
        asked.1->Query_0.sql@ == FIND_VIDEO@,
        asked.1->Query_0@.params == seq![ParamModel::<R>::Text(id@)],
        checked.0@ == LookupStateModel::Checking(video@),
        checked.1 is CheckFile,
        checked.1->CheckFile_0@ == "videos/output/"@ + id@ + "/playlist.m3u8"@,
{
    law_lookup_asks_for_that_video(id@, video@);
}

/// Whatever `get_thumbnail` answers: all bytes of a stored thumbnail.
pub proof fn law_get_thumbnail_gives_the_bytes(bytes: Vec<u8>, found: Reply, missing: Reply)
    requires
        call_ensures(get_thumbnail, (Some(bytes),), found),
        call_ensures(get_thumbnail, (None,), missing),
    ensures
        found.status == 200,
        found.body is Bytes,
        found.body->Bytes_0@ == bytes@,
        missing.status == 404,
        missing.body is Text,
        missing.body->Text_0@ == "thumbnail not found"@,
{
}

/// Whatever `get_video` gives for any state and event is one step of the lookup on just
/// these, and whatever `get_all_videos` gives is the answer for just that listing.
pub proof fn law_requests_are_answered_as_they_stand<R>(
    state: LookupState<R>,
    event: LookupEvent<R>,
    next: (LookupState<R>, LookupAction<R>),
    listing: Listing<R>,
    reply: JsonReply<R>,
)
    requires
        call_ensures(get_video::<R>, (state, event), next),
        call_ensures(get_all_videos::<R>, (listing,), reply),
    ensures
        (next.0@, next.1@) == lookup_step(state@, event@),
        reply@ == listing_reply(listing),
{
}

} // verus!
