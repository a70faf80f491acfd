//! What the statements of the catalog say of the table of videos, and what
//! follows for uploads, views and listings one after the other.
//!
//! The table is read as a map from identifiers to records, and each statement
//! as the change that its text describes. The database executes the statements;
//! what is stated here holds of one that executes them so.

use crate::catalog::{
    completion, insertion, keyed, law_statements_are_told_apart, queries, ParamModel, StatementModel,
    COUNT_VIEW, DELETE_VIDEO, FIND_VIDEO, INSERT_VIDEO, LIST_VIDEOS, UPDATE_VIDEO,
};
use crate::layout::playlist_address;
use crate::number::{kept, Number};
use crate::processing::{
    discarding, job_actions, job_run, law_failed_transcoding_leaves_nothing,
    law_transcoded_video_is_recorded, JobActionModel, JobEventModel, JobModel, SourceModel,
};
use crate::reply::{plain_reply, tells, JsonModel, JsonReplyModel, OK};
use crate::text::{after_last, blank, ends_with};
use crate::upload_video::{
    acceptable, empty_form, enter_field, enter_fields, field_use, filled, last_description,
    last_file, last_title, law_answered_once, law_last_field_counts, law_supported_extension,
    law_uploads_stay_sound, sound_upload, upload_actions, upload_id, upload_run, upload_step,
    video_extension, FieldEntry, FieldUse, FormModel, RecordingModel, SubmissionModel,
    UploadActionModel, UploadEventModel, UploadStateModel,
};
use crate::video_info::{
    detail, detail_reply, law_count_is_sent, law_lookup_follows_the_script, list_reply, lookup_actions, lookup_run,
    unknown_reply, LookupActionModel, LookupEventModel, LookupStateModel, VideoModel,
};
use vstd::prelude::*;

verus! {

/// The records, each under its identifier.
pub type Table<R> = Map<Seq<char>, VideoModel<R>>;

/// The text that a parameter is.
pub open spec fn text_in<R>(param: ParamModel<R>) -> Seq<char> {
    param->Text_0
}

/// The text that a parameter is, or none where it is null.
pub open spec fn text_or_none<R>(param: ParamModel<R>) -> Option<Seq<char>> {
    match param {
        ParamModel::Text(text) => Some(text),
        _ => None,
    }
}

/// The number that a column keeps of a parameter, or none where it is null or not
/// a number.
pub open spec fn real_or_none<R>(param: ParamModel<R>) -> Option<Number<R>> {
    match param {
        ParamModel::Real(number) => kept(Some(number)),
        _ => None,
    }
}

/// The record that the ten values of an insertion make, as the columns are read
/// back.
pub open spec fn inserted_record<R>(params: Seq<ParamModel<R>>) -> VideoModel<R> {
    VideoModel {
        id: text_in(params[0]),
        title: text_in(params[1]),
        original_filename: text_in(params[2]),
        file_extension: text_in(params[3]),
        duration: real_or_none(params[4]),
        resolution: text_or_none(params[5]),
        upload_date: text_in(params[6]),
        description: text_or_none(params[7]),
        view_count: params[8]->Integer_0,
        thumbnail: text_or_none(params[9]),
    }
}

/// A record with the values of a completion.
pub open spec fn completed_record<R>(
    record: VideoModel<R>,
    params: Seq<ParamModel<R>>,
) -> VideoModel<R> {
    VideoModel {
        duration: real_or_none(params[0]),
        resolution: text_or_none(params[1]),
        thumbnail: text_or_none(params[2]),
        ..record
    }
}

/// The count of views is one that can be read. Beyond the range of 64 bits the
/// column keeps a floating-point number, which no request takes for a count.
pub open spec fn readable<R>(record: VideoModel<R>) -> bool {
    i64::MIN <= record.view_count <= i64::MAX
}

/// A record with one more view. A count that has left the range stays where it
/// is, just beyond.
pub open spec fn viewed_record<R>(record: VideoModel<R>) -> VideoModel<R> {
    VideoModel {
        view_count: if record.view_count <= i64::MAX {
            record.view_count + 1
        } else {
            record.view_count
        },
        ..record
    }
}

/// The table that a statement leaves, or none where the statement is refused: an
/// identifier is inserted only once.
pub open spec fn executed<R>(statement: StatementModel<R>, table: Table<R>) -> Option<Table<R>> {
    let params = statement.params;
    if statement.sql == INSERT_VIDEO@ {
        let record = inserted_record(params);
        if table.dom().contains(record.id) {
            None
        } else {
            Some(table.insert(record.id, record))
        }
    } else if statement.sql == UPDATE_VIDEO@ {
        let id = text_in(params[3]);
        if table.dom().contains(id) {
            Some(table.insert(id, completed_record(table[id], params)))
        } else {
            Some(table)
        }
    } else if statement.sql == DELETE_VIDEO@ {
        Some(table.remove(text_in(params[0])))
    } else if statement.sql == COUNT_VIEW@ {
        let id = text_in(params[0]);
        if table.dom().contains(id) {
            Some(table.insert(id, viewed_record(table[id])))
        } else {
            Some(table)
        }
    } else {
        Some(table)
    }
}

/// The record that a statement with one identifier finds, where it can be read.
pub open spec fn found<R>(statement: StatementModel<R>, table: Table<R>) -> Option<VideoModel<R>> {
    let id = text_in(statement.params[0]);
    if table.dom().contains(id) && readable(table[id]) {
        Some(table[id])
    } else {
        None
    }
}

/// `a` comes before `b` in the order of their characters, or is the same.
pub open spec fn at_most(a: Seq<char>, b: Seq<char>) -> bool
    decreases a.len(),
{
    if a.len() == 0 {
        true
    } else if b.len() == 0 {
        false
    } else if a[0] != b[0] {
        a[0] < b[0]
    } else {
        at_most(a.drop_first(), b.drop_first())
    }
}

/// The identifiers of the rows.
pub open spec fn ids_of<R>(rows: Seq<VideoModel<R>>) -> Set<Seq<char>> {
    Set::new(|id: Seq<char>| exists|i: int| 0 <= i < rows.len() && (#[trigger] rows[i]).id == id)
}

/// The rows list the table: each record once, the latest upload first. A table
/// with a record that cannot be read has no listing.
pub open spec fn listing_of<R>(table: Table<R>, rows: Seq<VideoModel<R>>) -> bool {
    &&& rows.len() == table.dom().len()
    &&& ids_of(rows) == table.dom()
    &&& forall|i: int| 0 <= i < rows.len() ==> readable(#[trigger] rows[i])
    &&& forall|i: int| 0 <= i < rows.len() ==> table[(#[trigger] rows[i]).id] == rows[i]
    &&& forall|i: int, j: int|
        0 <= i < j < rows.len() ==> at_most(
            (#[trigger] rows[j]).upload_date,
            (#[trigger] rows[i]).upload_date,
        )
}

/// What holds of every record: a title and a description that are not blank, one
/// of the four extensions, in which the name of the file ends after a dot, and a
/// count of views that is not negative.
pub open spec fn sound_record<R>(record: VideoModel<R>) -> bool {
    &&& !blank(record.title)
    &&& record.description is Some
    &&& !blank(record.description->0)
    &&& video_extension(record.file_extension)
    &&& ends_with(record.original_filename, seq!['.'] + record.file_extension)
    &&& record.view_count >= 0
}

/// Every record of the table is sound and stands under its own identifier.
pub open spec fn sound_table<R>(table: Table<R>) -> bool {
    forall|id: Seq<char>| #[trigger]
        table.dom().contains(id) ==> table[id].id == id && sound_record(table[id])
}

/// The record of an upload that is not viewed and not processed yet.
pub open spec fn fresh_record<R>(submission: SubmissionModel, date: Seq<char>) -> VideoModel<R> {
    VideoModel {
        id: submission.id,
        title: submission.title,
        original_filename: submission.file_name,
        file_extension: after_last(submission.file_name, '.'),
        duration: None,
        resolution: None,
        upload_date: date,
        description: Some(submission.description),
        view_count: 0,
        thumbnail: None,
    }
}

/// The statement that records an upload.
pub open spec fn upload_statement<R>(
    submission: SubmissionModel,
    date: Seq<char>,
) -> StatementModel<R> {
    insertion(
        submission.id,
        submission.title,
        submission.file_name,
        after_last(submission.file_name, '.'),
        date,
        submission.description,
    )
}

/// The table after an upload that goes on from `state` with the given events,
/// each with the date of its moment. `pending` is the statement whose outcome is
/// awaited. None where a record is reported as written that is refused.
pub open spec fn table_after_upload<R>(
    state: UploadStateModel,
    pending: Option<StatementModel<R>>,
    events: Seq<(UploadEventModel, Seq<char>)>,
    table: Table<R>,
) -> Option<Table<R>>
    decreases events.len(),
{
    if events.len() == 0 {
        Some(table)
    } else {
        let (next, action) = upload_step::<R>(state, events[0].0, events[0].1);
        let statement = if action is Record {
            Some(action->Record_0)
        } else {
            None
        };
        let after = if events[0].0 == UploadEventModel::Recorded(RecordingModel::Written) {
            executed(pending->0, table)
        } else {
            Some(table)
        };
        match after {
            Some(t) => table_after_upload(next, statement, events.drop_first(), t),
            None => None,
        }
    }
}

/// An upload from its beginning: the events carry it to its end, and each record
/// that is reported as written could be.
pub open spec fn whole_upload<R>(
    id: Seq<char>,
    events: Seq<(UploadEventModel, Seq<char>)>,
    table: Table<R>,
) -> bool {
    let start = UploadStateModel::Preparing(empty_form(id));
    upload_run::<R>(start, events) && table_after_upload::<R>(start, None, events, table) is Some
}

/// The table after a whole upload.
pub open spec fn uploaded<R>(
    id: Seq<char>,
    events: Seq<(UploadEventModel, Seq<char>)>,
    table: Table<R>,
) -> Table<R> {
    table_after_upload::<R>(
        UploadStateModel::Preparing(empty_form(id)),
        None,
        events,
        table,
    )->0
}

/// The answer to a whole upload.
pub open spec fn upload_answer<R>(
    id: Seq<char>,
    events: Seq<(UploadEventModel, Seq<char>)>,
) -> UploadActionModel<R> {
    upload_actions::<R>(UploadStateModel::Preparing(empty_form(id)), events).last()
}

/// The status of an answer to an upload.
pub open spec fn answer_status<R>(answer: UploadActionModel<R>) -> u16 {
    match answer {
        UploadActionModel::Accept(_, reply) => reply.status,
        UploadActionModel::Refuse(_, reply) => reply.status,
        _ => arbitrary(),
    }
}

/// The awaited statement records a sound upload where the state awaits one.
pub open spec fn pending_fits<R>(
    state: UploadStateModel,
    pending: Option<StatementModel<R>>,
) -> bool {
    match state {
        UploadStateModel::Recording(source) => exists|submission: SubmissionModel, date: Seq<char>|
            {
                &&& pending == Some(#[trigger] upload_statement::<R>(submission, date))
                &&& submission.id == source.id
                &&& sound_upload(UploadStateModel::Saving(submission))
            },
        _ => true,
    }
}

/// What an insertion writes is read back as it was given.
pub proof fn law_insertion_reads_back<R>(
    submission: SubmissionModel,
    date: Seq<char>,
    table: Table<R>,
)
    ensures
        inserted_record(upload_statement::<R>(submission, date).params) == fresh_record::<R>(
            submission,
            date,
        ),
        table.dom().contains(submission.id) ==> executed(
            upload_statement::<R>(submission, date),
            table,
        ) is None,
        !table.dom().contains(submission.id) ==> executed(
            upload_statement::<R>(submission, date),
            table,
        ) == Some(table.insert(submission.id, fresh_record::<R>(submission, date))),
{
}

/// A completion changes the three values that processing tells of the record, and
/// nothing else. A duration that is not a number is read back as none, every other
/// one as it was given, an infinite one too.
pub proof fn law_completion_reads_back<R>(
    id: Seq<char>,
    duration: Option<Number<R>>,
    resolution: Option<Seq<char>>,
    thumbnail: Option<Seq<char>>,
    table: Table<R>,
)
    ensures
        table.dom().contains(id) ==> executed(
            completion(id, duration, resolution, thumbnail),
            table,
        ) == Some(
            table.insert(
                id,
                VideoModel {
                    duration: if duration == Some(Number::<R>::NotANumber) {
                        None
                    } else {
                        duration
                    },
                    resolution,
                    thumbnail,
                    ..table[id]
                },
            ),
        ),
        !table.dom().contains(id) ==> executed(
            completion(id, duration, resolution, thumbnail),
            table,
        ) == Some(table),
{
    law_statements_are_told_apart();
}

/// The record of a sound upload is sound.
proof fn lemma_fresh_record_is_sound<R>(submission: SubmissionModel, date: Seq<char>)
    requires
        sound_upload(UploadStateModel::Saving(submission)),
    ensures
        sound_record(fresh_record::<R>(submission, date)),
{
    law_supported_extension(submission.file_name);
}

/// How an upload ends: by its last event, with which answer, and what it makes of
/// the table.
pub open spec fn upload_ends<R>(
    id: Seq<char>,
    last: UploadEventModel,
    answer: UploadActionModel<R>,
    table: Table<R>,
    after: Table<R>,
) -> bool {
    &&& answer is Accept || answer is Refuse
    &&& answer is Accept <==> last is Recorded && !(last->Recorded_0 is Failed)
    &&& answer_status(answer) == OK <==> answer is Accept
    &&& answer is Accept ==> answer->Accept_0.id == id && answer->Accept_1 == plain_reply(
        OK,
        "Upload successful! Video processing started. id: "@ + id,
    )
    &&& last != UploadEventModel::Recorded(RecordingModel::Written) ==> after == table
    &&& last == UploadEventModel::Recorded(RecordingModel::Written) ==> exists|
        submission: SubmissionModel,
        date: Seq<char>,
    |
        {
            &&& after == table.insert(id, #[trigger] fresh_record::<R>(submission, date))
            &&& submission.id == id
            &&& sound_upload(UploadStateModel::Saving(submission))
            &&& !table.dom().contains(id)
        }
}

/// An upload ends so from every state before its end.
proof fn lemma_upload_ends<R>(
    state: UploadStateModel,
    pending: Option<StatementModel<R>>,
    events: Seq<(UploadEventModel, Seq<char>)>,
    table: Table<R>,
)
    requires
        upload_run::<R>(state, events),
        !(state is Finished),
        sound_upload(state),
        pending_fits(state, pending),
        table_after_upload(state, pending, events, table) is Some,
    ensures
        events.len() > 0,
        upload_actions::<R>(state, events).len() == events.len(),
        upload_ends(
            upload_id(state)->0,
            events.last().0,
            upload_actions::<R>(state, events).last(),
            table,
            table_after_upload(state, pending, events, table)->0,
        ),
    decreases events.len(),
{
    reveal_with_fuel(upload_run, 2);
    reveal_with_fuel(upload_actions, 2);
    reveal_with_fuel(table_after_upload, 2);
    let (next, action) = upload_step::<R>(state, events[0].0, events[0].1);
    let rest = events.drop_first();
    law_answered_once::<R>(state, events[0].0, events[0].1);
    law_uploads_stay_sound::<R>(state, events[0].0, events[0].1);
    if rest.len() == 0 {
        assert(upload_actions::<R>(state, events) =~= seq![action]);
        if events[0].0 == UploadEventModel::Recorded(RecordingModel::Written) {
            let (submission, date) = choose|submission: SubmissionModel, date: Seq<char>|
                {
                    &&& pending == Some(#[trigger] upload_statement::<R>(submission, date))
                    &&& submission.id == state->Recording_0.id
                    &&& sound_upload(UploadStateModel::Saving(submission))
                };
            law_insertion_reads_back::<R>(submission, date, table);
        }
    } else {
        assert(!(next is Finished));
        let statement = if action is Record {
            Some(action->Record_0)
        } else {
            None
        };
        if next is Recording {
            assert(action->Record_0 == upload_statement::<R>(state->Saving_0, events[0].1));
        }
        lemma_upload_ends::<R>(next, statement, rest, table);
        let later = upload_actions::<R>(next, rest);
        assert(upload_actions::<R>(state, events) =~= seq![action] + later);
        assert(upload_actions::<R>(state, events).last() == later.last());
        assert(events.last() == rest.last());
    }
}

/// A whole upload is answered, and the answer says `OK` exactly where it is
/// accepted; it then names the identifier. The table has one record more where
/// the record was written, and else it is as it was.
pub proof fn law_upload_changes_the_table_by_its_record<R>(
    id: Seq<char>,
    events: Seq<(UploadEventModel, Seq<char>)>,
    table: Table<R>,
)
    requires
        whole_upload::<R>(id, events, table),
    ensures
        events.len() > 0,
        upload_ends(
            id,
            events.last().0,
            upload_answer::<R>(id, events),
            table,
            uploaded(id, events, table),
        ),
{
    lemma_upload_ends::<R>(UploadStateModel::Preparing(empty_form(id)), None, events, table);
}

/// Whatever the fields of a form are, and whether the upload succeeds or fails,
/// the records stay sound.
pub proof fn law_uploads_keep_records_sound<R>(
    id: Seq<char>,
    events: Seq<(UploadEventModel, Seq<char>)>,
    table: Table<R>,
)
    requires
        whole_upload::<R>(id, events, table),
        sound_table(table),
    ensures
        sound_table(uploaded(id, events, table)),
{
    law_upload_changes_the_table_by_its_record::<R>(id, events, table);
    if events.last().0 == UploadEventModel::Recorded(RecordingModel::Written) {
        let (submission, date) = choose|submission: SubmissionModel, date: Seq<char>|
            {
                &&& uploaded(id, events, table) == table.insert(
                    id,
                    #[trigger] fresh_record::<R>(submission, date),
                )
                &&& submission.id == id
                &&& sound_upload(UploadStateModel::Saving(submission))
                &&& !table.dom().contains(id)
            };
        lemma_fresh_record_is_sound::<R>(submission, date);
    }
}

/// The statement that an action of a job executes, if it executes one.
pub open spec fn job_statement<R>(action: JobActionModel<R>) -> Option<StatementModel<R>> {
    match action {
        JobActionModel::Store(statement) => Some(statement),
        JobActionModel::Discard(_, statement) => Some(statement),
        _ => None,
    }
}

/// The processing of a video executes one statement, as its last action. It is
/// not refused, and the records stay sound.
pub proof fn law_jobs_keep_records_sound<R>(
    source: SourceModel,
    events: Seq<JobEventModel<R>>,
    table: Table<R>,
)
    requires
        job_run(JobModel::Transcoding(source), events),
        sound_table(table),
    ensures
        ({
            let actions = job_actions(JobModel::Transcoding(source), events);
            let after = executed(job_statement(actions.last())->0, table);
            &&& actions.len() > 0
            &&& job_statement(actions.last()) is Some
            &&& forall|i: int|
                0 <= i < actions.len() - 1 ==> job_statement(#[trigger] actions[i]) is None
            &&& after is Some
            &&& sound_table(after->0)
        }),
{
    reveal_with_fuel(job_run, 2);
    law_statements_are_told_apart();
    if events[0] == JobEventModel::<R>::Transcoded(false) {
        law_failed_transcoding_leaves_nothing(source, events);
    } else {
        law_transcoded_video_is_recorded(source, events);
    }
}

/// A request that reads the catalog or a file.
pub enum Call {
    View(Seq<char>),
    List,
    Playlist(Seq<char>),
    Segment(Seq<char>, Seq<char>),
    Thumbnail(Seq<char>),
}

/// The table once a view of the video is counted.
pub open spec fn viewed<R>(id: Seq<char>, table: Table<R>) -> Table<R> {
    executed(keyed(COUNT_VIEW@, id), table)->0
}

/// The answer to a request for one video, by the table that the request finds.
pub open spec fn view_reply<R>(
    id: Seq<char>,
    table: Table<R>,
    playlist_exists: bool,
) -> JsonReplyModel<R> {
    match found(keyed(FIND_VIDEO@, id), viewed(id, table)) {
        Some(video) => detail_reply(video, playlist_exists),
        None => unknown_reply(id),
    }
}

/// A lookup that has the catalog counts the view and answers from the table in
/// which it is counted.
pub proof fn law_lookup_answers_from_the_table<R>(
    id: Seq<char>,
    events: Seq<LookupEventModel<R>>,
    table: Table<R>,
)
    requires
        lookup_run(LookupStateModel::Locking(id), events),
        events[0] == LookupEventModel::<R>::Locked(true),
        events[2] == LookupEventModel::Fetched(
            found(
                lookup_actions(LookupStateModel::Locking(id), events)[1]->Query_0,
                executed(
                    lookup_actions(LookupStateModel::Locking(id), events)[0]->Execute_0,
                    table,
                )->0,
            ),
        ),
    ensures
        ({
            let actions = lookup_actions(LookupStateModel::Locking(id), events);
            let playlist_exists = events.len() > 3 && events[3] == LookupEventModel::<
                R,
            >::Checked(true);
            &&& actions[0]->Execute_0 == keyed::<R>(COUNT_VIEW@, id)
            &&& executed(actions[0]->Execute_0, table) == Some(viewed(id, table))
            &&& forall|i: int| 1 <= i < actions.len() ==> !(#[trigger] actions[i] is Execute)
            &&& actions.last() == LookupActionModel::Respond(
                view_reply(id, table, playlist_exists),
            )
        }),
{
    law_statements_are_told_apart();
    law_lookup_follows_the_script(id, events);
    reveal_with_fuel(lookup_run, 5);
}

/// The statements that a request puts to the catalog, in their order. Those for
/// files put none.
pub open spec fn call_statements<R>(call: Call) -> Seq<StatementModel<R>> {
    match call {
        Call::View(id) => seq![keyed(COUNT_VIEW@, id), keyed(FIND_VIDEO@, id)],
        Call::List => seq![StatementModel { sql: LIST_VIDEOS@, params: Seq::empty() }],
        _ => Seq::empty(),
    }
}

/// The table that the statements leave, one after the other. One that is refused
/// leaves it as it was.
pub open spec fn after_statements<R>(
    table: Table<R>,
    statements: Seq<StatementModel<R>>,
) -> Table<R>
    decreases statements.len(),
{
    if statements.len() == 0 {
        table
    } else {
        let before = after_statements(table, statements.drop_last());
        match executed(statements.last(), before) {
            Some(after) => after,
            None => before,
        }
    }
}

/// The table that a request leaves.
pub open spec fn after_call<R>(table: Table<R>, call: Call) -> Table<R> {
    after_statements(table, call_statements(call))
}

/// Of the requests that read, none changes the table but the one for a video,
/// which counts a view of it.
pub proof fn law_only_views_change_the_table<R>(table: Table<R>, call: Call)
    ensures
        match call {
            Call::View(id) => after_call(table, call) == viewed(id, table),
            _ => after_call(table, call) == table,
        },
        forall|statement: StatementModel<R>| #[trigger]
            queries(statement.sql) ==> executed(statement, table) == Some(table),
{
    law_statements_are_told_apart();
    reveal_with_fuel(after_statements, 3);
    let statements = call_statements::<R>(call);
    if call is View {
        let id = call->View_0;
        assert(statements.drop_last() =~= seq![keyed::<R>(COUNT_VIEW@, id)]);
        assert(statements.drop_last().drop_last() =~= Seq::empty());
        assert(queries(statements.last().sql));
    } else if call is List {
        assert(statements.drop_last() =~= Seq::empty());
        assert(queries(statements.last().sql));
    }
}

/// The table that the requests leave, one after the other.
pub open spec fn after_calls<R>(table: Table<R>, calls: Seq<Call>) -> Table<R>
    decreases calls.len(),
{
    if calls.len() == 0 {
        table
    } else {
        after_call(after_calls(table, calls.drop_last()), calls.last())
    }
}

/// How many of the requests are for this video.
pub open spec fn views_of(calls: Seq<Call>, id: Seq<char>) -> nat
    decreases calls.len(),
{
    if calls.len() == 0 {
        0
    } else if calls.last() == Call::View(id) {
        views_of(calls.drop_last(), id) + 1
    } else {
        views_of(calls.drop_last(), id)
    }
}

/// Each view of a video is counted once, none is lost, and no other request
/// counts; nothing else of the record changes.
pub proof fn law_views_are_counted<R>(table: Table<R>, calls: Seq<Call>, id: Seq<char>)
    requires
        table.dom().contains(id),
        table[id].view_count + views_of(calls, id) <= i64::MAX,
    ensures
        after_calls(table, calls).dom() == table.dom(),
        after_calls(table, calls)[id] == (VideoModel {
            view_count: table[id].view_count + views_of(calls, id),
            ..table[id]
        }),
    decreases calls.len(),
{
    if calls.len() > 0 {
        law_views_are_counted(table, calls.drop_last(), id);
        law_statements_are_told_apart();
        law_only_views_change_the_table(after_calls(table, calls.drop_last()), calls.last());
        assert(after_calls(table, calls).dom() =~= table.dom());
    }
}

proof fn lemma_views_grow(calls: Seq<Call>, n: int, id: Seq<char>)
    requires
        0 <= n <= calls.len(),
    ensures
        views_of(calls.take(n), id) <= views_of(calls, id),
    decreases calls.len(),
{
    if n == calls.len() {
        assert(calls.take(n) =~= calls);
    } else {
        assert(calls.drop_last().take(n) =~= calls.take(n));
        lemma_views_grow(calls.drop_last(), n, id);
    }
}

/// The k-th request for a video reports k views more than there were, whatever
/// other requests come in between.
pub proof fn law_each_view_reports_its_count<R>(
    table: Table<R>,
    calls: Seq<Call>,
    id: Seq<char>,
    n: int,
    playlist_exists: bool,
)
    requires
        table.dom().contains(id),
        i64::MIN <= table[id].view_count,
        table[id].view_count + views_of(calls, id) <= i64::MAX,
        0 <= n < calls.len(),
        calls[n] == Call::View(id),
    ensures
        view_reply(id, after_calls(table, calls.take(n)), playlist_exists) == detail_reply(
            VideoModel {
                view_count: table[id].view_count + views_of(calls.take(n + 1), id),
                ..table[id]
            },
            playlist_exists,
        ),
{
    law_statements_are_told_apart();
    lemma_views_grow(calls, n + 1, id);
    assert(calls.take(n + 1).drop_last() =~= calls.take(n));
    assert(calls.take(n + 1).last() == calls[n]);
    law_views_are_counted(table, calls.take(n + 1), id);
    law_only_views_change_the_table(after_calls(table, calls.take(n)), calls[n]);
}

/// A video whose count is at the end of the range is not found any more: the view
/// that leaves the range is answered so, and every later one.
pub proof fn law_uncountable_video_is_not_found<R>(
    id: Seq<char>,
    table: Table<R>,
    playlist_exists: bool,
)
    requires
        table.dom().contains(id),
        table[id].view_count >= i64::MAX,
    ensures
        view_reply(id, table, playlist_exists) == unknown_reply::<R>(id),
        viewed(id, table)[id].view_count > i64::MAX,
{
    law_statements_are_told_apart();
}

/// Views keep the records sound.
pub proof fn law_views_keep_records_sound<R>(id: Seq<char>, table: Table<R>)
    requires
        sound_table(table),
    ensures
        sound_table(viewed(id, table)),
{
    law_statements_are_told_apart();
}

/// What the first view of a fresh upload is answered: the title, the description
/// and the file name of the upload, one view, nothing that only processing
/// tells, and that the video is being processed.
pub open spec fn first_description<R>(
    submission: SubmissionModel,
    date: Seq<char>,
) -> JsonModel<R> {
    JsonModel::Object(
        seq![
            ("id"@, JsonModel::Text(submission.id)),
            ("title"@, JsonModel::Text(submission.title)),
            ("original_filename"@, JsonModel::Text(submission.file_name)),
            ("file_extension"@, JsonModel::Text(after_last(submission.file_name, '.'))),
            ("duration"@, JsonModel::Null),
            ("resolution"@, JsonModel::Null),
            ("upload_date"@, JsonModel::Text(date)),
            ("description"@, JsonModel::Text(submission.description)),
            ("view_count"@, JsonModel::Integer(1)),
            ("playlist_url"@, JsonModel::Text(playlist_address(submission.id))),
            ("thumbnail_url"@, JsonModel::Null),
            ("status"@, JsonModel::Text("processing"@)),
        ],
    )
}

/// The events by which a field comes in, each at the moment of `date`.
pub open spec fn entry_events(
    entry: FieldEntry,
    date: Seq<char>,
) -> Seq<(UploadEventModel, Seq<char>)> {
    let head = (UploadEventModel::Field(entry.header), date);
    match field_use(entry.header) {
        FieldUse::Title => seq![head, (UploadEventModel::TextRead(entry.text), date)],
        FieldUse::Description => seq![head, (UploadEventModel::TextRead(entry.text), date)],
        FieldUse::File(_) => seq![head, (UploadEventModel::BytesRead(entry.bytes), date)],
        _ => seq![head],
    }
}

/// The events by which the fields come in, one after the other.
pub open spec fn fields_events(
    entries: Seq<FieldEntry>,
    date: Seq<char>,
) -> Seq<(UploadEventModel, Seq<char>)>
    decreases entries.len(),
{
    if entries.len() == 0 {
        Seq::empty()
    } else {
        fields_events(entries.drop_last(), date) + entry_events(entries.last(), date)
    }
}

/// The events of an upload whose fields all come in, whose file is saved and
/// whose record is written. The record is made at the moment of `saved`.
pub open spec fn written_events(
    entries: Seq<FieldEntry>,
    date: Seq<char>,
    saved: Seq<char>,
) -> Seq<(UploadEventModel, Seq<char>)> {
    seq![(UploadEventModel::Prepared, date)] + (fields_events(entries, date) + seq![
        (UploadEventModel::NoMoreFields, date),
        (UploadEventModel::Saved(None), saved),
        (UploadEventModel::Recorded(RecordingModel::Written), saved),
    ])
}

/// An upload that gets through a field goes on from the state that the field
/// leads to.
proof fn lemma_field_comes_in<R>(
    form: FormModel,
    entry: FieldEntry,
    date: Seq<char>,
    rest: Seq<(UploadEventModel, Seq<char>)>,
    table: Table<R>,
)
    requires
        acceptable(entry),
    ensures
        ({
            let start = UploadStateModel::Fields(form);
            let next = enter_field::<R>(form, entry);
            let events = entry_events(entry, date) + rest;
            &&& upload_run::<R>(start, events) == upload_run::<R>(next, rest)
            &&& table_after_upload::<R>(start, None, events, table) == table_after_upload::<R>(
                next,
                None,
                rest,
                table,
            )
        }),
{
    reveal_with_fuel(upload_run, 3);
    reveal_with_fuel(table_after_upload, 3);
    let events = entry_events(entry, date) + rest;
    if entry_events(entry, date).len() == 1 {
        assert(events.drop_first() =~= rest);
    } else {
        assert(events.drop_first().drop_first() =~= rest);
        assert(events.drop_first()[0] == entry_events(entry, date)[1]);
    }
}

/// An upload that gets through its fields goes on from the state that they lead
/// to.
proof fn lemma_fields_come_in<R>(
    form: FormModel,
    entries: Seq<FieldEntry>,
    date: Seq<char>,
    rest: Seq<(UploadEventModel, Seq<char>)>,
    table: Table<R>,
)
    requires
        forall|i: int| 0 <= i < entries.len() ==> acceptable(#[trigger] entries[i]),
    ensures
        ({
            let start = UploadStateModel::Fields(form);
            let next = enter_fields::<R>(form, entries);
            let events = fields_events(entries, date) + rest;
            &&& next is Fields
            &&& upload_run::<R>(start, events) == upload_run::<R>(next, rest)
            &&& table_after_upload::<R>(start, None, events, table) == table_after_upload::<R>(
                next,
                None,
                rest,
                table,
            )
        }),
    decreases entries.len(),
{
    let events = fields_events(entries, date) + rest;
    if entries.len() == 0 {
        assert(events =~= rest);
    } else {
        let before = entries.drop_last();
        let last = entries.last();
        let later = entry_events(last, date) + rest;
        assert(acceptable(entries[entries.len() - 1]));
        assert(events =~= fields_events(before, date) + later);
        lemma_fields_come_in::<R>(form, before, date, later, table);
        lemma_field_comes_in::<R>(
            enter_fields::<R>(form, before)->Fields_0,
            last,
            date,
            rest,
            table,
        );
    }
}

/// An upload with a title, a description and a video file among its fields is
/// accepted once it is saved and recorded. Viewed for the first time before it
/// is processed, it is described by the title, the description and the file name
/// that were sent last.
pub proof fn law_first_view_describes_the_upload<R>(
    id: Seq<char>,
    entries: Seq<FieldEntry>,
    date: Seq<char>,
    saved: Seq<char>,
    table: Table<R>,
)
    requires
        forall|i: int| 0 <= i < entries.len() ==> acceptable(#[trigger] entries[i]),
        filled(last_title(entries)),
        filled(last_description(entries)),
        last_file(entries) is Some,
        !table.dom().contains(id),
    ensures
        ({
            let submission = SubmissionModel {
                id,
                title: last_title(entries)->0,
                description: last_description(entries)->0,
                file_name: (last_file(entries)->0).0,
            };
            let events = written_events(entries, date, saved);
            let after = uploaded(id, events, table);
            &&& whole_upload(id, events, table)
            &&& answer_status(upload_answer::<R>(id, events)) == OK
            &&& upload_answer::<R>(id, events)->Accept_0.id == id
            &&& after == table.insert(id, fresh_record(submission, saved))
            &&& view_reply(id, after, false).status == OK
            &&& view_reply(id, after, false).body == first_description::<R>(submission, saved)
        }),
{
    let submission = SubmissionModel {
        id,
        title: last_title(entries)->0,
        description: last_description(entries)->0,
        file_name: (last_file(entries)->0).0,
    };
    let events = written_events(entries, date, saved);
    let start = UploadStateModel::Preparing(empty_form(id));
    let ending = seq![
        (UploadEventModel::NoMoreFields, date),
        (UploadEventModel::Saved(None), saved),
        (UploadEventModel::Recorded(RecordingModel::Written), saved),
    ];
    law_statements_are_told_apart();
    law_last_field_counts::<R>(id, entries);
    law_insertion_reads_back::<R>(submission, saved, table);
    lemma_fields_come_in::<R>(empty_form(id), entries, date, ending, table);
    let filled_in = enter_fields::<R>(empty_form(id), entries);
    assert(events.drop_first() =~= fields_events(entries, date) + ending);
    assert(upload_run::<R>(filled_in, ending)) by {
        reveal_with_fuel(upload_run, 4);
    }
    let after = table.insert(id, fresh_record::<R>(submission, saved));
    assert(table_after_upload::<R>(filled_in, None, ending, table) == Some(after)) by {
        reveal_with_fuel(table_after_upload, 4);
    }
    assert(whole_upload(id, events, table));
    law_upload_changes_the_table_by_its_record::<R>(id, events, table);
    let video = viewed_record(fresh_record::<R>(submission, saved));
    assert(found(keyed(FIND_VIDEO@, id), viewed(id, after)) == Some(video));
    assert(detail(video, false)->Object_0 =~= first_description::<R>(submission, saved)->Object_0);
}

/// The number that a listing reports.
pub open spec fn total_of<R>(rows: Seq<VideoModel<R>>) -> JsonModel<R> {
    list_reply(rows).body->Object_0[1].1
}

/// An upload that is answered `OK`, with the catalog at hand, adds its
/// identifier to the listing, and one to its total. One that is answered
/// otherwise leaves both as they were.
pub proof fn law_listing_follows_an_upload<R>(
    id: Seq<char>,
    events: Seq<(UploadEventModel, Seq<char>)>,
    table: Table<R>,
    before: Seq<VideoModel<R>>,
    after: Seq<VideoModel<R>>,
)
    requires
        whole_upload::<R>(id, events, table),
        events.last().0 != UploadEventModel::Recorded(RecordingModel::Unlocked),
        table.dom().finite(),
        listing_of(table, before),
        listing_of(uploaded(id, events, table), after),
    ensures
        total_of(before) == JsonModel::<R>::Integer(before.len() as int),
        answer_status(upload_answer::<R>(id, events)) == OK ==> {
            &&& upload_answer::<R>(id, events)->Accept_0.id == id
            &&& total_of(after) == JsonModel::<R>::Integer(before.len() as int + 1)
            &&& !ids_of(before).contains(id)
            &&& ids_of(after) == ids_of(before).insert(id)
        },
        answer_status(upload_answer::<R>(id, events)) != OK ==> {
            &&& total_of(after) == total_of(before)
            &&& ids_of(after) == ids_of(before)
        },
{
    law_upload_changes_the_table_by_its_record::<R>(id, events, table);
}

/// Where the file of a video cannot be cut into segments, its record leaves the
/// table and no other does: the listing reports one less, without its
/// identifier.
pub proof fn law_failed_transcoding_takes_its_record_away<R>(
    source: SourceModel,
    events: Seq<JobEventModel<R>>,
    table: Table<R>,
    before: Seq<VideoModel<R>>,
    after: Seq<VideoModel<R>>,
)
    requires
        job_run(JobModel::Transcoding(source), events),
        events[0] == JobEventModel::<R>::Transcoded(false),
        table.dom().finite(),
        table.dom().contains(source.id),
        listing_of(table, before),
        listing_of(
            executed(
                job_statement(job_actions(JobModel::Transcoding(source), events).last())->0,
                table,
            )->0,
            after,
        ),
    ensures
        executed(
            job_statement(job_actions(JobModel::Transcoding(source), events).last())->0,
            table,
        ) == Some(table.remove(source.id)),
        total_of(after) == JsonModel::<R>::Integer(before.len() - 1),
        ids_of(after) == ids_of(before).remove(source.id),
{
    law_failed_transcoding_leaves_nothing(source, events);
    law_statements_are_told_apart();
}

/// Where the file of a recorded upload then cannot be cut into segments, the
/// table is as it was before the upload: the listing reports the former total,
/// without that identifier.
pub proof fn law_failed_transcoding_takes_the_upload_away<R>(
    id: Seq<char>,
    events: Seq<(UploadEventModel, Seq<char>)>,
    table: Table<R>,
    source: SourceModel,
    job_events: Seq<JobEventModel<R>>,
    before: Seq<VideoModel<R>>,
    after: Seq<VideoModel<R>>,
)
    requires
        whole_upload::<R>(id, events, table),
        events.last().0 == UploadEventModel::Recorded(RecordingModel::Written),
        upload_answer::<R>(id, events)->Accept_0 == source,
        job_run(JobModel::Transcoding(source), job_events),
        job_events[0] == JobEventModel::<R>::Transcoded(false),
        listing_of(table, before),
        listing_of(
            executed(
                job_statement(job_actions(JobModel::Transcoding(source), job_events).last())->0,
                uploaded(id, events, table),
            )->0,
            after,
        ),
    ensures
        executed(
            job_statement(job_actions(JobModel::Transcoding(source), job_events).last())->0,
            uploaded(id, events, table),
        ) == Some(table),
        total_of(after) == total_of(before),
        ids_of(after) == ids_of(before),
        !ids_of(after).contains(id),
{
    law_upload_changes_the_table_by_its_record::<R>(id, events, table);
    law_failed_transcoding_leaves_nothing(source, job_events);
    law_statements_are_told_apart();
    let statement = job_statement(discarding::<R>(id))->0;
    assert(executed(statement, uploaded(id, events, table))->0 =~= table);
}

/// The count that is sent: after n views, the k-th request for a video, whatever
/// other requests come in between, is answered with n + k under `view_count` in its
/// body, as long as that is in the range of the column.
pub proof fn law_each_view_sends_its_count<R>(
    table: Table<R>,
    calls: Seq<Call>,
    id: Seq<char>,
    n: int,
    events: Seq<LookupEventModel<R>>,
)
    requires
        table.dom().contains(id),
        i64::MIN <= table[id].view_count,
        table[id].view_count + views_of(calls, id) <= i64::MAX,
        0 <= n < calls.len(),
        calls[n] == Call::View(id),
        lookup_run(LookupStateModel::Locking(id), events),
        events[0] == LookupEventModel::<R>::Locked(true),
        events[2] == LookupEventModel::Fetched(
            found(
                lookup_actions(LookupStateModel::Locking(id), events)[1]->Query_0,
                executed(
                    lookup_actions(LookupStateModel::Locking(id), events)[0]->Execute_0,
                    after_calls(table, calls.take(n)),
                )->0,
            ),
        ),
    ensures
        ({
            let action = lookup_actions(LookupStateModel::Locking(id), events).last();
            &&& action is Respond
            &&& action->Respond_0.status == 200
            &&& tells(
                action->Respond_0.body,
                "view_count"@,
                JsonModel::Integer(table[id].view_count + views_of(calls.take(n + 1), id)),
            )
        }),
{
    let playlist_exists = events.len() > 3 && events[3] == LookupEventModel::<R>::Checked(true);
    let video = VideoModel {
        view_count: table[id].view_count + views_of(calls.take(n + 1), id),
        ..table[id]
    };
    law_lookup_answers_from_the_table(id, events, after_calls(table, calls.take(n)));
    law_each_view_reports_its_count(table, calls, id, n, playlist_exists);
    law_count_is_sent(video, playlist_exists);
}

/// The n-th of n requests in a row for a video that had v views is answered with
/// v + n.
pub proof fn law_views_in_a_row<R>(table: Table<R>, id: Seq<char>, n: nat, playlist_exists: bool)
    requires
        table.dom().contains(id),
        i64::MIN <= table[id].view_count,
        n > 0,
        table[id].view_count + n <= i64::MAX,
    ensures
        ({
            let before = after_calls(table, Seq::new((n - 1) as nat, |i: int| Call::View(id)));
            let reply = view_reply(id, before, playlist_exists);
            &&& reply.status == 200
            &&& tells(reply.body, "view_count"@, JsonModel::Integer(table[id].view_count + n))
        }),
{
    let calls = Seq::new(n, |i: int| Call::View(id));
    let earlier = Seq::new((n - 1) as nat, |i: int| Call::View(id));
    lemma_views_in_a_row(calls, id);
    assert(calls.take(n - 1) =~= earlier);
    assert(calls.take(n as int) =~= calls);
    law_each_view_reports_its_count(table, calls, id, n - 1, playlist_exists);
    law_count_is_sent(
        VideoModel { view_count: table[id].view_count + n, ..table[id] },
        playlist_exists,
    );
}

proof fn lemma_views_in_a_row(calls: Seq<Call>, id: Seq<char>)
    requires
        forall|i: int| 0 <= i < calls.len() ==> #[trigger] calls[i] == Call::View(id),
    ensures
        views_of(calls, id) == calls.len(),
    decreases calls.len(),
{
    if calls.len() > 0 {
        lemma_views_in_a_row(calls.drop_last(), id);
    }
}

} // verus!
