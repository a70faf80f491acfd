//! Taking in an upload.

use crate::catalog::{
    insert_video, insertion, ParamModel, Statement, StatementModel, INSERT_VIDEO,
};
use crate::clock::{current_date, date_of_the_clock, upload_date};
use crate::ids::{drawn_id, new_video_id, video_id};
use crate::layout::{
    input_dir, input_directory, output_dir, output_directory, segment_file, upload_file,
    upload_path,
};
use crate::processing::{both_directories, video_directories, Source, SourceModel};
use crate::reply::{
    plain, plain_reply, ContentModel, Reply, ReplyModel, BAD_REQUEST, INTERNAL_SERVER_ERROR, OK,
};
use crate::text::{
    after_last, blank, ends_with, has_suffix, is_blank, law_extension_of_suffix,
    law_suffixes_stand_behind, law_tail_stands_behind_the_mark, optional_text, same_text,
    text_after_last, texts, white_space,
};
use vstd::prelude::*;

verus! {

/// The head of a form field.
#[derive(Debug, PartialEq)]
pub struct FieldHeader {
    pub name: Option<String>,
    pub file_name: Option<String>,
}

/// What has been read of a form so far.
#[derive(Debug, PartialEq)]
pub struct UploadForm {
    pub id: String,
    pub title: Option<String>,
    pub description: Option<String>,
    /// The name and the bytes of the video file.
    pub file: Option<(String, Vec<u8>)>,
}

/// A form that holds all that is asked for, its bytes aside.
#[derive(Debug, PartialEq)]
pub struct Submission {
    pub id: String,
    pub title: String,
    pub description: String,
    pub file_name: String,
}

/// How far an upload has come.
#[derive(Debug, PartialEq)]
pub enum UploadState {
    /// The directories are being made.
    Preparing(UploadForm),
    /// The next field is awaited.
    Fields(UploadForm),
    /// The text of the title is being read.
    ReadingTitle(UploadForm),
    /// The text of the description is being read.
    ReadingDescription(UploadForm),
    /// The bytes of a video file of this name are being read.
    ReadingFile(UploadForm, String),
    /// The file is being saved.
    Saving(Submission),
    /// The record is being written.
    Recording(Source),
    /// The request is answered.
    Finished,
}

/// What came of an action.
#[derive(Debug, PartialEq)]
pub enum UploadEvent {
    /// The directories are there.
    Prepared,
    /// The head of the next field.
    Field(FieldHeader),
    /// There is no further field.
    NoMoreFields,
    /// The next field could not be read, for this reason.
    FieldFailed(String),
    /// The text of the field, where it could be read.
    TextRead(Option<String>),
    /// The bytes of the field, or the reason why they could not be read.
    BytesRead(Result<Vec<u8>, String>),
    /// The file is saved, or could not be, for this reason.
    Saved(Option<String>),
    /// What became of the record.
    Recorded(Recording),
}

/// What became of the record of an upload.
#[derive(Debug, PartialEq)]
pub enum Recording {
    /// It is written.
    Written,
    /// The catalog could not be locked, so that it was not tried.
    Unlocked,
    /// It could not be written, for this reason.
    Failed(String),
}

/// What is to be done next. `R` is the type of finite numbers.
#[derive(Debug, PartialEq)]
pub enum UploadAction<R> {
    /// Make these directories.
    CreateDirectories(Vec<String>),
    /// Wait for the next field.
    NextField,
    /// Read the text of the field.
    ReadText,
    /// Read the bytes of the field.
    ReadBytes,
    /// Save these bytes under this path.
    SaveFile(String, Vec<u8>),
    /// Execute this statement, where the catalog can be locked.
    Record(Statement<R>),
    /// Remove these directories and answer the request. Nothing follows.
    Refuse(Vec<String>, Reply),
    /// Begin to process this video and answer the request. Nothing follows.
    Accept(Source, Reply),
}

/// The head of a form field as a mathematical value.
pub struct HeaderModel {
    pub name: Option<Seq<char>>,
    pub file_name: Option<Seq<char>>,
}

/// A form as a mathematical value.
pub struct FormModel {
    pub id: Seq<char>,
    pub title: Option<Seq<char>>,
    pub description: Option<Seq<char>>,
    pub file: Option<(Seq<char>, Seq<u8>)>,
}

/// A submission as a mathematical value.
pub struct SubmissionModel {
    pub id: Seq<char>,
    pub title: Seq<char>,
    pub description: Seq<char>,
    pub file_name: Seq<char>,
}

/// The state of an upload as a mathematical value.
pub enum UploadStateModel {
    Preparing(FormModel),
    Fields(FormModel),
    ReadingTitle(FormModel),
    ReadingDescription(FormModel),
    ReadingFile(FormModel, Seq<char>),
    Saving(SubmissionModel),
    Recording(SourceModel),
    Finished,
}

/// An event of an upload as a mathematical value.
pub enum UploadEventModel {
    Prepared,
    Field(HeaderModel),
    NoMoreFields,
    FieldFailed(Seq<char>),
    TextRead(Option<Seq<char>>),
    BytesRead(Result<Seq<u8>, Seq<char>>),
    Saved(Option<Seq<char>>),
    Recorded(RecordingModel),
}

/// What became of a record, as a mathematical value.
pub enum RecordingModel {
    Written,
    Unlocked,
    Failed(Seq<char>),
}

/// An action of an upload as a mathematical value.
pub enum UploadActionModel<R> {
    CreateDirectories(Seq<Seq<char>>),
    NextField,
    ReadText,
    ReadBytes,
    SaveFile(Seq<char>, Seq<u8>),
    Record(StatementModel<R>),
    Refuse(Seq<Seq<char>>, ReplyModel),
    Accept(SourceModel, ReplyModel),
}

impl View for FieldHeader {
    type V = HeaderModel;

    open spec fn view(&self) -> HeaderModel {
        HeaderModel { name: optional_text(self.name), file_name: optional_text(self.file_name) }
    }
}

impl View for UploadForm {
    type V = FormModel;

    open spec fn view(&self) -> FormModel {
        FormModel {
            id: self.id@,
            title: optional_text(self.title),
            description: optional_text(self.description),
            file: match self.file {
                Some((name, bytes)) => Some((name@, bytes@)),
                None => None,
            },
        }
    }
}

impl View for Submission {
    type V = SubmissionModel;

    open spec fn view(&self) -> SubmissionModel {
        SubmissionModel {
            id: self.id@,
            title: self.title@,
            description: self.description@,
            file_name: self.file_name@,
        }
    }
}

impl View for UploadState {
    type V = UploadStateModel;

    open spec fn view(&self) -> UploadStateModel {
        match self {
            UploadState::Preparing(form) => UploadStateModel::Preparing(form@),
            UploadState::Fields(form) => UploadStateModel::Fields(form@),
            UploadState::ReadingTitle(form) => UploadStateModel::ReadingTitle(form@),
            UploadState::ReadingDescription(form) => UploadStateModel::ReadingDescription(form@),
            UploadState::ReadingFile(form, name) => UploadStateModel::ReadingFile(form@, name@),
            UploadState::Saving(submission) => UploadStateModel::Saving(submission@),
            UploadState::Recording(source) => UploadStateModel::Recording(source@),
            UploadState::Finished => UploadStateModel::Finished,
        }
    }
}

impl View for Recording {
    type V = RecordingModel;

    open spec fn view(&self) -> RecordingModel {
        match self {
            Recording::Written => RecordingModel::Written,
            Recording::Unlocked => RecordingModel::Unlocked,
            Recording::Failed(reason) => RecordingModel::Failed(reason@),
        }
    }
}

impl View for UploadEvent {
    type V = UploadEventModel;

    open spec fn view(&self) -> UploadEventModel {
        match self {
            UploadEvent::Prepared => UploadEventModel::Prepared,
            UploadEvent::Field(header) => UploadEventModel::Field(header@),
            UploadEvent::NoMoreFields => UploadEventModel::NoMoreFields,
            UploadEvent::FieldFailed(reason) => UploadEventModel::FieldFailed(reason@),
            UploadEvent::TextRead(text) => UploadEventModel::TextRead(optional_text(*text)),
            UploadEvent::BytesRead(Ok(bytes)) => UploadEventModel::BytesRead(Ok(bytes@)),
            UploadEvent::BytesRead(Err(reason)) => UploadEventModel::BytesRead(Err(reason@)),
            UploadEvent::Saved(reason) => UploadEventModel::Saved(optional_text(*reason)),
            UploadEvent::Recorded(recording) => UploadEventModel::Recorded(recording@),
        }
    }
}

impl<R> View for UploadAction<R> {
    type V = UploadActionModel<R>;

    open spec fn view(&self) -> UploadActionModel<R> {
        match self {
            UploadAction::CreateDirectories(directories) => UploadActionModel::CreateDirectories(
                texts(directories@),
            ),
            UploadAction::NextField => UploadActionModel::NextField,
            UploadAction::ReadText => UploadActionModel::ReadText,
            UploadAction::ReadBytes => UploadActionModel::ReadBytes,
            UploadAction::SaveFile(path, bytes) => UploadActionModel::SaveFile(path@, bytes@),
            UploadAction::Record(statement) => UploadActionModel::Record(statement@),
            UploadAction::Refuse(directories, reply) => UploadActionModel::Refuse(
                texts(directories@),
                reply@,
            ),
            UploadAction::Accept(source, reply) => UploadActionModel::Accept(source@, reply@),
        }
    }
}

/// A file of this name is taken for a video.
pub open spec fn supported(file_name: Seq<char>) -> bool {
    ||| ends_with(file_name, ".mp4"@)
    ||| ends_with(file_name, ".avi"@)
    ||| ends_with(file_name, ".mov"@)
    ||| ends_with(file_name, ".mkv"@)
}

/// What a field is there for.
pub enum FieldUse {
    Title,
    Description,
    File(Seq<char>),
    Unsupported,
    Unused,
}

/// What a field is there for: its name decides first, then the name of its
/// file.
pub open spec fn field_use(header: HeaderModel) -> FieldUse {
    if header.name == Some("title"@) {
        FieldUse::Title
    } else if header.name == Some("description"@) {
        FieldUse::Description
    } else {
        match header.file_name {
            Some(file_name) => if supported(file_name) {
                FieldUse::File(file_name)
            } else {
                FieldUse::Unsupported
            },
            None => FieldUse::Unused,
        }
    }
}

/// There is a text, and it is not blank.
pub open spec fn filled(text: Option<Seq<char>>) -> bool {
    text is Some && !blank(text->0)
}

/// What a form lacks, if anything.
pub open spec fn lacking(form: FormModel) -> Option<Seq<char>> {
    if !filled(form.title) {
        Some("title is required"@)
    } else if !filled(form.description) {
        Some("description is required"@)
    } else if form.file is None {
        Some("no video file uploaded"@)
    } else {
        None
    }
}

/// The form in which nothing is filled in.
pub open spec fn empty_form(id: Seq<char>) -> FormModel {
    FormModel { id, title: None, description: None, file: None }
}

/// The submission that a complete form is.
pub open spec fn submission_of(form: FormModel) -> SubmissionModel {
    SubmissionModel {
        id: form.id,
        title: form.title->0,
        description: form.description->0,
        file_name: (form.file->0).0,
    }
}

/// A refusal that removes the directories of the video.
pub open spec fn refusal<R>(id: Seq<char>, status: u16, text: Seq<char>) -> UploadActionModel<R> {
    UploadActionModel::Refuse(both_directories(id), plain_reply(status, text))
}

/// A refusal that leaves the directories as they are.
pub open spec fn bare_refusal<R>(status: u16, text: Seq<char>) -> UploadActionModel<R> {
    UploadActionModel::Refuse(Seq::empty(), plain_reply(status, text))
}

/// The directories that an upload needs.
pub open spec fn needed_directories(id: Seq<char>) -> Seq<Seq<char>> {
    seq!["videos"@, input_dir(id), output_dir(id)]
}

/// How an upload goes on once the head of a field is known.
pub open spec fn field_step<R>(form: FormModel, header: HeaderModel) -> (
    UploadStateModel,
    UploadActionModel<R>,
) {
    match field_use(header) {
        FieldUse::Title => (UploadStateModel::ReadingTitle(form), UploadActionModel::ReadText),
        FieldUse::Description => (
            UploadStateModel::ReadingDescription(form),
            UploadActionModel::ReadText,
        ),
        FieldUse::File(name) => (
            UploadStateModel::ReadingFile(form, name),
            UploadActionModel::ReadBytes,
        ),
        FieldUse::Unsupported => (
            UploadStateModel::Finished,
            bare_refusal(BAD_REQUEST, "upload a video file (mp4, avi, mov, mkv)"@),
        ),
        FieldUse::Unused => (UploadStateModel::Fields(form), UploadActionModel::NextField),
    }
}

/// How an upload goes on once all fields are read.
pub open spec fn form_step<R>(form: FormModel) -> (UploadStateModel, UploadActionModel<R>) {
    match lacking(form) {
        Some(text) => (UploadStateModel::Finished, refusal(form.id, BAD_REQUEST, text)),
        None => (
            UploadStateModel::Saving(submission_of(form)),
            UploadActionModel::SaveFile(
                upload_file(form.id, (form.file->0).0),
                (form.file->0).1,
            ),
        ),
    }
}

/// How an upload goes on once its file is saved.
pub open spec fn record_step<R>(submission: SubmissionModel, date: Seq<char>) -> (
    UploadStateModel,
    UploadActionModel<R>,
) {
    (
        UploadStateModel::Recording(
            SourceModel {
                id: submission.id,
                path: upload_file(submission.id, submission.file_name),
            },
        ),
        UploadActionModel::Record(
            insertion(
                submission.id,
                submission.title,
                submission.file_name,
                after_last(submission.file_name, '.'),
                date,
                submission.description,
            ),
        ),
    )
}

/// The answer by what became of the record. An upload goes on where the catalog
/// could not be locked, without a record.
pub open spec fn recorded_answer<R>(
    source: SourceModel,
    recording: RecordingModel,
) -> UploadActionModel<R> {
    match recording {
        RecordingModel::Failed(reason) => bare_refusal(
            INTERNAL_SERVER_ERROR,
            "failed to save: "@ + reason,
        ),
        _ => UploadActionModel::Accept(
            source,
            plain_reply(OK, "Upload successful! Video processing started. id: "@ + source.id),
        ),
    }
}

/// The event tells what came of the action that the upload waits for.
pub open spec fn upload_answered(state: UploadStateModel, event: UploadEventModel) -> bool {
    match state {
        UploadStateModel::Preparing(_) => event is Prepared,
        UploadStateModel::Fields(_) => event is Field || event is NoMoreFields
            || event is FieldFailed,
        UploadStateModel::ReadingTitle(_) => event is TextRead,
        UploadStateModel::ReadingDescription(_) => event is TextRead,
        UploadStateModel::ReadingFile(_, _) => event is BytesRead,
        UploadStateModel::Saving(_) => event is Saved,
        UploadStateModel::Recording(_) => event is Recorded,
        UploadStateModel::Finished => false,
    }
}

/// The next state of the upload and the next action. `date` is the date of the
/// moment; it matters only once the file is saved.
pub open spec fn upload_step<R>(
    state: UploadStateModel,
    event: UploadEventModel,
    date: Seq<char>,
) -> (UploadStateModel, UploadActionModel<R>)
    recommends
        upload_answered(state, event),
{
    match (state, event) {
        (UploadStateModel::Preparing(form), UploadEventModel::Prepared) => (
            UploadStateModel::Fields(form),
            UploadActionModel::NextField,
        ),
        (UploadStateModel::Fields(form), UploadEventModel::Field(header)) => field_step(
            form,
            header,
        ),
        (UploadStateModel::Fields(form), UploadEventModel::NoMoreFields) => form_step(form),
        (UploadStateModel::Fields(form), UploadEventModel::FieldFailed(reason)) => (
            UploadStateModel::Finished,
            refusal(form.id, BAD_REQUEST, "failed to read upload: "@ + reason),
        ),
        (UploadStateModel::ReadingTitle(form), UploadEventModel::TextRead(text)) => (
            UploadStateModel::Fields(
                if text is Some {
                    FormModel { title: text, ..form }
                } else {
                    form
                },
            ),
            UploadActionModel::NextField,
        ),
        (UploadStateModel::ReadingDescription(form), UploadEventModel::TextRead(text)) => (
            UploadStateModel::Fields(
                if text is Some {
                    FormModel { description: text, ..form }
                } else {
                    form
                },
            ),
            UploadActionModel::NextField,
        ),
        (UploadStateModel::ReadingFile(form, name), UploadEventModel::BytesRead(Ok(bytes))) => (
            UploadStateModel::Fields(FormModel { file: Some((name, bytes)), ..form }),
            UploadActionModel::NextField,
        ),
        (UploadStateModel::ReadingFile(form, _), UploadEventModel::BytesRead(Err(reason))) => (
            UploadStateModel::Finished,
            refusal(form.id, BAD_REQUEST, "failed to read file: "@ + reason),
        ),
        (UploadStateModel::Saving(submission), UploadEventModel::Saved(None)) => record_step(
            submission,
            date,
        ),
        (UploadStateModel::Saving(submission), UploadEventModel::Saved(Some(reason))) => (
            UploadStateModel::Finished,
            refusal(submission.id, INTERNAL_SERVER_ERROR, "failed to save: "@ + reason),
        ),
        (UploadStateModel::Recording(source), UploadEventModel::Recorded(recording)) => (
            UploadStateModel::Finished,
            recorded_answer(source, recording),
        ),
        _ => arbitrary(),
    }
}

/// Whether a file of this name is taken for a video.
pub fn is_supported(file_name: &str) -> (found: bool)
    ensures
        found == supported(file_name@),
{
    has_suffix(file_name, ".mp4") || has_suffix(file_name, ".avi") || has_suffix(file_name, ".mov")
        || has_suffix(file_name, ".mkv")
}

fn is_named(header: &FieldHeader, name: &str) -> (found: bool)
    ensures
        found == (header@.name == Some(name@)),
{
    match &header.name {
        Some(text) => same_text(text.as_str(), name),
        None => false,
    }
}

fn is_filled(text: &Option<String>) -> (found: bool)
    ensures
        found == filled(optional_text(*text)),
{
    match text {
        Some(t) => !is_blank(t.as_str()),
        None => false,
    }
}

fn refuse<R>(id: &str, status: u16, text: String) -> (next: (UploadState, UploadAction<R>))
    ensures
        next.0@ == UploadStateModel::Finished,
        next.1@ == refusal::<R>(id@, status, text@),
{
    (UploadState::Finished, UploadAction::Refuse(video_directories(id), plain(status, text)))
}

fn refuse_bare<R>(status: u16, text: String) -> (next: (UploadState, UploadAction<R>))
    ensures
        next.0@ == UploadStateModel::Finished,
        next.1@ == bare_refusal::<R>(status, text@),
{
    let directories: Vec<String> = Vec::new();
    assert(texts(directories@) =~= Seq::empty());
    (UploadState::Finished, UploadAction::Refuse(directories, plain(status, text)))
}

/// Begins an upload under the given identifier.
pub fn start_upload<R>(id: String) -> (next: (UploadState, UploadAction<R>))
    ensures
        next.0@ == UploadStateModel::Preparing(empty_form(id@)),
        next.1@ == UploadActionModel::<R>::CreateDirectories(needed_directories(id@)),
{
    let mut directories: Vec<String> = Vec::new();
    directories.push("videos".to_owned());
    directories.push(input_directory(id.as_str()));
    directories.push(output_directory(id.as_str()));
    assert(texts(directories@) =~= needed_directories(id@));
    let form = UploadForm { id, title: None, description: None, file: None };
    (UploadState::Preparing(form), UploadAction::CreateDirectories(directories))
}

/// Begins an upload under a new identifier.
pub fn begin_upload<R>() -> (next: (UploadState, UploadAction<R>))
    ensures
        exists|id: Seq<char>|
            {
                &&& #[trigger] video_id(id)
                &&& drawn_id(id)
                &&& next.0@ == UploadStateModel::Preparing(empty_form(id))
                &&& next.1@ == UploadActionModel::<R>::CreateDirectories(needed_directories(id))
            },
{
    let id = new_video_id();
    assert(video_id(id@));
    start_upload(id)
}

/// Goes on with an upload once the head of a field is known.
pub fn plan_field<R>(form: UploadForm, header: FieldHeader) -> (next: (UploadState, UploadAction<R>))
    ensures
        (next.0@, next.1@) == field_step::<R>(form@, header@),
{
    if is_named(&header, "title") {
        return (UploadState::ReadingTitle(form), UploadAction::ReadText);
    }
    if is_named(&header, "description") {
        return (UploadState::ReadingDescription(form), UploadAction::ReadText);
    }
    match header.file_name {
        Some(file_name) => if is_supported(file_name.as_str()) {
            (UploadState::ReadingFile(form, file_name), UploadAction::ReadBytes)
        } else {
            refuse_bare(BAD_REQUEST, "upload a video file (mp4, avi, mov, mkv)".to_owned())
        },
        None => (UploadState::Fields(form), UploadAction::NextField),
    }
}

/// Goes on with an upload once all fields are read: refuses the form that lacks
/// something, and saves the file of one that is complete.
pub fn submit_form<R>(form: UploadForm) -> (next: (UploadState, UploadAction<R>))
    ensures
        (next.0@, next.1@) == form_step::<R>(form@),
{
    let id = form.id;
    if !is_filled(&form.title) {
        return refuse(id.as_str(), BAD_REQUEST, "title is required".to_owned());
    }
    if !is_filled(&form.description) {
        return refuse(id.as_str(), BAD_REQUEST, "description is required".to_owned());
    }
    match (form.title, form.description, form.file) {
        (Some(title), Some(description), Some((file_name, bytes))) => {
            let path = upload_path(id.as_str(), file_name.as_str());
            let submission = Submission { id, title, description, file_name };
            (UploadState::Saving(submission), UploadAction::SaveFile(path, bytes))
        },
        _ => refuse(id.as_str(), BAD_REQUEST, "no video file uploaded".to_owned()),
    }
}

/// Goes on with an upload once its file is saved: records it under the given
/// date.
pub fn record_upload<R>(submission: Submission, date: String) -> (next: (
    UploadState,
    UploadAction<R>,
))
    ensures
        (next.0@, next.1@) == record_step::<R>(submission@, date@),
{
    let extension = text_after_last(submission.file_name.as_str(), '.');
    let path = upload_path(submission.id.as_str(), submission.file_name.as_str());
    let statement = insert_video(
        submission.id.as_str(),
        submission.title,
        submission.file_name,
        extension,
        date,
        submission.description,
    );
    (
        UploadState::Recording(Source { id: submission.id, path }),
        UploadAction::Record(statement),
    )
}

/// Answers an upload by what became of its record.
pub fn finish_upload<R>(source: Source, recording: Recording) -> (next: (
    UploadState,
    UploadAction<R>,
))
    ensures
        next.0@ == UploadStateModel::Finished,
        next.1@ == recorded_answer::<R>(source@, recording@),
{
    match recording {
        Recording::Failed(reason) => refuse_bare(
            INTERNAL_SERVER_ERROR,
            "failed to save: ".to_owned().concat(reason.as_str()),
        ),
        _ => {
            let text = "Upload successful! Video processing started. id: ".to_owned().concat(
                source.id.as_str(),
            );
            (UploadState::Finished, UploadAction::Accept(source, plain(OK, text)))
        },
    }
}

/// Goes on with an upload, by what came of the last action.
pub fn handle_upload<R>(state: UploadState, event: UploadEvent) -> (next: (
    UploadState,
    UploadAction<R>,
))
    requires
        upload_answered(state@, event@),
    ensures
        exists|date: Seq<char>|
            {
                &&& (next.0@, next.1@) == #[trigger] upload_step::<R>(state@, event@, date)
                &&& event@ == UploadEventModel::Saved(None) ==> upload_date(date)
                    && date_of_the_clock(date)
            },
{
    let ghost stated = state@;
    let ghost answer = event@;
    let ghost mut date: Seq<char> = Seq::empty();
    let next: (UploadState, UploadAction<R>) = match (state, event) {
        (UploadState::Preparing(form), UploadEvent::Prepared) => (
            UploadState::Fields(form),
            UploadAction::NextField,
        ),
        (UploadState::Fields(form), UploadEvent::Field(header)) => plan_field(form, header),
        (UploadState::Fields(form), UploadEvent::NoMoreFields) => submit_form(form),
        (UploadState::Fields(form), UploadEvent::FieldFailed(reason)) => refuse(
            form.id.as_str(),
            BAD_REQUEST,
            "failed to read upload: ".to_owned().concat(reason.as_str()),
        ),
        (UploadState::ReadingTitle(form), UploadEvent::TextRead(text)) => {
            let mut form = form;
            if text.is_some() {
                form.title = text;
            }
            (UploadState::Fields(form), UploadAction::NextField)
        },
        (UploadState::ReadingDescription(form), UploadEvent::TextRead(text)) => {
            let mut form = form;
            if text.is_some() {
                form.description = text;
            }
            (UploadState::Fields(form), UploadAction::NextField)
        },
        (UploadState::ReadingFile(form, name), UploadEvent::BytesRead(Ok(bytes))) => {
            let mut form = form;
            form.file = Some((name, bytes));
            (UploadState::Fields(form), UploadAction::NextField)
        },
        (UploadState::ReadingFile(form, _), UploadEvent::BytesRead(Err(reason))) => refuse(
            form.id.as_str(),
            BAD_REQUEST,
            "failed to read file: ".to_owned().concat(reason.as_str()),
        ),
        (UploadState::Saving(submission), UploadEvent::Saved(None)) => {
            let now = current_date();
            proof {
                date = now@;
            }
            record_upload(submission, now)
        },
        (UploadState::Saving(submission), UploadEvent::Saved(Some(reason))) => refuse(
            submission.id.as_str(),
            INTERNAL_SERVER_ERROR,
            "failed to save: ".to_owned().concat(reason.as_str()),
        ),
        (UploadState::Recording(source), UploadEvent::Recorded(recording)) => finish_upload(
            source,
            recording,
        ),
        _ => vstd::pervasive::unreached(),
    };
    assert((next.0@, next.1@) == upload_step::<R>(stated, answer, date));
    next
}

/// A field of a form: its head, and what reading it gives, as text and as
/// bytes.
pub struct FieldEntry {
    pub header: HeaderModel,
    pub text: Option<Seq<char>>,
    pub bytes: Result<Seq<u8>, Seq<char>>,
}

/// The state that an upload in which `form` is filled in reaches by one more
/// field.
pub open spec fn enter_field<R>(form: FormModel, entry: FieldEntry) -> UploadStateModel {
    let (state, action) = upload_step::<R>(
        UploadStateModel::Fields(form),
        UploadEventModel::Field(entry.header),
        Seq::empty(),
    );
    match action {
        UploadActionModel::ReadText => upload_step::<R>(
            state,
            UploadEventModel::TextRead(entry.text),
            Seq::empty(),
        ).0,
        UploadActionModel::ReadBytes => upload_step::<R>(
            state,
            UploadEventModel::BytesRead(entry.bytes),
            Seq::empty(),
        ).0,
        _ => state,
    }
}

/// The state that an upload in which `form` is filled in reaches by the fields,
/// one after the other.
pub open spec fn enter_fields<R>(form: FormModel, entries: Seq<FieldEntry>) -> UploadStateModel
    decreases entries.len(),
{
    if entries.len() == 0 {
        UploadStateModel::Fields(form)
    } else {
        match enter_fields::<R>(form, entries.drop_last()) {
            UploadStateModel::Fields(before) => enter_field::<R>(before, entries.last()),
            state => state,
        }
    }
}

/// The field does not end the upload.
pub open spec fn acceptable(entry: FieldEntry) -> bool {
    match field_use(entry.header) {
        FieldUse::Unsupported => false,
        FieldUse::File(_) => entry.bytes is Ok,
        _ => true,
    }
}

/// The last title that could be read.
pub open spec fn last_title(entries: Seq<FieldEntry>) -> Option<Seq<char>>
    decreases entries.len(),
{
    if entries.len() == 0 {
        None
    } else if field_use(entries.last().header) is Title && entries.last().text is Some {
        entries.last().text
    } else {
        last_title(entries.drop_last())
    }
}

/// The last description that could be read.
pub open spec fn last_description(entries: Seq<FieldEntry>) -> Option<Seq<char>>
    decreases entries.len(),
{
    if entries.len() == 0 {
        None
    } else if field_use(entries.last().header) is Description && entries.last().text is Some {
        entries.last().text
    } else {
        last_description(entries.drop_last())
    }
}

/// The name and the bytes of the last video file.
pub open spec fn last_file(entries: Seq<FieldEntry>) -> Option<(Seq<char>, Seq<u8>)>
    decreases entries.len(),
{
    if entries.len() == 0 {
        None
    } else {
        match field_use(entries.last().header) {
            FieldUse::File(name) => Some((name, entries.last().bytes->Ok_0)),
            _ => last_file(entries.drop_last()),
        }
    }
}

/// The form that the fields fill in.
pub open spec fn form_of(id: Seq<char>, entries: Seq<FieldEntry>) -> FormModel {
    FormModel {
        id,
        title: last_title(entries),
        description: last_description(entries),
        file: last_file(entries),
    }
}

/// An upload gets through its fields exactly where each file among them is a
/// video that can be read. Of several titles, descriptions or files the last
/// one counts, and a text that cannot be read does not.
pub proof fn law_last_field_counts<R>(id: Seq<char>, entries: Seq<FieldEntry>)
    ensures
        enter_fields::<R>(empty_form(id), entries) is Fields <==> forall|i: int|
            0 <= i < entries.len() ==> acceptable(#[trigger] entries[i]),
        enter_fields::<R>(empty_form(id), entries) is Fields ==> enter_fields::<R>(
            empty_form(id),
            entries,
        ) == UploadStateModel::Fields(form_of(id, entries)),
        !(enter_fields::<R>(empty_form(id), entries) is Fields) ==> enter_fields::<R>(
            empty_form(id),
            entries,
        ) is Finished,
    decreases entries.len(),
{
    if entries.len() > 0 {
        let before = entries.drop_last();
        law_last_field_counts::<R>(id, before);
        assert forall|i: int| 0 <= i < before.len() implies before[i] == #[trigger] entries[i] by {}
        if enter_fields::<R>(empty_form(id), before) is Fields {
            assert(enter_fields::<R>(empty_form(id), entries) == enter_field::<R>(
                form_of(id, before),
                entries.last(),
            ));
            assert(acceptable(entries.last()) == acceptable(entries[entries.len() - 1]));
            assert(enter_field::<R>(form_of(id, before), entries.last()) is Fields <==> acceptable(
                entries.last(),
            ));
        } else {
            let i = choose|i: int| 0 <= i < before.len() && !acceptable(#[trigger] before[i]);
            assert(!acceptable(entries[i]));
        }
    }
}

/// Once all fields are read, the file is saved exactly where there is a title
/// and a description that are not blank and a video file; else the upload is
/// refused as a bad request that names what is lacking, the title first, then
/// the description, then the file.
pub proof fn law_saved_exactly_when_complete<R>(
    id: Seq<char>,
    entries: Seq<FieldEntry>,
    date: Seq<char>,
)
    requires
        forall|i: int| 0 <= i < entries.len() ==> acceptable(#[trigger] entries[i]),
    ensures
        ({
            let (state, action) = upload_step::<R>(
                enter_fields::<R>(empty_form(id), entries),
                UploadEventModel::NoMoreFields,
                date,
            );
            let complete = filled(last_title(entries)) && filled(last_description(entries))
                && last_file(entries) is Some;
            &&& complete ==> action == UploadActionModel::<R>::SaveFile(
                upload_file(id, (last_file(entries)->0).0),
                (last_file(entries)->0).1,
            )
            &&& !complete ==> state is Finished
            &&& !filled(last_title(entries)) ==> action == refusal::<R>(
                id,
                BAD_REQUEST,
                "title is required"@,
            )
            &&& filled(last_title(entries)) && !filled(last_description(entries)) ==> action
                == refusal::<R>(id, BAD_REQUEST, "description is required"@)
            &&& filled(last_title(entries)) && filled(last_description(entries)) && last_file(
                entries,
            ) is None ==> action == refusal::<R>(id, BAD_REQUEST, "no video file uploaded"@)
        }),
{
    law_last_field_counts::<R>(id, entries);
}

/// `extension` is one of the four that are taken for videos.
pub open spec fn video_extension(extension: Seq<char>) -> bool {
    extension == "mp4"@ || extension == "avi"@ || extension == "mov"@ || extension == "mkv"@
}

/// The extension of a supported file is one of the four, and the name of the
/// file ends in a dot and that extension.
pub proof fn law_supported_extension(file_name: Seq<char>)
    requires
        supported(file_name),
    ensures
        video_extension(after_last(file_name, '.')),
        ends_with(file_name, seq!['.'] + after_last(file_name, '.')),
{
    reveal_strlit(".mp4");
    reveal_strlit(".avi");
    reveal_strlit(".mov");
    reveal_strlit(".mkv");
    reveal_strlit("mp4");
    reveal_strlit("avi");
    reveal_strlit("mov");
    reveal_strlit("mkv");
    assert(".mp4"@ =~= seq!['.'] + "mp4"@);
    assert(".avi"@ =~= seq!['.'] + "avi"@);
    assert(".mov"@ =~= seq!['.'] + "mov"@);
    assert(".mkv"@ =~= seq!['.'] + "mkv"@);
    if ends_with(file_name, ".mp4"@) {
        law_extension_of_suffix(file_name, "mp4"@);
    } else if ends_with(file_name, ".avi"@) {
        law_extension_of_suffix(file_name, "avi"@);
    } else if ends_with(file_name, ".mov"@) {
        law_extension_of_suffix(file_name, "mov"@);
    } else {
        law_extension_of_suffix(file_name, "mkv"@);
    }
}

/// The identifier of an upload that is not answered yet.
pub open spec fn upload_id(state: UploadStateModel) -> Option<Seq<char>> {
    match state {
        UploadStateModel::Preparing(form) => Some(form.id),
        UploadStateModel::Fields(form) => Some(form.id),
        UploadStateModel::ReadingTitle(form) => Some(form.id),
        UploadStateModel::ReadingDescription(form) => Some(form.id),
        UploadStateModel::ReadingFile(form, _) => Some(form.id),
        UploadStateModel::Saving(submission) => Some(submission.id),
        UploadStateModel::Recording(source) => Some(source.id),
        UploadStateModel::Finished => None,
    }
}

/// The form holds no file but a video.
pub open spec fn sound_form(form: FormModel) -> bool {
    form.file is Some ==> supported((form.file->0).0)
}

/// What an upload holds at any time: no file but a video, and once the form is
/// complete a title and a description that are not blank.
pub open spec fn sound_upload(state: UploadStateModel) -> bool {
    match state {
        UploadStateModel::Preparing(form) => sound_form(form),
        UploadStateModel::Fields(form) => sound_form(form),
        UploadStateModel::ReadingTitle(form) => sound_form(form),
        UploadStateModel::ReadingDescription(form) => sound_form(form),
        UploadStateModel::ReadingFile(form, name) => sound_form(form) && supported(name),
        UploadStateModel::Saving(submission) => {
            &&& supported(submission.file_name)
            &&& !blank(submission.title)
            &&& !blank(submission.description)
        },
        UploadStateModel::Recording(_) => true,
        UploadStateModel::Finished => true,
    }
}

/// Every upload begins sound.
pub proof fn law_uploads_begin_sound(id: Seq<char>)
    ensures
        sound_upload(UploadStateModel::Preparing(empty_form(id))),
        upload_id(UploadStateModel::Preparing(empty_form(id))) == Some(id),
{
}

/// A sound upload stays sound, and it keeps its identifier until it is
/// answered.
pub proof fn law_uploads_stay_sound<R>(
    state: UploadStateModel,
    event: UploadEventModel,
    date: Seq<char>,
)
    requires
        upload_answered(state, event),
        sound_upload(state),
    ensures
        sound_upload(upload_step::<R>(state, event, date).0),
        !(upload_step::<R>(state, event, date).0 is Finished) ==> upload_id(
            upload_step::<R>(state, event, date).0,
        ) == upload_id(state),
{
}

/// What is recorded of a sound upload: a title and a description that are not
/// blank, the name of a file that ends in a dot and the recorded extension,
/// which is one of the four, no view, and nothing that only processing tells.
pub proof fn law_recorded_values<R>(submission: SubmissionModel, date: Seq<char>)
    requires
        sound_upload(UploadStateModel::Saving(submission)),
    ensures
        ({
            let (state, action) = upload_step::<R>(
                UploadStateModel::Saving(submission),
                UploadEventModel::Saved(None),
                date,
            );
            let params = action->Record_0.params;
            let extension = after_last(submission.file_name, '.');
            &&& action is Record
            &&& params.len() == 10
            &&& params[0] == ParamModel::<R>::Text(submission.id)
            &&& params[1] == ParamModel::<R>::Text(submission.title) && !blank(submission.title)
            &&& params[2] == ParamModel::<R>::Text(submission.file_name)
            &&& params[3] == ParamModel::<R>::Text(extension)
            &&& ends_with(submission.file_name, seq!['.'] + extension)
            &&& video_extension(extension)
            &&& params[4] is Null && params[5] is Null && params[9] is Null
            &&& params[6] == ParamModel::<R>::Text(date)
            &&& params[7] == ParamModel::<R>::Text(submission.description) && !blank(
                submission.description,
            )
            &&& params[8] == ParamModel::<R>::Integer(0)
        }),
{
    law_supported_extension(submission.file_name);
}

/// The event tells what came of the action. No event follows an answer.
pub open spec fn upload_outcome<R>(action: UploadActionModel<R>, event: UploadEventModel) -> bool {
    match action {
        UploadActionModel::CreateDirectories(_) => event is Prepared,
        UploadActionModel::NextField => event is Field || event is NoMoreFields
            || event is FieldFailed,
        UploadActionModel::ReadText => event is TextRead,
        UploadActionModel::ReadBytes => event is BytesRead,
        UploadActionModel::SaveFile(_, _) => event is Saved,
        UploadActionModel::Record(_) => event is Recorded,
        UploadActionModel::Refuse(_, _) => false,
        UploadActionModel::Accept(_, _) => false,
    }
}

/// An upload waits for exactly the events that tell what came of the action just
/// given: when it begins, and after every step.
pub proof fn law_upload_waits_for_its_action<R>(
    id: Seq<char>,
    state: UploadStateModel,
    event: UploadEventModel,
    date: Seq<char>,
    answer: UploadEventModel,
)
    ensures
        upload_answered(UploadStateModel::Preparing(empty_form(id)), answer) <==> upload_outcome(
            UploadActionModel::<R>::CreateDirectories(needed_directories(id)),
            answer,
        ),
        upload_answered(state, event) ==> (upload_answered(
            upload_step::<R>(state, event, date).0,
            answer,
        ) <==> upload_outcome(upload_step::<R>(state, event, date).1, answer)),
{
}

/// The answer comes once: an upload is at its end exactly where the action
/// answers the request. It is accepted only where its record was not refused,
/// and every other answer tells of a bad request or of a failure of the server.
pub proof fn law_answered_once<R>(
    state: UploadStateModel,
    event: UploadEventModel,
    date: Seq<char>,
)
    requires
        upload_answered(state, event),
    ensures
        ({
            let (next, action) = upload_step::<R>(state, event, date);
            &&& next is Finished <==> action is Refuse || action is Accept
            &&& action is Accept <==> state is Recording && !(event->Recorded_0 is Failed)
            &&& action is Accept ==> action->Accept_0 == state->Recording_0 && action->Accept_1.status
                == OK
            &&& action is Refuse ==> action->Refuse_1.status == if state is Saving
                || state is Recording {
                INTERNAL_SERVER_ERROR
            } else {
                BAD_REQUEST
            }
        }),
{
}

/// The events, each with the date of its moment, carry an upload from `state` to
/// its end.
pub open spec fn upload_run<R>(
    state: UploadStateModel,
    events: Seq<(UploadEventModel, Seq<char>)>,
) -> bool
    decreases events.len(),
{
    if events.len() == 0 {
        state is Finished
    } else {
        upload_answered(state, events[0].0) && upload_run::<R>(
            upload_step::<R>(state, events[0].0, events[0].1).0,
            events.drop_first(),
        )
    }
}

/// The actions that the events call forth.
pub open spec fn upload_actions<R>(
    state: UploadStateModel,
    events: Seq<(UploadEventModel, Seq<char>)>,
) -> Seq<UploadActionModel<R>>
    decreases events.len(),
{
    if events.len() == 0 {
        Seq::empty()
    } else {
        let (next, action) = upload_step::<R>(state, events[0].0, events[0].1);
        seq![action] + upload_actions::<R>(next, events.drop_first())
    }
}

/// The action answers the request.
pub open spec fn answers<R>(action: UploadActionModel<R>) -> bool {
    action is Refuse || action is Accept
}

/// Over the whole of an upload the request is answered exactly once, by the last
/// action.
pub proof fn law_run_ends_in_one_answer<R>(
    state: UploadStateModel,
    events: Seq<(UploadEventModel, Seq<char>)>,
)
    requires
        upload_run::<R>(state, events),
        events.len() > 0,
    ensures
        upload_actions::<R>(state, events).len() == events.len(),
        forall|i: int|
            0 <= i < events.len() ==> (answers(#[trigger] upload_actions::<R>(state, events)[i])
                <==> i == events.len() - 1),
    decreases events.len(),
{
    reveal_with_fuel(upload_run, 2);
    reveal_with_fuel(upload_actions, 2);
    let (next, action) = upload_step::<R>(state, events[0].0, events[0].1);
    let rest = events.drop_first();
    law_answered_once::<R>(state, events[0].0, events[0].1);
    if rest.len() > 0 {
        assert(upload_answered(next, rest[0].0));
        law_run_ends_in_one_answer::<R>(next, rest);
        let later = upload_actions::<R>(next, rest);
        assert forall|i: int| 0 <= i < events.len() implies (answers(
            #[trigger] upload_actions::<R>(state, events)[i],
        ) <==> i == events.len() - 1) by {
            if i > 0 {
                assert(upload_actions::<R>(state, events)[i] == later[i - 1]);
            }
        }
    } else {
        assert(upload_actions::<R>(next, rest).len() == 0);
    }
}

/// A refused upload has its directories removed, unless it is refused for the
/// kind of its file or because its record could not be written.
pub proof fn law_refusal_removes_directories<R>(
    state: UploadStateModel,
    event: UploadEventModel,
    date: Seq<char>,
)
    requires
        upload_answered(state, event),
        upload_step::<R>(state, event, date).1 is Refuse,
    ensures
        ({
            let directories = upload_step::<R>(state, event, date).1->Refuse_0;
            if event is Field || event is Recorded {
                directories == Seq::<Seq<char>>::empty()
            } else {
                directories == both_directories(upload_id(state)->0)
            }
        }),
{
}

/// The file that is processed is the file that was saved.
pub proof fn law_saved_file_is_processed<R>(
    form: FormModel,
    saved_date: Seq<char>,
    date: Seq<char>,
    recording: RecordingModel,
)
    requires
        lacking(form) is None,
        !(recording is Failed),
    ensures
        ({
            let (saving, save) = upload_step::<R>(
                UploadStateModel::Fields(form),
                UploadEventModel::NoMoreFields,
                date,
            );
            let (awaiting, record) = upload_step::<R>(
                saving,
                UploadEventModel::Saved(None),
                saved_date,
            );
            let (end, accept) = upload_step::<R>(
                awaiting,
                UploadEventModel::Recorded(recording),
                date,
            );
            &&& save is SaveFile
            &&& record is Record
            &&& accept is Accept
            &&& accept->Accept_0.id == form.id
            &&& accept->Accept_0.path == save->SaveFile_0
            &&& save->SaveFile_1 == (form.file->0).1
        }),
{
}

/// What is known of a form, of the head of a field and of a submission is what each
/// of them holds.
pub proof fn law_forms_hold_what_is_put_in(
    form: UploadForm,
    header: FieldHeader,
    submission: Submission,
)
    ensures
        form@.id == form.id@,
        match form.title {
            Some(text) => form@.title == Some(text@),
            None => form@.title is None,
        },
        match form.description {
            Some(text) => form@.description == Some(text@),
            None => form@.description is None,
        },
        match form.file {
            Some((name, bytes)) => form@.file == Some((name@, bytes@)),
            None => form@.file is None,
        },
        match header.name {
            Some(text) => header@.name == Some(text@),
            None => header@.name is None,
        },
        match header.file_name {
            Some(text) => header@.file_name == Some(text@),
            None => header@.file_name is None,
        },
        submission@.id == submission.id@,
        submission@.title == submission.title@,
        submission@.description == submission.description@,
        submission@.file_name == submission.file_name@,
{
}

/// A file is taken for a video exactly where its name is any text with one of the
/// four suffixes behind it, whatever that text is, the empty one too.
pub proof fn law_names_with_a_suffix_are_supported(file_name: Seq<char>)
    ensures
        forall|before: Seq<char>| supported(#[trigger] (before + ".mp4"@)),
        forall|before: Seq<char>| supported(#[trigger] (before + ".avi"@)),
        forall|before: Seq<char>| supported(#[trigger] (before + ".mov"@)),
        forall|before: Seq<char>| supported(#[trigger] (before + ".mkv"@)),
        supported(file_name) ==> {
            ||| exists|before: Seq<char>| file_name == #[trigger] (before + ".mp4"@)
            ||| exists|before: Seq<char>| file_name == #[trigger] (before + ".avi"@)
            ||| exists|before: Seq<char>| file_name == #[trigger] (before + ".mov"@)
            ||| exists|before: Seq<char>| file_name == #[trigger] (before + ".mkv"@)
        },
{
    law_suffixes_stand_behind(file_name, ".mp4"@);
    law_suffixes_stand_behind(file_name, ".avi"@);
    law_suffixes_stand_behind(file_name, ".mov"@);
    law_suffixes_stand_behind(file_name, ".mkv"@);
}

/// A field that is neither the title nor the description and has a file whose name
/// ends in one of the four suffixes is read as the video, whatever stands before
/// the suffix and whatever the form holds already. One whose file is named
/// otherwise ends the upload as a bad request, with nothing removed.
pub proof fn law_video_files_are_read<R>(
    form: UploadForm,
    header: FieldHeader,
    file_name: String,
    date: Seq<char>,
)
    requires
        header.file_name == Some(file_name),
        header.name is Some ==> header.name->0@ != "title"@ && header.name->0@ != "description"@,
    ensures
        ({
            let (state, action) = upload_step::<R>(
                UploadState::Fields(form)@,
                UploadEvent::Field(header)@,
                date,
            );
            let video = {
                ||| exists|before: Seq<char>| file_name@ == #[trigger] (before + ".mp4"@)
                ||| exists|before: Seq<char>| file_name@ == #[trigger] (before + ".avi"@)
                ||| exists|before: Seq<char>| file_name@ == #[trigger] (before + ".mov"@)
                ||| exists|before: Seq<char>| file_name@ == #[trigger] (before + ".mkv"@)
            };
            &&& video ==> {
                &&& state == UploadStateModel::ReadingFile(form@, file_name@)
                &&& action is ReadBytes
            }
            &&& !video ==> {
                &&& state is Finished
                &&& action is Refuse
                &&& action->Refuse_0.len() == 0
                &&& action->Refuse_1.status == 400
                &&& action->Refuse_1.headers.len() == 0
                &&& action->Refuse_1.body == ContentModel::Text(
                    "upload a video file (mp4, avi, mov, mkv)"@,
                )
            }
        }),
{
    law_names_with_a_suffix_are_supported(file_name@);
}

/// A field named `title` or `description` is read as text, whether or not it has a
/// file. A field of any other name without a file is passed over.
pub proof fn law_named_fields_are_read_as_text<R>(
    form: UploadForm,
    header: FieldHeader,
    date: Seq<char>,
)
    ensures
        ({
            let (state, action) = upload_step::<R>(
                UploadState::Fields(form)@,
                UploadEvent::Field(header)@,
                date,
            );
            let title = header.name is Some && header.name->0@ == "title"@;
            let description = header.name is Some && header.name->0@ == "description"@;
            &&& title ==> state == UploadStateModel::ReadingTitle(form@) && action is ReadText
            &&& description ==> state == UploadStateModel::ReadingDescription(form@)
                && action is ReadText
            &&& !title && !description && header.file_name is None ==> {
                &&& state == UploadStateModel::Fields(form@)
                &&& action is NextField
            }
        }),
{
    reveal_strlit("title");
    reveal_strlit("description");
    assert("title"@.len() != "description"@.len());
}

/// What is read of a field is what the form then holds in its place, unchanged, and
/// nothing else of the form changes. A text that could not be read changes nothing.
pub proof fn law_what_is_read_is_filled_in<R>(
    form: UploadForm,
    text: String,
    name: String,
    bytes: Vec<u8>,
    date: Seq<char>,
)
    ensures
        upload_step::<R>(UploadState::Preparing(form)@, UploadEvent::Prepared@, date) == (
            UploadStateModel::Fields(form@),
            UploadActionModel::<R>::NextField,
        ),
        ({
            let (state, action) = upload_step::<R>(
                UploadState::ReadingTitle(form)@,
                UploadEvent::TextRead(Some(text))@,
                date,
            );
            &&& state is Fields && action is NextField
            &&& state->Fields_0.title == Some(text@)
            &&& state->Fields_0.description == form@.description
            &&& state->Fields_0.file == form@.file
            &&& state->Fields_0.id == form.id@
        }),
        ({
            let (state, action) = upload_step::<R>(
                UploadState::ReadingDescription(form)@,
                UploadEvent::TextRead(Some(text))@,
                date,
            );
            &&& state is Fields && action is NextField
            &&& state->Fields_0.description == Some(text@)
            &&& state->Fields_0.title == form@.title
            &&& state->Fields_0.file == form@.file
            &&& state->Fields_0.id == form.id@
        }),
        ({
            let (state, action) = upload_step::<R>(
                UploadState::ReadingFile(form, name)@,
                UploadEvent::BytesRead(Ok(bytes))@,
                date,
            );
            &&& state is Fields && action is NextField
            &&& state->Fields_0.file == Some((name@, bytes@))
            &&& state->Fields_0.title == form@.title
            &&& state->Fields_0.description == form@.description
            &&& state->Fields_0.id == form.id@
        }),
        upload_step::<R>(
            UploadState::ReadingTitle(form)@,
            UploadEvent::TextRead(None)@,
            date,
        ) == (UploadStateModel::Fields(form@), UploadActionModel::<R>::NextField),
        upload_step::<R>(
            UploadState::ReadingDescription(form)@,
            UploadEvent::TextRead(None)@,
            date,
        ) == (UploadStateModel::Fields(form@), UploadActionModel::<R>::NextField),
{
}

/// A form with a title and a description that are not blank and with a file is
/// saved: the bytes that were read, under the name that was sent, in the directory
/// of that upload. Title, description and name are kept as they were sent.
pub proof fn law_complete_form_is_saved<R>(
    form: UploadForm,
    title: String,
    description: String,
    name: String,
    bytes: Vec<u8>,
    date: Seq<char>,
)
    requires
        form.title == Some(title),
        form.description == Some(description),
        form.file == Some((name, bytes)),
        exists|i: int| 0 <= i < title@.len() && !white_space(#[trigger] title@[i]),
        exists|i: int| 0 <= i < description@.len() && !white_space(#[trigger] description@[i]),
    ensures
        ({
            let (state, action) = upload_step::<R>(
                UploadState::Fields(form)@,
                UploadEvent::NoMoreFields@,
                date,
            );
            &&& action == UploadActionModel::<R>::SaveFile(
                "videos/input/"@ + form.id@ + "/"@ + name@,
                bytes@,
            )
            &&& state is Saving
            &&& state->Saving_0.id == form.id@
            &&& state->Saving_0.title == title@
            &&& state->Saving_0.description == description@
            &&& state->Saving_0.file_name == name@
        }),
{
}

/// A form that lacks its title, its description or its file, in this order, is
/// refused as a bad request that names what is lacking, and both directories of
/// the upload are removed. A text of nothing but white space is lacking too.
pub proof fn law_incomplete_form_is_refused<R>(form: UploadForm, date: Seq<char>)
    ensures
        ({
            let (state, action) = upload_step::<R>(
                UploadState::Fields(form)@,
                UploadEvent::NoMoreFields@,
                date,
            );
            let titled = form.title is Some && exists|i: int|
                0 <= i < form.title->0@.len() && !white_space(#[trigger] form.title->0@[i]);
            let described = form.description is Some && exists|i: int|
                0 <= i < form.description->0@.len() && !white_space(
                    #[trigger] form.description->0@[i],
                );
            !titled || !described || form.file is None ==> {
                &&& state is Finished
                &&& action is Refuse
                &&& action->Refuse_0 == seq![
                    "videos/input/"@ + form.id@,
                    "videos/output/"@ + form.id@,
                ]
                &&& action->Refuse_1.status == 400
                &&& action->Refuse_1.headers.len() == 0
                &&& action->Refuse_1.body == ContentModel::Text(
                    if !titled {
                        "title is required"@
                    } else if !described {
                        "description is required"@
                    } else {
                        "no video file uploaded"@
                    },
                )
            }
        }),
{
}

/// A saved upload is recorded with what it holds, and the file that is to be
/// processed is the one that was saved. The extension is what follows the last dot
/// of the name.
pub proof fn law_saved_upload_is_recorded<R>(submission: Submission, date: Seq<char>)
    ensures
        ({
            let (state, action) = upload_step::<R>(
                UploadState::Saving(submission)@,
                UploadEvent::Saved(None)@,
                date,
            );
            let params = action->Record_0.params;
            &&& state is Recording
            &&& state->Recording_0.id == submission.id@
            &&& state->Recording_0.path == "videos/input/"@ + submission.id@ + "/"@
                + submission.file_name@
            &&& action is Record
            &&& action->Record_0.sql == INSERT_VIDEO@
            &&& params.len() == 10
            &&& params[0] == ParamModel::<R>::Text(submission.id@)
            &&& params[1] == ParamModel::<R>::Text(submission.title@)
            &&& params[2] == ParamModel::<R>::Text(submission.file_name@)
            &&& forall|before: Seq<char>, extension: Seq<char>|
                submission.file_name@ == #[trigger] (before + seq!['.'] + extension)
                    && !extension.contains('.') ==> params[3] == ParamModel::<R>::Text(extension)
            &&& !submission.file_name@.contains('.') ==> params[3] == ParamModel::<R>::Text(
                submission.file_name@,
            )
            &&& params[6] == ParamModel::<R>::Text(date)
            &&& params[7] == ParamModel::<R>::Text(submission.description@)
            &&& params[8] == ParamModel::<R>::Integer(0)
            &&& params[4] is Null && params[5] is Null && params[9] is Null
        }),
{
    let name = submission.file_name@;
    assert forall|before: Seq<char>, extension: Seq<char>|
        name == #[trigger] (before + seq!['.'] + extension) && !extension.contains(
            '.',
        ) implies after_last(name, '.') == extension by {
        law_tail_stands_behind_the_mark(before, '.', extension);
    }
    if !name.contains('.') {
        law_tail_stands_behind_the_mark(Seq::empty(), '.', name);
    }
}

/// An upload whose record is written, or whose catalog was not at hand, is accepted:
/// its file is processed, and the answer ends in its identifier. One whose record
/// was refused is answered with the reason.
pub proof fn law_recorded_upload_is_answered<R>(source: Source, reason: String, date: Seq<char>)
    ensures
        ({
            let state = UploadState::Recording(source)@;
            let (written, accept) = upload_step::<R>(
                state,
                UploadEvent::Recorded(Recording::Written)@,
                date,
            );
            let (unlocked, go_on) = upload_step::<R>(
                state,
                UploadEvent::Recorded(Recording::Unlocked)@,
                date,
            );
            let (failed, refuse) = upload_step::<R>(
                state,
                UploadEvent::Recorded(Recording::Failed(reason))@,
                date,
            );
            &&& written is Finished && unlocked is Finished && failed is Finished
            &&& accept is Accept
            &&& accept->Accept_0.id == source.id@
            &&& accept->Accept_0.path == source.path@
            &&& accept->Accept_1.status == 200
            &&& accept->Accept_1.headers.len() == 0
            &&& accept->Accept_1.body == ContentModel::Text(
                "Upload successful! Video processing started. id: "@ + source.id@,
            )
            &&& go_on == accept
            &&& refuse is Refuse
            &&& refuse->Refuse_0.len() == 0
            &&& refuse->Refuse_1.status == 500
            &&& refuse->Refuse_1.headers.len() == 0
            &&& refuse->Refuse_1.body == ContentModel::Text("failed to save: "@ + reason@)
        }),
{
}

/// An upload that fails on the way is answered with the reason, as it was given,
/// and both of its directories are removed.
pub proof fn law_failures_tell_the_reason<R>(
    form: UploadForm,
    name: String,
    submission: Submission,
    reason: String,
    date: Seq<char>,
)
    ensures
        ({
            let (ended, action) = upload_step::<R>(
                UploadState::Fields(form)@,
                UploadEvent::FieldFailed(reason)@,
                date,
            );
            &&& ended is Finished && action is Refuse
            &&& action->Refuse_0 == seq!["videos/input/"@ + form.id@, "videos/output/"@ + form.id@]
            &&& action->Refuse_1.status == 400
            &&& action->Refuse_1.headers.len() == 0
            &&& action->Refuse_1.body == ContentModel::Text("failed to read upload: "@ + reason@)
        }),
        ({
            let (ended, action) = upload_step::<R>(
                UploadState::ReadingFile(form, name)@,
                UploadEvent::BytesRead(Err(reason))@,
                date,
            );
            &&& ended is Finished && action is Refuse
            &&& action->Refuse_0 == seq!["videos/input/"@ + form.id@, "videos/output/"@ + form.id@]
            &&& action->Refuse_1.status == 400
            &&& action->Refuse_1.headers.len() == 0
            &&& action->Refuse_1.body == ContentModel::Text("failed to read file: "@ + reason@)
        }),
        ({
            let (ended, action) = upload_step::<R>(
                UploadState::Saving(submission)@,
                UploadEvent::Saved(Some(reason))@,
                date,
            );
            &&& ended is Finished && action is Refuse
            &&& action->Refuse_0 == seq![
                "videos/input/"@ + submission.id@,
                "videos/output/"@ + submission.id@,
            ]
            &&& action->Refuse_1.status == 500
            &&& action->Refuse_1.headers.len() == 0
            &&& action->Refuse_1.body == ContentModel::Text("failed to save: "@ + reason@)
        }),
{
}

/// An upload begins with an empty form under its identifier, and with the directory
/// of all videos and the two of its own, in which its file and its stream will lie.
pub proof fn law_upload_begins_empty(id: Seq<char>, name: Seq<char>)
    ensures
        empty_form(id).id == id,
        empty_form(id).title is None,
        empty_form(id).description is None,
        empty_form(id).file is None,
        needed_directories(id) == seq!["videos"@, "videos/input/"@ + id, "videos/output/"@ + id],
        upload_file(id, name) == needed_directories(id)[1] + "/"@ + name,
        segment_file(id, name) == needed_directories(id)[2] + "/"@ + name,
{
}

/// What is known of an action of an upload is what it holds: the directories, the
/// path with the bytes, the statement, the answer and the video.
pub proof fn law_upload_actions_hold_what_is_put_in<R>(
    directories: Vec<String>,
    path: String,
    bytes: Vec<u8>,
    statement: Statement<R>,
    source: Source,
    reply: Reply,
)
    ensures
        UploadAction::<R>::CreateDirectories(directories)@ == UploadActionModel::<
            R,
        >::CreateDirectories(Seq::new(directories@.len(), |i: int| directories@[i]@)),
        UploadAction::<R>::NextField@ == UploadActionModel::<R>::NextField,
        UploadAction::<R>::ReadText@ == UploadActionModel::<R>::ReadText,
        UploadAction::<R>::ReadBytes@ == UploadActionModel::<R>::ReadBytes,
        UploadAction::<R>::SaveFile(path, bytes)@ == UploadActionModel::<R>::SaveFile(path@, bytes@),
        UploadAction::Record(statement)@ == UploadActionModel::Record(statement@),
        UploadAction::<R>::Refuse(directories, reply)@ == UploadActionModel::<R>::Refuse(
            Seq::new(directories@.len(), |i: int| directories@[i]@),
            reply@,
        ),
        UploadAction::<R>::Accept(source, reply)@ == UploadActionModel::<R>::Accept(
            source@,
            reply@,
        ),
{
    assert(texts(directories@) =~= Seq::new(directories@.len(), |i: int| directories@[i]@));
}

/// What is known of a state of an upload is what it holds.
pub proof fn law_upload_states_hold_what_is_put_in(
    form: UploadForm,
    name: String,
    submission: Submission,
    source: Source,
)
    ensures
        UploadState::Preparing(form)@ == UploadStateModel::Preparing(form@),
        UploadState::Fields(form)@ == UploadStateModel::Fields(form@),
        UploadState::ReadingTitle(form)@ == UploadStateModel::ReadingTitle(form@),
        UploadState::ReadingDescription(form)@ == UploadStateModel::ReadingDescription(form@),
        UploadState::ReadingFile(form, name)@ == UploadStateModel::ReadingFile(form@, name@),
        UploadState::Saving(submission)@ == UploadStateModel::Saving(submission@),
        UploadState::Recording(source)@ == UploadStateModel::Recording(source@),
        UploadState::Finished@ == UploadStateModel::Finished,
{
}

/// Whatever `is_supported` gives: yes for any text with one of the four suffixes
/// behind it, and for no other.
pub proof fn law_is_supported_asks_for_the_suffix(file_name: &str, found: bool)
    requires
        call_ensures(is_supported, (file_name,), found),
    ensures
        found <==> {
            ||| exists|before: Seq<char>| file_name@ == #[trigger] (before + ".mp4"@)
            ||| exists|before: Seq<char>| file_name@ == #[trigger] (before + ".avi"@)
            ||| exists|before: Seq<char>| file_name@ == #[trigger] (before + ".mov"@)
            ||| exists|before: Seq<char>| file_name@ == #[trigger] (before + ".mkv"@)
        },
{
    law_names_with_a_suffix_are_supported(file_name@);
}

/// Whatever `handle_upload` does with a complete form: save the bytes that were read
/// under the name that was sent; and then record what was sent and process that
/// file, and accept the upload under its identifier.
pub proof fn law_handle_upload_takes_in_what_was_sent<R>(
    form: UploadForm,
    title: String,
    description: String,
    name: String,
    bytes: Vec<u8>,
    submission: Submission,
    source: Source,
    saves: (UploadState, UploadAction<R>),
    records: (UploadState, UploadAction<R>),
    accepts: (UploadState, UploadAction<R>),
)
    requires
        form.title == Some(title),
        form.description == Some(description),
        form.file == Some((name, bytes)),
        exists|i: int| 0 <= i < title@.len() && !white_space(#[trigger] title@[i]),
        exists|i: int| 0 <= i < description@.len() && !white_space(#[trigger] description@[i]),
        call_ensures(
            handle_upload::<R>,
            (UploadState::Fields(form), UploadEvent::NoMoreFields),
            saves,
        ),
        call_ensures(
            handle_upload::<R>,
            (UploadState::Saving(submission), UploadEvent::Saved(None)),
            records,
        ),
        call_ensures(
            handle_upload::<R>,
            (UploadState::Recording(source), UploadEvent::Recorded(Recording::Written)),
            accepts,
        ),
    ensures
        saves.1 is SaveFile,
        saves.1->SaveFile_0@ == "videos/input/"@ + form.id@ + "/"@ + name@,
        saves.1->SaveFile_1@ == bytes@,
        saves.0@ == UploadStateModel::Saving(
            SubmissionModel {
                id: form.id@,
                title: title@,
                description: description@,
                file_name: name@,
            },
        ),
        records.1 is Record,
        records.1->Record_0.sql@ == INSERT_VIDEO@,
        records.1->Record_0@.params[0] == ParamModel::<R>::Text(submission.id@),
        records.1->Record_0@.params[1] == ParamModel::<R>::Text(submission.title@),
        records.1->Record_0@.params[2] == ParamModel::<R>::Text(submission.file_name@),
        records.1->Record_0@.params[7] == ParamModel::<R>::Text(submission.description@),
        records.1->Record_0@.params[8] == ParamModel::<R>::Integer(0),
        records.1->Record_0@.params[6] is Text,
        date_of_the_clock(records.1->Record_0@.params[6]->Text_0),
        records.0@ == UploadStateModel::Recording(
            SourceModel {
                id: submission.id@,
                path: "videos/input/"@ + submission.id@ + "/"@ + submission.file_name@,
            },
        ),
        accepts.1 is Accept,
        accepts.1->Accept_0@ == source@,
        accepts.1->Accept_1.status == 200,
        accepts.1->Accept_1.body is Text,
        accepts.1->Accept_1.body->Text_0@ == "Upload successful! Video processing started. id: "@
            + source.id@,
{
    let saved = choose|date: Seq<char>|
        (saves.0@, saves.1@) == #[trigger] upload_step::<R>(
            UploadState::Fields(form)@,
            UploadEvent::NoMoreFields@,
            date,
        );
    law_complete_form_is_saved::<R>(form, title, description, name, bytes, saved);
    let recorded = choose|date: Seq<char>|
        {
            &&& (records.0@, records.1@) == #[trigger] upload_step::<R>(
                UploadState::Saving(submission)@,
                UploadEvent::Saved(None)@,
                date,
            )
            &&& upload_date(date) && date_of_the_clock(date)
        };
    law_saved_upload_is_recorded::<R>(submission, recorded);
    law_recorded_upload_is_answered::<R>(source, name, recorded);
}

/// Whatever `handle_upload` does with a field of a form: read the text of a title or
/// of a description and put it in its place, and read a file of one of the four
/// kinds and put it in its place.
pub proof fn law_handle_upload_reads_the_fields<R>(
    form: UploadForm,
    header: FieldHeader,
    file_name: String,
    bytes: Vec<u8>,
    text: String,
    headed: (UploadState, UploadAction<R>),
    titled: (UploadState, UploadAction<R>),
    described: (UploadState, UploadAction<R>),
    filed: (UploadState, UploadAction<R>),
)
    requires
        call_ensures(
            handle_upload::<R>,
            (UploadState::Fields(form), UploadEvent::Field(header)),
            headed,
        ),
        call_ensures(
            handle_upload::<R>,
            (UploadState::ReadingTitle(form), UploadEvent::TextRead(Some(text))),
            titled,
        ),
        call_ensures(
            handle_upload::<R>,
            (UploadState::ReadingDescription(form), UploadEvent::TextRead(Some(text))),
            described,
        ),
        call_ensures(
            handle_upload::<R>,
            (UploadState::ReadingFile(form, file_name), UploadEvent::BytesRead(Ok(bytes))),
            filed,
        ),
    ensures
        header.name is Some && (header.name->0@ == "title"@ || header.name->0@ == "description"@)
            ==> headed.1 is ReadText,
        !(header.name is Some && (header.name->0@ == "title"@ || header.name->0@
            == "description"@)) && header.file_name == Some(file_name) ==> (headed.1 is ReadBytes
            <==> {
            ||| exists|before: Seq<char>| file_name@ == #[trigger] (before + ".mp4"@)
            ||| exists|before: Seq<char>| file_name@ == #[trigger] (before + ".avi"@)
            ||| exists|before: Seq<char>| file_name@ == #[trigger] (before + ".mov"@)
            ||| exists|before: Seq<char>| file_name@ == #[trigger] (before + ".mkv"@)
        }),
        titled.0@ == UploadStateModel::Fields(FormModel { title: Some(text@), ..form@ }),
        described.0@ == UploadStateModel::Fields(FormModel { description: Some(text@), ..form@ }),
        filed.0@ == UploadStateModel::Fields(
            FormModel { file: Some((file_name@, bytes@)), ..form@ },
        ),
{
    let date = choose|date: Seq<char>|
        (headed.0@, headed.1@) == #[trigger] upload_step::<R>(
            UploadState::Fields(form)@,
            UploadEvent::Field(header)@,
            date,
        );
    law_named_fields_are_read_as_text::<R>(form, header, date);
    if header.file_name == Some(file_name) && !(header.name is Some && (header.name->0@
        == "title"@ || header.name->0@ == "description"@)) {
        law_video_files_are_read::<R>(form, header, file_name, date);
    }
}

/// Whatever `handle_upload` gives for any state and event is one step of the upload
/// on just these, at the moment that the clock showed where the record is made.
pub proof fn law_handle_upload_takes_one_step<R>(
    state: UploadState,
    event: UploadEvent,
    next: (UploadState, UploadAction<R>),
)
    requires
        call_ensures(handle_upload::<R>, (state, event), next),
    ensures
        exists|date: Seq<char>|
            {
                &&& (next.0@, next.1@) == #[trigger] upload_step::<R>(state@, event@, date)
                &&& event@ == UploadEventModel::Saved(None) ==> date_of_the_clock(date)
            },
{
}

/// Whatever an upload begins with: an empty form, and the directory of all videos
/// and the two of its own, under the identifier that is given or, without one, under
/// one that is drawn.
pub proof fn law_uploads_begin_with_their_directories<R>(
    id: String,
    started: (UploadState, UploadAction<R>),
    begun: (UploadState, UploadAction<R>),
)
    requires
        call_ensures(start_upload::<R>, (id,), started),
        call_ensures(begin_upload::<R>, (), begun),
    ensures
        started.0 is Preparing,
        started.0->Preparing_0.id@ == id@,
        started.0->Preparing_0.title is None,
        started.0->Preparing_0.description is None,
        started.0->Preparing_0.file is None,
        started.1 is CreateDirectories,
        started.1->CreateDirectories_0@.len() == 3,
        started.1->CreateDirectories_0@[0]@ == "videos"@,
        started.1->CreateDirectories_0@[1]@ == "videos/input/"@ + id@,
        started.1->CreateDirectories_0@[2]@ == "videos/output/"@ + id@,
        begun.0 is Preparing,
        drawn_id(begun.0->Preparing_0.id@),
        begun.0->Preparing_0.title is None,
        begun.0->Preparing_0.description is None,
        begun.0->Preparing_0.file is None,
        begun.1 is CreateDirectories,
        begun.1->CreateDirectories_0@.len() == 3,
        begun.1->CreateDirectories_0@[0]@ == "videos"@,
        begun.1->CreateDirectories_0@[1]@ == "videos/input/"@ + begun.0->Preparing_0.id@,
        begun.1->CreateDirectories_0@[2]@ == "videos/output/"@ + begun.0->Preparing_0.id@,
{
    let given = started.1->CreateDirectories_0@;
    let id_drawn = begun.0->Preparing_0.id@;
    let made = begun.1->CreateDirectories_0@;
    assert(texts(given) == needed_directories(id@));
    assert(given.len() == texts(given).len() && needed_directories(id@).len() == 3);
    assert(texts(given)[0] == given[0]@ && texts(given)[1] == given[1]@);
    assert(texts(given)[2] == given[2]@);
    assert(texts(made) == needed_directories(id_drawn));
    assert(made.len() == texts(made).len() && needed_directories(id_drawn).len() == 3);
    assert(texts(made)[0] == made[0]@ && texts(made)[1] == made[1]@);
    assert(texts(made)[2] == made[2]@);
}

} // verus!
