//! Turning an uploaded file into a stream.

use crate::catalog::{
    completion, delete_video, keyed, update_video, ParamModel, Statement, StatementModel,
    DELETE_VIDEO, UPDATE_VIDEO,
};
use crate::layout::{
    input_dir, input_directory, output_dir, output_directory, playlist_file, playlist_path,
    segment_pattern, segment_pattern_path, thumbnail_file, thumbnail_key, thumbnail_name,
    thumbnail_path,
};
use crate::number::Number;
use crate::probe::{
    first_resolution, law_resolution_reads_back, pick_resolution, read_probe, reads_as_size,
    report_of, silent_report, Probe, ProbeModel,
};
use crate::text::{optional_text, texts};
use vstd::prelude::*;

verus! {

/// A program with its arguments.
#[derive(Debug, PartialEq)]
pub struct Command {
    pub program: String,
    pub args: Vec<String>,
}

/// A program with its arguments, as a mathematical value.
pub struct CommandModel {
    pub program: Seq<char>,
    pub args: Seq<Seq<char>>,
}

impl View for Command {
    type V = CommandModel;

    open spec fn view(&self) -> CommandModel {
        CommandModel { program: self.program@, args: texts(self.args@) }
    }
}

/// The video that is processed: its identifier, and the file that was uploaded.
#[derive(Debug, PartialEq)]
pub struct Source {
    pub id: String,
    pub path: String,
}

/// The video that is processed, as a mathematical value.
pub struct SourceModel {
    pub id: Seq<char>,
    pub path: Seq<char>,
}

impl View for Source {
    type V = SourceModel;

    open spec fn view(&self) -> SourceModel {
        SourceModel { id: self.id@, path: self.path@ }
    }
}

/// The command that cuts the uploaded file into a playlist and segments of four
/// seconds.
pub open spec fn transcoding(source: SourceModel) -> CommandModel {
    CommandModel {
        program: "ffmpeg"@,
        args: seq![
            "-i"@,
            source.path,
            "-c:v"@,
            "libx264"@,
            "-c:a"@,
            "aac"@,
            "-preset"@,
            "fast"@,
            "-crf"@,
            "23"@,
            "-sc_threshold"@,
            "0"@,
            "-g"@,
            "48"@,
            "-keyint_min"@,
            "48"@,
            "-hls_time"@,
            "4"@,
            "-hls_playlist_type"@,
            "vod"@,
            "-hls_segment_filename"@,
            segment_pattern(source.id),
            "-y"@,
            playlist_file(source.id),
        ],
    }
}

/// The command that reports on the uploaded file.
pub open spec fn probing(source: SourceModel) -> CommandModel {
    CommandModel {
        program: "ffprobe"@,
        args: seq![
            "-v"@,
            "quiet"@,
            "-print_format"@,
            "json"@,
            "-show_format"@,
            "-show_streams"@,
            source.path,
        ],
    }
}

/// The command that takes the thumbnail at the given second.
pub open spec fn capturing(source: SourceModel, second: Seq<char>) -> CommandModel {
    CommandModel {
        program: "ffmpeg"@,
        args: seq![
            "-ss"@,
            second,
            "-i"@,
            source.path,
            "-vframes"@,
            "1"@,
            "-vf"@,
            "scale=1280:-1"@,
            "-q:v"@,
            "2"@,
            "-y"@,
            thumbnail_file(source.id),
        ],
    }
}

fn push_text(args: &mut Vec<String>, text: &str)
    ensures
        texts(final(args)@) == texts(old(args)@).push(text@),
{
    args.push(text.to_owned());
    assert(texts(args@) =~= texts(old(args)@).push(text@));
}

/// Writes the command that cuts the uploaded file into segments.
pub fn transcode_command(source: &Source) -> (command: Command)
    ensures
        command@ == transcoding(source@),
{
    let mut args: Vec<String> = Vec::new();
    push_text(&mut args, "-i");
    push_text(&mut args, source.path.as_str());
    push_text(&mut args, "-c:v");
    push_text(&mut args, "libx264");
    push_text(&mut args, "-c:a");
    push_text(&mut args, "aac");
    push_text(&mut args, "-preset");
    push_text(&mut args, "fast");
    push_text(&mut args, "-crf");
    push_text(&mut args, "23");
    push_text(&mut args, "-sc_threshold");
    push_text(&mut args, "0");
    push_text(&mut args, "-g");
    push_text(&mut args, "48");
    push_text(&mut args, "-keyint_min");
    push_text(&mut args, "48");
    push_text(&mut args, "-hls_time");
    push_text(&mut args, "4");
    push_text(&mut args, "-hls_playlist_type");
    push_text(&mut args, "vod");
    push_text(&mut args, "-hls_segment_filename");
    push_text(&mut args, segment_pattern_path(source.id.as_str()).as_str());
    push_text(&mut args, "-y");
    push_text(&mut args, playlist_path(source.id.as_str()).as_str());
    assert(texts(args@) =~= transcoding(source@).args);
    Command { program: "ffmpeg".to_owned(), args }
}

/// Writes the command that reports on the uploaded file.
pub fn probe_command(source: &Source) -> (command: Command)
    ensures
        command@ == probing(source@),
{
    let mut args: Vec<String> = Vec::new();
    push_text(&mut args, "-v");
    push_text(&mut args, "quiet");
    push_text(&mut args, "-print_format");
    push_text(&mut args, "json");
    push_text(&mut args, "-show_format");
    push_text(&mut args, "-show_streams");
    push_text(&mut args, source.path.as_str());
    assert(texts(args@) =~= probing(source@).args);
    Command { program: "ffprobe".to_owned(), args }
}

/// Writes the command that takes the thumbnail.
pub fn capture_command(source: &Source, second: &str) -> (command: Command)
    ensures
        command@ == capturing(source@, second@),
{
    let mut args: Vec<String> = Vec::new();
    push_text(&mut args, "-ss");
    push_text(&mut args, second);
    push_text(&mut args, "-i");
    push_text(&mut args, source.path.as_str());
    push_text(&mut args, "-vframes");
    push_text(&mut args, "1");
    push_text(&mut args, "-vf");
    push_text(&mut args, "scale=1280:-1");
    push_text(&mut args, "-q:v");
    push_text(&mut args, "2");
    push_text(&mut args, "-y");
    push_text(&mut args, thumbnail_path(source.id.as_str()).as_str());
    assert(texts(args@) =~= capturing(source@, second@).args);
    Command { program: "ffmpeg".to_owned(), args }
}

/// How far the processing of a video has come. `R` is the type of finite
/// numbers.
#[derive(Debug, PartialEq)]
pub enum Job<R> {
    /// The file is being cut into segments.
    Transcoding(Source),
    /// The file is being reported on.
    Probing(Source),
    /// The second of the thumbnail is being chosen.
    Timing(Source, Option<String>),
    /// The thumbnail is being taken.
    Capturing(Source, Number<R>, Option<String>),
    /// Nothing is left to decide.
    Finished,
}

/// What came of an action.
#[derive(Debug, PartialEq)]
pub enum JobEvent<R> {
    /// Whether the file was cut into segments.
    Transcoded(bool),
    /// What the probe wrote, where it could be run.
    Probed(Option<Vec<u8>>),
    /// The duration as a number and a second within it, where the text of the
    /// duration reads as a floating-point number, finite or not.
    Timed(Option<(Number<R>, String)>),
    /// Whether the thumbnail was taken.
    Captured(bool),
}

/// What is to be done next.
#[derive(Debug, PartialEq)]
pub enum JobAction<R> {
    /// Run the command that cuts the file into segments.
    Transcode(Command),
    /// Run the command that reports on the file.
    Probe(Command),
    /// Run the command that takes the thumbnail.
    Capture(Command),
    /// Read a duration as a number, and choose a second within it.
    Time(String),
    /// Complete the record. Nothing follows.
    Store(Statement<R>),
    /// Remove the directories and the record. Nothing follows.
    Discard(Vec<String>, Statement<R>),
}

/// A job as a mathematical value.
pub enum JobModel<R> {
    Transcoding(SourceModel),
    Probing(SourceModel),
    Timing(SourceModel, Option<Seq<char>>),
    Capturing(SourceModel, Number<R>, Option<Seq<char>>),
    Finished,
}

/// An event of a job as a mathematical value.
pub enum JobEventModel<R> {
    Transcoded(bool),
    Probed(Option<Seq<u8>>),
    Timed(Option<(Number<R>, Seq<char>)>),
    Captured(bool),
}

/// An action of a job as a mathematical value.
pub enum JobActionModel<R> {
    Transcode(CommandModel),
    Probe(CommandModel),
    Capture(CommandModel),
    Time(Seq<char>),
    Store(StatementModel<R>),
    Discard(Seq<Seq<char>>, StatementModel<R>),
}

impl<R> View for Job<R> {
    type V = JobModel<R>;

    open spec fn view(&self) -> JobModel<R> {
        match self {
            Job::Transcoding(source) => JobModel::Transcoding(source@),
            Job::Probing(source) => JobModel::Probing(source@),
            Job::Timing(source, resolution) => JobModel::Timing(
                source@,
                optional_text(*resolution),
            ),
            Job::Capturing(source, duration, resolution) => JobModel::Capturing(
                source@,
                *duration,
                optional_text(*resolution),
            ),
            Job::Finished => JobModel::Finished,
        }
    }
}

impl<R> View for JobEvent<R> {
    type V = JobEventModel<R>;

    open spec fn view(&self) -> JobEventModel<R> {
        match self {
            JobEvent::Transcoded(success) => JobEventModel::Transcoded(*success),
            JobEvent::Probed(None) => JobEventModel::Probed(None),
            JobEvent::Probed(Some(output)) => JobEventModel::Probed(Some(output@)),
            JobEvent::Timed(None) => JobEventModel::Timed(None),
            JobEvent::Timed(Some((duration, second))) => JobEventModel::Timed(
                Some((*duration, second@)),
            ),
            JobEvent::Captured(success) => JobEventModel::Captured(*success),
        }
    }
}

impl<R> View for JobAction<R> {
    type V = JobActionModel<R>;

    open spec fn view(&self) -> JobActionModel<R> {
        match self {
            JobAction::Transcode(command) => JobActionModel::Transcode(command@),
            JobAction::Probe(command) => JobActionModel::Probe(command@),
            JobAction::Capture(command) => JobActionModel::Capture(command@),
            JobAction::Time(duration) => JobActionModel::Time(duration@),
            JobAction::Store(statement) => JobActionModel::Store(statement@),
            JobAction::Discard(directories, statement) => JobActionModel::Discard(
                texts(directories@),
                statement@,
            ),
        }
    }
}

/// Both directories of a video.
pub open spec fn both_directories(id: Seq<char>) -> Seq<Seq<char>> {
    seq![input_dir(id), output_dir(id)]
}

/// Removing all that is kept of a video.
pub open spec fn discarding<R>(id: Seq<char>) -> JobActionModel<R> {
    JobActionModel::Discard(both_directories(id), keyed(DELETE_VIDEO@, id))
}

/// Completing the record of a video.
pub open spec fn storing<R>(
    id: Seq<char>,
    duration: Option<Number<R>>,
    resolution: Option<Seq<char>>,
    captured: bool,
) -> JobActionModel<R> {
    JobActionModel::Store(
        completion(
            id,
            duration,
            resolution,
            if captured {
                Some(thumbnail_key(id))
            } else {
                None
            },
        ),
    )
}

/// How a job goes on once the report is read: a thumbnail is taken only where
/// there is a duration.
pub open spec fn after_report<R>(source: SourceModel, report: ProbeModel) -> (
    JobModel<R>,
    JobActionModel<R>,
) {
    let resolution = first_resolution(report.streams);
    match report.duration {
        Some(duration) => (JobModel::Timing(source, resolution), JobActionModel::Time(duration)),
        None => (JobModel::Finished, storing(source.id, None, resolution, false)),
    }
}

/// What the report says, where the probe could be run.
pub open spec fn report_from(output: Option<Seq<u8>>) -> ProbeModel {
    match output {
        Some(bytes) => report_of(bytes),
        None => silent_report(),
    }
}

/// The event tells what came of the action that the job waits for.
pub open spec fn job_answered<R>(job: JobModel<R>, event: JobEventModel<R>) -> bool {
    match job {
        JobModel::Transcoding(_) => event is Transcoded,
        JobModel::Probing(_) => event is Probed,
        JobModel::Timing(_, _) => event is Timed,
        JobModel::Capturing(_, _, _) => event is Captured,
        JobModel::Finished => false,
    }
}

/// The next state of the job and the next action.
pub open spec fn job_step<R>(job: JobModel<R>, event: JobEventModel<R>) -> (
    JobModel<R>,
    JobActionModel<R>,
)
    recommends
        job_answered(job, event),
{
    match (job, event) {
        (JobModel::Transcoding(source), JobEventModel::Transcoded(true)) => (
            JobModel::Probing(source),
            JobActionModel::Probe(probing(source)),
        ),
        (JobModel::Transcoding(source), JobEventModel::Transcoded(false)) => (
            JobModel::Finished,
            discarding(source.id),
        ),
        (JobModel::Probing(source), JobEventModel::Probed(output)) => after_report(
            source,
            report_from(output),
        ),
        (JobModel::Timing(source, resolution), JobEventModel::Timed(Some((duration, second)))) => (
            JobModel::Capturing(source, duration, resolution),
            JobActionModel::Capture(capturing(source, second)),
        ),
        (JobModel::Timing(source, resolution), JobEventModel::Timed(None)) => (
            JobModel::Finished,
            storing(source.id, None, resolution, false),
        ),
        (JobModel::Capturing(source, duration, resolution), JobEventModel::Captured(success)) => (
            JobModel::Finished,
            storing(source.id, Some(duration), resolution, success),
        ),
        _ => arbitrary(),
    }
}

/// Lists both directories of a video.
pub fn video_directories(id: &str) -> (directories: Vec<String>)
    ensures
        texts(directories@) == both_directories(id@),
{
    let mut directories: Vec<String> = Vec::new();
    directories.push(input_directory(id));
    directories.push(output_directory(id));
    assert(texts(directories@) =~= both_directories(id@));
    directories
}

fn store<R>(
    id: &str,
    duration: Option<Number<R>>,
    resolution: Option<String>,
    captured: bool,
) -> (action: JobAction<R>)
    ensures
        action@ == storing(id@, duration, optional_text(resolution), captured),
{
    let thumbnail = if captured {
        Some(thumbnail_name(id))
    } else {
        None
    };
    JobAction::Store(update_video(id, duration, resolution, thumbnail))
}

/// Begins to process a video.
pub fn begin_processing<R>(source: Source) -> (next: (Job<R>, JobAction<R>))
    ensures
        next.0@ == JobModel::<R>::Transcoding(source@),
        next.1@ == JobActionModel::<R>::Transcode(transcoding(source@)),
{
    let command = transcode_command(&source);
    (Job::Transcoding(source), JobAction::Transcode(command))
}

/// Goes on with a job once the report on its file is read.
pub fn use_report<R>(source: Source, report: Probe) -> (next: (Job<R>, JobAction<R>))
    ensures
        (next.0@, next.1@) == after_report::<R>(source@, report@),
{
    let resolution = pick_resolution(&report.streams);
    match report.duration {
        Some(duration) => (Job::Timing(source, resolution), JobAction::Time(duration)),
        None => (Job::Finished, store(source.id.as_str(), None, resolution, false)),
    }
}

/// Goes on with a job, by what came of the last action.
pub fn process_video<R>(job: Job<R>, event: JobEvent<R>) -> (next: (Job<R>, JobAction<R>))
    requires
        job_answered(job@, event@),
    ensures
        (next.0@, next.1@) == job_step(job@, event@),
{
    match (job, event) {
        (Job::Transcoding(source), JobEvent::Transcoded(success)) => if success {
            let command = probe_command(&source);
            (Job::Probing(source), JobAction::Probe(command))
        } else {
            let directories = video_directories(source.id.as_str());
            let statement = delete_video(source.id.as_str());
            (Job::Finished, JobAction::Discard(directories, statement))
        },
        (Job::Probing(source), JobEvent::Probed(Some(output))) => use_report(
            source,
            read_probe(output),
        ),
        (Job::Probing(source), JobEvent::Probed(None)) => {
            let report = Probe { duration: None, streams: Vec::new() };
            assert(report@.streams =~= silent_report().streams);
            use_report(source, report)
        },
        (Job::Timing(source, resolution), JobEvent::Timed(Some((duration, second)))) => {
            let command = capture_command(&source, second.as_str());
            (Job::Capturing(source, duration, resolution), JobAction::Capture(command))
        },
        (Job::Timing(source, resolution), JobEvent::Timed(None)) => (
            Job::Finished,
            store(source.id.as_str(), None, resolution, false),
        ),
        (Job::Capturing(source, duration, resolution), JobEvent::Captured(success)) => (
            Job::Finished,
            store(source.id.as_str(), Some(duration), resolution, success),
        ),
        _ => vstd::pervasive::unreached(),
    }
}

/// The event tells what came of the action. No event follows the last action.
pub open spec fn job_outcome<R>(action: JobActionModel<R>, event: JobEventModel<R>) -> bool {
    match action {
        JobActionModel::Transcode(_) => event is Transcoded,
        JobActionModel::Probe(_) => event is Probed,
        JobActionModel::Time(_) => event is Timed,
        JobActionModel::Capture(_) => event is Captured,
        JobActionModel::Store(_) => false,
        JobActionModel::Discard(_, _) => false,
    }
}

/// A job waits for exactly the events that tell what came of the action just
/// given: when it begins, and after every step.
pub proof fn law_job_waits_for_its_action<R>(
    source: SourceModel,
    job: JobModel<R>,
    event: JobEventModel<R>,
    answer: JobEventModel<R>,
)
    ensures
        job_answered(JobModel::Transcoding(source), answer) <==> job_outcome(
            JobActionModel::Transcode(transcoding(source)),
            answer,
        ),
        job_answered(job, event) ==> (job_answered(job_step(job, event).0, answer) <==> job_outcome(
            job_step(job, event).1,
            answer,
        )),
{
}

/// The events carry a job from `job` to its end.
pub open spec fn job_run<R>(job: JobModel<R>, events: Seq<JobEventModel<R>>) -> bool
    decreases events.len(),
{
    if events.len() == 0 {
        job is Finished
    } else {
        job_answered(job, events[0]) && job_run(job_step(job, events[0]).0, events.drop_first())
    }
}

/// The actions that the events call forth.
pub open spec fn job_actions<R>(job: JobModel<R>, events: Seq<JobEventModel<R>>) -> Seq<
    JobActionModel<R>,
>
    decreases events.len(),
{
    if events.len() == 0 {
        Seq::empty()
    } else {
        seq![job_step(job, events[0]).1] + job_actions(
            job_step(job, events[0]).0,
            events.drop_first(),
        )
    }
}

/// A file that cannot be cut into segments leaves nothing behind: the
/// directories and the record are removed, and nothing else is done.
pub proof fn law_failed_transcoding_leaves_nothing<R>(
    source: SourceModel,
    events: Seq<JobEventModel<R>>,
)
    requires
        job_run(JobModel::Transcoding(source), events),
        events[0] == JobEventModel::<R>::Transcoded(false),
    ensures
        job_actions(JobModel::Transcoding(source), events) == seq![discarding::<R>(source.id)],
{
    reveal_with_fuel(job_run, 2);
    reveal_with_fuel(job_actions, 2);
    assert(job_actions(JobModel::Transcoding(source), events) =~= seq![discarding::<R>(source.id)]);
}

/// What is written to the record of a video that was cut into segments.
pub open spec fn record_written<R>(
    id: Seq<char>,
    report: ProbeModel,
    timed: Option<(Number<R>, Seq<char>)>,
    captured: bool,
) -> JobActionModel<R> {
    let resolution = first_resolution(report.streams);
    if report.duration is Some && timed is Some {
        storing(id, Some((timed->0).0), resolution, captured)
    } else {
        storing(id, None, resolution, false)
    }
}

/// A file that was cut into segments has its record completed once, as the last
/// action, and is never removed. The duration is recorded where the report
/// gives one that reads as a number, the resolution where the report gives one, and
/// the thumbnail where it was taken.
pub proof fn law_transcoded_video_is_recorded<R>(
    source: SourceModel,
    events: Seq<JobEventModel<R>>,
)
    requires
        job_run(JobModel::Transcoding(source), events),
        events[0] == JobEventModel::<R>::Transcoded(true),
    ensures
        2 <= events.len() <= 4,
        events[1] is Probed,
        ({
            let actions = job_actions(JobModel::Transcoding(source), events);
            let report = report_from(events[1]->Probed_0);
            let timed = if events.len() > 2 {
                events[2]->Timed_0
            } else {
                None
            };
            let captured = events.len() > 3 && events[3]->Captured_0;
            &&& actions.last() == record_written(source.id, report, timed, captured)
            &&& forall|i: int|
                0 <= i < actions.len() ==> !(#[trigger] actions[i] is Discard) && (actions[i] is Store
                    ==> i == actions.len() - 1)
            &&& report.duration is Some <==> events.len() > 2
            &&& events.len() > 3 <==> timed is Some
        }),
{
    reveal_with_fuel(job_run, 5);
    reveal_with_fuel(job_actions, 5);
    let second = events.drop_first();
    let third = second.drop_first();
    let fourth = third.drop_first();
    assert(second[0] == events[1]);
    let report = report_from(events[1]->Probed_0);
    if report.duration is Some {
        assert(third[0] == events[2]);
        if events[2]->Timed_0 is Some {
            assert(fourth[0] == events[3]);
        }
    }
}

/// The playlist and the thumbnail are written where they are served from, and
/// every command reads the uploaded file.
pub proof fn law_commands_write_what_is_served(source: SourceModel, second: Seq<char>)
    ensures
        transcoding(source).args.last() == playlist_file(source.id),
        transcoding(source).args.contains(segment_pattern(source.id)),
        capturing(source, second).args.last() == thumbnail_file(source.id),
        transcoding(source).args.contains(source.path),
        probing(source).args.contains(source.path),
        capturing(source, second).args.contains(source.path),
{
    assert(transcoding(source).args[21] == segment_pattern(source.id));
    assert(transcoding(source).args[1] == source.path);
    assert(probing(source).args[6] == source.path);
    assert(capturing(source, second).args[3] == source.path);
}

/// What is known of a command and of a source is what each of them holds, the
/// arguments in their order.
pub proof fn law_commands_hold_what_is_put_in(command: Command, source: Source)
    ensures
        command@.program == command.program@,
        command@.args.len() == command.args@.len(),
        forall|i: int|
            0 <= i < command.args@.len() ==> #[trigger] command@.args[i] == command.args@[i]@,
        source@.id == source.id@,
        source@.path == source.path@,
{
}

/// Somewhere among the arguments `value` stands right behind `option`.
pub open spec fn sets(args: Seq<Seq<char>>, option: Seq<char>, value: Seq<char>) -> bool {
    exists|i: int| 0 <= i < args.len() - 1 && #[trigger] args[i] == option && args[i + 1] == value
}

/// How a file is cut: read from where it was uploaded, with H.264 and AAC, at a
/// fixed quality and with evenly spaced key frames, into segments of four seconds
/// that are named after the pattern, with a complete playlist beside them.
pub proof fn law_transcoding_is_set_up(source: SourceModel)
    ensures
        ({
            let command = transcoding(source);
            &&& command.program == "ffmpeg"@
            &&& command.args.len() == 24
            &&& sets(command.args, "-i"@, source.path)
            &&& sets(command.args, "-c:v"@, "libx264"@)
            &&& sets(command.args, "-c:a"@, "aac"@)
            &&& sets(command.args, "-preset"@, "fast"@)
            &&& sets(command.args, "-crf"@, "23"@)
            &&& sets(command.args, "-sc_threshold"@, "0"@)
            &&& sets(command.args, "-g"@, "48"@)
            &&& sets(command.args, "-keyint_min"@, "48"@)
            &&& sets(command.args, "-hls_time"@, "4"@)
            &&& sets(command.args, "-hls_playlist_type"@, "vod"@)
            &&& sets(
                command.args,
                "-hls_segment_filename"@,
                "videos/output/"@ + source.id + "/segment_%03d.ts"@,
            )
            &&& sets(command.args, "-y"@, "videos/output/"@ + source.id + "/playlist.m3u8"@)
            &&& command.args.last() == "videos/output/"@ + source.id + "/playlist.m3u8"@
        }),
{
    let args = transcoding(source).args;
    assert(args[0] == "-i"@ && args[1] == source.path);
    assert(args[2] == "-c:v"@ && args[3] == "libx264"@);
    assert(args[4] == "-c:a"@ && args[5] == "aac"@);
    assert(args[6] == "-preset"@ && args[7] == "fast"@);
    assert(args[8] == "-crf"@ && args[9] == "23"@);
    assert(args[10] == "-sc_threshold"@ && args[11] == "0"@);
    assert(args[12] == "-g"@ && args[13] == "48"@);
    assert(args[14] == "-keyint_min"@ && args[15] == "48"@);
    assert(args[16] == "-hls_time"@ && args[17] == "4"@);
    assert(args[18] == "-hls_playlist_type"@ && args[19] == "vod"@);
    assert(args[20] == "-hls_segment_filename"@);
    assert(args[22] == "-y"@);
}

/// How a file is reported on, as JSON on its format and its streams, and how its
/// thumbnail is taken: one frame at the given second, in a fixed width and quality,
/// from the same file.
pub proof fn law_probe_and_capture_are_set_up(source: SourceModel, second: Seq<char>)
    ensures
        probing(source).program == "ffprobe"@,
        probing(source).args == seq![
            "-v"@,
            "quiet"@,
            "-print_format"@,
            "json"@,
            "-show_format"@,
            "-show_streams"@,
        ].push(source.path),
        ({
            let command = capturing(source, second);
            &&& command.program == "ffmpeg"@
            &&& command.args.len() == 12
            &&& command.args[0] == "-ss"@ && command.args[1] == second
            &&& command.args[2] == "-i"@ && command.args[3] == source.path
            &&& sets(command.args, "-vframes"@, "1"@)
            &&& sets(command.args, "-vf"@, "scale=1280:-1"@)
            &&& sets(command.args, "-q:v"@, "2"@)
            &&& sets(command.args, "-y"@, "videos/output/"@ + source.id + "/thumbnail.jpg"@)
            &&& command.args.last() == "videos/output/"@ + source.id + "/thumbnail.jpg"@
        }),
{
    let args = capturing(source, second).args;
    assert(args[4] == "-vframes"@ && args[5] == "1"@);
    assert(args[6] == "-vf"@ && args[7] == "scale=1280:-1"@);
    assert(args[8] == "-q:v"@ && args[9] == "2"@);
    assert(args[10] == "-y"@);
}

/// The commands for any two videos differ only where the names of their own files
/// and the second stand: no video is treated otherwise than another.
pub proof fn law_commands_treat_all_videos_alike(
    one: SourceModel,
    other: SourceModel,
    second: Seq<char>,
    third: Seq<char>,
)
    ensures
        forall|i: int|
            0 <= i < 24 && i != 1 && i != 21 && i != 23 ==> #[trigger] transcoding(one).args[i]
                == transcoding(other).args[i],
        forall|i: int|
            0 <= i < 6 ==> #[trigger] probing(one).args[i] == probing(other).args[i],
        forall|i: int|
            0 <= i < 12 && i != 1 && i != 3 && i != 11 ==> #[trigger] capturing(one, second).args[i]
                == capturing(other, third).args[i],
{
}

/// The steps of a job on the way: a file that was cut into segments is reported on,
/// and the duration that the report names is handed on as it is written to have a
/// second chosen; the thumbnail is taken at that second, with duration and
/// resolution kept.
pub proof fn law_job_goes_on<R>(
    source: Source,
    output: Vec<u8>,
    duration: Seq<char>,
    resolution: Option<String>,
    number: Number<R>,
    second: String,
)
    requires
        report_of(output@).duration == Some(duration),
    ensures
        job_step(Job::<R>::Transcoding(source)@, JobEvent::<R>::Transcoded(true)@) == (
            JobModel::<R>::Probing(source@),
            JobActionModel::<R>::Probe(probing(source@)),
        ),
        ({
            let (job, action) = job_step(
                Job::<R>::Probing(source)@,
                JobEvent::<R>::Probed(Some(output))@,
            );
            &&& action == JobActionModel::<R>::Time(duration)
            &&& job == JobModel::<R>::Timing(source@, first_resolution(report_of(output@).streams))
        }),
        ({
            let (job, action) = job_step(
                Job::<R>::Timing(source, resolution)@,
                JobEvent::Timed(Some((number, second)))@,
            );
            &&& action == JobActionModel::<R>::Capture(capturing(source@, second@))
            &&& job == JobModel::Capturing(
                source@,
                number,
                match resolution {
                    Some(text) => Some(text@),
                    None => None,
                },
            )
        }),
{
}

/// What a job writes to the record at its end: the values that it found, each in its
/// place and null where it found none, for that video. The thumbnail is recorded
/// exactly where it was taken, under the name of that video.
pub proof fn law_job_completes_the_record<R>(
    source: Source,
    output: Option<Vec<u8>>,
    resolution: Option<String>,
    number: Number<R>,
    captured: bool,
)
    ensures
        ({
            let (job, action) = job_step(
                Job::Capturing(source, number, resolution)@,
                JobEvent::<R>::Captured(captured)@,
            );
            let params = action->Store_0.params;
            &&& job is Finished && action is Store
            &&& action->Store_0.sql == UPDATE_VIDEO@
            &&& params.len() == 4
            &&& params[0] == ParamModel::Real(number)
            &&& match resolution {
                Some(text) => params[1] == ParamModel::<R>::Text(text@),
                None => params[1] is Null,
            }
            &&& if captured {
                params[2] == ParamModel::<R>::Text(source.id@ + "/thumbnail.jpg"@)
            } else {
                params[2] is Null
            }
            &&& params[3] == ParamModel::<R>::Text(source.id@)
        }),
        ({
            let (job, action) = job_step(
                Job::<R>::Timing(source, resolution)@,
                JobEvent::<R>::Timed(None)@,
            );
            let params = action->Store_0.params;
            &&& job is Finished && action is Store
            &&& action->Store_0.sql == UPDATE_VIDEO@
            &&& params.len() == 4
            &&& params[0] is Null && params[2] is Null
            &&& match resolution {
                Some(text) => params[1] == ParamModel::<R>::Text(text@),
                None => params[1] is Null,
            }
            &&& params[3] == ParamModel::<R>::Text(source.id@)
        }),
        ({
            let (job, action) = job_step(
                Job::<R>::Probing(source)@,
                JobEvent::<R>::Probed(output)@,
            );
            let report = report_of(output->0@);
            let params = action->Store_0.params;
            output is None || report.duration is None ==> {
                &&& job is Finished && action is Store
                &&& action->Store_0.sql == UPDATE_VIDEO@
                &&& params.len() == 4
                &&& params[0] is Null && params[2] is Null
                &&& match (output, first_resolution(report.streams)) {
                    (Some(_), Some(text)) => params[1] == ParamModel::<R>::Text(text),
                    _ => params[1] is Null,
                }
                &&& params[3] == ParamModel::<R>::Text(source.id@)
            }
        }),
{
}

/// A file that could not be cut has both of its directories removed, and its own
/// record.
pub proof fn law_job_discards_its_own<R>(source: Source)
    ensures
        ({
            let (job, action) = job_step(
                Job::<R>::Transcoding(source)@,
                JobEvent::<R>::Transcoded(false)@,
            );
            &&& job is Finished && action is Discard
            &&& action->Discard_0 == seq![
                "videos/input/"@ + source.id@,
                "videos/output/"@ + source.id@,
            ]
            &&& action->Discard_1.sql == DELETE_VIDEO@
            &&& action->Discard_1.params == seq![ParamModel::<R>::Text(source.id@)]
        }),
{
}

/// The resolution that a job records is that of the first video stream of the report
/// that gives both numbers: the width in decimal, an `x`, and the height in
/// decimal.
pub proof fn law_recorded_resolution_reads_back<R>(
    source: SourceModel,
    events: Seq<JobEventModel<R>>,
    k: int,
    width: i64,
    height: i64,
)
    requires
        job_run(JobModel::Transcoding(source), events),
        events[0] == JobEventModel::<R>::Transcoded(true),
        events[1]->Probed_0 is Some,
        ({
            let streams = report_of(events[1]->Probed_0->0).streams;
            &&& 0 <= k < streams.len()
            &&& streams[k].codec_type == Some("video"@)
            &&& streams[k].width == Some(width)
            &&& streams[k].height == Some(height)
            &&& forall|j: int|
                0 <= j < k ==> (#[trigger] streams[j]).codec_type != Some("video"@)
                    || streams[j].width is None || streams[j].height is None
        }),
    ensures
        ({
            let action = job_actions(JobModel::Transcoding(source), events).last();
            let recorded = action->Store_0.params[1];
            &&& action is Store
            &&& recorded is Text
            &&& exists|p: int| #[trigger] reads_as_size(recorded->Text_0, p, width, height)
        }),
{
    law_transcoded_video_is_recorded(source, events);
    let report = report_of(events[1]->Probed_0->0);
    law_resolution_reads_back(report.streams, k, width, height);
    let text = first_resolution(report.streams)->0;
    let action = job_actions(JobModel::Transcoding(source), events).last();
    assert(action->Store_0.params[1] == ParamModel::<R>::Text(text));
    let p = choose|p: int| #[trigger] reads_as_size(text, p, width, height);
    assert(reads_as_size(action->Store_0.params[1]->Text_0, p, width, height));
}

/// What is known of an action of a job is what it holds: the command, the text of
/// the duration, the statement and the directories.
pub proof fn law_job_actions_hold_what_is_put_in<R>(
    command: Command,
    duration: String,
    directories: Vec<String>,
    statement: Statement<R>,
)
    ensures
        JobAction::<R>::Transcode(command)@ == JobActionModel::<R>::Transcode(command@),
        JobAction::<R>::Probe(command)@ == JobActionModel::<R>::Probe(command@),
        JobAction::<R>::Capture(command)@ == JobActionModel::<R>::Capture(command@),
        JobAction::<R>::Time(duration)@ == JobActionModel::<R>::Time(duration@),
        JobAction::Store(statement)@ == JobActionModel::Store(statement@),
        JobAction::Discard(directories, statement)@ == JobActionModel::Discard(
            Seq::new(directories@.len(), |i: int| directories@[i]@),
            statement@,
        ),
{
    assert(texts(directories@) =~= Seq::new(directories@.len(), |i: int| directories@[i]@));
}

/// Whatever `process_video` does at its end: complete the record of that video with
/// the values that were found, or remove that record and both directories.
pub proof fn law_process_video_completes_or_discards<R>(
    source: Source,
    number: Number<R>,
    resolution: Option<String>,
    captured: bool,
    stored: (Job<R>, JobAction<R>),
    discarded: (Job<R>, JobAction<R>),
)
    requires
        call_ensures(
            process_video::<R>,
            (Job::Capturing(source, number, resolution), JobEvent::Captured(captured)),
            stored,
        ),
        call_ensures(
            process_video::<R>,
            (Job::Transcoding(source), JobEvent::Transcoded(false)),
            discarded,
        ),
    ensures
        stored.1 is Store,
        stored.1->Store_0.sql@ == UPDATE_VIDEO@,
        stored.1->Store_0@.params[0] == ParamModel::Real(number),
        match resolution {
            Some(text) => stored.1->Store_0@.params[1] == ParamModel::<R>::Text(text@),
            None => stored.1->Store_0@.params[1] is Null,
        },
        if captured {
            stored.1->Store_0@.params[2] == ParamModel::<R>::Text(source.id@ + "/thumbnail.jpg"@)
        } else {
            stored.1->Store_0@.params[2] is Null
        },
        stored.1->Store_0@.params[3] == ParamModel::<R>::Text(source.id@),
        discarded.1 is Discard,
        discarded.1->Discard_0@.len() == 2,
        discarded.1->Discard_0@[0]@ == "videos/input/"@ + source.id@,
        discarded.1->Discard_0@[1]@ == "videos/output/"@ + source.id@,
        discarded.1->Discard_1.sql@ == DELETE_VIDEO@,
        discarded.1->Discard_1@.params == seq![ParamModel::<R>::Text(source.id@)],
{
    law_job_completes_the_record(source, None, resolution, number, captured);
    law_job_discards_its_own::<R>(source);
    assert(texts(discarded.1->Discard_0@) == both_directories(source.id@));
    assert(texts(discarded.1->Discard_0@)[0] == discarded.1->Discard_0@[0]@);
    assert(texts(discarded.1->Discard_0@)[1] == discarded.1->Discard_0@[1]@);
}

/// Whatever `process_video` does on the way: report on the file that was cut, hand on
/// the duration of the report, and take the thumbnail at the second that was chosen.
pub proof fn law_process_video_goes_on<R>(
    source: Source,
    output: Vec<u8>,
    duration: Seq<char>,
    resolution: Option<String>,
    number: Number<R>,
    second: String,
    begun: (Job<R>, JobAction<R>),
    cut: (Job<R>, JobAction<R>),
    probed: (Job<R>, JobAction<R>),
    timed: (Job<R>, JobAction<R>),
)
    requires
        report_of(output@).duration == Some(duration),
        call_ensures(begin_processing::<R>, (source,), begun),
        call_ensures(
            process_video::<R>,
            (Job::Transcoding(source), JobEvent::Transcoded(true)),
            cut,
        ),
        call_ensures(
            process_video::<R>,
            (Job::Probing(source), JobEvent::Probed(Some(output))),
            probed,
        ),
        call_ensures(
            process_video::<R>,
            (Job::Timing(source, resolution), JobEvent::Timed(Some((number, second)))),
            timed,
        ),
    ensures
        begun.1 is Transcode,
        begun.1->Transcode_0@ == transcoding(source@),
        cut.1 is Probe,
        cut.1->Probe_0@ == probing(source@),
        probed.1 is Time,
        probed.1->Time_0@ == duration,
        timed.1 is Capture,
        timed.1->Capture_0@ == capturing(source@, second@),
        match resolution {
            Some(text) => timed.0@ == JobModel::Capturing(source@, number, Some(text@)),
            None => timed.0@ == JobModel::Capturing(source@, number, None),
        },
{
    law_job_goes_on(source, output, duration, resolution, number, second);
}

/// Whatever `process_video` gives for any job and event is one step of the job on just
/// these.
pub proof fn law_process_video_takes_one_step<R>(
    job: Job<R>,
    event: JobEvent<R>,
    next: (Job<R>, JobAction<R>),
)
    requires
        call_ensures(process_video::<R>, (job, event), next),
    ensures
        (next.0@, next.1@) == job_step(job@, event@),
{
}

} // verus!
