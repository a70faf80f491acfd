//! Reading what the media probe reports about a stored file.

use crate::text::{
    decimal, decimal_text, decimal_value, law_decimal_reads_back, optional_text, same_text,
};
use vstd::prelude::*;
use vstd::utf8::{decode_utf8, valid_utf8};

verus! {

/// A JSON document as a mathematical value.
pub enum JsonTree {
    Null,
    Boolean(bool),
    Integer(int),
    Real,
    Text(Seq<char>),
    Array(Seq<JsonTree>),
    Object(Map<Seq<char>, JsonTree>),
}

/// Declares `serde_json::Value`, a parsed JSON value.
#[verifier::external_type_specification]
#[verifier::external_body]
pub struct ExValue(serde_json::Value);

/// The document that a parsed value holds. Integers are those numbers that
/// `serde_json` keeps as integers; all others are real, and their size is left
/// out.
pub uninterp spec fn json_contents(value: serde_json::Value) -> JsonTree;

/// The document that `serde_json::from_str` reads in a text, where the text is
/// one.
pub uninterp spec fn json_document(text: Seq<char>) -> Option<JsonTree>;

/// Calls `serde_json::from_str` for a `serde_json::Value`. Whether the text is
/// a JSON document, and which one, depends on the text alone.
#[verifier::external_body]
fn parse_json(text: &str) -> (value: Option<serde_json::Value>)
    ensures
        match value {
            Some(v) => json_document(text@) == Some(json_contents(v)),
            None => json_document(text@) is None,
        },
{
    serde_json::from_str::<serde_json::Value>(text).ok()
}

/// Calls `serde_json::Value::get` with a text: the member of that name, where
/// the value is an object that has one.
#[verifier::external_body]
fn json_member<'a>(value: &'a serde_json::Value, key: &str) -> (member: Option<
    &'a serde_json::Value,
>)
    ensures
        match member {
            Some(m) => member_of(json_contents(*value), key@) == Some(json_contents(*m)),
            None => member_of(json_contents(*value), key@) is None,
        },
{
    value.get(key)
}

/// Calls `serde_json::Value::as_str`: the text, where the value is one.
#[verifier::external_body]
fn json_text<'a>(value: &'a serde_json::Value) -> (text: Option<&'a str>)
    ensures
        match text {
            Some(t) => json_contents(*value) == JsonTree::Text(t@),
            None => !(json_contents(*value) is Text),
        },
{
    value.as_str()
}

/// Calls `serde_json::Value::as_i64`: the number, where the value is an integer
/// that fits.
#[verifier::external_body]
fn json_integer(value: &serde_json::Value) -> (number: Option<i64>)
    ensures
        number == integer_of(json_contents(*value)),
{
    value.as_i64()
}

/// Calls `serde_json::Value::as_array`: the elements in their order, where the
/// value is an array.
#[verifier::external_body]
fn json_elements<'a>(value: &'a serde_json::Value) -> (elements: Option<&'a Vec<serde_json::Value>>)
    ensures
        match elements {
            Some(e) => json_contents(*value) == JsonTree::Array(
                Seq::new(e@.len(), |i: int| json_contents(e@[i])),
            ),
            None => !(json_contents(*value) is Array),
        },
{
    value.as_array()
}

/// The member of an object under `key`, where there is one.
pub open spec fn member_of(tree: JsonTree, key: Seq<char>) -> Option<JsonTree> {
    match tree {
        JsonTree::Object(members) => if members.dom().contains(key) {
            Some(members[key])
        } else {
            None
        },
        _ => None,
    }
}

/// The integer that a document is, where it is one in the range of `i64`.
pub open spec fn integer_of(tree: JsonTree) -> Option<i64> {
    match tree {
        JsonTree::Integer(n) => if i64::MIN <= n <= i64::MAX {
            Some(n as i64)
        } else {
            None
        },
        _ => None,
    }
}

/// Calls `std::string::String::from_utf8`: the text that the bytes encode,
/// where they are valid UTF-8.
#[verifier::external_body]
fn utf8_text(bytes: Vec<u8>) -> (text: Option<String>)
    ensures
        match text {
            Some(t) => valid_utf8(bytes@) && t@ == decode_utf8(bytes@),
            None => !valid_utf8(bytes@),
        },
{
    String::from_utf8(bytes).ok()
}

/// What the report says of one stream.
#[derive(Debug, PartialEq)]
pub struct StreamInfo {
    pub codec_type: Option<String>,
    pub width: Option<i64>,
    pub height: Option<i64>,
}

/// What the report says of a file: its duration in seconds as it was written,
/// and its streams in their order.
#[derive(Debug, PartialEq)]
pub struct Probe {
    pub duration: Option<String>,
    pub streams: Vec<StreamInfo>,
}

/// A stream as a mathematical value.
pub struct StreamModel {
    pub codec_type: Option<Seq<char>>,
    pub width: Option<i64>,
    pub height: Option<i64>,
}

/// A report as a mathematical value.
pub struct ProbeModel {
    pub duration: Option<Seq<char>>,
    pub streams: Seq<StreamModel>,
}

impl View for StreamInfo {
    type V = StreamModel;

    open spec fn view(&self) -> StreamModel {
        StreamModel {
            codec_type: optional_text(self.codec_type),
            width: self.width,
            height: self.height,
        }
    }
}

/// The streams as mathematical values.
pub open spec fn stream_models(streams: Seq<StreamInfo>) -> Seq<StreamModel> {
    Seq::new(streams.len(), |i: int| streams[i]@)
}

impl View for Probe {
    type V = ProbeModel;

    open spec fn view(&self) -> ProbeModel {
        ProbeModel {
            duration: optional_text(self.duration),
            streams: stream_models(self.streams@),
        }
    }
}

/// The report that says nothing.
pub open spec fn silent_report() -> ProbeModel {
    ProbeModel { duration: None, streams: Seq::empty() }
}

/// The text under `key`, where there is one.
pub open spec fn text_member(tree: JsonTree, key: Seq<char>) -> Option<Seq<char>> {
    match member_of(tree, key) {
        Some(JsonTree::Text(text)) => Some(text),
        _ => None,
    }
}

/// The integer under `key`, where there is one.
pub open spec fn integer_member(tree: JsonTree, key: Seq<char>) -> Option<i64> {
    match member_of(tree, key) {
        Some(member) => integer_of(member),
        None => None,
    }
}

/// The elements under `key`, where there is an array; else none.
pub open spec fn array_member(tree: JsonTree, key: Seq<char>) -> Seq<JsonTree> {
    match member_of(tree, key) {
        Some(JsonTree::Array(elements)) => elements,
        _ => Seq::empty(),
    }
}

/// What one element of `streams` says.
pub open spec fn stream_in(tree: JsonTree) -> StreamModel {
    StreamModel {
        codec_type: text_member(tree, "codec_type"@),
        width: integer_member(tree, "width"@),
        height: integer_member(tree, "height"@),
    }
}

/// The text under `format` and then `duration`, where there is one.
pub open spec fn duration_in(tree: JsonTree) -> Option<Seq<char>> {
    match member_of(tree, "format"@) {
        Some(format) => text_member(format, "duration"@),
        None => None,
    }
}

/// What a whole document says.
pub open spec fn report_in(tree: JsonTree) -> ProbeModel {
    let elements = array_member(tree, "streams"@);
    ProbeModel {
        duration: duration_in(tree),
        streams: Seq::new(elements.len(), |i: int| stream_in(elements[i])),
    }
}

/// What the bytes that the probe wrote say. Bytes that are no JSON text say
/// nothing.
pub open spec fn report_of(output: Seq<u8>) -> ProbeModel {
    if valid_utf8(output) {
        match json_document(decode_utf8(output)) {
            Some(tree) => report_in(tree),
            None => silent_report(),
        }
    } else {
        silent_report()
    }
}

/// The stream is a video whose width and height are both known.
pub open spec fn sized_video(stream: StreamModel) -> bool {
    &&& stream.codec_type == Some("video"@)
    &&& stream.width is Some
    &&& stream.height is Some
}

/// Width and height, such as `1920x1080`.
pub open spec fn size_text(width: i64, height: i64) -> Seq<char> {
    decimal(width as int) + "x"@ + decimal(height as int)
}

/// The size of the first video stream whose width and height are both known.
pub open spec fn first_resolution(streams: Seq<StreamModel>) -> Option<Seq<char>>
    decreases streams.len(),
{
    if streams.len() == 0 {
        None
    } else if sized_video(streams[0]) {
        Some(size_text(streams[0].width->0, streams[0].height->0))
    } else {
        first_resolution(streams.drop_first())
    }
}

fn read_text(value: &serde_json::Value, key: &str) -> (text: Option<String>)
    ensures
        optional_text(text) == text_member(json_contents(*value), key@),
{
    match json_member(value, key) {
        Some(member) => match json_text(member) {
            Some(t) => Some(t.to_owned()),
            None => None,
        },
        None => None,
    }
}

fn read_integer(value: &serde_json::Value, key: &str) -> (number: Option<i64>)
    ensures
        number == integer_member(json_contents(*value), key@),
{
    match json_member(value, key) {
        Some(member) => json_integer(member),
        None => None,
    }
}

fn read_streams(value: &serde_json::Value) -> (streams: Vec<StreamInfo>)
    ensures
        stream_models(streams@) == report_in(json_contents(*value)).streams,
{
    let mut streams: Vec<StreamInfo> = Vec::new();
    let ghost expected = report_in(json_contents(*value)).streams;
    if let Some(member) = json_member(value, "streams") {
        if let Some(elements) = json_elements(member) {
            let mut i: usize = 0;
            while i < elements.len()
                invariant
                    i <= elements.len(),
                    expected.len() == elements.len(),
                    forall|j: int|
                        0 <= j < elements.len() ==> #[trigger] expected[j] == stream_in(
                            json_contents(elements@[j]),
                        ),
                    stream_models(streams@) == expected.take(i as int),
                decreases elements.len() - i,
            {
                let stream = StreamInfo {
                    codec_type: read_text(&elements[i], "codec_type"),
                    width: read_integer(&elements[i], "width"),
                    height: read_integer(&elements[i], "height"),
                };
                let ghost before = streams@;
                streams.push(stream);
                proof {
                    assert(stream@ == expected[i as int]);
                    assert(stream_models(streams@) =~= stream_models(before).push(stream@));
                    assert(expected.take(i + 1) =~= expected.take(i as int).push(
                        expected[i as int],
                    ));
                }
                i = i + 1;
            }
            assert(expected.take(i as int) =~= expected);
            return streams;
        }
    }
    assert(stream_models(streams@) =~= expected);
    streams
}

/// Reads what the media probe wrote to its standard output.
pub fn read_probe(output: Vec<u8>) -> (probe: Probe)
    ensures
        probe@ == report_of(output@),
{
    let silent = Probe { duration: None, streams: Vec::new() };
    assert(silent@.streams =~= silent_report().streams);
    match utf8_text(output) {
        Some(text) => match parse_json(text.as_str()) {
            Some(value) => {
                let duration = match json_member(&value, "format") {
                    Some(format) => read_text(format, "duration"),
                    None => None,
                };
                Probe { duration, streams: read_streams(&value) }
            },
            None => silent,
        },
        None => silent,
    }
}

/// Picks the size of the first video stream whose width and height are both
/// known.
pub fn pick_resolution(streams: &Vec<StreamInfo>) -> (resolution: Option<String>)
    ensures
        optional_text(resolution) == first_resolution(stream_models(streams@)),
{
    let ghost models = stream_models(streams@);
    let mut i: usize = 0;
    assert(models.skip(0) =~= models);
    while i < streams.len()
        invariant
            i <= streams.len(),
            models == stream_models(streams@),
            first_resolution(models) == first_resolution(models.skip(i as int)),
        decreases streams.len() - i,
    {
        let stream = &streams[i];
        assert(models.skip(i as int)[0] == stream@);
        if let Some(codec_type) = &stream.codec_type {
            if same_text(codec_type.as_str(), "video") {
                if let (Some(width), Some(height)) = (stream.width, stream.height) {
                    assert(sized_video(stream@));
                    return Some(decimal_text(width).concat("x").concat(decimal_text(height).as_str()));
                }
            }
        }
        assert(models.skip(i as int).drop_first() =~= models.skip(i + 1));
        i = i + 1;
    }
    assert(models.skip(i as int) =~= Seq::empty());
    None
}

/// The size that is picked is that of the first video stream whose width and
/// height are both known.
pub proof fn law_first_sized_video(streams: Seq<StreamModel>, k: int)
    requires
        0 <= k < streams.len(),
        sized_video(streams[k]),
        forall|j: int| 0 <= j < k ==> !sized_video(#[trigger] streams[j]),
    ensures
        first_resolution(streams) == Some(size_text(streams[k].width->0, streams[k].height->0)),
    decreases k,
{
    if k > 0 {
        assert(!sized_video(streams[0]));
        let rest = streams.drop_first();
        assert forall|j: int| 0 <= j < k - 1 implies !sized_video(#[trigger] rest[j]) by {
            assert(rest[j] == streams[j + 1]);
        }
        law_first_sized_video(rest, k - 1);
    }
}

/// Without such a stream no size is picked.
pub proof fn law_no_sized_video(streams: Seq<StreamModel>)
    requires
        forall|j: int| 0 <= j < streams.len() ==> !sized_video(#[trigger] streams[j]),
    ensures
        first_resolution(streams) is None,
    decreases streams.len(),
{
    if streams.len() > 0 {
        assert(!sized_video(streams[0]));
        let rest = streams.drop_first();
        assert forall|j: int| 0 <= j < rest.len() implies !sized_video(#[trigger] rest[j]) by {
            assert(rest[j] == streams[j + 1]);
        }
        law_no_sized_video(rest);
    }
}

/// What is known of a stream and of a report is what each of them holds.
pub proof fn law_reports_hold_what_is_put_in(probe: Probe, stream: StreamInfo)
    ensures
        stream@.width == stream.width,
        stream@.height == stream.height,
        match stream.codec_type {
            Some(text) => stream@.codec_type == Some(text@),
            None => stream@.codec_type is None,
        },
        match probe.duration {
            Some(text) => probe@.duration == Some(text@),
            None => probe@.duration is None,
        },
        probe@.streams.len() == probe.streams@.len(),
        forall|i: int|
            0 <= i < probe.streams@.len() ==> #[trigger] probe@.streams[i] == probe.streams@[i]@,
{
}

/// The text is two decimals with an `x` between them, at `p`: the width stands
/// before it and the height behind it, neither with needless zeros in front.
pub open spec fn reads_as_size(text: Seq<char>, p: int, width: i64, height: i64) -> bool {
    &&& 0 < p < text.len() - 1
    &&& text[p] == 'x'
    &&& decimal_value(text.take(p)) == width
    &&& decimal_value(text.skip(p + 1)) == height
    &&& forall|i: int|
        0 <= i < text.len() && i != p ==> '0' <= #[trigger] text[i] <= '9' || (text[i] == '-' && (i
            == 0 || i == p + 1))
    &&& text[0] == '0' ==> p == 1
    &&& text[p + 1] == '0' ==> text.len() == p + 2
    &&& text[0] == '-' ==> text[1] != '0'
    &&& text[p + 1] == '-' ==> text[p + 2] != '0'
}

/// The resolution that is picked names first the width and then, behind an `x`, the
/// height of the first video stream that gives both as integers. What stands
/// before the `x` reads back as that width, and what stands behind it as that
/// height.
pub proof fn law_resolution_reads_back(streams: Seq<StreamModel>, k: int, width: i64, height: i64)
    requires
        0 <= k < streams.len(),
        streams[k].codec_type == Some("video"@),
        streams[k].width == Some(width),
        streams[k].height == Some(height),
        forall|j: int|
            0 <= j < k ==> (#[trigger] streams[j]).codec_type != Some("video"@)
                || streams[j].width is None || streams[j].height is None,
    ensures
        first_resolution(streams) is Some,
        exists|p: int| #[trigger] reads_as_size(first_resolution(streams)->0, p, width, height),
{
    reveal_strlit("x");
    law_first_sized_video(streams, k);
    law_decimal_reads_back(width as int);
    law_decimal_reads_back(height as int);
    let first = decimal(width as int);
    let second = decimal(height as int);
    let text = first_resolution(streams)->0;
    let p = first.len() as int;
    assert(text =~= first + seq!['x'] + second);
    assert(text.take(p) =~= first);
    assert(text.skip(p + 1) =~= second);
    assert forall|i: int| 0 <= i < text.len() && i != p implies #[trigger] text[i] != 'x' && ('0'
        <= text[i] <= '9' || (text[i] == '-' && (i == 0 || i == p + 1))) by {
        if i < p {
            assert(text[i] == first[i]);
            assert(first.contains(first[i]));
        } else {
            assert(text[i] == second[i - p - 1]);
            assert(second.contains(second[i - p - 1]));
        }
    }
    assert(reads_as_size(text, p, width, height));
}

/// Without a video stream that gives both its width and its height no resolution
/// is picked, whatever else the streams say.
pub proof fn law_no_resolution_without_size(streams: Seq<StreamModel>)
    requires
        forall|j: int|
            0 <= j < streams.len() ==> (#[trigger] streams[j]).codec_type != Some("video"@)
                || streams[j].width is None || streams[j].height is None,
    ensures
        first_resolution(streams) is None,
{
    law_no_sized_video(streams);
}

/// A report names a duration exactly where the document is an object whose member
/// `format` is an object whose member `duration` is a text: that text.
pub proof fn law_report_names_the_duration(output: Seq<u8>, text: Seq<char>)
    ensures
        report_of(output).duration == Some(text) <==> valid_utf8(output) && match json_document(
            decode_utf8(output),
        ) {
            Some(JsonTree::Object(members)) => {
                &&& members.dom().contains("format"@)
                &&& match members["format"@] {
                    JsonTree::Object(format) => format.dom().contains("duration"@)
                        && format["duration"@] == JsonTree::Text(text),
                    _ => false,
                }
            },
            _ => false,
        },
{
}

/// A report lists a stream for each element of the array under `streams`, in their
/// order, and tells of each the text under `codec_type` and the integers under
/// `width` and `height`, where there are such. Without such an array it lists none.
pub proof fn law_report_lists_the_streams(
    output: Seq<u8>,
    members: Map<Seq<char>, JsonTree>,
    elements: Seq<JsonTree>,
    i: int,
    text: Seq<char>,
    n: i64,
)
    requires
        valid_utf8(output),
        json_document(decode_utf8(output)) == Some(JsonTree::Object(members)),
        members.dom().contains("streams"@),
        members["streams"@] == JsonTree::Array(elements),
        0 <= i < elements.len(),
    ensures
        report_of(output).streams.len() == elements.len(),
        ({
            let stream = report_of(output).streams[i];
            match elements[i] {
                JsonTree::Object(told) => {
                    &&& stream.codec_type == Some(text) <==> told.dom().contains("codec_type"@)
                        && told["codec_type"@] == JsonTree::Text(text)
                    &&& stream.width == Some(n) <==> told.dom().contains("width"@) && told["width"@]
                        == JsonTree::Integer(n as int)
                    &&& stream.height == Some(n) <==> told.dom().contains("height"@)
                        && told["height"@] == JsonTree::Integer(n as int)
                },
                _ => stream.codec_type is None && stream.width is None && stream.height is None,
            }
        }),
{
}

/// Without an array under `streams` a report lists no stream, and what is no JSON
/// document in UTF-8 names no duration either.
pub proof fn law_report_without_streams(output: Seq<u8>)
    requires
        valid_utf8(output) ==> match json_document(decode_utf8(output)) {
            Some(JsonTree::Object(members)) => !members.dom().contains("streams"@)
                || !(members["streams"@] is Array),
            _ => true,
        },
    ensures
        report_of(output).streams.len() == 0,
        !valid_utf8(output) || json_document(decode_utf8(output)) is None ==> report_of(
            output,
        ).duration is None,
{
}

/// Whatever `pick_resolution` gives: the size of the first video stream that has both
/// numbers, the width before the `x` and the height behind it; none without such a
/// stream.
pub proof fn law_pick_resolution_gives_the_size(
    streams: Vec<StreamInfo>,
    k: int,
    width: i64,
    height: i64,
    picked: Option<String>,
)
    requires
        call_ensures(pick_resolution, (&streams,), picked),
    ensures
        ({
            &&& 0 <= k < streams@.len()
            &&& streams@[k].codec_type is Some && streams@[k].codec_type->0@ == "video"@
            &&& streams@[k].width == Some(width)
            &&& streams@[k].height == Some(height)
            &&& forall|j: int|
                0 <= j < k ==> (#[trigger] streams@[j]).codec_type is None
                    || streams@[j].codec_type->0@ != "video"@ || streams@[j].width is None
                    || streams@[j].height is None
        }) ==> picked is Some && exists|p: int| #[trigger]
            reads_as_size(picked->0@, p, width, height),
        (forall|j: int|
            0 <= j < streams@.len() ==> (#[trigger] streams@[j]).codec_type is None
                || streams@[j].codec_type->0@ != "video"@ || streams@[j].width is None
                || streams@[j].height is None) ==> picked is None,
{
    let models = stream_models(streams@);
    assert forall|j: int| 0 <= j < models.len() implies #[trigger] models[j] == streams@[j]@ by {}
    if forall|j: int|
        0 <= j < streams@.len() ==> (#[trigger] streams@[j]).codec_type is None
            || streams@[j].codec_type->0@ != "video"@ || streams@[j].width is None
            || streams@[j].height is None {
        assert forall|j: int| 0 <= j < models.len() implies (#[trigger] models[j]).codec_type != Some(
            "video"@,
        ) || models[j].width is None || models[j].height is None by {
            assert(models[j] == streams@[j]@);
        }
        law_no_resolution_without_size(models);
    }
    if {
        &&& 0 <= k < streams@.len()
        &&& streams@[k].codec_type is Some && streams@[k].codec_type->0@ == "video"@
        &&& streams@[k].width == Some(width)
        &&& streams@[k].height == Some(height)
        &&& forall|j: int|
            0 <= j < k ==> (#[trigger] streams@[j]).codec_type is None
                || streams@[j].codec_type->0@ != "video"@ || streams@[j].width is None
                || streams@[j].height is None
    } {
        assert(models[k] == streams@[k]@);
        assert forall|j: int| 0 <= j < k implies (#[trigger] models[j]).codec_type != Some("video"@)
            || models[j].width is None || models[j].height is None by {
            assert(models[j] == streams@[j]@);
        }
        law_resolution_reads_back(models, k, width, height);
    }
}

/// Whatever `read_probe` gives: what the document says.
pub proof fn law_read_probe_gives_the_report(output: Vec<u8>, read: Probe)
    requires
        call_ensures(read_probe, (output,), read),
    ensures
        read@ == report_of(output@),
{
}

} // verus!
