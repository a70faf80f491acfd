//! Where the files of a video lie, and at which addresses they are served.

use vstd::prelude::*;

verus! {

/// The directory of the file that was uploaded.
pub open spec fn input_dir(id: Seq<char>) -> Seq<char> {
    "videos/input/"@ + id
}

/// The directory of the files that are streamed.
pub open spec fn output_dir(id: Seq<char>) -> Seq<char> {
    "videos/output/"@ + id
}

/// The file that was uploaded.
pub open spec fn upload_file(id: Seq<char>, file_name: Seq<char>) -> Seq<char> {
    input_dir(id) + "/"@ + file_name
}

/// The playlist.
pub open spec fn playlist_file(id: Seq<char>) -> Seq<char> {
    output_dir(id) + "/playlist.m3u8"@
}

/// One segment of the stream.
pub open spec fn segment_file(id: Seq<char>, segment: Seq<char>) -> Seq<char> {
    output_dir(id) + "/"@ + segment
}

/// The pattern after which the segments are numbered.
pub open spec fn segment_pattern(id: Seq<char>) -> Seq<char> {
    output_dir(id) + "/segment_%03d.ts"@
}

/// The thumbnail.
pub open spec fn thumbnail_file(id: Seq<char>) -> Seq<char> {
    output_dir(id) + "/thumbnail.jpg"@
}

/// The thumbnail as the record names it.
pub open spec fn thumbnail_key(id: Seq<char>) -> Seq<char> {
    id + "/thumbnail.jpg"@
}

/// The address of the playlist.
pub open spec fn playlist_address(id: Seq<char>) -> Seq<char> {
    "/api/stream/"@ + id + "/playlist.m3u8"@
}

/// The address of one segment.
pub open spec fn segment_address(id: Seq<char>, segment: Seq<char>) -> Seq<char> {
    "/api/stream/"@ + id + "/"@ + segment
}

/// The address of the thumbnail.
pub open spec fn thumbnail_address(id: Seq<char>) -> Seq<char> {
    "/api/videos/"@ + id + "/thumbnail"@
}

/// Names the directory of the uploaded file.
pub fn input_directory(id: &str) -> (path: String)
    ensures
        path@ == input_dir(id@),
{
    "videos/input/".to_owned().concat(id)
}

/// Names the directory of the streamed files.
pub fn output_directory(id: &str) -> (path: String)
    ensures
        path@ == output_dir(id@),
{
    "videos/output/".to_owned().concat(id)
}

/// Names the uploaded file.
pub fn upload_path(id: &str, file_name: &str) -> (path: String)
    ensures
        path@ == upload_file(id@, file_name@),
{
    input_directory(id).concat("/").concat(file_name)
}

/// Names the playlist.
pub fn playlist_path(id: &str) -> (path: String)
    ensures
        path@ == playlist_file(id@),
{
    output_directory(id).concat("/playlist.m3u8")
}

/// Names one segment.
pub fn segment_path(id: &str, segment: &str) -> (path: String)
    ensures
        path@ == segment_file(id@, segment@),
{
    output_directory(id).concat("/").concat(segment)
}

/// Names the pattern of the segments.
pub fn segment_pattern_path(id: &str) -> (path: String)
    ensures
        path@ == segment_pattern(id@),
{
    output_directory(id).concat("/segment_%03d.ts")
}

/// Names the thumbnail.
pub fn thumbnail_path(id: &str) -> (path: String)
    ensures
        path@ == thumbnail_file(id@),
{
    output_directory(id).concat("/thumbnail.jpg")
}

/// Names the thumbnail for the record.
pub fn thumbnail_name(id: &str) -> (name: String)
    ensures
        name@ == thumbnail_key(id@),
{
    id.to_owned().concat("/thumbnail.jpg")
}

/// Gives the address of the playlist.
pub fn playlist_url(id: &str) -> (url: String)
    ensures
        url@ == playlist_address(id@),
{
    "/api/stream/".to_owned().concat(id).concat("/playlist.m3u8")
}

/// Gives the address of one segment.
pub fn segment_url(id: &str, segment: &str) -> (url: String)
    ensures
        url@ == segment_address(id@, segment@),
{
    "/api/stream/".to_owned().concat(id).concat("/").concat(segment)
}

/// Gives the address of the thumbnail.
pub fn thumbnail_url(id: &str) -> (url: String)
    ensures
        url@ == thumbnail_address(id@),
{
    "/api/videos/".to_owned().concat(id).concat("/thumbnail")
}

/// The playlist and the thumbnail lie beside the segments, the playlist is
/// addressed as they are, and the segments are written where they are served
/// from.
pub proof fn law_playlist_beside_segments(id: Seq<char>)
    ensures
        playlist_file(id) == segment_file(id, "playlist.m3u8"@),
        playlist_address(id) == segment_address(id, "playlist.m3u8"@),
        segment_pattern(id) == segment_file(id, "segment_%03d.ts"@),
        thumbnail_file(id) == segment_file(id, "thumbnail.jpg"@),
{
    reveal_strlit("/thumbnail.jpg");
    reveal_strlit("thumbnail.jpg");
    reveal_strlit("/segment_%03d.ts");
    reveal_strlit("segment_%03d.ts");
    reveal_strlit("/playlist.m3u8");
    reveal_strlit("playlist.m3u8");
    reveal_strlit("/");
    assert("/playlist.m3u8"@ =~= "/"@ + "playlist.m3u8"@);
    assert(playlist_file(id) =~= segment_file(id, "playlist.m3u8"@));
    assert(playlist_address(id) =~= segment_address(id, "playlist.m3u8"@));
    assert("/segment_%03d.ts"@ =~= "/"@ + "segment_%03d.ts"@);
    assert(segment_pattern(id) =~= segment_file(id, "segment_%03d.ts"@));
    assert("/thumbnail.jpg"@ =~= "/"@ + "thumbnail.jpg"@);
    assert(thumbnail_file(id) =~= segment_file(id, "thumbnail.jpg"@));
}

/// Under the directory of all streams, the name in the record leads to the
/// thumbnail that is served.
pub proof fn law_thumbnail_key_leads_to_the_thumbnail(id: Seq<char>)
    ensures
        "videos/output/"@ + thumbnail_key(id) == thumbnail_file(id),
{
    assert("videos/output/"@ + thumbnail_key(id) =~= thumbnail_file(id));
}

proof fn lemma_split_at_slash(a: Seq<char>, s: Seq<char>, b: Seq<char>, t: Seq<char>)
    requires
        !a.contains('/'),
        !b.contains('/'),
        a + seq!['/'] + s == b + seq!['/'] + t,
    ensures
        a == b,
        s == t,
{
    let whole = a + seq!['/'] + s;
    assert(whole[a.len() as int] == '/');
    assert((b + seq!['/'] + t)[b.len() as int] == '/');
    if a.len() < b.len() {
        assert(b[a.len() as int] == '/');
    }
    if b.len() < a.len() {
        assert(a[b.len() as int] == '/');
    }
    assert(a =~= whole.take(a.len() as int));
    assert(b =~= whole.take(a.len() as int));
    assert(s =~= whole.skip(a.len() as int + 1));
    assert(t =~= whole.skip(a.len() as int + 1));
}

/// Two files that were uploaded are one and the same only where both the video
/// and the name are, and so are two files that are streamed, and two addresses.
pub proof fn law_files_are_distinct(a: Seq<char>, s: Seq<char>, b: Seq<char>, t: Seq<char>)
    requires
        !a.contains('/'),
        !b.contains('/'),
    ensures
        upload_file(a, s) == upload_file(b, t) <==> a == b && s == t,
        segment_file(a, s) == segment_file(b, t) <==> a == b && s == t,
        segment_address(a, s) == segment_address(b, t) <==> a == b && s == t,
{
    reveal_strlit("/");
    assert("/"@ =~= seq!['/']);
    let left = a + seq!['/'] + s;
    let right = b + seq!['/'] + t;
    assert(upload_file(a, s).skip("videos/input/"@.len() as int) =~= left);
    assert(upload_file(b, t).skip("videos/input/"@.len() as int) =~= right);
    assert(segment_file(a, s).skip("videos/output/"@.len() as int) =~= left);
    assert(segment_file(b, t).skip("videos/output/"@.len() as int) =~= right);
    assert(segment_address(a, s).skip("/api/stream/"@.len() as int) =~= left);
    assert(segment_address(b, t).skip("/api/stream/"@.len() as int) =~= right);
    if left == right {
        lemma_split_at_slash(a, s, b, t);
    }
}

/// Each video has directories of its own, and what was uploaded lies apart from
/// what is streamed.
pub proof fn law_directories_are_distinct(a: Seq<char>, b: Seq<char>)
    ensures
        input_dir(a) == input_dir(b) <==> a == b,
        output_dir(a) == output_dir(b) <==> a == b,
        input_dir(a) != output_dir(b),
{
    assert(input_dir(a).skip("videos/input/"@.len() as int) =~= a);
    assert(input_dir(b).skip("videos/input/"@.len() as int) =~= b);
    assert(output_dir(a).skip("videos/output/"@.len() as int) =~= a);
    assert(output_dir(b).skip("videos/output/"@.len() as int) =~= b);
    reveal_strlit("videos/input/");
    reveal_strlit("videos/output/");
    assert(input_dir(a)[7] == 'i');
    assert(output_dir(b)[7] == 'o');
}

/// Every path and every address is a fixed text with the identifier and, where
/// there is one, the name behind it or in its midst, each unchanged: both can be
/// read back where they stand.
pub proof fn law_names_are_read_back(id: Seq<char>, name: Seq<char>)
    ensures
        input_dir(id).take(13) == "videos/input/"@,
        input_dir(id).skip(13) == id,
        output_dir(id).take(14) == "videos/output/"@,
        output_dir(id).skip(14) == id,
        upload_file(id, name).take(13 + id.len() as int) == input_dir(id),
        upload_file(id, name)[13 + id.len() as int] == '/',
        upload_file(id, name).skip(14 + id.len() as int) == name,
        segment_file(id, name).take(14 + id.len() as int) == output_dir(id),
        segment_file(id, name)[14 + id.len() as int] == '/',
        segment_file(id, name).skip(15 + id.len() as int) == name,
        segment_address(id, name).take(12) == "/api/stream/"@,
        segment_address(id, name).subrange(12, 12 + id.len() as int) == id,
        segment_address(id, name)[12 + id.len() as int] == '/',
        segment_address(id, name).skip(13 + id.len() as int) == name,
        thumbnail_address(id).take(12) == "/api/videos/"@,
        thumbnail_address(id).subrange(12, 12 + id.len() as int) == id,
        thumbnail_address(id).skip(12 + id.len() as int) == "/thumbnail"@,
        thumbnail_key(id).take(id.len() as int) == id,
        thumbnail_key(id).skip(id.len() as int) == "/thumbnail.jpg"@,
{
    reveal_strlit("videos/input/");
    reveal_strlit("videos/output/");
    reveal_strlit("/api/stream/");
    reveal_strlit("/api/videos/");
    reveal_strlit("/");
    let n = id.len() as int;
    assert(input_dir(id).take(13) =~= "videos/input/"@);
    assert(input_dir(id).skip(13) =~= id);
    assert(output_dir(id).take(14) =~= "videos/output/"@);
    assert(output_dir(id).skip(14) =~= id);
    assert(upload_file(id, name).take(13 + n) =~= input_dir(id));
    assert(upload_file(id, name).skip(14 + n) =~= name);
    assert(segment_file(id, name).take(14 + n) =~= output_dir(id));
    assert(segment_file(id, name).skip(15 + n) =~= name);
    assert(segment_address(id, name).take(12) =~= "/api/stream/"@);
    assert(segment_address(id, name).subrange(12, 12 + n) =~= id);
    assert(segment_address(id, name).skip(13 + n) =~= name);
    assert(thumbnail_address(id).take(12) =~= "/api/videos/"@);
    assert(thumbnail_address(id).subrange(12, 12 + n) =~= id);
    assert(thumbnail_address(id).skip(12 + n) =~= "/thumbnail"@);
    assert(thumbnail_key(id).take(n) =~= id);
    assert(thumbnail_key(id).skip(n) =~= "/thumbnail.jpg"@);
}

/// Whatever path or address is given for an identifier and a name holds both, and
/// they read back from it.
pub proof fn law_given_names_read_back(
    id: &str,
    name: &str,
    uploaded: String,
    segment: String,
    playlist: String,
    thumbnail: String,
    segment_at: String,
    thumbnail_at: String,
)
    requires
        call_ensures(upload_path, (id, name), uploaded),
        call_ensures(segment_path, (id, name), segment),
        call_ensures(playlist_path, (id,), playlist),
        call_ensures(thumbnail_path, (id,), thumbnail),
        call_ensures(segment_url, (id, name), segment_at),
        call_ensures(thumbnail_url, (id,), thumbnail_at),
    ensures
        uploaded@.take(13) == "videos/input/"@,
        uploaded@.subrange(13, 13 + id@.len() as int) == id@,
        uploaded@[13 + id@.len() as int] == '/',
        uploaded@.skip(14 + id@.len() as int) == name@,
        segment@.take(14) == "videos/output/"@,
        segment@.subrange(14, 14 + id@.len() as int) == id@,
        segment@[14 + id@.len() as int] == '/',
        segment@.skip(15 + id@.len() as int) == name@,
        playlist@ == "videos/output/"@ + id@ + "/playlist.m3u8"@,
        thumbnail@ == "videos/output/"@ + id@ + "/thumbnail.jpg"@,
        segment_at@.take(12) == "/api/stream/"@,
        segment_at@.subrange(12, 12 + id@.len() as int) == id@,
        segment_at@[12 + id@.len() as int] == '/',
        segment_at@.skip(13 + id@.len() as int) == name@,
        thumbnail_at@ == "/api/videos/"@ + id@ + "/thumbnail"@,
{
    reveal_strlit("videos/input/");
    reveal_strlit("videos/output/");
    reveal_strlit("/");
    law_names_are_read_back(id@, name@);
    let n = id@.len() as int;
    let before = uploaded@.take(13 + n);
    assert(before == input_dir(id@));
    assert(uploaded@.take(13) =~= before.take(13));
    assert(uploaded@.subrange(13, 13 + n) =~= before.skip(13));
    let within = segment@.take(14 + n);
    assert(within == output_dir(id@));
    assert(segment@.take(14) =~= within.take(14));
    assert(segment@.subrange(14, 14 + n) =~= within.skip(14));
}

} // verus!
