//! Serving playlists and segments.

use crate::layout::{segment_address, segment_url};
use crate::reply::{
    cached_headers, cached_headers_for, headers_for, law_answers_hold_what_is_put_in, open_headers,
    plain, plain_reply, Content, ContentModel, Reply, ReplyModel, NOT_FOUND, OK,
};
use crate::text::{
    ends_with, has_suffix, join, join_texts, law_join_of_few, law_join_of_two_rows,
    law_joined_lines, law_lines_across_a_line_feed, law_lines_from_the_front,
    law_lines_hold_no_line_feed, law_lines_of_joined, law_suffixes_stand_behind, lines,
    split_lines, texts, without_carriage_return, without_final_line_feed,
};
use vstd::prelude::*;

verus! {

/// A line that names a segment is replaced by the address of that segment.
pub open spec fn served_line(id: Seq<char>, line: Seq<char>) -> Seq<char> {
    if ends_with(line, ".ts"@) {
        segment_address(id, line)
    } else {
        line
    }
}

/// The lines of a stored playlist, each as it is served.
pub open spec fn served_lines(id: Seq<char>, playlist: Seq<char>) -> Seq<Seq<char>> {
    Seq::new(lines(playlist).len(), |i: int| served_line(id, lines(playlist)[i]))
}

/// A stored playlist as it is served.
pub open spec fn served_playlist(id: Seq<char>, playlist: Seq<char>) -> Seq<char> {
    join(served_lines(id, playlist), "\n"@)
}

/// The answer to a request for a playlist, by what its file holds, where it can
/// be read.
pub open spec fn playlist_reply(id: Seq<char>, playlist: Option<Seq<char>>) -> ReplyModel {
    match playlist {
        Some(text) => ReplyModel {
            status: OK,
            headers: open_headers("application/vnd.apple.mpegurl"@),
            body: ContentModel::Text(served_playlist(id, text)),
        },
        None => ReplyModel {
            status: NOT_FOUND,
            headers: open_headers("text/plain"@),
            body: ContentModel::Text("playlist not found"@),
        },
    }
}

/// The answer to a request for a segment, by what its file holds, where it can
/// be read.
pub open spec fn segment_reply(segment: Option<Seq<u8>>) -> ReplyModel {
    match segment {
        Some(bytes) => ReplyModel {
            status: OK,
            headers: cached_headers("video/MP2T"@, "public, max-age=3600"@),
            body: ContentModel::Bytes(bytes),
        },
        None => plain_reply(NOT_FOUND, "segment not found"@),
    }
}

/// Makes a stored playlist point to the addresses of its segments.
pub fn rewrite_playlist(video_id: &str, playlist: &str) -> (served: String)
    ensures
        served@ == served_playlist(video_id@, playlist@),
{
    let stored = split_lines(playlist);
    let mut parts: Vec<String> = Vec::new();
    let mut i: usize = 0;
    let ghost expected = served_lines(video_id@, playlist@);
    while i < stored.len()
        invariant
            i <= stored.len(),
            texts(stored@) == lines(playlist@),
            expected == served_lines(video_id@, playlist@),
            texts(parts@) == expected.take(i as int),
        decreases stored.len() - i,
    {
        let ghost before = parts@;
        let line = stored[i].as_str();
        assert(line@ == texts(stored@)[i as int]);
        if has_suffix(line, ".ts") {
            parts.push(segment_url(video_id, line));
        } else {
            parts.push(line.to_owned());
        }
        proof {
            assert(texts(parts@) =~= texts(before).push(expected[i as int]));
            assert(expected.take(i + 1) =~= expected.take(i as int).push(expected[i as int]));
        }
        i = i + 1;
    }
    assert(expected.take(i as int) =~= expected);
    join_texts(&parts, "\n")
}

/// Answers a request for the playlist of `video_id`. `playlist` is what
/// [`crate::layout::playlist_path`] holds, where it can be read.
pub fn serve_playlist(video_id: &str, playlist: Option<String>) -> (reply: Reply)
    ensures
        reply@ == playlist_reply(video_id@, crate::text::optional_text(playlist)),
{
    match playlist {
        Some(text) => Reply {
            status: OK,
            headers: headers_for("application/vnd.apple.mpegurl"),
            body: Content::Text(rewrite_playlist(video_id, text.as_str())),
        },
        None => Reply {
            status: NOT_FOUND,
            headers: headers_for("text/plain"),
            body: Content::Text("playlist not found".to_owned()),
        },
    }
}

/// Answers a request for a segment. `segment` is what
/// [`crate::layout::segment_path`] holds, where it can be read.
pub fn serve_segment(segment: Option<Vec<u8>>) -> (reply: Reply)
    ensures
        reply@ == segment_reply(
            match segment {
                Some(bytes) => Some(bytes@),
                None => None,
            },
        ),
{
    match segment {
        Some(bytes) => Reply {
            status: OK,
            headers: cached_headers_for("video/MP2T", "public, max-age=3600"),
            body: Content::Bytes(bytes),
        },
        None => plain(NOT_FOUND, "segment not found".to_owned()),
    }
}

/// Serving a playlist keeps the number and the order of its lines. A line that
/// names a segment becomes the address at which that segment is served, and
/// every other line stays as it is.
pub proof fn law_lines_are_kept_or_addressed(id: Seq<char>, playlist: Seq<char>)
    ensures
        served_lines(id, playlist).len() == lines(playlist).len(),
        forall|i: int|
            0 <= i < lines(playlist).len() ==> #[trigger] served_lines(id, playlist)[i] == if ends_with(
                lines(playlist)[i],
                ".ts"@,
            ) {
                segment_address(id, lines(playlist)[i])
            } else {
                lines(playlist)[i]
            },
{
}

/// Line by line, a served playlist is the stored one with the segments replaced
/// by their addresses. Left out are the playlists whose lines a second reading
/// would change: those with a carriage return at the end of a line that is not
/// the last, and those whose last line is empty.
pub proof fn law_served_playlist_line_by_line(id: Seq<char>, playlist: Seq<char>)
    requires
        !id.contains('\n'),
        lines(playlist).len() > 0 ==> lines(playlist).last().len() > 0,
        forall|i: int|
            0 <= i < lines(playlist).len() - 1 ==> without_carriage_return(
                #[trigger] lines(playlist)[i],
            ) == lines(playlist)[i],
    ensures
        lines(served_playlist(id, playlist)) == served_lines(id, playlist),
{
    reveal_strlit("\n");
    reveal_strlit(".ts");
    reveal_strlit("/");
    reveal_strlit("/api/stream/");
    assert("\n"@ =~= seq!['\n']);
    let served = served_lines(id, playlist);
    law_lines_hold_no_line_feed(playlist);
    assert forall|i: int| 0 <= i < served.len() implies !(#[trigger] served[i]).contains('\n') by {
        let line = lines(playlist)[i];
        if served[i].contains('\n') {
            let k = served[i].index_of('\n');
            assert(served[i][k] == '\n');
            if ends_with(line, ".ts"@) {
                let address = segment_address(id, line);
                if k < 12 {
                    assert(address[k] == "/api/stream/"@[k]);
                } else if k < 12 + id.len() {
                    assert(address[k] == id[k - 12]);
                } else if k == 12 + id.len() {
                    assert(address[k] == '/');
                } else {
                    assert(address[k] == line[k - 13 - id.len()]);
                }
            }
        }
    }
    assert forall|i: int| 0 <= i < served.len() - 1 implies without_carriage_return(
        #[trigger] served[i],
    ) == served[i] by {
        let line = lines(playlist)[i];
        if ends_with(line, ".ts"@) {
            assert(line.skip(line.len() - 3)[2] == 's');
            assert(served[i].last() == line.last());
        }
    }
    if served.len() > 0 {
        assert(served.last() == served_line(id, lines(playlist).last()));
    }
    law_lines_of_joined(served);
}

/// Serving distributes over a line feed between two parts of a playlist, where
/// the first part ends in neither a line feed nor a carriage return and the second
/// is not empty.
pub proof fn law_serving_distributes(id: Seq<char>, a: Seq<char>, b: Seq<char>)
    requires
        a.len() > 0 ==> a.last() != '\n' && a.last() != '\r',
        b.len() > 0,
    ensures
        served_playlist(id, a + "\n"@ + b) == served_playlist(id, a) + "\n"@ + served_playlist(
            id,
            b,
        ),
{
    reveal_strlit("\n");
    reveal_strlit(".ts");
    assert("\n"@ =~= seq!['\n']);
    let whole = a + "\n"@ + b;
    let first = if a.len() > 0 {
        served_lines(id, a)
    } else {
        seq![Seq::empty()]
    };
    let second = served_lines(id, b);
    if a.len() > 0 {
        law_lines_across_a_line_feed(a, b);
    } else {
        assert(whole[0] == '\n');
        assert(whole.take(0) =~= Seq::empty());
        assert(whole.skip(1) =~= b);
        assert(lines(whole) =~= seq![Seq::<char>::empty()] + lines(b));
    }
    assert(served_lines(id, whole) =~= first + second);
    law_join_of_two_rows(first, second, "\n"@);
}

/// A playlist that names no segment and holds no carriage return is served as
/// it is stored, but for a line feed at its end.
pub proof fn law_playlist_without_segments(id: Seq<char>, playlist: Seq<char>)
    requires
        !playlist.contains('\r'),
        forall|i: int|
            0 <= i < lines(playlist).len() ==> !ends_with(#[trigger] lines(playlist)[i], ".ts"@),
    ensures
        served_playlist(id, playlist) == without_final_line_feed(playlist),
{
    reveal_strlit("\n");
    assert("\n"@ =~= seq!['\n']);
    assert(served_lines(id, playlist) =~= lines(playlist));
    law_joined_lines(playlist);
}

/// A request for a playlist succeeds exactly where its file can be read, and a
/// request for a segment does too.
pub proof fn law_served_exactly_where_stored(
    id: Seq<char>,
    playlist: Option<Seq<char>>,
    segment: Option<Seq<u8>>,
)
    ensures
        playlist_reply(id, playlist).status == OK <==> playlist is Some,
        playlist_reply(id, playlist).status == NOT_FOUND <==> playlist is None,
        segment_reply(segment).status == OK <==> segment is Some,
        segment_reply(segment).status == NOT_FOUND <==> segment is None,
        segment is Some ==> segment_reply(segment).body == ContentModel::Bytes(segment->0),
{
}

/// The text that is sent for a stored playlist.
pub open spec fn sent_playlist(id: Seq<char>, stored: Seq<char>) -> Seq<char> {
    playlist_reply(id, Some(stored)).body->Text_0
}

/// What is sent for a playlist begins with what its first line becomes, and what
/// is sent for the rest follows behind a line feed. A line that ends in `.ts`
/// becomes the address of that segment; every other line stays. A carriage return
/// at the end of a line is dropped, and so is a line feed at the end of all.
pub proof fn law_playlist_is_sent_line_by_line(id: Seq<char>, line: Seq<char>, rest: Seq<char>)
    requires
        !line.contains('\n'),
    ensures
        ({
            let sent = if exists|name: Seq<char>| line == #[trigger] (name + ".ts"@) {
                "/api/stream/"@ + id + "/"@ + line
            } else {
                line
            };
            &&& sent_playlist(id, Seq::empty()) == Seq::<char>::empty()
            &&& line.len() > 0 ==> sent_playlist(id, line) == sent
            &&& sent_playlist(id, line + seq!['\r', '\n']) == sent
            &&& rest.len() > 0 ==> sent_playlist(id, line + seq!['\r', '\n'] + rest) == sent + seq![
                '\n',
            ] + sent_playlist(id, rest)
            &&& line.len() == 0 || line.last() != '\r' ==> {
                &&& sent_playlist(id, line + seq!['\n']) == sent
                &&& rest.len() > 0 ==> sent_playlist(id, line + seq!['\n'] + rest) == sent + seq![
                    '\n',
                ] + sent_playlist(id, rest)
            }
        }),
{
    reveal_strlit("\n");
    assert("\n"@ =~= seq!['\n']);
    law_suffixes_stand_behind(line, ".ts"@);
    let none = Seq::<char>::empty();
    law_lines_from_the_front(line, none);
    law_lines_from_the_front(line, rest);
    let sent = served_line(id, line);
    law_join_of_few(sent, seq!['\n']);
    assert(served_lines(id, none) =~= Seq::empty());
    if line.len() > 0 {
        assert(served_lines(id, line) =~= seq![sent]);
    }
    assert(line + seq!['\r', '\n'] + none =~= line + seq!['\r', '\n']);
    assert(line + seq!['\n'] + none =~= line + seq!['\n']);
    assert(served_lines(id, line + seq!['\r', '\n']) =~= seq![sent]);
    assert(served_lines(id, line + seq!['\r', '\n'] + rest) =~= seq![sent] + served_lines(id, rest));
    if line.len() == 0 || line.last() != '\r' {
        assert(served_lines(id, line + seq!['\n']) =~= seq![sent]);
        assert(served_lines(id, line + seq!['\n'] + rest) =~= seq![sent] + served_lines(id, rest));
    }
    if rest.len() > 0 {
        law_join_of_two_rows(seq![sent], served_lines(id, rest), seq!['\n']);
    }
}

/// The body that is sent for a stored playlist is a row of as many lines, in the
/// same order, with line feeds between them: a line that ends in `.ts` stands there
/// as its address, and every other line as it is stored. None is left out and none
/// is added.
pub proof fn law_playlist_reply_holds_every_line(id: Seq<char>, stored: Seq<char>)
    ensures
        ({
            let reply = playlist_reply(id, Some(stored));
            &&& reply.status == 200
            &&& reply.headers == seq![
                ("content-type"@, "application/vnd.apple.mpegurl"@),
                ("access-control-allow-origin"@, "*"@),
            ]
            &&& exists|row: Seq<Seq<char>>|
                {
                    &&& reply.body == ContentModel::Text(#[trigger] join(row, seq!['\n']))
                    &&& row.len() == lines(stored).len()
                    &&& forall|i: int, name: Seq<char>|
                        0 <= i < row.len() && lines(stored)[i] == #[trigger] (name + ".ts"@)
                            ==> #[trigger] row[i] == "/api/stream/"@ + id + "/"@ + lines(stored)[i]
                    &&& forall|i: int|
                        0 <= i < row.len() && (forall|name: Seq<char>|
                            lines(stored)[i] != #[trigger] (name + ".ts"@)) ==> #[trigger] row[i]
                            == lines(stored)[i]
                }
        }),
{
    reveal_strlit("\n");
    assert("\n"@ =~= seq!['\n']);
    let reply = playlist_reply(id, Some(stored));
    let row = served_lines(id, stored);
    assert forall|i: int, name: Seq<char>|
        0 <= i < row.len() && lines(stored)[i] == #[trigger] (name + ".ts"@) implies #[trigger] row[i]
        == "/api/stream/"@ + id + "/"@ + lines(stored)[i] by {
        law_suffixes_stand_behind(lines(stored)[i], ".ts"@);
    }
    assert forall|i: int|
        0 <= i < row.len() && (forall|name: Seq<char>|
            lines(stored)[i] != #[trigger] (name + ".ts"@)) implies #[trigger] row[i] == lines(
        stored,
    )[i] by {
        law_suffixes_stand_behind(lines(stored)[i], ".ts"@);
    }
    assert(reply.body == ContentModel::Text(join(row, seq!['\n'])));
    assert(reply.headers =~= seq![
        ("content-type"@, "application/vnd.apple.mpegurl"@),
        ("access-control-allow-origin"@, "*"@),
    ]);
}

/// Read again line by line, what is sent has the lines of the stored playlist, each
/// segment under its address. Left out are the playlists whose lines a second
/// reading would change: those with a carriage return at the end of a line that is
/// not the last, and those whose last line is empty.
pub proof fn law_playlist_reply_reads_back(id: Seq<char>, stored: Seq<char>)
    requires
        !id.contains('\n'),
        lines(stored).len() > 0 ==> lines(stored).last().len() > 0,
        forall|i: int|
            0 <= i < lines(stored).len() - 1 ==> (#[trigger] lines(stored)[i]).len() == 0 || lines(
                stored,
            )[i].last() != '\r',
    ensures
        lines(sent_playlist(id, stored)).len() == lines(stored).len(),
        forall|i: int|
            0 <= i < lines(stored).len() ==> #[trigger] lines(sent_playlist(id, stored))[i] == (
            if exists|name: Seq<char>| lines(stored)[i] == #[trigger] (name + ".ts"@) {
                "/api/stream/"@ + id + "/"@ + lines(stored)[i]
            } else {
                lines(stored)[i]
            }),
{
    law_served_playlist_line_by_line(id, stored);
    assert forall|i: int| 0 <= i < lines(stored).len() implies #[trigger] lines(
        sent_playlist(id, stored),
    )[i] == (if exists|name: Seq<char>| lines(stored)[i] == #[trigger] (name + ".ts"@) {
        "/api/stream/"@ + id + "/"@ + lines(stored)[i]
    } else {
        lines(stored)[i]
    }) by {
        law_suffixes_stand_behind(lines(stored)[i], ".ts"@);
    }
}

/// A segment is sent byte for byte, to be kept for an hour, and what is not stored
/// is answered as not found.
pub proof fn law_segments_are_sent_unchanged(id: Seq<char>, bytes: Seq<u8>)
    ensures
        segment_reply(Some(bytes)).status == 200,
        segment_reply(Some(bytes)).body == ContentModel::Bytes(bytes),
        segment_reply(Some(bytes)).headers == seq![
            ("content-type"@, "video/MP2T"@),
            ("access-control-allow-origin"@, "*"@),
            ("cache-control"@, "public, max-age=3600"@),
        ],
        segment_reply(None).status == 404,
        segment_reply(None).headers.len() == 0,
        segment_reply(None).body == ContentModel::Text("segment not found"@),
        playlist_reply(id, None).status == 404,
        playlist_reply(id, None).headers == seq![
            ("content-type"@, "text/plain"@),
            ("access-control-allow-origin"@, "*"@),
        ],
        playlist_reply(id, None).body == ContentModel::Text("playlist not found"@),
{
    assert(segment_reply(Some(bytes)).headers =~= seq![
        ("content-type"@, "video/MP2T"@),
        ("access-control-allow-origin"@, "*"@),
        ("cache-control"@, "public, max-age=3600"@),
    ]);
}

/// Whatever `serve_segment` answers: of a stored segment all of its bytes, and where
/// nothing is stored no more than that it is not found.
pub proof fn law_serve_segment_gives_the_bytes(bytes: Vec<u8>, found: Reply, missing: Reply)
    requires
        call_ensures(serve_segment, (Some(bytes),), found),
        call_ensures(serve_segment, (None,), missing),
    ensures
        found.status == 200,
        found.body is Bytes,
        found.body->Bytes_0@ == bytes@,
        missing.status == 404,
        missing.body is Text,
        missing.body->Text_0@ == "segment not found"@,
{
    law_answers_hold_what_is_put_in(found);
    law_answers_hold_what_is_put_in(missing);
}

/// Whatever `serve_playlist` answers: of a stored playlist the text that is sent for
/// all of it, as `rewrite_playlist` gives it, and where nothing is stored no more
/// than that it is not found.
pub proof fn law_serve_playlist_gives_the_lines(
    video_id: &str,
    playlist: String,
    stored: &str,
    found: Reply,
    rewritten: String,
    missing: Reply,
)
    requires
        stored@ == playlist@,
        call_ensures(serve_playlist, (video_id, Some(playlist)), found),
        call_ensures(rewrite_playlist, (video_id, stored), rewritten),
        call_ensures(serve_playlist, (video_id, None), missing),
    ensures
        found.status == 200,
        found.body is Text,
        found.body->Text_0@ == sent_playlist(video_id@, playlist@),
        rewritten@ == sent_playlist(video_id@, playlist@),
        missing.status == 404,
        missing.body is Text,
        missing.body->Text_0@ == "playlist not found"@,
{
    law_answers_hold_what_is_put_in(found);
    law_answers_hold_what_is_put_in(missing);
}

} // verus!
