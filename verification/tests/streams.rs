use video_server::reply::{Content, Reply};
use video_server::streaming::{rewrite_playlist, serve_playlist, serve_segment};

fn header(name: &str, value: &str) -> (String, String) {
    (name.to_string(), value.to_string())
}

#[test]
fn segments_become_addresses() {
    let stored = "#EXTM3U\n#EXTINF:4.0,\nsegment_000.ts\n#EXTINF:2.5,\nsegment_001.ts\n#EXT-X-ENDLIST\n";
    assert_eq!(
        rewrite_playlist("abc", stored),
        "#EXTM3U\n#EXTINF:4.0,\n/api/stream/abc/segment_000.ts\n#EXTINF:2.5,\n/api/stream/abc/segment_001.ts\n#EXT-X-ENDLIST"
    );
}

#[test]
fn rewriting_agrees_with_a_direct_statement() {
    for stored in ["", "\n", "a.ts", "a.ts\r\n", "a.ts\r", "x\n\n", ".ts", "a.tsx\nb.ts\n"] {
        let expected = stored
            .lines()
            .map(|line| if line.ends_with(".ts") { format!("/api/stream/v/{}", line) } else { line.to_string() })
            .collect::<Vec<_>>()
            .join("\n");
        assert_eq!(rewrite_playlist("v", stored), expected);
    }
}

#[test]
fn a_playlist_without_segments_is_served_as_stored() {
    assert_eq!(rewrite_playlist("v", "#EXTM3U\n\n#EXT-X-ENDLIST\n"), "#EXTM3U\n\n#EXT-X-ENDLIST");
}

#[test]
fn served_lines_read_back() {
    let served = rewrite_playlist("v", "#EXTM3U\na.ts\nend");
    let lines: Vec<&str> = served.lines().collect();
    assert_eq!(lines, vec!["#EXTM3U", "/api/stream/v/a.ts", "end"]);
}

#[test]
fn a_playlist_is_served() {
    assert_eq!(
        serve_playlist("v", Some("a.ts\n".to_string())),
        Reply {
            status: 200,
            headers: vec![
                header("content-type", "application/vnd.apple.mpegurl"),
                header("access-control-allow-origin", "*"),
            ],
            body: Content::Text("/api/stream/v/a.ts".to_string()),
        }
    );
}

#[test]
fn a_missing_playlist_is_not_found() {
    assert_eq!(
        serve_playlist("v", None),
        Reply {
            status: 404,
            headers: vec![header("content-type", "text/plain"), header("access-control-allow-origin", "*")],
            body: Content::Text("playlist not found".to_string()),
        }
    );
}

#[test]
fn a_segment_is_served_as_it_is() {
    assert_eq!(
        serve_segment(Some(vec![71, 0, 255])),
        Reply {
            status: 200,
            headers: vec![
                header("content-type", "video/MP2T"),
                header("access-control-allow-origin", "*"),
                header("cache-control", "public, max-age=3600"),
            ],
            body: Content::Bytes(vec![71, 0, 255]),
        }
    );
}

#[test]
fn a_missing_segment_is_not_found() {
    assert_eq!(
        serve_segment(None),
        Reply { status: 404, headers: vec![], body: Content::Text("segment not found".to_string()) }
    );
}

#[test]
fn serving_distributes_over_a_line_feed() {
    for a in ["", "x", "a.ts", "#EXTM3U\r\na.ts", "\nend"] {
        for b in ["y", "b.ts\r\n", "\n", "b.ts\n\nc.ts"] {
            let whole = format!("{}\n{}", a, b);
            assert_eq!(
                rewrite_playlist("v", &whole),
                format!("{}\n{}", rewrite_playlist("v", a), rewrite_playlist("v", b))
            );
        }
    }
    assert_eq!(rewrite_playlist("v", "a.ts\nb.ts"), "/api/stream/v/a.ts\n/api/stream/v/b.ts");
}
