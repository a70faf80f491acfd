# video_server

A small server that takes in videos, cuts them into HLS segments with `ffmpeg`
and serves them.

- `src/` is the library, verified with Verus: the decisions of each handler, the
  commands and statements they lead to, the answers they give, and the laws that
  hold among them. Only the small functions that hand a call to another crate or
  to the standard library are trusted to do what their contracts say.
- `app/` is the program around it: routes, database, files and processes.
- `tests/` runs the library on concrete values, its statements against an
  in-memory database among them.

| module         | what it holds                                               |
|----------------|-------------------------------------------------------------|
| `text`         | lines, suffixes, blanks and decimals                        |
| `ids`          | the identifiers of videos                                   |
| `clock`        | the dates of uploads                                        |
| `layout`       | where files lie, and at which addresses they are served     |
| `number`       | floating-point numbers, finite or not                       |
| `catalog`      | the statements by which records are kept                    |
| `table`        | what the statements make of the records, request by request |
| `reply`        | answers: status, headers, body                              |
| `streaming`    | playlists and segments                                      |
| `video_info`   | descriptions of one video and of all, thumbnails            |
| `upload_video` | taking in an upload                                         |
| `probe`        | reading the report on a file                                |
| `processing`   | turning an uploaded file into a stream                      |
| `health`, `get_api` | two fixed texts                                        |

The library trusts, and states, what `uuid`, `chrono`, `serde_json` and two
functions of the standard library do; each such statement stands above the
function that makes the call.
