//! The decisions of a small video server: what an upload must hold, how a
//! stored file becomes a stream, and what each request is answered.
//!
//! Handlers that do nothing but answer are functions. Those that wait for
//! something in between are state machines: a function takes the state and what
//! came of the last action, and gives the next state and the next action. What
//! the actions name, running a program, reading a file, asking the database, is
//! the caller's to do.

pub mod catalog;
pub mod clock;
pub mod get_api;
pub mod health;
pub mod ids;
pub mod layout;
pub mod number;
pub mod probe;
pub mod processing;
pub mod reply;
pub mod streaming;
pub mod table;
pub mod text;
pub mod upload_video;
pub mod video_info;
