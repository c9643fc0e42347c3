//! The decision logic of a screen-streaming server, proved against its contracts.

pub mod auth;
pub mod bitrate;
pub mod config;
pub mod control;
pub mod cursor;
pub mod device_laws;
pub mod devices;
pub mod digest;
pub mod encode_plan;
pub mod encode_sw;
pub mod encode_vaapi;
pub mod encode_vt;
pub mod encode_win;
pub mod encoder_laws;
pub mod encoder_select;
pub mod file_clipboard;
pub mod file_laws;
pub mod file_manager;
pub mod file_names;
pub mod file_transfer;
pub mod game_mode;
pub mod input;
pub mod input_backend;
pub mod input_cursor;
pub mod input_laws;
pub mod json;
pub mod keyboard;
pub mod key_names;
pub mod keys;
pub mod linux_uring;
pub mod macos_display;
pub mod media;
pub mod messages;
pub mod net;
pub mod network_laws;
pub mod pipeline;
pub mod pipeline_start;
pub mod pointer;
pub mod screen_wake;
pub mod session;
pub mod session_laws;
pub mod setup;
pub mod startup;
pub mod stream_laws;
pub mod system_laws;
pub mod text;
pub mod text_laws;
pub mod transport;
pub mod tunnel;
pub mod warp;
