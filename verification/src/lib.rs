//! The decisions behind a screen-recording desktop application: which windows to open and
//! close, what to run when a recording stops, where recordings live, how a render is fed to
//! the encoder, and how a rendered video is shared.

pub mod app;
pub mod audio;
pub mod command;
pub mod editor;
pub mod effect;
pub mod events;
pub mod panel;
pub mod path;
pub mod picture;
pub mod recording;
pub mod render;
pub mod share;
pub mod storage;
pub mod table;
pub mod text;
pub mod video;
pub mod window;
