//! Clipboard monitoring with source attribution: detecting new clipboard text
//! and naming the application it came from, with its icon.
//!
//! The library decides; its caller acts. `poll` drives the loop, `detector`
//! tells new text from old, `tracker` attributes it with the help of
//! `icon_cache`, and `macos`, `linux` and `windows` say what to ask each
//! system and how to read its answers.

pub mod bitmap;
pub mod command;
pub mod data_url;
pub mod detector;
pub mod icon_cache;
pub mod linux;
pub mod macos;
pub mod poll;
pub mod source;
pub mod strategy;
pub mod text;
pub mod tracker;
pub mod windows;
