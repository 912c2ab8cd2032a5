//! The verified core of a desktop clipboard viewer: it classifies the
//! pasteboard's current payload into one of several content kinds, decodes
//! binary payloads, tracks the pasteboard's revision counter to detect
//! changes, and decides how each payload is rendered. The platform layer
//! hands the core a plain snapshot of the pasteboard state and performs the
//! widget drawing; everything in between is specified and proved here.

pub mod content;
pub mod decode;
pub mod detect;
pub mod dispatch;
pub mod fetch;
pub mod paste_type;
pub mod pasteboard;
pub mod render;
