//! A media gallery: the entries of a directory are described by name,
//! guessed mime type and a coarse media group that picks a viewer.

pub mod classify;
pub mod mime;
pub mod scan;
pub mod laws;
pub mod options;
pub mod render;
