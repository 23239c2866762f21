//! Locates media files and reports when each was created and, where the
//! file carries embedded metadata, when it was taken.
pub mod datetime;
pub mod metadata;
pub mod mimetype;
pub mod directory;
