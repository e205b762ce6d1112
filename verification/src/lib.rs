//! Classification of files, byte buffers and file extensions into a small, closed
//! vocabulary of content types: archives, images and documents that a
//! document-serving application routes to different handlers.
//!
//! Detection never fails. Bytes are sniffed for a known signature first; where that
//! gives nothing, the file extension decides; where that gives nothing either, the
//! result is [`ContentType::UNKNOWN`]. Only the conversion of a content type into an
//! image format can be refused.

pub mod extension;
pub mod interop;
pub mod laws;
pub mod mime;
pub mod predicates;
pub mod sniff;
pub mod text;
pub mod vocabulary;

pub use crate::extension::temporary_content_workarounds;
pub use crate::interop::{CoreError, ImageFormat};
pub use crate::sniff::Detection;
pub use crate::vocabulary::ContentType;
