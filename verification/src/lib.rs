//! Decoder for Windows Shell Link (`.lnk`) files, with a uniform named-field
//! view of the decoded structures.
//!
//! The decoder works on a byte buffer that the caller has already read. Every
//! section decoder is described by a function on the sequence of bytes, and the
//! executable code is proved to compute exactly that function.

pub mod bytes;
pub mod cursor;
pub mod error;
pub mod extra_data;
pub mod filetime;
pub mod flag_text;
pub mod header;
pub mod id_list;
pub mod link_info;
pub mod lnk;
pub mod plugin;
pub mod reflect;
pub mod string_data;
pub mod text;
