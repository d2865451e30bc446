//! The fixed header that every shell link begins with.

use vstd::prelude::*;
use crate::bytes::{le_u16, le_u32, le_u64, le_u128};
use crate::cursor::ByteCursor;
use crate::error::DecodeError;
use crate::filetime::FileTime;

verus! {

/// The number of bytes of the header.
pub const HEADER_SIZE: usize = 76;

/// The value of the first four bytes, read as a little-endian integer. It is
/// the signature of the format and at the same time the declared header size.
pub const HEADER_SIGNATURE: u32 = 0x0000_004C;

/// Link flag: a target ID list follows the header.
pub const HAS_LINK_TARGET_ID_LIST: u32 = 0x0000_0001;

/// Link flag: a link information block is present.
pub const HAS_LINK_INFO: u32 = 0x0000_0002;

/// Link flag: the description string is present.
pub const HAS_NAME: u32 = 0x0000_0004;

/// Link flag: the relative path string is present.
pub const HAS_RELATIVE_PATH: u32 = 0x0000_0008;

/// Link flag: the working directory string is present.
pub const HAS_WORKING_DIR: u32 = 0x0000_0010;

/// Link flag: the command-line arguments string is present.
pub const HAS_ARGUMENTS: u32 = 0x0000_0020;

/// Link flag: the icon location string is present.
pub const HAS_ICON_LOCATION: u32 = 0x0000_0040;

/// Link flag: the strings of the string data are UTF-16, not 8-bit.
pub const IS_UNICODE: u32 = 0x0000_0080;

/// Whether any bit of `mask` is set in `flags`.
pub open spec fn spec_has_flag(flags: u32, mask: u32) -> bool {
    flags & mask != 0
}

/// Whether any bit of `mask` is set in `flags`.
#[verifier::when_used_as_spec(spec_has_flag)]
pub fn has_flag(flags: u32, mask: u32) -> (set: bool)
    ensures
        set == spec_has_flag(flags, mask),
{
    flags & mask != 0
}

/// The decoded header. Flags and attributes are kept as the bit fields that
/// were read, so that later sections can test single bits.
#[derive(Clone, Copy, Debug, PartialEq, Eq)]
pub struct ShellLinkHeader {
    /// The signature, equal to `HEADER_SIGNATURE` in every decoded header.
    pub signature: u32,
    /// The class identifier, its 16 bytes taken as one little-endian integer.
    pub link_clsid: u128,
    /// Which optional sections follow and how strings are encoded.
    pub link_flags: u32,
    /// The file attributes of the link target.
    pub file_attributes: u32,
    /// When the target was created, if recorded.
    pub creation_time: Option<FileTime>,
    /// When the target was last accessed, if recorded.
    pub access_time: Option<FileTime>,
    /// When the target was last written, if recorded.
    pub write_time: Option<FileTime>,
    /// The size of the target in bytes, modulo 2^32.
    pub file_size: u32,
    /// The index of the icon within the icon location.
    pub icon_index: u32,
    /// The window state that the target is to be started in.
    pub show_command: u32,
    /// The keyboard shortcut: key code in the low byte, modifiers in the high.
    pub hot_key: u16,
    /// Reserved.
    pub reserved1: u16,
    /// Reserved.
    pub reserved2: u32,
    /// Reserved.
    pub reserved3: u32,
}

/// The header whose fields are read from the 76 bytes that start at `at`.
pub open spec fn header_at(s: Seq<u8>, at: int) -> ShellLinkHeader {
    ShellLinkHeader {
        signature: le_u32(s, at),
        link_clsid: le_u128(s, at + 4),
        link_flags: le_u32(s, at + 20),
        file_attributes: le_u32(s, at + 24),
        creation_time: FileTime::spec_from_ticks(le_u64(s, at + 28)),
        access_time: FileTime::spec_from_ticks(le_u64(s, at + 36)),
        write_time: FileTime::spec_from_ticks(le_u64(s, at + 44)),
        file_size: le_u32(s, at + 52),
        icon_index: le_u32(s, at + 56),
        show_command: le_u32(s, at + 60),
        hot_key: le_u16(s, at + 64),
        reserved1: le_u16(s, at + 66),
        reserved2: le_u32(s, at + 68),
        reserved3: le_u32(s, at + 72),
    }
}

/// What decoding a header at `at` comes to. The signature is judged as soon
/// as its four bytes are there: a wrong one is `InvalidHeader` however short
/// the rest is.
pub open spec fn parse_header(s: Seq<u8>, at: int) -> Result<ShellLinkHeader, DecodeError> {
    if at + 4 > s.len() {
        Err(DecodeError::TruncatedInput)
    } else if le_u32(s, at) != HEADER_SIGNATURE {
        Err(DecodeError::InvalidHeader)
    } else if at + HEADER_SIZE > s.len() {
        Err(DecodeError::TruncatedInput)
    } else {
        Ok(header_at(s, at))
    }
}

impl ShellLinkHeader {
    /// Whether a target ID list follows the header.
    pub open spec fn spec_has_link_target_id_list(&self) -> bool {
        spec_has_flag(self.link_flags, HAS_LINK_TARGET_ID_LIST)
    }

    /// Whether a target ID list follows the header.
    #[verifier::when_used_as_spec(spec_has_link_target_id_list)]
    pub fn has_link_target_id_list(&self) -> (set: bool)
        ensures
            set == self.spec_has_link_target_id_list(),
    {
        has_flag(self.link_flags, HAS_LINK_TARGET_ID_LIST)
    }

    /// Whether a link information block is present.
    pub open spec fn spec_has_link_info(&self) -> bool {
        spec_has_flag(self.link_flags, HAS_LINK_INFO)
    }

    /// Whether a link information block is present.
    #[verifier::when_used_as_spec(spec_has_link_info)]
    pub fn has_link_info(&self) -> (set: bool)
        ensures
            set == self.spec_has_link_info(),
    {
        has_flag(self.link_flags, HAS_LINK_INFO)
    }

    /// Whether the strings of the string data are UTF-16.
    pub open spec fn spec_is_unicode(&self) -> bool {
        spec_has_flag(self.link_flags, IS_UNICODE)
    }

    /// Whether the strings of the string data are UTF-16.
    #[verifier::when_used_as_spec(spec_is_unicode)]
    pub fn is_unicode(&self) -> (set: bool)
        ensures
            set == self.spec_is_unicode(),
    {
        has_flag(self.link_flags, IS_UNICODE)
    }
}

/// Decodes the header at the cursor and moves the cursor past it. On failure
/// the cursor stays where it was.
pub fn decode_header(cursor: &mut ByteCursor) -> (r: Result<ShellLinkHeader, DecodeError>)
    ensures
        final(cursor).bytes() == old(cursor).bytes(),
        r == parse_header(old(cursor).bytes(), old(cursor).offset()),
        final(cursor).offset() == if r is Ok {
            old(cursor).offset() + HEADER_SIZE
        } else {
            old(cursor).offset()
        },
{
    let start: usize = cursor.position();
    let signature = match cursor.read_u32() {
        Ok(v) => v,
        Err(e) => { return Err(e); },
    };
    if signature != HEADER_SIGNATURE {
        let _ = cursor.seek_absolute(start);
        return Err(DecodeError::InvalidHeader);
    }
    if cursor.remaining_len() < HEADER_SIZE - 4 {
        let _ = cursor.seek_absolute(start);
        return Err(DecodeError::TruncatedInput);
    }
    let link_clsid = match cursor.read_guid() {
        Ok(v) => v,
        Err(e) => { return Err(e); },
    };
    let link_flags = match cursor.read_u32() {
        Ok(v) => v,
        Err(e) => { return Err(e); },
    };
    let file_attributes = match cursor.read_u32() {
        Ok(v) => v,
        Err(e) => { return Err(e); },
    };
    let creation_time = match cursor.read_filetime() {
        Ok(v) => v,
        Err(e) => { return Err(e); },
    };
    let access_time = match cursor.read_filetime() {
        Ok(v) => v,
        Err(e) => { return Err(e); },
    };
    let write_time = match cursor.read_filetime() {
        Ok(v) => v,
        Err(e) => { return Err(e); },
    };
    let file_size = match cursor.read_u32() {
        Ok(v) => v,
        Err(e) => { return Err(e); },
    };
    let icon_index = match cursor.read_u32() {
        Ok(v) => v,
        Err(e) => { return Err(e); },
    };
    let show_command = match cursor.read_u32() {
        Ok(v) => v,
        Err(e) => { return Err(e); },
    };
    let hot_key = match cursor.read_u16() {
        Ok(v) => v,
        Err(e) => { return Err(e); },
    };
    let reserved1 = match cursor.read_u16() {
        Ok(v) => v,
        Err(e) => { return Err(e); },
    };
    let reserved2 = match cursor.read_u32() {
        Ok(v) => v,
        Err(e) => { return Err(e); },
    };
    let reserved3 = match cursor.read_u32() {
        Ok(v) => v,
        Err(e) => { return Err(e); },
    };
    Ok(
        ShellLinkHeader {
            signature,
            link_clsid,
            link_flags,
            file_attributes,
            creation_time,
            access_time,
            write_time,
            file_size,
            icon_index,
            show_command,
            hot_key,
            reserved1,
            reserved2,
            reserved3,
        },
    )
}

/// The four bytes at `at` read as the signature exactly when they are
/// `4C 00 00 00`.
pub proof fn lemma_signature_bytes(s: Seq<u8>, at: int)
    ensures
        le_u32(s, at) == HEADER_SIGNATURE <==> s[at] == 0x4C && s[at + 1] == 0 && s[at + 2] == 0
            && s[at + 3] == 0,
{
}

/// Every decoded header carries the signature, and a buffer of at least four
/// bytes in which any of the first four differs from the signature's is
/// rejected as `InvalidHeader`, whatever follows.
pub proof fn lemma_header_signature(s: Seq<u8>, at: int)
    requires
        0 <= at,
    ensures
        parse_header(s, at) matches Ok(h) ==> h.signature == HEADER_SIGNATURE,
        at + 4 <= s.len() && !(s[at] == 0x4C && s[at + 1] == 0 && s[at + 2] == 0 && s[at + 3]
            == 0) ==> parse_header(s, at) == Err::<ShellLinkHeader, DecodeError>(
            DecodeError::InvalidHeader,
        ),
{
    lemma_signature_bytes(s, at);
}

} // verus!
