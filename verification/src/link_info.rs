//! The link information block: where the target was when the link was made.
//!
//! The block begins with its own size and the size of its header. The header
//! holds flags and a table of offsets, each counted from the start of the
//! block: to strings that end with a zero character, to the record of a local
//! volume and to the record of a network share. An offset is used only after
//! it has been checked against the size of the block.

use vstd::prelude::*;
use crate::bytes::{le_u16, le_u32};
use crate::cursor::ByteCursor;
use crate::error::DecodeError;
use crate::header::{has_flag, spec_has_flag};
use crate::string_data::text_view;
use crate::text::{decode_text, decoded_text, Encoding};

verus! {

/// The size of the header without the offsets of the UTF-16 strings.
pub const LINK_INFO_HEADER_SIZE: u32 = 0x1C;

/// The least header size with which the offsets of the UTF-16 strings exist.
pub const LINK_INFO_WIDE_HEADER_SIZE: u32 = 0x24;

/// Block flag: the target is on a local volume, and the local base path is
/// present.
pub const VOLUME_ID_AND_LOCAL_BASE_PATH: u32 = 0x0000_0001;

/// Block flag: the target is on a network share.
pub const COMMON_NETWORK_RELATIVE_LINK_AND_PATH_SUFFIX: u32 = 0x0000_0002;

/// The number of strings that the offset table can point to.
pub const TEXT_COUNT: usize = 4;

/// The number of bytes of a volume record that are decoded: its size, the
/// drive type, the serial number and the offset of the label.
pub const VOLUME_ID_SIZE: u32 = 16;

/// The number of bytes of a network record that are decoded: its size, its
/// flags, the offsets of the two names and the provider type.
pub const NETWORK_LINK_SIZE: u32 = 20;

/// The record of the volume that a local target is on. The label itself is
/// not decoded, only where the record says it is.
#[derive(Clone, Copy, Debug, PartialEq, Eq)]
pub struct VolumeId {
    /// The declared size of the record.
    pub size: u32,
    /// The kind of drive.
    pub drive_type: u32,
    /// The serial number of the volume.
    pub drive_serial_number: u32,
    /// The offset of the label, counted from the start of the record.
    pub volume_label_offset: u32,
}

/// The record of the network share that a remote target is on. The names
/// themselves are not decoded, only where the record says they are.
#[derive(Clone, Copy, Debug, PartialEq, Eq)]
pub struct CommonNetworkRelativeLink {
    /// The declared size of the record.
    pub size: u32,
    /// The flags of the record.
    pub flags: u32,
    /// The offset of the share name, counted from the start of the record.
    pub net_name_offset: u32,
    /// The offset of the device name, counted from the start of the record.
    pub device_name_offset: u32,
    /// The kind of network provider.
    pub network_provider_type: u32,
}

/// The decoded link information. Where the link has no such block, every
/// field is `None`.
#[derive(Debug, PartialEq, Eq)]
pub struct LinkInfo {
    /// The flags of the block, as read.
    pub link_info_flags: Option<u32>,
    /// The volume record, where the flags name a local volume.
    pub volume_id: Option<VolumeId>,
    /// The network record, where the flags name a network share.
    pub common_network_relative_link: Option<CommonNetworkRelativeLink>,
    /// The path of the target on its local volume, in 8-bit characters.
    pub local_base_path: Option<String>,
    /// The part of the path that is appended to the base, in 8-bit characters.
    pub common_path_suffix: Option<String>,
    /// The path of the target on its local volume, from UTF-16.
    pub local_base_path_unicode: Option<String>,
    /// The part of the path that is appended to the base, from UTF-16.
    pub common_path_suffix_unicode: Option<String>,
}

/// The decoded link information as a mathematical value.
pub ghost struct LinkInfoView {
    pub link_info_flags: Option<u32>,
    pub volume_id: Option<VolumeId>,
    pub common_network_relative_link: Option<CommonNetworkRelativeLink>,
    pub local_base_path: Option<Seq<char>>,
    pub common_path_suffix: Option<Seq<char>>,
    pub local_base_path_unicode: Option<Seq<char>>,
    pub common_path_suffix_unicode: Option<Seq<char>>,
}

impl View for LinkInfo {
    type V = LinkInfoView;

    open spec fn view(&self) -> LinkInfoView {
        LinkInfoView {
            link_info_flags: self.link_info_flags,
            volume_id: self.volume_id,
            common_network_relative_link: self.common_network_relative_link,
            local_base_path: text_view(self.local_base_path),
            common_path_suffix: text_view(self.common_path_suffix),
            local_base_path_unicode: text_view(self.local_base_path_unicode),
            common_path_suffix_unicode: text_view(self.common_path_suffix_unicode),
        }
    }
}

impl LinkInfoView {
    /// The link information of a link that has no such block.
    pub open spec fn absent() -> LinkInfoView {
        LinkInfoView {
            link_info_flags: None,
            volume_id: None,
            common_network_relative_link: None,
            local_base_path: None,
            common_path_suffix: None,
            local_base_path_unicode: None,
            common_path_suffix_unicode: None,
        }
    }
}

impl LinkInfo {
    /// The link information of a link that has no such block.
    pub fn absent() -> (info: LinkInfo)
        ensures
            info@ == LinkInfoView::absent(),
    {
        LinkInfo {
            link_info_flags: None,
            volume_id: None,
            common_network_relative_link: None,
            local_base_path: None,
            common_path_suffix: None,
            local_base_path_unicode: None,
            common_path_suffix_unicode: None,
        }
    }
}

/// The character or code unit that starts at `at`.
pub open spec fn unit_at(s: Seq<u8>, at: int, encoding: Encoding) -> int {
    match encoding {
        Encoding::Ansi => s[at] as int,
        Encoding::Utf16Le => le_u16(s, at) as int,
    }
}

/// The index of the first zero unit among the units that start at `from` and
/// lie wholly before `limit`; `limit` itself if there is none.
pub open spec fn terminator_index(s: Seq<u8>, from: int, limit: int, encoding: Encoding) -> int
    decreases limit - from,
{
    if from + encoding.spec_width() > limit {
        limit
    } else if unit_at(s, from, encoding) == 0 {
        from
    } else {
        terminator_index(s, from + encoding.spec_width(), limit, encoding)
    }
}

/// The zero-terminated string at `offset` in the block of `size` bytes that
/// starts at `start`, if it is wanted. It is `MalformedLinkInfo` if the offset
/// does not lie within the block or the string does not end within it.
pub open spec fn located_text(
    s: Seq<u8>,
    start: int,
    size: u32,
    wanted: bool,
    offset: u32,
    encoding: Encoding,
) -> Result<Option<Seq<char>>, DecodeError> {
    if !wanted {
        Ok(None)
    } else if offset >= size {
        Err(DecodeError::MalformedLinkInfo)
    } else if terminator_index(s, start + offset, start + size, encoding) >= start + size {
        Err(DecodeError::MalformedLinkInfo)
    } else {
        Ok(
            Some(
                decoded_text(
                    s.subrange(
                        start + offset,
                        terminator_index(s, start + offset, start + size, encoding),
                    ),
                    encoding,
                ),
            ),
        )
    }
}

/// The declared size of the block that starts at `start`.
pub open spec fn block_size(s: Seq<u8>, start: int) -> u32 {
    le_u32(s, start)
}

/// The declared size of the header of the block that starts at `start`.
pub open spec fn block_header_size(s: Seq<u8>, start: int) -> u32 {
    le_u32(s, start + 4)
}

/// The flags of the block that starts at `start`.
pub open spec fn block_flags(s: Seq<u8>, start: int) -> u32 {
    le_u32(s, start + 8)
}

/// Where in the header the offset of string `k` stands: the local base path,
/// the common path suffix, and the UTF-16 forms of the two.
pub open spec fn text_slot(k: int) -> int {
    if k == 0 {
        16
    } else if k == 1 {
        24
    } else if k == 2 {
        28
    } else {
        32
    }
}

/// The offset of string `k`, as the header of the block gives it.
pub open spec fn text_offset(s: Seq<u8>, start: int, k: int) -> u32 {
    le_u32(s, start + text_slot(k))
}

/// How string `k` is encoded.
pub open spec fn text_encoding(k: int) -> Encoding {
    if k < 2 {
        Encoding::Ansi
    } else {
        Encoding::Utf16Le
    }
}

/// Whether string `k` is looked up. The local base path is, where the flags
/// name a local volume; the common path suffix always. A UTF-16 form is,
/// where the header is large enough to hold its offset and the offset is not
/// zero, which says that the form was left out.
pub open spec fn text_wanted(s: Seq<u8>, start: int, k: int) -> bool {
    let local = spec_has_flag(block_flags(s, start), VOLUME_ID_AND_LOCAL_BASE_PATH);
    let wide = block_header_size(s, start) >= LINK_INFO_WIDE_HEADER_SIZE;
    if k == 0 {
        local
    } else if k == 1 {
        true
    } else if k == 2 {
        wide && local && text_offset(s, start, k) != 0
    } else {
        wide && text_offset(s, start, k) != 0
    }
}

/// The offset of the volume record, as the header of the block gives it.
pub open spec fn volume_id_offset(s: Seq<u8>, start: int) -> u32 {
    le_u32(s, start + 12)
}

/// The offset of the network record, as the header of the block gives it.
pub open spec fn network_link_offset(s: Seq<u8>, start: int) -> u32 {
    le_u32(s, start + 20)
}

/// Whether the volume record is looked up: where the flags name a local
/// volume.
pub open spec fn volume_id_wanted(s: Seq<u8>, start: int) -> bool {
    spec_has_flag(block_flags(s, start), VOLUME_ID_AND_LOCAL_BASE_PATH)
}

/// Whether the network record is looked up: where the flags name a network
/// share.
pub open spec fn network_link_wanted(s: Seq<u8>, start: int) -> bool {
    spec_has_flag(block_flags(s, start), COMMON_NETWORK_RELATIVE_LINK_AND_PATH_SUFFIX)
}

/// The volume record whose first byte is `s[at]`.
pub open spec fn volume_id_at(s: Seq<u8>, at: int) -> VolumeId {
    VolumeId {
        size: le_u32(s, at),
        drive_type: le_u32(s, at + 4),
        drive_serial_number: le_u32(s, at + 8),
        volume_label_offset: le_u32(s, at + 12),
    }
}

/// The network record whose first byte is `s[at]`.
pub open spec fn network_link_at(s: Seq<u8>, at: int) -> CommonNetworkRelativeLink {
    CommonNetworkRelativeLink {
        size: le_u32(s, at),
        flags: le_u32(s, at + 4),
        net_name_offset: le_u32(s, at + 8),
        device_name_offset: le_u32(s, at + 12),
        network_provider_type: le_u32(s, at + 16),
    }
}

/// The volume record at `offset` in the block of `size` bytes that starts at
/// `start`, if it is wanted. It is `MalformedLinkInfo` if the record does not
/// lie within the block.
pub open spec fn located_volume_id(s: Seq<u8>, start: int, size: u32, wanted: bool, offset: u32) -> Result<
    Option<VolumeId>,
    DecodeError,
> {
    if !wanted {
        Ok(None)
    } else if offset + VOLUME_ID_SIZE > size {
        Err(DecodeError::MalformedLinkInfo)
    } else {
        Ok(Some(volume_id_at(s, start + offset)))
    }
}

/// The network record at `offset` in the block of `size` bytes that starts at
/// `start`, if it is wanted. It is `MalformedLinkInfo` if the record does not
/// lie within the block.
pub open spec fn located_network_link(
    s: Seq<u8>,
    start: int,
    size: u32,
    wanted: bool,
    offset: u32,
) -> Result<Option<CommonNetworkRelativeLink>, DecodeError> {
    if !wanted {
        Ok(None)
    } else if offset + NETWORK_LINK_SIZE > size {
        Err(DecodeError::MalformedLinkInfo)
    } else {
        Ok(Some(network_link_at(s, start + offset)))
    }
}

/// The volume record of the block that starts at `start`.
pub open spec fn block_volume_id(s: Seq<u8>, start: int) -> Result<Option<VolumeId>, DecodeError> {
    located_volume_id(
        s,
        start,
        block_size(s, start),
        volume_id_wanted(s, start),
        volume_id_offset(s, start),
    )
}

/// The network record of the block that starts at `start`.
pub open spec fn block_network_link(s: Seq<u8>, start: int) -> Result<
    Option<CommonNetworkRelativeLink>,
    DecodeError,
> {
    located_network_link(
        s,
        start,
        block_size(s, start),
        network_link_wanted(s, start),
        network_link_offset(s, start),
    )
}

/// String `k` of the block that starts at `start`.
pub open spec fn block_text(s: Seq<u8>, start: int, k: int) -> Result<
    Option<Seq<char>>,
    DecodeError,
> {
    located_text(
        s,
        start,
        block_size(s, start),
        text_wanted(s, start, k),
        text_offset(s, start, k),
        text_encoding(k),
    )
}

/// Whether the two sizes of the block can be read and agree with each other
/// and with the buffer; if not, the error that says why.
pub open spec fn frame_check(s: Seq<u8>, start: int) -> Result<(), DecodeError> {
    if start + 8 > s.len() || start + block_size(s, start) > s.len() {
        Err(DecodeError::TruncatedInput)
    } else if block_header_size(s, start) < LINK_INFO_HEADER_SIZE || block_header_size(s, start)
        > block_size(s, start) {
        Err(DecodeError::MalformedLinkInfo)
    } else {
        Ok(())
    }
}

/// What decoding a link information block at `start` comes to: the decoded
/// block and the index of the section after it, which is the end of the
/// block as it declares it.
pub open spec fn parse_link_info(s: Seq<u8>, start: int) -> Result<(LinkInfoView, int), DecodeError> {
    match frame_check(s, start) {
        Err(e) => Err(e),
        Ok(_) => if block_volume_id(s, start) is Err || block_network_link(s, start) is Err
            || block_text(s, start, 0) is Err || block_text(s, start, 1) is Err || block_text(
            s,
            start,
            2,
        ) is Err || block_text(s, start, 3) is Err {
            Err(DecodeError::MalformedLinkInfo)
        } else {
            Ok(
                (
                    LinkInfoView {
                        link_info_flags: Some(block_flags(s, start)),
                        volume_id: block_volume_id(s, start)->Ok_0,
                        common_network_relative_link: block_network_link(s, start)->Ok_0,
                        local_base_path: block_text(s, start, 0)->Ok_0,
                        common_path_suffix: block_text(s, start, 1)->Ok_0,
                        local_base_path_unicode: block_text(s, start, 2)->Ok_0,
                        common_path_suffix_unicode: block_text(s, start, 3)->Ok_0,
                    },
                    start + block_size(s, start),
                ),
            )
        },
    }
}

/// Looks for the zero unit that ends the string at the cursor, among the
/// units that lie wholly before `limit`. The cursor is left where it was.
pub(crate) fn find_terminator(cursor: &mut ByteCursor, limit: usize, encoding: Encoding) -> (r: Option<
    usize,
>)
    requires
        old(cursor).offset() <= limit <= old(cursor).bytes().len(),
    ensures
        final(cursor).bytes() == old(cursor).bytes(),
        final(cursor).offset() == old(cursor).offset(),
        match r {
            Some(i) => old(cursor).offset() <= i < limit && i == terminator_index(
                old(cursor).bytes(),
                old(cursor).offset(),
                limit as int,
                encoding,
            ),
            None => terminator_index(
                old(cursor).bytes(),
                old(cursor).offset(),
                limit as int,
                encoding,
            ) == limit,
        },
{
    let ghost s = cursor.bytes();
    let from: usize = cursor.position();
    let width: usize = encoding.width();
    let mut found: Option<usize> = None;
    let mut searching: bool = true;
    while searching
        invariant
            s == old(cursor).bytes(),
            from == old(cursor).offset(),
            cursor.bytes() == s,
            width == encoding.spec_width(),
            from <= cursor.offset() <= limit <= s.len(),
            searching ==> found is None && terminator_index(s, from as int, limit as int, encoding)
                == terminator_index(s, cursor.offset(), limit as int, encoding),
            !searching ==> match found {
                Some(i) => from <= i < limit && i == terminator_index(
                    s,
                    from as int,
                    limit as int,
                    encoding,
                ),
                None => terminator_index(s, from as int, limit as int, encoding) == limit,
            },
        decreases limit - cursor.offset() + (if searching { 1int } else { 0int }),
    {
        let at: usize = cursor.position();
        if limit - at < width {
            searching = false;
        } else {
            let unit: u16 = match encoding {
                Encoding::Ansi => match cursor.read_u8() {
                    Ok(v) => v as u16,
                    Err(_) => 0,
                },
                Encoding::Utf16Le => match cursor.read_u16() {
                    Ok(v) => v,
                    Err(_) => 0,
                },
            };
            assert(unit == unit_at(s, at as int, encoding));
            if unit == 0 {
                found = Some(at);
                searching = false;
            }
        }
    }
    let _ = cursor.seek_absolute(from);
    found
}

/// Decodes the zero-terminated string at `offset` in the block of `size`
/// bytes that starts at `start`, if it is wanted. The cursor is left where it
/// was.
pub(crate) fn decode_located_text(
    cursor: &mut ByteCursor,
    start: usize,
    size: u32,
    wanted: bool,
    offset: u32,
    encoding: Encoding,
) -> (r: Result<Option<String>, DecodeError>)
    requires
        start + size <= old(cursor).bytes().len(),
    ensures
        final(cursor).bytes() == old(cursor).bytes(),
        final(cursor).offset() == old(cursor).offset(),
        match r {
            Ok(text) => located_text(old(cursor).bytes(), start as int, size, wanted, offset, encoding)
                == Ok::<Option<Seq<char>>, DecodeError>(text_view(text)),
            Err(e) => located_text(old(cursor).bytes(), start as int, size, wanted, offset, encoding)
                == Err::<Option<Seq<char>>, DecodeError>(e),
        },
{
    if !wanted {
        return Ok(None);
    }
    if offset >= size {
        return Err(DecodeError::MalformedLinkInfo);
    }
    let back: usize = cursor.position();
    let from: usize = start + offset as usize;
    let limit: usize = start + size as usize;
    let _ = cursor.seek_absolute(from);
    let r = match find_terminator(cursor, limit, encoding) {
        None => Err(DecodeError::MalformedLinkInfo),
        Some(end) => match cursor.read_fixed_bytes(end - from) {
            Ok(taken) => Ok(Some(decode_text(taken.as_slice(), encoding))),
            Err(e) => Err(DecodeError::MalformedLinkInfo),
        },
    };
    let _ = cursor.seek_absolute(back);
    r
}

/// Decodes the volume record at `offset` in the block of `size` bytes that
/// starts at `start`, if it is wanted. The cursor is left where it was.
pub(crate) fn decode_located_volume_id(
    cursor: &mut ByteCursor,
    start: usize,
    size: u32,
    wanted: bool,
    offset: u32,
) -> (r: Result<Option<VolumeId>, DecodeError>)
    requires
        start + size <= old(cursor).bytes().len(),
    ensures
        final(cursor).bytes() == old(cursor).bytes(),
        final(cursor).offset() == old(cursor).offset(),
        r == located_volume_id(old(cursor).bytes(), start as int, size, wanted, offset),
{
    if !wanted {
        return Ok(None);
    }
    if size < VOLUME_ID_SIZE || offset > size - VOLUME_ID_SIZE {
        return Err(DecodeError::MalformedLinkInfo);
    }
    let back: usize = cursor.position();
    let _ = cursor.seek_absolute(start + offset as usize);
    let record_size = match cursor.read_u32() {
        Ok(v) => v,
        Err(e) => { return Err(e); },
    };
    let drive_type = match cursor.read_u32() {
        Ok(v) => v,
        Err(e) => { return Err(e); },
    };
    let drive_serial_number = match cursor.read_u32() {
        Ok(v) => v,
        Err(e) => { return Err(e); },
    };
    let volume_label_offset = match cursor.read_u32() {
        Ok(v) => v,
        Err(e) => { return Err(e); },
    };
    let _ = cursor.seek_absolute(back);
    Ok(Some(VolumeId { size: record_size, drive_type, drive_serial_number, volume_label_offset }))
}

/// Decodes the network record at `offset` in the block of `size` bytes that
/// starts at `start`, if it is wanted. The cursor is left where it was.
pub(crate) fn decode_located_network_link(
    cursor: &mut ByteCursor,
    start: usize,
    size: u32,
    wanted: bool,
    offset: u32,
) -> (r: Result<Option<CommonNetworkRelativeLink>, DecodeError>)
    requires
        start + size <= old(cursor).bytes().len(),
    ensures
        final(cursor).bytes() == old(cursor).bytes(),
        final(cursor).offset() == old(cursor).offset(),
        r == located_network_link(old(cursor).bytes(), start as int, size, wanted, offset),
{
    if !wanted {
        return Ok(None);
    }
    if size < NETWORK_LINK_SIZE || offset > size - NETWORK_LINK_SIZE {
        return Err(DecodeError::MalformedLinkInfo);
    }
    let back: usize = cursor.position();
    let _ = cursor.seek_absolute(start + offset as usize);
    let record_size = match cursor.read_u32() {
        Ok(v) => v,
        Err(e) => { return Err(e); },
    };
    let flags = match cursor.read_u32() {
        Ok(v) => v,
        Err(e) => { return Err(e); },
    };
    let net_name_offset = match cursor.read_u32() {
        Ok(v) => v,
        Err(e) => { return Err(e); },
    };
    let device_name_offset = match cursor.read_u32() {
        Ok(v) => v,
        Err(e) => { return Err(e); },
    };
    let network_provider_type = match cursor.read_u32() {
        Ok(v) => v,
        Err(e) => { return Err(e); },
    };
    let _ = cursor.seek_absolute(back);
    Ok(
        Some(
            CommonNetworkRelativeLink {
                size: record_size,
                flags,
                net_name_offset,
                device_name_offset,
                network_provider_type,
            },
        ),
    )
}

/// The sizes, the flags and the offsets that the header of a block holds.
#[derive(Clone, Copy, Debug, PartialEq, Eq)]
pub struct LinkInfoFrame {
    /// The declared size of the block.
    pub size: u32,
    /// The declared size of the header of the block.
    pub header_size: u32,
    /// The flags of the block.
    pub flags: u32,
    /// The offset of the volume record.
    pub volume_id_offset: u32,
    /// The offset of the network record.
    pub common_network_relative_link_offset: u32,
    /// The offset of the local base path.
    pub local_base_path_offset: u32,
    /// The offset of the common path suffix.
    pub common_path_suffix_offset: u32,
    /// The offset of the UTF-16 form of the local base path; zero where the
    /// header is too small to hold it.
    pub local_base_path_offset_unicode: u32,
    /// The offset of the UTF-16 form of the common path suffix; zero where
    /// the header is too small to hold it.
    pub common_path_suffix_offset_unicode: u32,
}

/// The frame of the block that starts at `start`.
pub open spec fn frame_at(s: Seq<u8>, start: int) -> LinkInfoFrame {
    let wide = block_header_size(s, start) >= LINK_INFO_WIDE_HEADER_SIZE;
    LinkInfoFrame {
        size: block_size(s, start),
        header_size: block_header_size(s, start),
        flags: block_flags(s, start),
        volume_id_offset: volume_id_offset(s, start),
        common_network_relative_link_offset: network_link_offset(s, start),
        local_base_path_offset: text_offset(s, start, 0),
        common_path_suffix_offset: text_offset(s, start, 1),
        local_base_path_offset_unicode: if wide {
            text_offset(s, start, 2)
        } else {
            0
        },
        common_path_suffix_offset_unicode: if wide {
            text_offset(s, start, 3)
        } else {
            0
        },
    }
}

/// Reads the header of the block at the cursor and checks its two sizes. The
/// cursor is left where it was.
pub fn read_frame(cursor: &mut ByteCursor) -> (r: Result<LinkInfoFrame, DecodeError>)
    ensures
        final(cursor).bytes() == old(cursor).bytes(),
        final(cursor).offset() == old(cursor).offset(),
        match r {
            Ok(frame) => frame_check(old(cursor).bytes(), old(cursor).offset()) is Ok && frame
                == frame_at(old(cursor).bytes(), old(cursor).offset()),
            Err(e) => frame_check(old(cursor).bytes(), old(cursor).offset()) == Err::<
                (),
                DecodeError,
            >(e),
        },
{
    let start: usize = cursor.position();
    let total: usize = cursor.len();
    if total - start < 8 {
        return Err(DecodeError::TruncatedInput);
    }
    let size = match cursor.read_u32() {
        Ok(v) => v,
        Err(e) => { return Err(e); },
    };
    let header_size = match cursor.read_u32() {
        Ok(v) => v,
        Err(e) => { return Err(e); },
    };
    if size as usize > total - start {
        let _ = cursor.seek_absolute(start);
        return Err(DecodeError::TruncatedInput);
    }
    if header_size < LINK_INFO_HEADER_SIZE || header_size > size {
        let _ = cursor.seek_absolute(start);
        return Err(DecodeError::MalformedLinkInfo);
    }
    let flags = match cursor.read_u32() {
        Ok(v) => v,
        Err(e) => { return Err(e); },
    };
    let volume_id_offset = match cursor.read_u32() {
        Ok(v) => v,
        Err(e) => { return Err(e); },
    };
    let local_base_path_offset = match cursor.read_u32() {
        Ok(v) => v,
        Err(e) => { return Err(e); },
    };
    let common_network_relative_link_offset = match cursor.read_u32() {
        Ok(v) => v,
        Err(e) => { return Err(e); },
    };
    let common_path_suffix_offset = match cursor.read_u32() {
        Ok(v) => v,
        Err(e) => { return Err(e); },
    };
    let mut local_base_path_offset_unicode: u32 = 0;
    let mut common_path_suffix_offset_unicode: u32 = 0;
    if header_size >= LINK_INFO_WIDE_HEADER_SIZE {
        local_base_path_offset_unicode = match cursor.read_u32() {
            Ok(v) => v,
            Err(e) => { return Err(e); },
        };
        common_path_suffix_offset_unicode = match cursor.read_u32() {
            Ok(v) => v,
            Err(e) => { return Err(e); },
        };
    }
    let _ = cursor.seek_absolute(start);
    Ok(
        LinkInfoFrame {
            size,
            header_size,
            flags,
            volume_id_offset,
            common_network_relative_link_offset,
            local_base_path_offset,
            common_path_suffix_offset,
            local_base_path_offset_unicode,
            common_path_suffix_offset_unicode,
        },
    )
}

/// Decodes the link information block at the cursor and moves the cursor to
/// the end of the block as it declares it, whatever padding the block holds.
/// On failure the cursor stays where it was.
pub fn decode_link_info(cursor: &mut ByteCursor) -> (r: Result<LinkInfo, DecodeError>)
    ensures
        final(cursor).bytes() == old(cursor).bytes(),
        match r {
            Ok(info) => parse_link_info(old(cursor).bytes(), old(cursor).offset()) == Ok::<
                (LinkInfoView, int),
                DecodeError,
            >((info@, final(cursor).offset())),
            Err(e) => parse_link_info(old(cursor).bytes(), old(cursor).offset()) == Err::<
                (LinkInfoView, int),
                DecodeError,
            >(e) && final(cursor).offset() == old(cursor).offset(),
        },
{
    let ghost s = cursor.bytes();
    let start: usize = cursor.position();
    let frame = match read_frame(cursor) {
        Ok(v) => v,
        Err(e) => { return Err(e); },
    };
    let size: u32 = frame.size;
    let wide: bool = frame.header_size >= LINK_INFO_WIDE_HEADER_SIZE;
    let local: bool = has_flag(frame.flags, VOLUME_ID_AND_LOCAL_BASE_PATH);
    let remote: bool = has_flag(frame.flags, COMMON_NETWORK_RELATIVE_LINK_AND_PATH_SUFFIX);
    let volume_id = match decode_located_volume_id(
        cursor,
        start,
        size,
        local,
        frame.volume_id_offset,
    ) {
        Ok(v) => v,
        Err(_) => { return Err(DecodeError::MalformedLinkInfo); },
    };
    assert(block_volume_id(s, start as int) == Ok::<Option<VolumeId>, DecodeError>(volume_id));
    let common_network_relative_link = match decode_located_network_link(
        cursor,
        start,
        size,
        remote,
        frame.common_network_relative_link_offset,
    ) {
        Ok(v) => v,
        Err(_) => { return Err(DecodeError::MalformedLinkInfo); },
    };
    assert(block_network_link(s, start as int) == Ok::<
        Option<CommonNetworkRelativeLink>,
        DecodeError,
    >(common_network_relative_link));
    let local_base_path = match decode_located_text(
        cursor,
        start,
        size,
        local,
        frame.local_base_path_offset,
        Encoding::Ansi,
    ) {
        Ok(v) => v,
        Err(_) => { return Err(DecodeError::MalformedLinkInfo); },
    };
    assert(block_text(s, start as int, 0) == Ok::<Option<Seq<char>>, DecodeError>(
        text_view(local_base_path),
    ));
    let common_path_suffix = match decode_located_text(
        cursor,
        start,
        size,
        true,
        frame.common_path_suffix_offset,
        Encoding::Ansi,
    ) {
        Ok(v) => v,
        Err(_) => { return Err(DecodeError::MalformedLinkInfo); },
    };
    assert(block_text(s, start as int, 1) == Ok::<Option<Seq<char>>, DecodeError>(
        text_view(common_path_suffix),
    ));
    let local_base_path_unicode = match decode_located_text(
        cursor,
        start,
        size,
        wide && local && frame.local_base_path_offset_unicode != 0,
        frame.local_base_path_offset_unicode,
        Encoding::Utf16Le,
    ) {
        Ok(v) => v,
        Err(_) => { return Err(DecodeError::MalformedLinkInfo); },
    };
    assert(block_text(s, start as int, 2) == Ok::<Option<Seq<char>>, DecodeError>(
        text_view(local_base_path_unicode),
    ));
    let common_path_suffix_unicode = match decode_located_text(
        cursor,
        start,
        size,
        wide && frame.common_path_suffix_offset_unicode != 0,
        frame.common_path_suffix_offset_unicode,
        Encoding::Utf16Le,
    ) {
        Ok(v) => v,
        Err(_) => { return Err(DecodeError::MalformedLinkInfo); },
    };
    assert(block_text(s, start as int, 3) == Ok::<Option<Seq<char>>, DecodeError>(
        text_view(common_path_suffix_unicode),
    ));
    let _ = cursor.seek_absolute(start + size as usize);
    Ok(
        LinkInfo {
            link_info_flags: Some(frame.flags),
            volume_id,
            common_network_relative_link,
            local_base_path,
            common_path_suffix,
            local_base_path_unicode,
            common_path_suffix_unicode,
        },
    )
}

/// An offset that is looked up and is not smaller than the declared size of
/// the block makes the block `MalformedLinkInfo`: nothing is read at it.
pub proof fn lemma_offset_outside_block(s: Seq<u8>, start: int, k: int)
    requires
        0 <= k < TEXT_COUNT,
        frame_check(s, start) is Ok,
        text_wanted(s, start, k),
        text_offset(s, start, k) >= block_size(s, start),
    ensures
        parse_link_info(s, start) == Err::<(LinkInfoView, int), DecodeError>(
            DecodeError::MalformedLinkInfo,
        ),
{
}

/// A record that is looked up and whose offset is not smaller than the
/// declared size of the block makes the block `MalformedLinkInfo`, and so
/// does one that starts inside the block and ends outside it.
pub proof fn lemma_record_outside_block(s: Seq<u8>, start: int)
    requires
        frame_check(s, start) is Ok,
    ensures
        volume_id_wanted(s, start) && volume_id_offset(s, start) + VOLUME_ID_SIZE > block_size(
            s,
            start,
        ) ==> parse_link_info(s, start) == Err::<(LinkInfoView, int), DecodeError>(
            DecodeError::MalformedLinkInfo,
        ),
        network_link_wanted(s, start) && network_link_offset(s, start) + NETWORK_LINK_SIZE
            > block_size(s, start) ==> parse_link_info(s, start) == Err::<
            (LinkInfoView, int),
            DecodeError,
        >(DecodeError::MalformedLinkInfo),
{
}

/// A string that is decoded lies wholly inside the block: it starts at its
/// offset and its terminator comes before the end of the block.
pub proof fn lemma_text_within_block(s: Seq<u8>, start: int, k: int)
    requires
        0 <= k < TEXT_COUNT,
        0 <= start,
        block_text(s, start, k) matches Ok(Some(_)),
    ensures
        text_offset(s, start, k) < block_size(s, start),
        start + text_offset(s, start, k) <= terminator_index(
            s,
            start + text_offset(s, start, k),
            start + block_size(s, start),
            text_encoding(k),
        ) < start + block_size(s, start),
{
    lemma_terminator_bounds(
        s,
        start + text_offset(s, start, k),
        start + block_size(s, start),
        text_encoding(k),
    );
}

/// The terminator is the first zero unit: where the search finds one, the
/// unit there is zero and lies wholly before the limit, and every unit
/// between the start of the search and it is not zero.
pub proof fn lemma_terminator_is_first_zero(
    s: Seq<u8>,
    from: int,
    limit: int,
    encoding: Encoding,
    steps: nat,
)
    requires
        terminator_index(s, from, limit, encoding) < limit,
    ensures
        unit_at(s, terminator_index(s, from, limit, encoding), encoding) == 0,
        terminator_index(s, from, limit, encoding) + encoding.spec_width() <= limit,
        from + steps * encoding.spec_width() < terminator_index(s, from, limit, encoding)
            ==> unit_at(s, from + steps * encoding.spec_width(), encoding) != 0,
    decreases limit - from,
{
    let width = encoding.spec_width();
    if from + width <= limit && unit_at(s, from, encoding) != 0 {
        lemma_terminator_bounds(s, from + width, limit, encoding);
        if steps > 0 {
            lemma_terminator_is_first_zero(s, from + width, limit, encoding, (steps - 1) as nat);
            assert(from + width + (steps - 1) * width == from + steps * width) by (nonlinear_arith);
        } else {
            lemma_terminator_is_first_zero(s, from + width, limit, encoding, 0);
        }
    }
}

/// The terminator index lies between the start of the search and its limit.
pub proof fn lemma_terminator_bounds(s: Seq<u8>, from: int, limit: int, encoding: Encoding)
    requires
        from <= limit,
    ensures
        from <= terminator_index(s, from, limit, encoding) <= limit,
    decreases limit - from,
{
    if from + encoding.spec_width() <= limit && unit_at(s, from, encoding) != 0 {
        lemma_terminator_bounds(s, from + encoding.spec_width(), limit, encoding);
    }
}

} // verus!
