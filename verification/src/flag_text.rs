//! The names of flag bits, as the `parselnk` crate prints them.

use vstd::prelude::*;
use crate::header::spec_has_flag;
use crate::link_info::{
    COMMON_NETWORK_RELATIVE_LINK_AND_PATH_SUFFIX, VOLUME_ID_AND_LOCAL_BASE_PATH,
};

verus! {

/// The text that `parselnk` prints for the file attributes `bits`.
pub uninterp spec fn file_attributes_text(bits: u32) -> Seq<char>;

/// The text that `parselnk` prints for the link information flags `bits`:
/// the names of the flags that are set, in the order of their bits and
/// joined by a bar, or `(empty)` where neither is set. Bits that are not a
/// flag are left out.
pub open spec fn link_info_flags_text(bits: u32) -> Seq<char> {
    let local = spec_has_flag(bits, VOLUME_ID_AND_LOCAL_BASE_PATH);
    let remote = spec_has_flag(bits, COMMON_NETWORK_RELATIVE_LINK_AND_PATH_SUFFIX);
    if local && remote {
        "VOLUME_ID_AND_LOCAL_BASE_PATH | COMMON_NETWORK_RELATIVE_LINK_AND_PATH_SUFFIX"@
    } else if local {
        "VOLUME_ID_AND_LOCAL_BASE_PATH"@
    } else if remote {
        "COMMON_NETWORK_RELATIVE_LINK_AND_PATH_SUFFIX"@
    } else {
        "(empty)"@
    }
}

/// Formats file attributes with the `Debug` impl of
/// `parselnk::FileAttributeFlags`, made from `bits` by its
/// `from_bits_truncate`. The text depends on `bits` alone; nothing more is
/// claimed of it.
#[verifier::external_body]
pub(crate) fn format_file_attributes(bits: u32) -> (text: String)
    ensures
        text@ == file_attributes_text(bits),
{
    format!("{:?}", parselnk::FileAttributeFlags::from_bits_truncate(bits))
}

/// Formats link information flags with the `Debug` impl of
/// `parselnk::LinkInfoFlags`, made from `bits` by its `from_bits_truncate`.
/// That type has two flags, so the text is one of four, chosen by the two
/// low bits of `bits`: the claim is which of the four it is.
#[verifier::external_body]
pub(crate) fn format_link_info_flags(bits: u32) -> (text: String)
    ensures
        text@ == link_info_flags_text(bits),
{
    format!("{:?}", parselnk::LinkInfoFlags::from_bits_truncate(bits))
}

} // verus!
