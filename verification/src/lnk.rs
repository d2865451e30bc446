//! The decoded shell link as a whole.

use vstd::prelude::*;
use crate::cursor::ByteCursor;
use crate::error::DecodeError;
use crate::extra_data::{decode_extra_data, lemma_zero_tail_has_no_blocks, parse_extra_data};
use crate::header::{
    decode_header, lemma_header_signature, parse_header, spec_has_flag, ShellLinkHeader,
    HAS_ARGUMENTS, HAS_ICON_LOCATION, HAS_LINK_INFO, HAS_LINK_TARGET_ID_LIST, HAS_NAME,
    HAS_RELATIVE_PATH, HAS_WORKING_DIR, HEADER_SIGNATURE, HEADER_SIZE,
};
use crate::id_list::{decode_target_id_list, parse_id_list};
use crate::link_info::{decode_link_info, parse_link_info, LinkInfo, LinkInfoView};
use crate::reflect::{name_views, same_text, Reflect, Value, ValueView};
use crate::string_data::{
    decode_string_data, field_mask, lemma_no_flags_no_strings, parse_string_data, StringData,
    StringDataView, FIELD_COUNT,
};

verus! {

/// A decoded shell link: its header, its strings and its link information.
/// It is built by one successful pass over the bytes and not changed
/// afterwards.
#[derive(Debug, PartialEq, Eq)]
pub struct Lnk {
    shell: ShellLinkHeader,
    path: StringData,
    info: LinkInfo,
}

/// A decoded shell link as a mathematical value.
pub ghost struct LnkView {
    pub shell: ShellLinkHeader,
    pub path: StringDataView,
    pub info: LinkInfoView,
}

impl View for Lnk {
    type V = LnkView;

    closed spec fn view(&self) -> LnkView {
        LnkView { shell: self.shell, path: self.path@, info: self.info@ }
    }
}

/// One of the structures of a link, borrowed from it.
#[derive(Clone, Copy, Debug)]
pub enum Section<'a> {
    Header(&'a ShellLinkHeader),
    StringData(&'a StringData),
    LinkInfo(&'a LinkInfo),
}

/// A structure of a link as a mathematical value.
pub ghost enum SectionView {
    Header(ShellLinkHeader),
    StringData(StringDataView),
    LinkInfo(LinkInfoView),
}

impl<'a> View for Section<'a> {
    type V = SectionView;

    open spec fn view(&self) -> SectionView {
        match self {
            Section::Header(header) => SectionView::Header(**header),
            Section::StringData(strings) => SectionView::StringData(strings@),
            Section::LinkInfo(info) => SectionView::LinkInfo(info@),
        }
    }
}

impl<'a> Reflect for Section<'a> {
    open spec fn spec_name(&self) -> Seq<char> {
        match self {
            Section::Header(header) => header.spec_name(),
            Section::StringData(strings) => strings.spec_name(),
            Section::LinkInfo(info) => info.spec_name(),
        }
    }

    open spec fn spec_field_names(&self) -> Seq<Seq<char>> {
        match self {
            Section::Header(header) => header.spec_field_names(),
            Section::StringData(strings) => strings.spec_field_names(),
            Section::LinkInfo(info) => info.spec_field_names(),
        }
    }

    open spec fn spec_field_value(&self, name: Seq<char>) -> Option<ValueView> {
        match self {
            Section::Header(header) => header.spec_field_value(name),
            Section::StringData(strings) => strings.spec_field_value(name),
            Section::LinkInfo(info) => info.spec_field_value(name),
        }
    }

    fn name(&self) -> (name: &'static str) {
        match self {
            Section::Header(header) => header.name(),
            Section::StringData(strings) => strings.name(),
            Section::LinkInfo(info) => info.name(),
        }
    }

    fn field_names(&self) -> (names: Vec<&'static str>) {
        match self {
            Section::Header(header) => header.field_names(),
            Section::StringData(strings) => strings.field_names(),
            Section::LinkInfo(info) => info.field_names(),
        }
    }

    fn field_value(&self, name: &str) -> (value: Option<Value>) {
        match self {
            Section::Header(header) => header.field_value(name),
            Section::StringData(strings) => strings.field_value(name),
            Section::LinkInfo(info) => info.field_value(name),
        }
    }
}

/// Where the section after the target ID list starts, if the header ends at `at`.
pub open spec fn id_list_section(s: Seq<u8>, header: ShellLinkHeader, at: int) -> Result<
    int,
    DecodeError,
> {
    if header.spec_has_link_target_id_list() {
        parse_id_list(s, at)
    } else {
        Ok(at)
    }
}

/// The link information and where the section after it starts, if the
/// sections before it end at `at`.
pub open spec fn link_info_section(s: Seq<u8>, header: ShellLinkHeader, at: int) -> Result<
    (LinkInfoView, int),
    DecodeError,
> {
    if header.spec_has_link_info() {
        parse_link_info(s, at)
    } else {
        Ok((LinkInfoView::absent(), at))
    }
}

/// What decoding a whole file comes to. The sections are taken in file
/// order: header, target ID list, link information, string data, extra data.
/// The first failure is the result; a link is only handed out if every
/// section decodes.
pub open spec fn parse_lnk(s: Seq<u8>) -> Result<LnkView, DecodeError> {
    match parse_header(s, 0) {
        Err(e) => Err(e),
        Ok(shell) => match id_list_section(s, shell, HEADER_SIZE as int) {
            Err(e) => Err(e),
            Ok(after_ids) => match link_info_section(s, shell, after_ids) {
                Err(e) => Err(e),
                Ok((info, after_info)) => match parse_string_data(s, after_info, shell.link_flags) {
                    Err(e) => Err(e),
                    Ok((path, after_strings)) => match parse_extra_data(s, after_strings) {
                        Err(e) => Err(e),
                        Ok(_) => Ok(LnkView { shell, path, info }),
                    },
                },
            },
        },
    }
}

/// Whether `r` is what decoding `data` comes to.
pub open spec fn decodes_to(data: Seq<u8>, r: Result<Lnk, DecodeError>) -> bool {
    match r {
        Ok(lnk) => parse_lnk(data) == Ok::<LnkView, DecodeError>(lnk@),
        Err(e) => parse_lnk(data) == Err::<LnkView, DecodeError>(e),
    }
}

impl Lnk {
    /// A link made of the three structures.
    pub fn new(shell: ShellLinkHeader, path: StringData, info: LinkInfo) -> (lnk: Lnk)
        ensures
            lnk@ == (LnkView { shell: shell, path: path@, info: info@ }),
    {
        Lnk { shell, path, info }
    }

    /// Decodes the bytes of a whole file.
    pub fn from_file(data: &[u8]) -> (r: Result<Lnk, DecodeError>)
        ensures
            decodes_to(data@, r),
    {
        let mut cursor = ByteCursor::new(data);
        let shell = match decode_header(&mut cursor) {
            Ok(v) => v,
            Err(e) => { return Err(e); },
        };
        if shell.has_link_target_id_list() {
            match decode_target_id_list(&mut cursor) {
                Ok(_) => {},
                Err(e) => { return Err(e); },
            }
        }
        let info = if shell.has_link_info() {
            match decode_link_info(&mut cursor) {
                Ok(v) => v,
                Err(e) => { return Err(e); },
            }
        } else {
            LinkInfo::absent()
        };
        let path = match decode_string_data(&mut cursor, &shell) {
            Ok(v) => v,
            Err(e) => { return Err(e); },
        };
        match decode_extra_data(&mut cursor) {
            Ok(_) => {},
            Err(e) => { return Err(e); },
        }
        Ok(Lnk { shell, path, info })
    }

    /// The header.
    pub fn shell(&self) -> (shell: &ShellLinkHeader)
        ensures
            *shell == self@.shell,
    {
        &self.shell
    }

    /// The strings.
    pub fn path(&self) -> (path: &StringData)
        ensures
            path@ == self@.path,
    {
        &self.path
    }

    /// The link information.
    pub fn info(&self) -> (info: &LinkInfo)
        ensures
            info@ == self@.info,
    {
        &self.info
    }

    /// The names under which the structures of a link are found, in the order
    /// of their declaration.
    pub open spec fn spec_section_names() -> Seq<Seq<char>> {
        seq!["shell"@, "path"@, "info"@]
    }

    /// The structure called `name`, if there is one.
    pub open spec fn spec_section(&self, name: Seq<char>) -> Option<SectionView> {
        if name == "shell"@ {
            Some(SectionView::Header(self@.shell))
        } else if name == "path"@ {
            Some(SectionView::StringData(self@.path))
        } else if name == "info"@ {
            Some(SectionView::LinkInfo(self@.info))
        } else {
            None
        }
    }

    /// The names under which the structures of a link are found, in the order
    /// of their declaration.
    pub fn section_names() -> (names: Vec<&'static str>)
        ensures
            name_views(names@) == Self::spec_section_names(),
    {
        let names = vec!["shell", "path", "info"];
        assert(name_views(names@) =~= Self::spec_section_names());
        names
    }

    /// The structure called `name`, if there is one.
    pub fn section<'a>(&'a self, name: &str) -> (section: Option<Section<'a>>)
        ensures
            match section {
                Some(found) => self.spec_section(name@) == Some(found@),
                None => self.spec_section(name@) is None,
            },
    {
        if same_text(name, "shell") {
            Some(Section::Header(&self.shell))
        } else if same_text(name, "path") {
            Some(Section::StringData(&self.path))
        } else if same_text(name, "info") {
            Some(Section::LinkInfo(&self.info))
        } else {
            None
        }
    }
}

/// Decoding is a function of the bytes: two results for the same buffer
/// agree, field for field if they are links, in the error if they are not.
pub proof fn lemma_decoding_is_deterministic(
    data: Seq<u8>,
    first: Result<Lnk, DecodeError>,
    second: Result<Lnk, DecodeError>,
)
    requires
        decodes_to(data, first),
        decodes_to(data, second),
    ensures
        match (first, second) {
            (Ok(a), Ok(b)) => a@ == b@,
            (Err(a), Err(b)) => a == b,
            _ => false,
        },
{
}

/// A link is only ever decoded from bytes that begin with the signature: the
/// header of every decoded link carries it, and a buffer of at least four
/// bytes in which one of the first four differs from it is `InvalidHeader`.
pub proof fn lemma_signature_decides(data: Seq<u8>)
    ensures
        parse_lnk(data) matches Ok(lnk) ==> lnk.shell.signature == HEADER_SIGNATURE,
        data.len() >= 4 && !(data[0] == 0x4C && data[1] == 0 && data[2] == 0 && data[3] == 0)
            ==> parse_lnk(data) == Err::<LnkView, DecodeError>(DecodeError::InvalidHeader),
{
    lemma_header_signature(data, 0);
}

/// Whether `flags` announce none of the optional sections.
pub open spec fn announces_nothing(flags: u32) -> bool {
    &&& !spec_has_flag(flags, HAS_LINK_TARGET_ID_LIST)
    &&& !spec_has_flag(flags, HAS_LINK_INFO)
    &&& !spec_has_flag(flags, HAS_NAME)
    &&& !spec_has_flag(flags, HAS_RELATIVE_PATH)
    &&& !spec_has_flag(flags, HAS_WORKING_DIR)
    &&& !spec_has_flag(flags, HAS_ARGUMENTS)
    &&& !spec_has_flag(flags, HAS_ICON_LOCATION)
}

/// A valid header that announces no section, followed by nothing but zero
/// bytes, or by nothing at all, decodes to a link without strings and
/// without link information: the walk over the extra data ends at once.
pub proof fn lemma_bare_header_decodes(data: Seq<u8>)
    requires
        parse_header(data, 0) matches Ok(shell) && announces_nothing(shell.link_flags),
        forall|i: int| HEADER_SIZE <= i < data.len() ==> data[i] == 0,
    ensures
        parse_lnk(data) matches Ok(lnk) && lnk.info == LinkInfoView::absent() && (forall|k: int|
            lnk.path.field(k) is None),
{
    let shell = parse_header(data, 0)->Ok_0;
    assert forall|k: int| 0 <= k < FIELD_COUNT implies !spec_has_flag(
        shell.link_flags,
        #[trigger] field_mask(k),
    ) by {}
    lemma_no_flags_no_strings(data, HEADER_SIZE as int, shell.link_flags);
    lemma_zero_tail_has_no_blocks(data, HEADER_SIZE as int);
}

} // verus!
