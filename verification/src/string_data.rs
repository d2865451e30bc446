//! The optional strings that follow the link information.
//!
//! There are five of them, in a fixed order. Each is present exactly when its
//! link flag is set, and each starts where the one before it ends, so they can
//! only be decoded in sequence.

use vstd::prelude::*;
use crate::cursor::{text_field, text_field_end, text_field_fits, ByteCursor};
use crate::error::DecodeError;
use crate::header::{
    has_flag, spec_has_flag, ShellLinkHeader, HAS_ARGUMENTS, HAS_ICON_LOCATION, HAS_NAME,
    HAS_RELATIVE_PATH, HAS_WORKING_DIR, IS_UNICODE,
};
use crate::reflect::{
    lemma_string_field_by_name, string_data_field_names, string_data_field_value,
};
use crate::text::Encoding;

verus! {

/// The number of string fields.
pub const FIELD_COUNT: usize = 5;

/// The decoded strings. A field that the file does not hold is `None`, which
/// is not the same as a field that is present and empty.
#[derive(Debug, PartialEq, Eq)]
pub struct StringData {
    /// The description of the link.
    pub name: Option<String>,
    /// The path of the target relative to the link.
    pub relative_path: Option<String>,
    /// The directory to start the target in.
    pub working_dir: Option<String>,
    /// The arguments handed to the target.
    pub command_line_arguments: Option<String>,
    /// Where the icon is found.
    pub icon_location: Option<String>,
}

/// The decoded strings as mathematical values.
pub ghost struct StringDataView {
    pub name: Option<Seq<char>>,
    pub relative_path: Option<Seq<char>>,
    pub working_dir: Option<Seq<char>>,
    pub command_line_arguments: Option<Seq<char>>,
    pub icon_location: Option<Seq<char>>,
}

/// The characters of an optional string.
pub open spec fn text_view(text: Option<String>) -> Option<Seq<char>> {
    match text {
        Some(t) => Some(t@),
        None => None,
    }
}

impl View for StringData {
    type V = StringDataView;

    open spec fn view(&self) -> StringDataView {
        StringDataView {
            name: text_view(self.name),
            relative_path: text_view(self.relative_path),
            working_dir: text_view(self.working_dir),
            command_line_arguments: text_view(self.command_line_arguments),
            icon_location: text_view(self.icon_location),
        }
    }
}

impl StringDataView {
    /// The field with the given index, in file order.
    pub open spec fn field(&self, k: int) -> Option<Seq<char>> {
        if k == 0 {
            self.name
        } else if k == 1 {
            self.relative_path
        } else if k == 2 {
            self.working_dir
        } else if k == 3 {
            self.command_line_arguments
        } else if k == 4 {
            self.icon_location
        } else {
            None
        }
    }
}

/// The link flag that says whether the field with index `k` is present.
pub open spec fn field_mask(k: int) -> u32 {
    if k == 0 {
        HAS_NAME
    } else if k == 1 {
        HAS_RELATIVE_PATH
    } else if k == 2 {
        HAS_WORKING_DIR
    } else if k == 3 {
        HAS_ARGUMENTS
    } else {
        HAS_ICON_LOCATION
    }
}

/// The encoding that the link flags select for the strings.
pub open spec fn spec_string_encoding(flags: u32) -> Encoding {
    if spec_has_flag(flags, IS_UNICODE) {
        Encoding::Utf16Le
    } else {
        Encoding::Ansi
    }
}

/// The encoding that the link flags select for the strings.
#[verifier::when_used_as_spec(spec_string_encoding)]
pub fn string_encoding(flags: u32) -> (encoding: Encoding)
    ensures
        encoding == spec_string_encoding(flags),
{
    if has_flag(flags, IS_UNICODE) {
        Encoding::Utf16Le
    } else {
        Encoding::Ansi
    }
}

/// Where reading stands after an optional string at `at`: at `at` itself if
/// the string is absent, past the string if it is present and fits.
pub open spec fn optional_text_end(s: Seq<u8>, at: int, present: bool, encoding: Encoding) -> Result<
    int,
    DecodeError,
> {
    if !present {
        Ok(at)
    } else if text_field_fits(s, at, encoding) {
        Ok(text_field_end(s, at, encoding))
    } else {
        Err(DecodeError::TruncatedInput)
    }
}

/// Where the field with index `k` starts, if the string data starts at `at`;
/// with `k` the number of fields, where the string data ends.
pub open spec fn field_start(s: Seq<u8>, at: int, flags: u32, k: nat) -> Result<int, DecodeError>
    decreases k,
{
    if k == 0 {
        Ok(at)
    } else {
        match field_start(s, at, flags, (k - 1) as nat) {
            Ok(p) => optional_text_end(
                s,
                p,
                spec_has_flag(flags, field_mask(k - 1)),
                spec_string_encoding(flags),
            ),
            Err(e) => Err(e),
        }
    }
}

/// The text of the field with index `k`, or `None` if its flag is not set.
pub open spec fn field_text(s: Seq<u8>, at: int, flags: u32, k: nat) -> Option<Seq<char>> {
    match field_start(s, at, flags, k) {
        Ok(p) => if spec_has_flag(flags, field_mask(k as int)) {
            Some(text_field(s, p, spec_string_encoding(flags)))
        } else {
            None
        },
        Err(_) => None,
    }
}

/// What decoding the string data at `at` comes to: the strings and the index
/// of the section after them.
pub open spec fn parse_string_data(s: Seq<u8>, at: int, flags: u32) -> Result<
    (StringDataView, int),
    DecodeError,
> {
    match field_start(s, at, flags, FIELD_COUNT as nat) {
        Ok(end) => Ok(
            (
                StringDataView {
                    name: field_text(s, at, flags, 0),
                    relative_path: field_text(s, at, flags, 1),
                    working_dir: field_text(s, at, flags, 2),
                    command_line_arguments: field_text(s, at, flags, 3),
                    icon_location: field_text(s, at, flags, 4),
                },
                end,
            ),
        ),
        Err(e) => Err(e),
    }
}

/// Decodes one optional string at the cursor. An absent string consumes
/// nothing. On failure the cursor stays where it was.
pub fn decode_optional_text(cursor: &mut ByteCursor, present: bool, encoding: Encoding) -> (r:
    Result<Option<String>, DecodeError>)
    ensures
        final(cursor).bytes() == old(cursor).bytes(),
        match r {
            Ok(text) => optional_text_end(
                old(cursor).bytes(),
                old(cursor).offset(),
                present,
                encoding,
            ) == Ok::<int, DecodeError>(final(cursor).offset()) && text_view(text) == if present {
                Some(text_field(old(cursor).bytes(), old(cursor).offset(), encoding))
            } else {
                None
            },
            Err(e) => optional_text_end(old(cursor).bytes(), old(cursor).offset(), present, encoding)
                == Err::<int, DecodeError>(e) && final(cursor).offset() == old(cursor).offset(),
        },
{
    if present {
        match cursor.read_length_prefixed_string(encoding) {
            Ok(text) => Ok(Some(text)),
            Err(e) => Err(e),
        }
    } else {
        Ok(None)
    }
}

/// Decodes the string data at the cursor, as the header's flags describe it,
/// and moves the cursor past it. On failure the cursor stays where it was.
pub fn decode_string_data(cursor: &mut ByteCursor, header: &ShellLinkHeader) -> (r: Result<
    StringData,
    DecodeError,
>)
    ensures
        final(cursor).bytes() == old(cursor).bytes(),
        match r {
            Ok(strings) => parse_string_data(
                old(cursor).bytes(),
                old(cursor).offset(),
                header.link_flags,
            ) == Ok::<(StringDataView, int), DecodeError>((strings@, final(cursor).offset())),
            Err(e) => parse_string_data(old(cursor).bytes(), old(cursor).offset(), header.link_flags)
                == Err::<(StringDataView, int), DecodeError>(e) && final(cursor).offset() == old(
                cursor,
            ).offset(),
        },
{
    let ghost s = cursor.bytes();
    let start: usize = cursor.position();
    let flags: u32 = header.link_flags;
    let encoding = string_encoding(flags);
    let name = match decode_optional_text(cursor, has_flag(flags, HAS_NAME), encoding) {
        Ok(v) => v,
        Err(e) => {
            proof {
                lemma_failure_is_final(s, start as int, flags, 1, FIELD_COUNT as nat);
            }
            return Err(e);
        },
    };
    assert(field_start(s, start as int, flags, 1) == Ok::<int, DecodeError>(cursor.offset()));
    let relative_path = match decode_optional_text(
        cursor,
        has_flag(flags, HAS_RELATIVE_PATH),
        encoding,
    ) {
        Ok(v) => v,
        Err(e) => {
            proof {
                lemma_failure_is_final(s, start as int, flags, 2, FIELD_COUNT as nat);
            }
            let _ = cursor.seek_absolute(start);
            return Err(e);
        },
    };
    assert(field_start(s, start as int, flags, 2) == Ok::<int, DecodeError>(cursor.offset()));
    let working_dir = match decode_optional_text(
        cursor,
        has_flag(flags, HAS_WORKING_DIR),
        encoding,
    ) {
        Ok(v) => v,
        Err(e) => {
            proof {
                lemma_failure_is_final(s, start as int, flags, 3, FIELD_COUNT as nat);
            }
            let _ = cursor.seek_absolute(start);
            return Err(e);
        },
    };
    assert(field_start(s, start as int, flags, 3) == Ok::<int, DecodeError>(cursor.offset()));
    let command_line_arguments = match decode_optional_text(
        cursor,
        has_flag(flags, HAS_ARGUMENTS),
        encoding,
    ) {
        Ok(v) => v,
        Err(e) => {
            proof {
                lemma_failure_is_final(s, start as int, flags, 4, FIELD_COUNT as nat);
            }
            let _ = cursor.seek_absolute(start);
            return Err(e);
        },
    };
    assert(field_start(s, start as int, flags, 4) == Ok::<int, DecodeError>(cursor.offset()));
    let icon_location = match decode_optional_text(
        cursor,
        has_flag(flags, HAS_ICON_LOCATION),
        encoding,
    ) {
        Ok(v) => v,
        Err(e) => {
            let _ = cursor.seek_absolute(start);
            return Err(e);
        },
    };
    assert(field_start(s, start as int, flags, 5) == Ok::<int, DecodeError>(cursor.offset()));
    Ok(StringData { name, relative_path, working_dir, command_line_arguments, icon_location })
}

/// Once a field fails, every later start fails in the same way.
pub proof fn lemma_failure_is_final(s: Seq<u8>, at: int, flags: u32, k: nat, n: nat)
    requires
        k <= n,
        field_start(s, at, flags, k) is Err,
    ensures
        field_start(s, at, flags, n) == field_start(s, at, flags, k),
    decreases n - k,
{
    if k < n {
        lemma_failure_is_final(s, at, flags, k, (n - 1) as nat);
    }
}

/// A field whose flag is not set is absent from the decoded strings, and the
/// field after it starts where it would have started: nothing is consumed
/// for it.
pub proof fn lemma_unset_field_is_skipped(s: Seq<u8>, at: int, flags: u32, k: nat)
    requires
        k < FIELD_COUNT,
        !spec_has_flag(flags, field_mask(k as int)),
    ensures
        field_start(s, at, flags, k + 1) == field_start(s, at, flags, k),
        parse_string_data(s, at, flags) matches Ok((strings, _)) ==> strings.field(k as int)
            is None,
{
}

/// With none of the five flags set the string data is empty and takes up no
/// bytes.
pub proof fn lemma_no_flags_no_strings(s: Seq<u8>, at: int, flags: u32)
    requires
        forall|k: int| 0 <= k < FIELD_COUNT ==> !spec_has_flag(flags, #[trigger] field_mask(k)),
    ensures
        parse_string_data(s, at, flags) matches Ok((strings, end)) && end == at && (forall|k: int|
            strings.field(k) is None),
{
    reveal_with_fuel(field_start, 6);
    assert(!spec_has_flag(flags, field_mask(0)));
    assert(!spec_has_flag(flags, field_mask(1)));
    assert(!spec_has_flag(flags, field_mask(2)));
    assert(!spec_has_flag(flags, field_mask(3)));
    assert(!spec_has_flag(flags, field_mask(4)));
}

/// A field whose flag is set and whose string fits takes up its count and
/// its characters, no more and no less.
pub proof fn lemma_set_field_is_consumed(s: Seq<u8>, at: int, flags: u32, k: nat)
    requires
        k < FIELD_COUNT,
        spec_has_flag(flags, field_mask(k as int)),
    ensures
        field_start(s, at, flags, k) matches Ok(p) ==> (field_start(s, at, flags, k + 1) matches Ok(
            q,
        ) ==> q == text_field_end(s, p, spec_string_encoding(flags))),
{
}

/// A field whose flag is not set has no value under its name either: fetching
/// it from the decoded strings gives nothing.
pub proof fn lemma_unset_field_has_no_value(s: Seq<u8>, at: int, flags: u32, k: nat)
    requires
        k < FIELD_COUNT,
        !spec_has_flag(flags, field_mask(k as int)),
    ensures
        parse_string_data(s, at, flags) matches Ok((strings, _)) ==> string_data_field_value(
            strings,
            string_data_field_names()[k as int],
        ) is None,
{
    lemma_unset_field_is_skipped(s, at, flags, k);
    if let Ok((strings, _)) = parse_string_data(s, at, flags) {
        lemma_string_field_by_name(strings, k as int);
    }
}

} // verus!
