//! Uniform access to the fields of the decoded structures by name.
//!
//! Each structure lists the names of its fields in a fixed order and hands
//! out the value of a field by its name. A name that the structure does not
//! know and a field that the file does not hold both give `None`.

use vstd::prelude::*;
use vstd::string::StringExecFns;
use crate::filetime::FileTime;
use crate::flag_text::{
    file_attributes_text, format_file_attributes, format_link_info_flags, link_info_flags_text,
};
use crate::header::ShellLinkHeader;
use crate::link_info::{LinkInfo, LinkInfoView};
use crate::string_data::{StringData, StringDataView};

verus! {

/// The value of a field.
#[derive(Clone, Debug, PartialEq, Eq)]
pub enum Value {
    /// A text.
    String(String),
    /// An unsigned integer.
    Integer(u64),
    /// A point in time.
    DateTime(FileTime),
}

/// The value of a field as a mathematical value.
pub ghost enum ValueView {
    String(Seq<char>),
    Integer(u64),
    DateTime(FileTime),
}

impl View for Value {
    type V = ValueView;

    open spec fn view(&self) -> ValueView {
        match self {
            Value::String(text) => ValueView::String(text@),
            Value::Integer(n) => ValueView::Integer(*n),
            Value::DateTime(time) => ValueView::DateTime(*time),
        }
    }
}

/// An optional value as a mathematical value.
pub open spec fn value_view(value: Option<Value>) -> Option<ValueView> {
    match value {
        Some(v) => Some(v@),
        None => None,
    }
}

/// The text value of an optional text.
pub open spec fn text_value(text: Option<Seq<char>>) -> Option<ValueView> {
    match text {
        Some(t) => Some(ValueView::String(t)),
        None => None,
    }
}

/// The time value of an optional time.
pub open spec fn time_value(time: Option<FileTime>) -> Option<ValueView> {
    match time {
        Some(t) => Some(ValueView::DateTime(t)),
        None => None,
    }
}

/// The characters of each name of a list.
pub open spec fn name_views(names: Seq<&'static str>) -> Seq<Seq<char>> {
    names.map_values(|n: &'static str| n@)
}

/// Whether two strings hold the same characters.
pub fn same_text(a: &str, b: &str) -> (same: bool)
    ensures
        same == (a@ == b@),
{
    String::from_str(a) == String::from_str(b)
}

/// A copy of an optional text as a value.
pub fn text_to_value(text: &Option<String>) -> (value: Option<Value>)
    ensures
        value_view(value) == text_value(crate::string_data::text_view(*text)),
{
    match text {
        Some(t) => Some(Value::String(t.clone())),
        None => None,
    }
}

/// An optional time as a value.
pub fn time_to_value(time: Option<FileTime>) -> (value: Option<Value>)
    ensures
        value_view(value) == time_value(time),
{
    match time {
        Some(t) => Some(Value::DateTime(t)),
        None => None,
    }
}

/// A structure whose fields can be listed and fetched by name.
pub trait Reflect {
    /// The name of the kind of structure.
    spec fn spec_name(&self) -> Seq<char>;

    /// The names of the fields, in the order of their declaration.
    spec fn spec_field_names(&self) -> Seq<Seq<char>>;

    /// The value of the field called `name`; `None` if there is no such field
    /// or the field holds nothing.
    spec fn spec_field_value(&self, name: Seq<char>) -> Option<ValueView>;

    /// The name of the kind of structure.
    fn name(&self) -> (name: &'static str)
        ensures
            name@ == self.spec_name(),
    ;

    /// The names of the fields, in the order of their declaration.
    fn field_names(&self) -> (names: Vec<&'static str>)
        ensures
            name_views(names@) == self.spec_field_names(),
    ;

    /// The value of the field called `name`; `None` if there is no such field
    /// or the field holds nothing.
    fn field_value(&self, name: &str) -> (value: Option<Value>)
        ensures
            value_view(value) == self.spec_field_value(name@),
    ;
}

/// The value of a field of the header, by name.
pub open spec fn header_field_value(header: ShellLinkHeader, name: Seq<char>) -> Option<ValueView> {
    if name == "created"@ {
        time_value(header.creation_time)
    } else if name == "modified"@ {
        time_value(header.write_time)
    } else if name == "accessed"@ {
        time_value(header.access_time)
    } else if name == "attributes"@ {
        Some(ValueView::String(file_attributes_text(header.file_attributes)))
    } else if name == "size"@ {
        Some(ValueView::Integer(header.file_size as u64))
    } else {
        None
    }
}

/// The names of the fields of the header, in the order of their declaration.
pub open spec fn header_field_names() -> Seq<Seq<char>> {
    seq!["created"@, "modified"@, "accessed"@, "attributes"@, "size"@]
}

/// The value of the field of the header with index `k`, in the order of the
/// names: the three times, the text of the attributes, the size.
pub open spec fn header_field(header: ShellLinkHeader, k: int) -> Option<ValueView> {
    if k == 0 {
        time_value(header.creation_time)
    } else if k == 1 {
        time_value(header.write_time)
    } else if k == 2 {
        time_value(header.access_time)
    } else if k == 3 {
        Some(ValueView::String(file_attributes_text(header.file_attributes)))
    } else if k == 4 {
        Some(ValueView::Integer(header.file_size as u64))
    } else {
        None
    }
}

impl Reflect for ShellLinkHeader {
    open spec fn spec_name(&self) -> Seq<char> {
        "ShellLinkHeader"@
    }

    open spec fn spec_field_names(&self) -> Seq<Seq<char>> {
        header_field_names()
    }

    open spec fn spec_field_value(&self, name: Seq<char>) -> Option<ValueView> {
        header_field_value(*self, name)
    }

    fn name(&self) -> (name: &'static str) {
        "ShellLinkHeader"
    }

    fn field_names(&self) -> (names: Vec<&'static str>) {
        let names = vec!["created", "modified", "accessed", "attributes", "size"];
        assert(name_views(names@) =~= self.spec_field_names());
        names
    }

    fn field_value(&self, name: &str) -> (value: Option<Value>) {
        if same_text(name, "created") {
            time_to_value(self.creation_time)
        } else if same_text(name, "modified") {
            time_to_value(self.write_time)
        } else if same_text(name, "accessed") {
            time_to_value(self.access_time)
        } else if same_text(name, "attributes") {
            Some(Value::String(format_file_attributes(self.file_attributes)))
        } else if same_text(name, "size") {
            Some(Value::Integer(self.file_size as u64))
        } else {
            None
        }
    }
}

/// The value of a field of the string data, by name.
pub open spec fn string_data_field_value(strings: StringDataView, name: Seq<char>) -> Option<
    ValueView,
> {
    if name == "name"@ {
        text_value(strings.name)
    } else if name == "relative_path"@ {
        text_value(strings.relative_path)
    } else if name == "working_dir"@ {
        text_value(strings.working_dir)
    } else if name == "command_line_arguments"@ {
        text_value(strings.command_line_arguments)
    } else if name == "icon_location"@ {
        text_value(strings.icon_location)
    } else {
        None
    }
}

/// The names of the fields of the string data, in file order.
pub open spec fn string_data_field_names() -> Seq<Seq<char>> {
    seq![
        "name"@,
        "relative_path"@,
        "working_dir"@,
        "command_line_arguments"@,
        "icon_location"@,
    ]
}

impl Reflect for StringData {
    open spec fn spec_name(&self) -> Seq<char> {
        "StringData"@
    }

    open spec fn spec_field_names(&self) -> Seq<Seq<char>> {
        string_data_field_names()
    }

    open spec fn spec_field_value(&self, name: Seq<char>) -> Option<ValueView> {
        string_data_field_value(self@, name)
    }

    fn name(&self) -> (name: &'static str) {
        "StringData"
    }

    fn field_names(&self) -> (names: Vec<&'static str>) {
        let names = vec![
            "name",
            "relative_path",
            "working_dir",
            "command_line_arguments",
            "icon_location",
        ];
        assert(name_views(names@) =~= self.spec_field_names());
        names
    }

    fn field_value(&self, name: &str) -> (value: Option<Value>) {
        if same_text(name, "name") {
            text_to_value(&self.name)
        } else if same_text(name, "relative_path") {
            text_to_value(&self.relative_path)
        } else if same_text(name, "working_dir") {
            text_to_value(&self.working_dir)
        } else if same_text(name, "command_line_arguments") {
            text_to_value(&self.command_line_arguments)
        } else if same_text(name, "icon_location") {
            text_to_value(&self.icon_location)
        } else {
            None
        }
    }
}

/// The value of a field of the link information, by name.
pub open spec fn link_info_field_value(info: LinkInfoView, name: Seq<char>) -> Option<ValueView> {
    if name == "flags"@ {
        match info.link_info_flags {
            Some(bits) => Some(ValueView::String(link_info_flags_text(bits))),
            None => None,
        }
    } else if name == "local_base_path"@ {
        text_value(info.local_base_path)
    } else if name == "common_path_suffix"@ {
        text_value(info.common_path_suffix)
    } else if name == "local_base_path_unicode"@ {
        text_value(info.local_base_path_unicode)
    } else if name == "common_path_suffix_unicode"@ {
        text_value(info.common_path_suffix_unicode)
    } else {
        None
    }
}

/// The names of the fields of the link information, in the order of their
/// declaration.
pub open spec fn link_info_field_names() -> Seq<Seq<char>> {
    seq![
        "flags"@,
        "local_base_path"@,
        "common_path_suffix"@,
        "local_base_path_unicode"@,
        "common_path_suffix_unicode"@,
    ]
}

/// The value of the field of the link information with index `k`, in the
/// order of the names: the text of the flags and the four strings.
pub open spec fn link_info_field(info: LinkInfoView, k: int) -> Option<ValueView> {
    if k == 0 {
        match info.link_info_flags {
            Some(bits) => Some(ValueView::String(link_info_flags_text(bits))),
            None => None,
        }
    } else if k == 1 {
        text_value(info.local_base_path)
    } else if k == 2 {
        text_value(info.common_path_suffix)
    } else if k == 3 {
        text_value(info.local_base_path_unicode)
    } else if k == 4 {
        text_value(info.common_path_suffix_unicode)
    } else {
        None
    }
}

impl Reflect for LinkInfo {
    open spec fn spec_name(&self) -> Seq<char> {
        "LinkInfo"@
    }

    open spec fn spec_field_names(&self) -> Seq<Seq<char>> {
        link_info_field_names()
    }

    open spec fn spec_field_value(&self, name: Seq<char>) -> Option<ValueView> {
        link_info_field_value(self@, name)
    }

    fn name(&self) -> (name: &'static str) {
        "LinkInfo"
    }

    fn field_names(&self) -> (names: Vec<&'static str>) {
        let names = vec![
            "flags",
            "local_base_path",
            "common_path_suffix",
            "local_base_path_unicode",
            "common_path_suffix_unicode",
        ];
        assert(name_views(names@) =~= self.spec_field_names());
        names
    }

    fn field_value(&self, name: &str) -> (value: Option<Value>) {
        if same_text(name, "flags") {
            match self.link_info_flags {
                Some(bits) => Some(Value::String(format_link_info_flags(bits))),
                None => None,
            }
        } else if same_text(name, "local_base_path") {
            text_to_value(&self.local_base_path)
        } else if same_text(name, "common_path_suffix") {
            text_to_value(&self.common_path_suffix)
        } else if same_text(name, "local_base_path_unicode") {
            text_to_value(&self.local_base_path_unicode)
        } else if same_text(name, "common_path_suffix_unicode") {
            text_to_value(&self.common_path_suffix_unicode)
        } else {
            None
        }
    }
}

/// Whether `name` is one of the five names of the string data.
pub open spec fn is_string_data_field(name: Seq<char>) -> bool {
    exists|k: int| 0 <= k < 5 && string_data_field_names()[k] == name
}

/// The five names of the string data differ from one another, so that each
/// fetches its own field: the value under name `k` is field `k`.
pub proof fn lemma_string_field_by_name(strings: StringDataView, k: int)
    requires
        0 <= k < 5,
    ensures
        string_data_field_value(strings, string_data_field_names()[k]) == text_value(
            strings.field(k),
        ),
{
    reveal_strlit("name");
    reveal_strlit("relative_path");
    reveal_strlit("working_dir");
    reveal_strlit("command_line_arguments");
    reveal_strlit("icon_location");
    assert("name"@.len() == 4);
    assert("relative_path"@.len() == 13);
    assert("working_dir"@.len() == 11);
    assert("command_line_arguments"@.len() == 22);
    assert("icon_location"@.len() == 13);
    assert("relative_path"@[0] == 'r');
    assert("icon_location"@[0] == 'i');
}

/// A name that the string data does not list fetches nothing.
pub proof fn lemma_unknown_string_field(strings: StringDataView, name: Seq<char>)
    requires
        !is_string_data_field(name),
    ensures
        string_data_field_value(strings, name) is None,
{
    assert(string_data_field_names()[0] != name);
    assert(string_data_field_names()[1] != name);
    assert(string_data_field_names()[2] != name);
    assert(string_data_field_names()[3] != name);
    assert(string_data_field_names()[4] != name);
}

/// The five names of the header differ from one another.
pub proof fn lemma_header_names_differ(i: int, j: int)
    requires
        0 <= i < j < 5,
    ensures
        header_field_names()[i] != header_field_names()[j],
{
    reveal_strlit("created");
    reveal_strlit("modified");
    reveal_strlit("accessed");
    reveal_strlit("attributes");
    reveal_strlit("size");
    assert("created"@.len() == 7);
    assert("modified"@.len() == 8);
    assert("accessed"@.len() == 8);
    assert("attributes"@.len() == 10);
    assert("size"@.len() == 4);
    assert("modified"@[0] == 'm');
    assert("accessed"@[0] == 'a');
}

/// Each listed name of the header fetches the field at its position: the
/// value under name `k` is field `k`.
pub proof fn lemma_header_field_by_name(header: ShellLinkHeader, k: int)
    requires
        0 <= k < 5,
    ensures
        header_field_value(header, header_field_names()[k]) == header_field(header, k),
{
    if k > 0 {
        lemma_header_names_differ(0, k);
    }
    if k > 1 {
        lemma_header_names_differ(1, k);
    }
    if k > 2 {
        lemma_header_names_differ(2, k);
    }
    if k > 3 {
        lemma_header_names_differ(3, k);
    }
}

/// In a header whose three times are recorded, every listed name fetches a
/// value.
pub proof fn lemma_header_names_fetch_values(header: ShellLinkHeader, k: int)
    requires
        0 <= k < 5,
        header.creation_time is Some,
        header.write_time is Some,
        header.access_time is Some,
    ensures
        header_field_value(header, header_field_names()[k]) is Some,
{
    lemma_header_field_by_name(header, k);
}

/// Each listed name of the link information fetches the field at its
/// position: the value under name `k` is field `k`.
pub proof fn lemma_link_info_field_by_name(info: LinkInfoView, k: int)
    requires
        0 <= k < 5,
    ensures
        link_info_field_value(info, link_info_field_names()[k]) == link_info_field(info, k),
{
    reveal_strlit("flags");
    reveal_strlit("local_base_path");
    reveal_strlit("common_path_suffix");
    reveal_strlit("local_base_path_unicode");
    reveal_strlit("common_path_suffix_unicode");
    assert("flags"@.len() == 5);
    assert("local_base_path"@.len() == 15);
    assert("common_path_suffix"@.len() == 18);
    assert("local_base_path_unicode"@.len() == 23);
    assert("common_path_suffix_unicode"@.len() == 26);
}

} // verus!
