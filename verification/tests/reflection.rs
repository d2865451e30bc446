use tap_plugin_lnk::error::DecodeError;
use tap_plugin_lnk::filetime::FileTime;
use tap_plugin_lnk::header::ShellLinkHeader;
use tap_plugin_lnk::link_info::{LinkInfo, VolumeId};
use tap_plugin_lnk::lnk::{Lnk, Section};
use tap_plugin_lnk::plugin::{Action, Event, LnkPlugin, PluginError, Results};
use tap_plugin_lnk::reflect::{same_text, text_to_value, time_to_value, Reflect, Value};
use tap_plugin_lnk::string_data::StringData;

fn sample_header() -> ShellLinkHeader {
    ShellLinkHeader {
        signature: 0x4C,
        link_clsid: 0x4600_0000_0000_00C0_0000_0000_0002_1401,
        link_flags: 0,
        file_attributes: 0x8400_0000,
        creation_time: Some(FileTime { ticks: 132_223_104_000_000_000 }),
        access_time: None,
        write_time: Some(FileTime { ticks: 116_444_736_000_000_000 }),
        file_size: 4_000_000_000,
        icon_index: 0,
        show_command: 1,
        hot_key: 0,
        reserved1: 0,
        reserved2: 0,
        reserved3: 0,
    }
}

fn sample_strings() -> StringData {
    StringData {
        name: Some("a link".to_string()),
        relative_path: None,
        working_dir: Some(String::new()),
        command_line_arguments: None,
        icon_location: Some("i.ico".to_string()),
    }
}

fn sample_info() -> LinkInfo {
    LinkInfo {
        link_info_flags: Some(3),
        volume_id: Some(VolumeId {
            size: 17,
            drive_type: 3,
            drive_serial_number: 0xDEAD_BEEF,
            volume_label_offset: 16,
        }),
        common_network_relative_link: None,
        local_base_path: Some("C:\\x".to_string()),
        common_path_suffix: Some("y".to_string()),
        local_base_path_unicode: None,
        common_path_suffix_unicode: None,
    }
}

#[test]
fn header_fields_by_name() {
    let header = sample_header();
    assert_eq!(header.name(), "ShellLinkHeader");
    assert_eq!(
        header.field_names(),
        vec!["created", "modified", "accessed", "attributes", "size"]
    );
    assert_eq!(
        header.field_value("created"),
        Some(Value::DateTime(FileTime { ticks: 132_223_104_000_000_000 }))
    );
    assert_eq!(
        header.field_value("modified"),
        Some(Value::DateTime(FileTime { ticks: 116_444_736_000_000_000 }))
    );
    assert_eq!(header.field_value("accessed"), None);
    assert_eq!(header.field_value("size"), Some(Value::Integer(4_000_000_000)));
    assert_eq!(header.field_value("Size"), None);
    assert_eq!(header.field_value(""), None);
    let mut accessed = header;
    accessed.access_time = Some(FileTime { ticks: 5 });
    assert_eq!(accessed.field_value("accessed"), Some(Value::DateTime(FileTime { ticks: 5 })));
}

#[test]
fn every_listed_header_name_fetches_a_value() {
    let mut header = sample_header();
    header.access_time = Some(FileTime { ticks: 7 });
    let names = header.field_names();
    assert_eq!(names.len(), 5);
    for (i, a) in names.iter().enumerate() {
        assert!(header.field_value(a).is_some());
        for b in names.iter().skip(i + 1) {
            assert_ne!(a, b);
        }
    }
    assert_eq!(header.field_value(names[0]), Some(Value::DateTime(header.creation_time.unwrap())));
    assert_eq!(header.field_value(names[1]), Some(Value::DateTime(header.write_time.unwrap())));
    assert_eq!(header.field_value(names[2]), Some(Value::DateTime(FileTime { ticks: 7 })));
    assert_eq!(header.field_value(names[4]), Some(Value::Integer(4_000_000_000)));
    let other = ShellLinkHeader { link_flags: 0xFF, file_size: 1, ..sample_header() };
    assert_eq!(other.field_names(), names);
}

#[test]
fn link_info_flags_text_has_four_cases() {
    let mut info = sample_info();
    let cases: [(u32, &str); 8] = [
        (0, "(empty)"),
        (1, "VOLUME_ID_AND_LOCAL_BASE_PATH"),
        (2, "COMMON_NETWORK_RELATIVE_LINK_AND_PATH_SUFFIX"),
        (3, "VOLUME_ID_AND_LOCAL_BASE_PATH | COMMON_NETWORK_RELATIVE_LINK_AND_PATH_SUFFIX"),
        (4, "(empty)"),
        (0xFFFF_FFFC, "(empty)"),
        (0x8000_0001, "VOLUME_ID_AND_LOCAL_BASE_PATH"),
        (u32::MAX, "VOLUME_ID_AND_LOCAL_BASE_PATH | COMMON_NETWORK_RELATIVE_LINK_AND_PATH_SUFFIX"),
    ];
    for (bits, text) in cases {
        info.link_info_flags = Some(bits);
        assert_eq!(info.field_value("flags"), Some(Value::String(text.to_string())));
    }
    info.link_info_flags = None;
    assert_eq!(info.field_value("flags"), None);
}

#[test]
fn header_attributes_are_spelled_out() {
    let mut header = sample_header();
    assert_eq!(
        header.field_value("attributes"),
        Some(Value::String("FILE_ATTRIBUTE_READONLY | FILE_ATTRIBUTE_ARCHIVE".to_string()))
    );
    header.file_attributes = 0;
    assert_eq!(header.field_value("attributes"), Some(Value::String("(empty)".to_string())));
    header.file_attributes = 0x0002_0000;
    assert_eq!(
        header.field_value("attributes"),
        Some(Value::String("FILE_ATTRIBUTE_ENCRYPTED".to_string()))
    );
}

#[test]
fn string_data_fields_by_name() {
    let strings = sample_strings();
    assert_eq!(strings.name(), "StringData");
    assert_eq!(
        strings.field_names(),
        vec!["name", "relative_path", "working_dir", "command_line_arguments", "icon_location"]
    );
    assert_eq!(strings.field_value("name"), Some(Value::String("a link".to_string())));
    assert_eq!(strings.field_value("relative_path"), None);
    assert_eq!(strings.field_value("working_dir"), Some(Value::String(String::new())));
    assert_eq!(strings.field_value("command_line_arguments"), None);
    assert_eq!(strings.field_value("icon_location"), Some(Value::String("i.ico".to_string())));
    assert_eq!(strings.field_value("name_string"), None);
    assert_eq!(strings.field_value("nam"), None);
}

#[test]
fn link_info_fields_by_name() {
    let info = sample_info();
    assert_eq!(info.name(), "LinkInfo");
    assert_eq!(
        info.field_names(),
        vec![
            "flags",
            "local_base_path",
            "common_path_suffix",
            "local_base_path_unicode",
            "common_path_suffix_unicode"
        ]
    );
    assert_eq!(
        info.field_value("flags"),
        Some(Value::String(
            "VOLUME_ID_AND_LOCAL_BASE_PATH | COMMON_NETWORK_RELATIVE_LINK_AND_PATH_SUFFIX"
                .to_string()
        ))
    );
    assert_eq!(info.field_value("local_base_path"), Some(Value::String("C:\\x".to_string())));
    assert_eq!(info.field_value("common_path_suffix"), Some(Value::String("y".to_string())));
    assert_eq!(info.field_value("local_base_path_unicode"), None);
    assert_eq!(info.field_value("common_path_suffix_unicode"), None);
    assert_eq!(info.field_value("volume_id"), None);
    let absent = LinkInfo::absent();
    for name in absent.field_names() {
        assert_eq!(absent.field_value(name), None);
    }
    let mut one = sample_info();
    one.link_info_flags = Some(1);
    assert_eq!(
        one.field_value("flags"),
        Some(Value::String("VOLUME_ID_AND_LOCAL_BASE_PATH".to_string()))
    );
}

#[test]
fn link_sections_by_name() {
    let lnk = Lnk::new(sample_header(), sample_strings(), sample_info());
    assert_eq!(*lnk.shell(), sample_header());
    assert_eq!(*lnk.path(), sample_strings());
    assert_eq!(*lnk.info(), sample_info());
    assert_eq!(Lnk::section_names(), vec!["shell", "path", "info"]);
    let names: Vec<&str> = Lnk::section_names()
        .iter()
        .map(|n| lnk.section(n).unwrap().name())
        .collect();
    assert_eq!(names, vec!["ShellLinkHeader", "StringData", "LinkInfo"]);
    assert!(lnk.section("extra_data").is_none());
    assert!(lnk.section("").is_none());
    match lnk.section("path") {
        Some(Section::StringData(strings)) => assert_eq!(*strings, sample_strings()),
        _ => panic!("path is the string data"),
    }
    let shell = lnk.section("shell").unwrap();
    assert_eq!(shell.field_names(), sample_header().field_names());
    assert_eq!(shell.field_value("size"), Some(Value::Integer(4_000_000_000)));
    let info = lnk.section("info").unwrap();
    assert_eq!(info.field_names(), sample_info().field_names());
    assert_eq!(info.field_value("common_path_suffix"), Some(Value::String("y".to_string())));
    assert_eq!(info.field_value("name"), None);
}

#[test]
fn text_comparison_and_conversions() {
    assert!(same_text("abc", "abc"));
    assert!(same_text("", ""));
    assert!(!same_text("abc", "abd"));
    assert!(!same_text("abc", "ab"));
    assert_eq!(text_to_value(&None), None);
    assert_eq!(text_to_value(&Some("x".to_string())), Some(Value::String("x".to_string())));
    assert_eq!(time_to_value(None), None);
    assert_eq!(
        time_to_value(Some(FileTime { ticks: 9 })),
        Some(Value::DateTime(FileTime { ticks: 9 }))
    );
}

#[test]
fn plugin_registration() {
    let plugin = LnkPlugin::default();
    assert_eq!(plugin.name(), "lnk");
    assert_eq!(plugin.category(), "Windows");
    assert_eq!(plugin.description(), "Parse lnk file");
    assert_eq!(Results::default(), Results {});
}

#[test]
fn plugin_answers_each_report() {
    let plugin = LnkPlugin::default();
    assert_eq!(plugin.step(Event::Started), Action::FindNode);
    assert_eq!(plugin.step(Event::NodeFound), Action::MarkAndFetch);
    assert_eq!(plugin.step(Event::NodeMissing), Action::Fail(PluginError::ArgumentNotFound));
    assert_eq!(plugin.step(Event::DataFound), Action::Read);
    assert_eq!(plugin.step(Event::DataMissing), Action::Fail(PluginError::ValueNotFound));
    assert_eq!(plugin.step(Event::DataNotAFile), Action::Fail(PluginError::ValueTypeMismatch));
    assert_eq!(plugin.step(Event::OpenFailed), Action::Fail(PluginError::CannotOpen));
    assert_eq!(plugin.step(Event::ReadFailed), Action::MarkAndFail(PluginError::CannotRead));
}

#[test]
fn plugin_attaches_only_what_decodes() {
    let plugin = LnkPlugin::default();
    let mut good = vec![0u8; 76];
    good[0] = 0x4C;
    let expected = Lnk::from_file(&good).unwrap();
    assert_eq!(plugin.step(Event::Read(good.clone())), Action::Attach(expected, Results {}));
    let mut bad = good.clone();
    bad[1] = 1;
    assert_eq!(
        plugin.step(Event::Read(bad)),
        Action::MarkAndFail(PluginError::Decode(DecodeError::InvalidHeader))
    );
    assert_eq!(
        plugin.step(Event::Read(vec![0x4C, 0, 0, 0, 1])),
        Action::MarkAndFail(PluginError::Decode(DecodeError::TruncatedInput))
    );
}
