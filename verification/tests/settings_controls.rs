use alvr_dashboard::dashboard::components::settings_controls::boolean;
use alvr_dashboard::dashboard::components::settings_controls::choice;
use alvr_dashboard::dashboard::components::settings_controls::numeric;
use alvr_dashboard::dashboard::components::settings_controls::presets::Presets;
use alvr_dashboard::dashboard::components::settings_controls::schema::{
    lookup, ChoiceControlType, NamedEntry, NumericGuiType, SchemaNode,
};
use alvr_dashboard::dashboard::components::settings_controls::section;
use alvr_dashboard::dashboard::components::settings_controls::switch;
use alvr_dashboard::dashboard::components::settings_controls::text;
use alvr_dashboard::dashboard::components::settings_controls::{
    set_own_value, set_single_value, NestingInfo, SettingControl,
};
use alvr_dashboard::dashboard::DisplayString;
use alvr_dashboard::request::{DashboardRequest, PathSegment, SettingValue};
use alvr_dashboard::text::{chars_of, to_ascii_lowercase};

fn name(text: &str) -> PathSegment {
    PathSegment::Name(text.to_string())
}

fn root() -> NestingInfo {
    NestingInfo { path: vec![name("session_settings")], indentation_level: 0 }
}

fn strings(pairs: &[(&str, &str)]) -> Vec<(String, String)> {
    pairs.iter().map(|(k, v)| (k.to_string(), v.to_string())).collect()
}

fn entry<T>(id: &str, pairs: &[(&str, &str)], content: T) -> NamedEntry<T> {
    NamedEntry { name: id.to_string(), strings: strings(pairs), content }
}

#[test]
fn variant_names_are_taken_apart_into_words() {
    assert_eq!(choice::get_display_name("HighQuality", &vec![]), "High quality");
    assert_eq!(choice::get_display_name("UltraLowLatency", &vec![]), "Ultra low latency");
    assert_eq!(choice::get_display_name("Udp", &vec![]), "Udp");
    assert_eq!(choice::get_display_name("h264", &vec![]), "h264");
    assert_eq!(choice::get_display_name("X", &vec![]), "X");
    assert_eq!(choice::get_display_name("ÉCOLE", &vec![]), "É c o l e");
    assert_eq!(choice::get_display_name("aÉB", &vec![]), "aÉ b");
    assert_eq!(
        choice::get_display_name("QuarterResolution", &strings(&[("display_name", "1/4 resolution")])),
        "1/4 resolution"
    );
    assert_eq!(choice::get_display_name("", &strings(&[("display_name", "none")])), "none");
}

#[test]
fn setting_names_get_a_capital_and_spaces() {
    assert_eq!(section::get_display_name("render_resolution", &vec![]), "Render resolution");
    assert_eq!(section::get_display_name("use_10bit_encoder", &vec![]), "Use 10bit encoder");
    assert_eq!(section::get_display_name("x", &vec![]), "X");
    assert_eq!(section::get_display_name("ßeta_max", &vec![]), "SSeta max");
    assert_eq!(section::get_display_name("_a", &vec![]), "_a");
    assert_eq!(
        section::get_display_name(
            "preferred_fps",
            &strings(&[("help", "h"), ("display_name", "Preferred FPS"), ("display_name", "no")])
        ),
        "Preferred FPS"
    );
}

#[test]
fn texts_are_found_by_key() {
    let texts = strings(&[("help", "first"), ("notice", "n"), ("help", "second")]);
    assert_eq!(lookup(&texts, "help"), Some(&"first".to_string()));
    assert_eq!(lookup(&texts, "notice"), Some(&"n".to_string()));
    assert_eq!(lookup(&texts, "display_name"), None);
    assert_eq!(lookup(&vec![], "help"), None);
}

#[test]
fn characters_and_lower_case() {
    assert_eq!(chars_of("aß€"), vec!['a', 'ß', '€']);
    assert!(chars_of("").is_empty());
    assert_eq!(to_ascii_lowercase('A'), 'a');
    assert_eq!(to_ascii_lowercase('Z'), 'z');
    assert_eq!(to_ascii_lowercase('a'), 'a');
    assert_eq!(to_ascii_lowercase('@'), '@');
    assert_eq!(to_ascii_lowercase('['), '[');
    assert_eq!(to_ascii_lowercase('É'), 'É');
}

#[test]
fn a_value_is_set_under_its_path() {
    let nesting = NestingInfo { path: vec![name("video"), PathSegment::Index(2)], indentation_level: 1 };
    assert_eq!(
        set_single_value(&nesting, name("enabled"), SettingValue::Bool(true)),
        Some(DashboardRequest::SetSingleValue {
            path: vec![name("video"), PathSegment::Index(2), name("enabled")],
            new_value: SettingValue::Bool(true),
        })
    );
    assert_eq!(
        set_own_value(&nesting, SettingValue::Text("t".to_string())),
        DashboardRequest::SetSingleValue {
            path: vec![name("video"), PathSegment::Index(2)],
            new_value: SettingValue::Text("t".to_string()),
        }
    );
    assert_eq!(
        nesting.child("codec"),
        NestingInfo {
            path: vec![name("video"), PathSegment::Index(2), name("codec")],
            indentation_level: 1
        }
    );
    assert_eq!(nesting.clone(), nesting);
}

#[test]
fn the_text_control_edits_on_focus_and_commits_on_leave() {
    let mut control = text::Control::new(root().child("capture_frame_dir"), "/tmp".to_string());
    assert_eq!(control.default_string, "\"/tmp\"");
    assert_eq!(control.temp_value, None);
    assert_eq!(control.focus_lost(), None);
    control.focus_gained(&"/home".to_string());
    assert_eq!(control.temp_value, Some("/home".to_string()));
    control.temp_value = Some("/home/me".to_string());
    let (request, text) = control.focus_lost().unwrap();
    assert_eq!(text, "/home/me");
    assert_eq!(
        request,
        DashboardRequest::SetSingleValue {
            path: vec![name("session_settings"), name("capture_frame_dir")],
            new_value: SettingValue::Text("/home/me".to_string()),
        }
    );
    assert_eq!(control.temp_value, None);
    assert!(control.can_reset(&"/home/me".to_string()));
    assert!(!control.can_reset(&"/tmp".to_string()));
    assert_eq!(
        control.reset_request(),
        DashboardRequest::SetSingleValue {
            path: vec![name("session_settings"), name("capture_frame_dir")],
            new_value: SettingValue::Text("/tmp".to_string()),
        }
    );
    assert_eq!(text::quote(""), "\"\"");
}

#[test]
fn the_flag_control() {
    let control = boolean::Control::new(root().child("filler_data"), false);
    assert_eq!(control.default_string, "OFF");
    assert_eq!(boolean::on_off_text(true), "ON");
    assert_eq!(
        control.request(true),
        DashboardRequest::SetSingleValue {
            path: vec![name("session_settings"), name("filler_data")],
            new_value: SettingValue::Bool(true),
        }
    );
    assert_eq!(
        control.reset_request(),
        DashboardRequest::SetSingleValue {
            path: vec![name("session_settings"), name("filler_data")],
            new_value: SettingValue::Bool(false),
        }
    );
}

#[test]
fn numbers_are_read_and_written_as_json_does() {
    let mut control =
        numeric::Control::try_new(root().child("bitrate"), "30", None).unwrap();
    assert_eq!(control.default, "30");
    assert_eq!(control.default_string, "\"30\"");
    assert_eq!(control.prev_value, "0");
    assert_eq!(control.prev_string_value, "");
    assert_eq!(control.gui, NumericGuiType::TextBox);
    assert_eq!(control.editing_value, None);

    control.sync(&"25".to_string());
    assert_eq!(control.prev_value, "25");
    assert_eq!(control.prev_string_value, "25");
    control.prev_string_value = "2".to_string();
    control.sync(&"25".to_string());
    assert_eq!(control.prev_string_value, "2");

    assert_eq!(control.focus_lost(), None);
    control.focus_gained();
    assert_eq!(control.editing_value, Some("2".to_string()));
    control.editing_value = Some("1.50".to_string());
    let (request, number) = control.focus_lost().unwrap();
    assert_eq!(number, "1.5");
    assert_eq!(
        request,
        DashboardRequest::SetSingleValue {
            path: vec![name("session_settings"), name("bitrate")],
            new_value: SettingValue::Number("1.5".to_string()),
        }
    );
    assert_eq!(control.editing_value, None);

    control.editing_value = Some("twelve".to_string());
    assert_eq!(control.focus_lost(), None);
    assert_eq!(control.editing_value, None);
    control.editing_value = Some(" 12".to_string());
    assert_eq!(control.focus_lost(), None);
    control.editing_value = Some("1e2".to_string());
    assert_eq!(control.focus_lost().unwrap().1, "100.0");
    control.editing_value = Some("-7".to_string());
    assert_eq!(control.focus_lost().unwrap().1, "-7");

    assert!(control.can_reset(&"25".to_string()));
    assert!(!control.can_reset(&"30".to_string()));
    assert_eq!(
        control.reset_request(),
        DashboardRequest::SetSingleValue {
            path: vec![name("session_settings"), name("bitrate")],
            new_value: SettingValue::Number("30".to_string()),
        }
    );
}

#[test]
fn a_default_that_is_no_number_makes_no_control() {
    assert_eq!(numeric::Control::try_new(root(), "NaN", None), None);
    assert_eq!(numeric::Control::try_new(root(), "", Some(NumericGuiType::Slider)), None);
    let control = numeric::Control::new(root(), "0.750", Some(NumericGuiType::Slider));
    assert_eq!(control.default, "0.75");
    assert_eq!(control.default_string, "\"0.750\"");
    assert_eq!(control.gui, NumericGuiType::Slider);
}

fn sample_schema() -> SchemaNode {
    SchemaNode::Section(vec![
        entry(
            "video",
            &[("help", "Video settings")],
            SchemaNode::Section(vec![
                entry(
                    "codec",
                    &[],
                    SchemaNode::Choice {
                        default: "H264".to_string(),
                        variants: vec![
                            entry("H264", &[("display_name", "h264")], None),
                            entry(
                                "HevcMain",
                                &[],
                                Some(SchemaNode::Boolean { default: true }),
                            ),
                        ],
                        gui: None,
                    },
                ),
                entry(
                    "foveated_rendering",
                    &[("notice", "restart")],
                    SchemaNode::Switch {
                        default_enabled: true,
                        content: Box::new(SchemaNode::Section(vec![entry(
                            "note",
                            &[],
                            SchemaNode::Text { default: "n".to_string() },
                        )])),
                    },
                ),
            ]),
        ),
        entry("extra", &[], SchemaNode::Other),
    ])
}

#[test]
fn controls_mirror_the_settings_tree() {
    let control = SettingControl::new(root(), sample_schema());
    let top = match control {
        SettingControl::Section(c) => c,
        other => panic!("{:?}", other),
    };
    // the top section is not indented
    assert_eq!(top.nesting_info, root());
    assert_eq!(top.entries.len(), 2);
    assert_eq!(
        top.entries[0].id,
        DisplayString { id: "video".to_string(), display: "Video".to_string() }
    );
    assert_eq!(top.entries[0].help, Some("Video settings".to_string()));
    assert_eq!(top.entries[0].notice, None);
    assert_eq!(top.entries[1].id.display, "Extra");
    assert_eq!(top.entries[1].control, SettingControl::Empty);

    let video = match &top.entries[0].control {
        SettingControl::Section(c) => c,
        other => panic!("{:?}", other),
    };
    // a section below the top is moved one step to the right
    assert_eq!(
        video.nesting_info,
        NestingInfo { path: vec![name("session_settings"), name("video")], indentation_level: 1 }
    );
    assert_eq!(video.entries[1].notice, Some("restart".to_string()));
    assert_eq!(video.entries[1].id.display, "Foveated rendering");

    let codec = match &video.entries[0].control {
        SettingControl::Choice(c) => c,
        other => panic!("{:?}", other),
    };
    assert_eq!(codec.default_variant, "H264");
    assert_eq!(codec.gui, ChoiceControlType::ButtonGroup);
    assert_eq!(
        codec.variant_labels,
        vec![
            DisplayString { id: "H264".to_string(), display: "h264".to_string() },
            DisplayString { id: "HevcMain".to_string(), display: "Hevc main".to_string() },
        ]
    );
    assert_eq!(
        codec.nesting_info.path,
        vec![name("session_settings"), name("video"), name("codec")]
    );
    assert_eq!(codec.nesting_info.indentation_level, 1);
    assert_eq!(codec.control_of(&"H264".to_string()), Some(&SettingControl::Empty));
    assert_eq!(codec.control_of(&"Nope".to_string()), None);
    match codec.control_of(&"HevcMain".to_string()) {
        Some(SettingControl::Boolean(flag)) => {
            assert!(flag.default);
            assert_eq!(flag.default_string, "ON");
            assert_eq!(
                flag.nesting_info.path,
                vec![name("session_settings"), name("video"), name("codec"), name("HevcMain")]
            );
        }
        other => panic!("{:?}", other),
    }
    assert_eq!(
        codec.variant_request(&"HevcMain".to_string()),
        Some(DashboardRequest::SetSingleValue {
            path: vec![name("session_settings"), name("video"), name("codec"), name("variant")],
            new_value: SettingValue::Text("HevcMain".to_string()),
        })
    );

    let switch = match &video.entries[1].control {
        SettingControl::Switch(c) => c,
        other => panic!("{:?}", other),
    };
    assert!(switch.default_enabled);
    assert_eq!(switch.default_string, "ON");
    assert!(switch.can_reset(false));
    assert!(!switch.can_reset(true));
    assert_eq!(
        switch.request(false),
        Some(DashboardRequest::SetSingleValue {
            path: vec![
                name("session_settings"),
                name("video"),
                name("foveated_rendering"),
                name("enabled")
            ],
            new_value: SettingValue::Bool(false),
        })
    );
    assert_eq!(
        switch.reset_request(),
        Some(DashboardRequest::SetSingleValue {
            path: vec![
                name("session_settings"),
                name("video"),
                name("foveated_rendering"),
                name("enabled")
            ],
            new_value: SettingValue::Bool(true),
        })
    );
    let inner = match &*switch.control {
        SettingControl::Section(c) => c,
        other => panic!("{:?}", other),
    };
    assert_eq!(inner.nesting_info.indentation_level, 2);
    assert_eq!(
        inner.nesting_info.path,
        vec![name("session_settings"), name("video"), name("foveated_rendering"), name("content")]
    );
    match &inner.entries[0].control {
        SettingControl::Text(t) => {
            assert_eq!(t.default, "n");
            assert_eq!(t.default_string, "\"n\"");
            assert_eq!(t.nesting_info.path.len(), 5);
        }
        other => panic!("{:?}", other),
    }
}

#[test]
fn a_dropdown_stays_a_dropdown() {
    let control = SettingControl::new(
        root(),
        SchemaNode::Choice {
            default: "A".to_string(),
            variants: vec![entry("A", &[], None)],
            gui: Some(ChoiceControlType::Dropdown),
        },
    );
    match control {
        SettingControl::Choice(c) => assert_eq!(c.gui, ChoiceControlType::Dropdown),
        other => panic!("{:?}", other),
    }
    assert_eq!(SettingControl::new(root(), SchemaNode::Other), SettingControl::Empty);
    assert_eq!(Presets, Presets);
}

#[test]
fn each_control_can_be_made_on_its_own() {
    let at = NestingInfo { path: vec![name("session_settings"), name("audio")], indentation_level: 3 };
    let made = section::Control::new(
        at.clone(),
        vec![entry("mute_when_streaming", &[], SchemaNode::Boolean { default: true })],
    );
    assert_eq!(made.nesting_info.indentation_level, 4);
    assert_eq!(made.entries.len(), 1);
    assert_eq!(made.entries[0].id.display, "Mute when streaming");

    let made = choice::Control::new(
        at.clone(),
        "Alsa".to_string(),
        vec![entry("Alsa", &[("display_name", "ALSA")], None), entry("Jack", &[], None)],
        Some(ChoiceControlType::ButtonGroup),
    );
    assert_eq!(made.nesting_info, at);
    assert_eq!(made.default_variant, "Alsa");
    assert_eq!(made.variant_labels[0].display, "ALSA");
    assert_eq!(made.variant_labels[1].display, "Jack");
    assert_eq!(made.variant_controls.len(), 2);

    let made = switch::Control::new(at.clone(), false, SchemaNode::Text { default: String::new() });
    assert_eq!(made.nesting_info, at);
    assert!(!made.default_enabled);
    assert_eq!(made.default_string, "OFF");
    match &*made.control {
        SettingControl::Text(t) => {
            assert_eq!(t.default_string, "\"\"");
            assert_eq!(
                t.nesting_info.path,
                vec![name("session_settings"), name("audio"), name("content")]
            );
        }
        other => panic!("{:?}", other),
    }
}

#[test]
fn the_settings_tab_keeps_the_session_it_is_given() {
    let settings = serde_json::Value::Bool(true);
    let mut tab = alvr_dashboard::dashboard::components::settings::SettingsTab::new(
        7,
        settings.clone(),
        sample_schema(),
    );
    assert_eq!(tab.advanced_grid_id, 7);
    assert_eq!(tab.session_settings_json, settings);
    assert_eq!(tab.root_control, SettingControl::new(root(), sample_schema()));
    tab.update_session(serde_json::Value::Null);
    assert_eq!(tab.session_settings_json, serde_json::Value::Null);
    assert_eq!(tab.advanced_grid_id, 7);
    assert_eq!(tab.root_control, SettingControl::new(root(), sample_schema()));
}
