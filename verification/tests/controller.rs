use std::collections::HashMap;

use scf_next::image::{image_data_url, image_mime, mime_of_extension_lowercased};
use scf_next::modes::{detect_mode, format_id, hardware_id_pairs, match_id};
use scf_next::resolve::resolve_controller_def;
use scf_next::scan::{controller_bases, icon_file, listing_kind, make_controller_entry};
use scf_next::state::LoadedDef;
use scf_next::toml_doc::{set_controller_color, ColorSaveError};
use scf_next::types::{
    default_hold_ms, default_paint, default_paint_color, default_transparency, default_travel,
    ButtonDefaults, ControllerDef, ControllerInfo, InputDef, ModeDef, RawButtonDef,
    RawControllerDef,
};

fn info(vendor: Option<&str>, product: Option<&str>) -> ControllerInfo {
    ControllerInfo {
        name: "My Controller".to_string(),
        base: "images/Base.webp".to_string(),
        icon: "images/Icon.webp".to_string(),
        paint_hold_ms: default_hold_ms(),
        color: default_paint_color(),
        vendor: vendor.map(|s| s.to_string()),
        product: product.map(|s| s.to_string()),
    }
}

fn raw_button(id: &str) -> RawButtonDef {
    RawButtonDef {
        id: id.to_string(),
        image: None,
        image_up: None,
        image_down: None,
        input: None,
        travel: None,
        paint: None,
        transparency: None,
        capsense: None,
        reference: None,
        pad_size_x: None,
        pad_size_y: None,
        pad_angle: None,
        pad_shape: None,
        pad_center_x: None,
        pad_center_y: None,
        pad_sensitivity: None,
    }
}

fn mode(name: &str, vendor: Option<&str>, product: Option<&str>) -> ModeDef {
    ModeDef {
        name: name.to_string(),
        vendor: vendor.map(|s| s.to_string()),
        product: product.map(|s| s.to_string()),
    }
}

fn raw_def(buttons: Vec<RawButtonDef>, modes: Vec<ModeDef>) -> RawControllerDef {
    RawControllerDef {
        controller: info(None, None),
        defaults: ButtonDefaults::default(),
        buttons,
        modes,
        mode_overrides: HashMap::new(),
    }
}

#[test]
fn defaults_have_documented_values() {
    assert_eq!(default_hold_ms(), 100);
    assert_eq!(default_paint_color(), "#00c8ff");
    assert_eq!(default_paint(), "standard");
    assert_eq!(f32::from_bits(default_travel()), 15.0);
    assert_eq!(f32::from_bits(default_transparency()), 1.0);
    let d = ButtonDefaults::default();
    assert_eq!(d.paint, "standard");
    assert_eq!(f32::from_bits(d.travel), 15.0);
}

#[test]
fn button_without_reference_gets_defaults() {
    let mut b = raw_button("a");
    b.image = Some("images/Buttons/A.webp".to_string());
    b.input = Some(InputDef::Button { index: 0 });
    let def = resolve_controller_def(raw_def(vec![b], vec![]));
    let a = &def.buttons[0];
    assert_eq!(a.id, "a");
    assert_eq!(a.image, "images/Buttons/A.webp");
    assert!(matches!(a.input, InputDef::Button { index: 0 }));
    assert_eq!(f32::from_bits(a.travel), 15.0);
    assert_eq!(a.paint, "standard");
    assert_eq!(f32::from_bits(a.transparency), 1.0);
    assert!(a.reference.is_none());
}

#[test]
fn missing_image_and_input_default_to_empty_and_none() {
    let def = resolve_controller_def(raw_def(vec![raw_button("deco")], vec![]));
    assert_eq!(def.buttons[0].image, "");
    assert!(matches!(def.buttons[0].input, InputDef::Unbound));
}

#[test]
fn reference_inherits_image_but_not_paint() {
    // The wiki's example: `lt` refers to `lp`.
    let mut lp = raw_button("lp");
    lp.image = Some("images/Buttons/LP.webp".to_string());
    lp.input = Some(InputDef::Touchpad { index: 0, press_button: Some(20) });
    lp.paint = Some("progressive".to_string());
    lp.pad_size_y = Some(100.0f32.to_bits());
    let mut lt = raw_button("lt");
    lt.reference = Some("lp".to_string());
    lt.input = Some(InputDef::Touchpad { index: 0, press_button: None });
    lt.paint = Some("trackpad".to_string());
    lt.pad_size_x = Some(187.0f32.to_bits());
    lt.pad_center_x = Some(260.0f32.to_bits());
    let def = resolve_controller_def(raw_def(vec![lp, lt], vec![]));
    let lt = &def.buttons[1];
    assert_eq!(lt.image, "images/Buttons/LP.webp");
    assert!(matches!(lt.input, InputDef::Touchpad { index: 0, press_button: None }));
    assert_eq!(lt.paint, "trackpad");
    assert_eq!(lt.pad_size_x.map(f32::from_bits), Some(187.0));
    assert_eq!(lt.pad_size_y.map(f32::from_bits), Some(100.0));
    assert_eq!(lt.pad_center_x.map(f32::from_bits), Some(260.0));
    assert_eq!(lt.reference.as_deref(), Some("lp"));
}

#[test]
fn reference_does_not_inherit_paint_or_transparency_or_capsense() {
    let mut src = raw_button("src");
    src.paint = Some("inverse".to_string());
    src.transparency = Some(0.5f32.to_bits());
    src.capsense = Some(2);
    src.travel = Some(20.0f32.to_bits());
    let mut r = raw_button("r");
    r.reference = Some("src".to_string());
    let def = resolve_controller_def(raw_def(vec![src, r], vec![]));
    let r = &def.buttons[1];
    assert_eq!(r.paint, "standard");
    assert_eq!(f32::from_bits(r.transparency), 1.0);
    assert_eq!(r.capsense, None);
    assert_eq!(f32::from_bits(r.travel), 20.0);
}

#[test]
fn reference_to_unknown_id_changes_nothing() {
    let mut r = raw_button("r");
    r.reference = Some("nope".to_string());
    let def = resolve_controller_def(raw_def(vec![r], vec![]));
    assert_eq!(def.buttons[0].image, "");
    assert_eq!(def.buttons[0].reference.as_deref(), Some("nope"));
}

#[test]
fn reference_follows_the_last_button_with_the_id() {
    let mut first = raw_button("x");
    first.image = Some("first.webp".to_string());
    let mut second = raw_button("x");
    second.image = Some("second.webp".to_string());
    let mut r = raw_button("r");
    r.reference = Some("x".to_string());
    let def = resolve_controller_def(raw_def(vec![first, second, r], vec![]));
    assert_eq!(def.buttons[2].image, "second.webp");
}

#[test]
fn chained_references_resolve_in_file_order() {
    // c -> b -> a: b is resolved before c reads it.
    let mut a = raw_button("a");
    a.image = Some("a.webp".to_string());
    let mut b = raw_button("b");
    b.reference = Some("a".to_string());
    let mut c = raw_button("c");
    c.reference = Some("b".to_string());
    let def = resolve_controller_def(raw_def(vec![a, b, c], vec![]));
    assert_eq!(def.buttons[1].image, "a.webp");
    assert_eq!(def.buttons[2].image, "a.webp");
    // a -> b -> c with the target later: a reads b before b inherits.
    let mut a = raw_button("a");
    a.reference = Some("b".to_string());
    let mut b = raw_button("b");
    b.reference = Some("c".to_string());
    let mut c = raw_button("c");
    c.image = Some("c.webp".to_string());
    let def = resolve_controller_def(raw_def(vec![a, b, c], vec![]));
    assert_eq!(def.buttons[0].image, "");
    assert_eq!(def.buttons[1].image, "c.webp");
}

#[test]
fn input_tags_name_each_variant() {
    assert_eq!(InputDef::Button { index: 0 }.tag(), "button");
    assert_eq!(InputDef::Trigger { axis: 4, threshold: None }.tag(), "trigger");
    assert_eq!(InputDef::Stick { axis_x: 0, axis_y: 1, press_button: Some(7) }.tag(), "stick");
    assert_eq!(InputDef::Touchpad { index: 0, press_button: None }.tag(), "touchpad");
    assert_eq!(InputDef::Keyboard { key: 16 }.tag(), "keyboard");
    assert_eq!(InputDef::Mouse { button: 0 }.tag(), "mouse");
    assert_eq!(InputDef::MouseMove.tag(), "mouse_move");
    assert_eq!(InputDef::ScrollWheel.tag(), "scroll_wheel");
    assert_eq!(InputDef::Hat { index: 0, direction: 1 }.tag(), "hat");
    assert_eq!(InputDef::Multi { indices: vec![11, 14] }.tag(), "multi");
    assert_eq!(InputDef::Unbound.tag(), "none");
}

#[test]
fn format_id_is_four_lowercase_hex_digits() {
    assert_eq!(format_id(0x28de), "28de");
    assert_eq!(format_id(0x1304), "1304");
    assert_eq!(format_id(0x7), "0007");
    assert_eq!(format_id(0xABCD), "abcd");
    assert_eq!(format_id(0xffff), "ffff");
}

#[test]
fn match_id_compares_hex_forms() {
    assert!(match_id("057e", "2009", 0x057e, 0x2009));
    assert!(!match_id("057E", "2009", 0x057e, 0x2009));
    assert!(!match_id("057e", "2008", 0x057e, 0x2009));
    assert!(!match_id("57e", "2009", 0x057e, 0x2009));
}

fn def_with_modes(modes: Vec<ModeDef>) -> ControllerDef {
    resolve_controller_def(raw_def(vec![], modes))
}

#[test]
fn detect_mode_picks_first_matching_mode() {
    let def = def_with_modes(vec![
        mode("switch", Some("057e"), Some("2009")),
        mode("xbox", Some("045e"), Some("02e0")),
        mode("xbox2", Some("045e"), Some("02e0")),
    ]);
    assert_eq!(detect_mode(&def, 0x045e, 0x02e0).as_deref(), Some("xbox"));
    assert_eq!(detect_mode(&def, 0x057e, 0x2009).as_deref(), Some("switch"));
    assert_eq!(detect_mode(&def, 0x1234, 0xabcd), None);
}

#[test]
fn detect_mode_skips_modes_without_ids() {
    let def = def_with_modes(vec![
        mode("partial", Some("1234"), None),
        mode("default", Some("1234"), Some("abcd")),
    ]);
    assert_eq!(detect_mode(&def, 0x1234, 0xabcd).as_deref(), Some("default"));
}

#[test]
fn hardware_pairs_join_controller_and_mode_ids() {
    let pairs = hardware_id_pairs(
        &info(Some("28de"), Some("1304")),
        &vec![
            mode("m", Some("0001"), Some("0002")),
            mode("same", Some("28de"), Some("1304")),
            mode("z", Some("ffff"), Some("0001")),
        ],
    );
    assert_eq!(
        pairs,
        vec![
            ("0001".to_string(), "0002".to_string()),
            ("28de".to_string(), "1304".to_string()),
            ("ffff".to_string(), "0001".to_string()),
        ]
    );
    let only = hardware_id_pairs(&info(Some("28de"), Some("1304")), &vec![]);
    assert_eq!(only, vec![("28de".to_string(), "1304".to_string())]);
}

#[test]
fn hardware_pairs_from_modes_are_sorted_and_unique() {
    let modes = vec![
        mode("xbox", Some("045e"), Some("02e0")),
        mode("switch", Some("057e"), Some("2009")),
        mode("half", Some("9999"), None),
        mode("xbox-again", Some("045e"), Some("02e0")),
        mode("other", Some("045e"), Some("0000")),
    ];
    let pairs = hardware_id_pairs(&info(Some("28de"), None), &modes);
    assert_eq!(
        pairs,
        vec![
            ("045e".to_string(), "0000".to_string()),
            ("045e".to_string(), "02e0".to_string()),
            ("057e".to_string(), "2009".to_string()),
        ]
    );
    assert!(hardware_id_pairs(&info(None, None), &vec![]).is_empty());
}

#[test]
fn image_mime_by_extension() {
    assert_eq!(image_mime(Some("png")), "image/png");
    assert_eq!(image_mime(Some("PNG")), "image/png");
    assert_eq!(image_mime(Some("webp")), "image/webp");
    assert_eq!(image_mime(Some("WebP")), "image/webp");
    assert_eq!(image_mime(Some("jpg")), "image/jpeg");
    assert_eq!(image_mime(Some("JPEG")), "image/jpeg");
    assert_eq!(image_mime(Some("gif")), "image/png");
    assert_eq!(image_mime(None), "image/png");
}

#[test]
fn image_data_url_embeds_base64() {
    assert_eq!(image_data_url(Some("webp"), b"hi"), "data:image/webp;base64,aGk=");
    assert_eq!(image_data_url(None, b""), "data:image/png;base64,");
    assert_eq!(image_data_url(Some("JPG"), b"abc"), "data:image/jpeg;base64,YWJj");
    assert_eq!(image_data_url(Some("png"), b"abcd"), "data:image/png;base64,YWJjZA==");
    assert_eq!(image_data_url(Some("png"), &[0xff, 0xfe, 0xfd]), "data:image/png;base64,//79");
}

#[test]
fn set_color_rewrites_existing_color() {
    let text = "[controller]\nname = \"X\"\ncolor = \"#000000\"\n";
    let out = set_controller_color(text, "#e5a50aFF").unwrap();
    assert_eq!(out, "[controller]\nname = \"X\"\ncolor = \"#e5a50aFF\"\n");
}

#[test]
fn set_color_adds_missing_color() {
    let text = "[controller]\nname = \"X\"\n";
    let out = set_controller_color(text, "#112233").unwrap();
    assert!(out.contains("color = \"#112233\""));
    assert!(out.contains("name = \"X\""));
}

#[test]
fn set_color_rejects_bad_toml() {
    assert!(matches!(set_controller_color("[controller", "#fff"), Err(ColorSaveError::Parse(_))));
}

#[test]
fn set_color_rejects_controller_value() {
    assert!(matches!(
        set_controller_color("controller = 5\n", "#fff"),
        Err(ColorSaveError::ControllerNotTable)
    ));
}

#[test]
fn loaded_def_takes_profile_color() {
    let mut raw = raw_def(vec![], vec![]);
    raw.controller.color = "#abcdef".to_string();
    let loaded = LoadedDef::new(resolve_controller_def(raw), Some("xbox".to_string()));
    assert_eq!(loaded.color, "#abcdef");
    assert_eq!(loaded.mode.as_deref(), Some("xbox"));
}

#[test]
fn loaded_profile_is_listed_under_its_controller_name() {
    let mut def = def_with_modes(vec![]);
    def.controller.name = "Pad Pro".to_string();
    let e = make_controller_entry("/c/pad".to_string(), Some("data:x".to_string()), Ok(def))
        .expect("a loaded profile is listed");
    assert_eq!(e.name, "Pad Pro");
    assert_eq!(e.path, "/c/pad");
    assert_eq!(e.icon_data_url.as_deref(), Some("data:x"));
    assert!(e.is_controller);
}

#[test]
fn profile_that_fails_to_load_is_not_listed() {
    let r = make_controller_entry("/c/bad".to_string(), None, Err("parse error".to_string()));
    assert!(r.is_none());
}

#[test]
fn mime_of_lowercased_extension_table() {
    assert_eq!(mime_of_extension_lowercased("webp"), "image/webp");
    assert_eq!(mime_of_extension_lowercased("jpg"), "image/jpeg");
    assert_eq!(mime_of_extension_lowercased("jpeg"), "image/jpeg");
    assert_eq!(mime_of_extension_lowercased("png"), "image/png");
    assert_eq!(mime_of_extension_lowercased("gif"), "image/png");
    assert_eq!(mime_of_extension_lowercased("WEBP"), "image/png");
}

#[test]
fn directories_are_listed_as_profiles_groups_or_not_at_all() {
    assert_eq!(listing_kind(true, true, true), Some(true));
    assert_eq!(listing_kind(true, false, true), None);
    assert_eq!(listing_kind(false, false, true), Some(false));
    assert_eq!(listing_kind(false, false, false), None);
    assert_eq!(icon_file(true), "images/Icon.webp");
    assert_eq!(icon_file(false), "Icon.webp");
}

#[test]
fn set_color_keeps_the_rest_of_the_file() {
    let text = "# profile\n[defaults]\ntravel = 15\n\n[controller]\nname = \"Pad\" # shown\nbase = \"b.webp\"\n";
    let out = set_controller_color(text, "#abcdefFF").unwrap();
    assert_eq!(
        out,
        "# profile\n[defaults]\ntravel = 15\n\n[controller]\nname = \"Pad\" # shown\nbase = \"b.webp\"\ncolor = \"#abcdefFF\"\n"
    );
    let none = set_controller_color("title = \"t\"\n", "#000").unwrap();
    assert!(none.contains("title = \"t\""));
    assert!(none.contains("controller"));
    assert!(none.contains("color = \"#000\""));
}

#[test]
fn controller_bases_add_cwd_once_and_fall_back() {
    let found = vec!["/opt/app/controllers".to_string()];
    assert_eq!(
        controller_bases(found.clone(), Some("/home/u/controllers".to_string()), false, "controllers".to_string()),
        vec!["/opt/app/controllers".to_string(), "/home/u/controllers".to_string()]
    );
    assert_eq!(
        controller_bases(found.clone(), Some("/opt/app/controllers".to_string()), true, "controllers".to_string()),
        found
    );
    assert_eq!(
        controller_bases(Vec::<String>::new(), None, false, "controllers".to_string()),
        vec!["controllers".to_string()]
    );
}
