use whis_desktop::chord::{chord_display, chord_from_native, convert_gvariant_shortcut, ModKey};

#[test]
fn converts_control_alt_m() {
    assert_eq!(convert_gvariant_shortcut("<Control><Alt>m"), "Ctrl+Alt+M");
}

#[test]
fn converts_every_modifier_token() {
    assert_eq!(convert_gvariant_shortcut("<Control>r"), "Ctrl+R");
    assert_eq!(convert_gvariant_shortcut("<Alt>r"), "Alt+R");
    assert_eq!(convert_gvariant_shortcut("<Shift>r"), "Shift+R");
    assert_eq!(convert_gvariant_shortcut("<Super>r"), "Super+R");
    assert_eq!(convert_gvariant_shortcut("<Shift><Super>f"), "Shift+Super+F");
}

#[test]
fn converts_bare_key_by_upper_casing() {
    assert_eq!(convert_gvariant_shortcut("m"), "M");
    assert_eq!(convert_gvariant_shortcut("F5"), "F5");
}

#[test]
fn multi_character_keys_survive() {
    assert_eq!(convert_gvariant_shortcut("<Control>F5"), "Ctrl+F5");
    assert_eq!(convert_gvariant_shortcut("<Control><Shift>space"), "Ctrl+Shift+SPACE");
}

#[test]
fn unknown_tokens_fall_back_to_upper_casing() {
    assert_eq!(convert_gvariant_shortcut("<Weird>x"), "<WEIRD>X");
    assert_eq!(convert_gvariant_shortcut(""), "");
}

#[test]
fn native_parse_recovers_modifiers_and_key() {
    let c = chord_from_native("<Control><Alt>m").expect("chord");
    assert_eq!(c.mods, vec![ModKey::Control, ModKey::Alt]);
    assert_eq!(c.key, "m");
    assert_eq!(chord_display(&c), "Ctrl+Alt+M");
}

#[test]
fn native_parse_refuses_broken_input() {
    assert!(chord_from_native("<Control>").is_none());
    assert!(chord_from_native("<Control><Alt>").is_none());
    assert!(chord_from_native("<Weird>x").is_none());
    assert!(chord_from_native("").is_none());
    assert!(chord_from_native("<Control>a+b").is_none());
}

#[test]
fn round_trip_keeps_modifier_set_and_normalizes_key() {
    // native -> display -> (conceptually) back: the modifier set is
    // lossless; only the key's case changes.
    let native = "<Super><Shift>q";
    let chord = chord_from_native(native).expect("chord");
    let display = chord_display(&chord);
    assert_eq!(display, "Super+Shift+Q");
    assert_eq!(chord.mods, vec![ModKey::Super, ModKey::Shift]);
    assert_eq!(chord.key.to_uppercase(), "Q");
}
