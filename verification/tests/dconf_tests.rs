use whis_desktop::dconf::portal_shortcut_from_dump;

#[test]
fn scrapes_binding_from_dump_line() {
    let dump = "[org/gnome/settings-daemon/global-shortcuts/whis]\n\
                shortcuts=[('toggle-recording', {'shortcuts': <['<Control><Alt>m']>, 'description': <'Toggle'>})]\n";
    assert_eq!(portal_shortcut_from_dump(dump), Some(String::from("Ctrl+Alt+M")));
}

#[test]
fn dump_without_entry_yields_nothing() {
    assert_eq!(portal_shortcut_from_dump(""), None);
    assert_eq!(portal_shortcut_from_dump("[org/whatever]\nkey=value\n"), None);
}

#[test]
fn line_needs_both_identifier_and_shortcuts_key() {
    let dump = "toggle-recording appears here alone\nshortcuts=<['<Control>x']>\n";
    assert_eq!(portal_shortcut_from_dump(dump), None);
}

#[test]
fn first_extractable_line_wins() {
    let dump = "toggle-recording shortcuts but no value here\n\
                shortcuts=[('toggle-recording', {'shortcuts': <['<Shift>a']>})]\n\
                shortcuts=[('toggle-recording', {'shortcuts': <['<Alt>b']>})]\n";
    assert_eq!(portal_shortcut_from_dump(dump), Some(String::from("Shift+A")));
}

#[test]
fn malformed_brackets_are_passed_over() {
    let dump = "toggle-recording shortcuts <[']>\n\
                shortcuts=[('toggle-recording', {'shortcuts': <['<Super>k']>})]\n";
    assert_eq!(portal_shortcut_from_dump(dump), Some(String::from("Super+K")));
}
