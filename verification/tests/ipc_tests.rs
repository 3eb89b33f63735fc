use whis_desktop::ipc::{parse_ipc_payload, socket_path, toggle_command_bytes, toggle_command_line};

#[test]
fn exact_command_dispatches() {
    assert!(parse_ipc_payload(b"toggle"));
}

#[test]
fn surrounding_whitespace_is_trimmed() {
    assert!(parse_ipc_payload(b"toggle\n"));
    assert!(parse_ipc_payload(b"  toggle  "));
    assert!(parse_ipc_payload(b"\ttoggle\r\n"));
}

#[test]
fn anything_else_is_ignored() {
    assert!(!parse_ipc_payload(b""));
    assert!(!parse_ipc_payload(b"   "));
    assert!(!parse_ipc_payload(b"TOGGLE"));
    assert!(!parse_ipc_payload(b"toggleX"));
    assert!(!parse_ipc_payload(b"tog gle"));
    assert!(!parse_ipc_payload(b"stop"));
}

#[test]
fn sender_bytes_are_what_the_listener_accepts() {
    let bytes = toggle_command_bytes();
    assert_eq!(bytes, b"toggle".to_vec());
    assert!(parse_ipc_payload(&bytes));
}

#[test]
fn socket_path_follows_runtime_dir_convention() {
    assert_eq!(
        socket_path(Some(String::from("/run/user/1000"))),
        "/run/user/1000/whis-desktop.sock"
    );
    assert_eq!(socket_path(None), "/tmp/whis-desktop.sock");
}

#[test]
fn toggle_command_line_depends_on_installation() {
    assert_eq!(toggle_command_line(false), "whis-desktop --toggle");
    assert_eq!(toggle_command_line(true), "flatpak run ink.whis.Whis --toggle");
}
