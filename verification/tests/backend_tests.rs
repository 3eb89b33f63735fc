use whis_desktop::backend::{
    backend_name, classify_compositor, compositor_name, detect_backend, get_backend_info,
    parse_portal_version, probe_reports_shortcuts, require_configure_support, select_backend,
    update_needs_restart, CompositorFamily, ShortcutBackend, ShortcutCapability,
};
use whis_desktop::errors::ShortcutError;

#[test]
fn select_x11_uses_native_plugin() {
    assert_eq!(select_backend("x11", false, false), ShortcutBackend::TauriPlugin);
    assert_eq!(select_backend("x11", false, true), ShortcutBackend::TauriPlugin);
    assert_eq!(select_backend("", false, true), ShortcutBackend::TauriPlugin);
}

#[test]
fn select_wayland_with_probe_uses_portal() {
    assert_eq!(select_backend("wayland", false, true), ShortcutBackend::PortalGlobalShortcuts);
    assert_eq!(select_backend("x11", true, true), ShortcutBackend::PortalGlobalShortcuts);
}

#[test]
fn select_wayland_without_probe_steps_down_to_cli() {
    assert_eq!(select_backend("wayland", false, false), ShortcutBackend::CLIFallback);
    assert_eq!(select_backend("", true, false), ShortcutBackend::CLIFallback);
}

#[test]
fn select_is_deterministic_in_its_inputs() {
    for st in ["x11", "wayland", "tty", ""] {
        for wd in [false, true] {
            for pa in [false, true] {
                assert_eq!(select_backend(st, wd, pa), select_backend(st, wd, pa));
            }
        }
    }
}

#[test]
fn detect_backend_reports_compositor() {
    let c = detect_backend("wayland", true, true, String::from("GNOME"));
    assert_eq!(c.backend, ShortcutBackend::PortalGlobalShortcuts);
    assert_eq!(c.compositor, "GNOME");
    let c = detect_backend("x11", false, false, String::from("GNOME"));
    assert_eq!(c.backend, ShortcutBackend::TauriPlugin);
    assert_eq!(c.compositor, "X11");
}

#[test]
fn backend_names_match_ui_expectations() {
    assert_eq!(backend_name(ShortcutBackend::TauriPlugin), "TauriPlugin");
    assert_eq!(backend_name(ShortcutBackend::PortalGlobalShortcuts), "PortalGlobalShortcuts");
    assert_eq!(backend_name(ShortcutBackend::CLIFallback), "CLIFallback");
}

#[test]
fn backend_info_only_portal_carries_version() {
    let cap = ShortcutCapability {
        backend: ShortcutBackend::PortalGlobalShortcuts,
        compositor: String::from("KDE"),
    };
    let info = get_backend_info(cap, 2);
    assert_eq!(info.backend, "PortalGlobalShortcuts");
    assert!(info.requires_restart);
    assert_eq!(info.compositor, "KDE");
    assert_eq!(info.portal_version, 2);

    let cap = ShortcutCapability {
        backend: ShortcutBackend::TauriPlugin,
        compositor: String::from("X11"),
    };
    let info = get_backend_info(cap, 2);
    assert_eq!(info.backend, "TauriPlugin");
    assert!(!info.requires_restart);
    assert_eq!(info.portal_version, 0);
}

#[test]
fn portal_version_parses_property_output() {
    assert_eq!(parse_portal_version("u 1"), 1);
    assert_eq!(parse_portal_version("u 2"), 2);
    assert_eq!(parse_portal_version("u 2\n"), 2);
    assert_eq!(parse_portal_version("  u   42  "), 42);
    assert_eq!(parse_portal_version("u 0012"), 12);
}

#[test]
fn portal_version_yields_zero_on_anything_unexpected() {
    assert_eq!(parse_portal_version(""), 0);
    assert_eq!(parse_portal_version("   "), 0);
    assert_eq!(parse_portal_version("u abc"), 0);
    assert_eq!(parse_portal_version("u 1x"), 0);
    assert_eq!(parse_portal_version("u 99999999999999999999"), 0);
    assert_eq!(parse_portal_version("u 4294967296"), 0);
    assert_eq!(parse_portal_version("u 4294967295"), 4294967295);
}

#[test]
fn configure_dialog_needs_version_two() {
    assert_eq!(require_configure_support(1), Err(ShortcutError::UnsupportedProtocolVersion(1)));
    assert_eq!(require_configure_support(0), Err(ShortcutError::UnsupportedProtocolVersion(0)));
    assert_eq!(require_configure_support(2), Ok(()));
    assert_eq!(require_configure_support(3), Ok(()));
}

#[test]
fn only_native_plugin_updates_without_restart() {
    assert!(!update_needs_restart(ShortcutBackend::TauriPlugin));
    assert!(update_needs_restart(ShortcutBackend::PortalGlobalShortcuts));
    assert!(update_needs_restart(ShortcutBackend::CLIFallback));
}

#[test]
fn compositor_classification_is_case_insensitive() {
    assert_eq!(classify_compositor("GNOME"), CompositorFamily::Gnome);
    assert_eq!(classify_compositor("ubuntu:GNOME"), CompositorFamily::Gnome);
    assert_eq!(classify_compositor("KDE"), CompositorFamily::KdePlasma);
    assert_eq!(classify_compositor("Plasma"), CompositorFamily::KdePlasma);
    assert_eq!(classify_compositor("sway"), CompositorFamily::Sway);
    assert_eq!(classify_compositor("Hyprland"), CompositorFamily::Hyprland);
    assert_eq!(classify_compositor("weston"), CompositorFamily::Other);
}

#[test]
fn probe_checks_for_shortcut_interface() {
    assert!(probe_reports_shortcuts("... org.freedesktop.portal.GlobalShortcuts interface ..."));
    assert!(!probe_reports_shortcuts("... org.freedesktop.portal.Settings ..."));
    assert!(!probe_reports_shortcuts(""));
}

#[test]
fn compositor_name_prefers_current_desktop() {
    assert_eq!(
        compositor_name(Some(String::from("GNOME")), Some(String::from("plasma"))),
        "GNOME"
    );
    assert_eq!(compositor_name(None, Some(String::from("plasma"))), "plasma");
    assert_eq!(compositor_name(None, None), "Unknown");
}
