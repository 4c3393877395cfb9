use handy::utils::{is_kde_plasma, is_kde_wayland, is_wayland, recovery_notice};

#[test]
fn wayland_from_display_or_session_type() {
    assert!(is_wayland(true, None));
    assert!(is_wayland(false, Some("wayland")));
    assert!(is_wayland(false, Some("WayLand")));
    assert!(!is_wayland(false, Some("x11")));
    assert!(!is_wayland(false, None));
}

#[test]
fn kde_from_desktop_or_session_version() {
    assert!(is_kde_plasma(Some("KDE"), false));
    assert!(is_kde_plasma(Some("plasma:kde"), false));
    assert!(!is_kde_plasma(Some("GNOME"), false));
    assert!(is_kde_plasma(None, true));
    assert!(!is_kde_plasma(None, false));
}

#[test]
fn kde_wayland_needs_both() {
    assert!(is_kde_wayland(true, None, Some("KDE"), false));
    assert!(!is_kde_wayland(false, Some("x11"), Some("KDE"), true));
    assert!(!is_kde_wayland(true, None, Some("GNOME"), false));
}

#[test]
fn notice_only_after_a_recovery() {
    assert_eq!(recovery_notice(0), None);
    assert_eq!(
        recovery_notice(2),
        Some(
            "Transcription cancelled. The recording was saved in History and can be retried."
                .to_string()
        )
    );
}
