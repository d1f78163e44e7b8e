use global_hotkey::hotkey::{Code, HotKey, Modifiers};
use std::path::Path;
use whispering::platform::{
    runtime_environment, KeyCode, ModifierKeys, Platform, PlatformHotkey, PlatformRuntime,
    RuntimeEnvironment, StatusSurfaceMode, TraySupport,
};
use whispering::sounds::{sound_file, SoundCue};
use whispering::status::{
    capture_session_anchor, overlay_script, rect_conversion, surface_placement, OverlayKind,
    ScaleSource, SessionAnchor, SurfacePlacement,
};

fn machine_environment(platform: Platform) -> RuntimeEnvironment {
    runtime_environment(
        platform,
        dirs_next::home_dir().map(|p| p.to_string_lossy().into_owned()),
        dirs_next::cache_dir().map(|p| p.to_string_lossy().into_owned()),
        "/tmp".to_string(),
        "x86_64".to_string(),
    )
}

#[test]
fn macos_runtime_uses_menu_bar_style_surface() {
    let environment = machine_environment(Platform::MacOs);
    assert_eq!(environment.platform, Platform::MacOs);
    assert_eq!(
        environment.capabilities.status_surface_mode,
        StatusSurfaceMode::TrayPreferred
    );
    assert_eq!(environment.default_hotkey.label(), "Ctrl+Cmd+M");
}

#[test]
fn linux_runtime_uses_floating_status_surface() {
    let environment = machine_environment(Platform::Linux);
    assert_eq!(environment.platform, Platform::Linux);
    assert_eq!(
        environment.capabilities.status_surface_mode,
        StatusSurfaceMode::FloatingWindow
    );
    assert_eq!(environment.default_hotkey.label(), "Ctrl+Alt+M");
}

#[test]
fn runtime_environment_builds_expected_paths() {
    let environment = machine_environment(Platform::Windows);
    assert!(Path::new(&environment.model_dir).ends_with(".whispering/models"));
    assert!(Path::new(&environment.config_path()).ends_with(".whispering/config.toml"));
    assert!(Path::new(&environment.cache_dir).ends_with("Whispering"));
}

#[test]
fn runtime_environment_falls_back_when_directories_are_unknown() {
    let environment = runtime_environment(
        Platform::Linux,
        None,
        None,
        "/tmp".to_string(),
        "x86_64".to_string(),
    );
    assert_eq!(environment.config_dir, "./.whispering");
    assert_eq!(environment.model_dir, "./.whispering/models");
    assert_eq!(environment.config_path(), "./.whispering/config.toml");
    assert_eq!(environment.cache_dir, "/tmp/Whispering");
    assert_eq!(environment.arch, "x86_64");
    assert_eq!(environment.capabilities.tray_support, TraySupport::Opportunistic);
    assert!(!environment.capabilities.supports_system_sounds);
}

#[test]
fn windows_has_native_tray_without_prompts() {
    let environment = runtime_environment(
        Platform::Windows,
        Some("/home/u".to_string()),
        Some("/home/u/.cache".to_string()),
        "/tmp".to_string(),
        "x86_64".to_string(),
    );
    assert_eq!(environment.config_dir, "/home/u/.whispering");
    assert_eq!(environment.cache_dir, "/home/u/.cache/Whispering");
    assert_eq!(environment.capabilities.tray_support, TraySupport::Native);
    assert_eq!(
        environment.capabilities.status_surface_mode,
        StatusSurfaceMode::TrayPreferred
    );
    assert!(!environment.capabilities.supports_accessibility_prompt);
    assert_eq!(environment.default_hotkey.label(), "Ctrl+Alt+M");
}

#[test]
fn macos_offers_prompts_and_sounds() {
    let environment = runtime_environment(
        Platform::MacOs,
        Some("/Users/u".to_string()),
        None,
        "/tmp".to_string(),
        "aarch64".to_string(),
    );
    assert!(environment.capabilities.supports_accessibility_prompt);
    assert!(environment.capabilities.supports_microphone_prompt);
    assert!(environment.capabilities.supports_system_sounds);
    let modifiers = environment.default_hotkey.modifiers();
    assert!(modifiers.control && modifiers.meta && !modifiers.alt && !modifiers.shift);
    assert_eq!(environment.default_hotkey.code(), KeyCode::KeyM);
}

#[test]
fn hotkeys_match_global_hotkey_ids() {
    let mac = runtime_environment(
        Platform::MacOs,
        None,
        None,
        "/tmp".to_string(),
        "aarch64".to_string(),
    );
    let linux = runtime_environment(
        Platform::Linux,
        None,
        None,
        "/tmp".to_string(),
        "x86_64".to_string(),
    );
    let expected_mac = HotKey::new(Some(Modifiers::CONTROL | Modifiers::META), Code::KeyM);
    let expected_linux = HotKey::new(Some(Modifiers::CONTROL | Modifiers::ALT), Code::KeyM);
    assert_eq!(mac.default_hotkey.hotkey(), expected_mac);
    assert_eq!(linux.default_hotkey.hotkey(), expected_linux);
    assert_eq!(mac.default_hotkey.hotkey().id, (0x48 << 16) | 31);
    let custom = PlatformHotkey::new(
        ModifierKeys { control: false, alt: false, shift: true, meta: false },
        KeyCode::KeyM,
        "Shift+M",
    );
    assert_eq!(
        custom.hotkey(),
        HotKey::new(Some(Modifiers::SHIFT), Code::KeyM)
    );
    assert_eq!(custom.label(), "Shift+M");
}

#[test]
fn platform_names_round_trip() {
    for platform in [Platform::MacOs, Platform::Linux, Platform::Windows] {
        assert_eq!(Platform::from_os_name(platform.as_str()), Some(platform));
    }
    assert_eq!(Platform::MacOs.as_str(), "macos");
    assert_eq!(Platform::from_os_name("freebsd"), None);
    assert_eq!(Platform::from_os_name("linux"), Some(Platform::Linux));
}

#[test]
fn runtime_variant_follows_platform() {
    let environment = runtime_environment(
        Platform::Linux,
        Some("/home/u".to_string()),
        None,
        "/tmp".to_string(),
        "x86_64".to_string(),
    );
    let runtime = PlatformRuntime::for_environment(environment);
    assert!(matches!(runtime, PlatformRuntime::Linux(_)));
    assert_eq!(runtime.status_surface_mode(), StatusSurfaceMode::FloatingWindow);
    assert_eq!(runtime.environment().config_dir, "/home/u/.whispering");
    if let PlatformRuntime::Linux(linux) = &runtime {
        assert_eq!(linux.tray_support_label(), "opportunistic");
        assert_eq!(linux.status_surface_label(), "floating window");
    }
}

#[test]
fn floating_surfaces_do_not_capture_tray_anchor() {
    assert_eq!(
        capture_session_anchor(StatusSurfaceMode::FloatingWindow),
        None
    );
}

#[test]
fn tray_preferred_surfaces_anchor_to_tray() {
    assert_eq!(
        capture_session_anchor(StatusSurfaceMode::TrayPreferred),
        Some(SessionAnchor::Tray)
    );
    assert_eq!(
        surface_placement(StatusSurfaceMode::TrayPreferred, None),
        SurfacePlacement::BelowTrayElsePrimaryMonitor
    );
    assert_eq!(
        surface_placement(StatusSurfaceMode::FloatingWindow, Some(SessionAnchor::Tray)),
        SurfacePlacement::PrimaryMonitor
    );
}

#[test]
fn physical_rects_are_not_rescaled() {
    let physical = rect_conversion(false, false);
    assert_eq!(physical.scale_source, ScaleSource::Unscaled);
    assert!(!physical.scale_position && !physical.scale_size);
    let logical = rect_conversion(true, true);
    assert_eq!(logical.scale_source, ScaleSource::LogicalPosition);
    assert!(logical.scale_position && logical.scale_size);
    let mixed = rect_conversion(false, true);
    assert_eq!(mixed.scale_source, ScaleSource::PhysicalPosition);
    assert!(!mixed.scale_position && mixed.scale_size);
    let other = rect_conversion(true, false);
    assert_eq!(other.scale_source, ScaleSource::LogicalPosition);
    assert!(other.scale_position && !other.scale_size);
}

#[test]
fn overlay_payload_script_and_kinds() {
    assert_eq!(
        overlay_script("{\"kind\":\"mic\"}"),
        "window.setWhisperingStatus && window.setWhisperingStatus({\"kind\":\"mic\"});"
    );
    assert_eq!(OverlayKind::Mic.as_str(), "mic");
    assert_eq!(OverlayKind::Spinner.as_str(), "spinner");
    assert_eq!(OverlayKind::Success.as_str(), "success");
    assert_eq!(OverlayKind::Error.as_str(), "error");
}

#[test]
fn sound_files_are_the_system_record_sounds() {
    assert!(sound_file(SoundCue::Start).ends_with("/begin_record.caf"));
    assert!(sound_file(SoundCue::Stop).ends_with("/end_record.caf"));
}
