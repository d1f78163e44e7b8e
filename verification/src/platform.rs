//! Platforms, their capabilities and shortcuts, and the directories the app uses.
use global_hotkey::hotkey::{Code, HotKey, Modifiers};
use vstd::prelude::*;

use crate::paths::{join_path, path_join};
use crate::text::str_eq;

verus! {

/// Operating systems the app knows how to run on.
#[derive(Clone, Copy, Debug, PartialEq, Eq, Structural)]
pub enum Platform {
    MacOs,
    Linux,
    Windows,
}

impl Platform {
    /// The operating-system name used in logs and probes (and by `std::env::consts::OS`).
    pub open spec fn spec_name(self) -> Seq<char> {
        match self {
            Platform::MacOs => "macos"@,
            Platform::Linux => "linux"@,
            Platform::Windows => "windows"@,
        }
    }

    pub fn as_str(self) -> (name: &'static str)
        ensures
            name@ == self.spec_name(),
    {
        match self {
            Platform::MacOs => "macos",
            Platform::Linux => "linux",
            Platform::Windows => "windows",
        }
    }

    /// The platform with the given operating-system name; `None` for any other name.
    pub open spec fn spec_from_os_name(os: Seq<char>) -> Option<Platform> {
        if os == "macos"@ {
            Some(Platform::MacOs)
        } else if os == "linux"@ {
            Some(Platform::Linux)
        } else if os == "windows"@ {
            Some(Platform::Windows)
        } else {
            None
        }
    }

    /// Recognises an operating-system name (`std::env::consts::OS`); the app refuses
    /// to run where this is `None`.
    pub fn from_os_name(os: &str) -> (platform: Option<Platform>)
        ensures
            platform == Self::spec_from_os_name(os@),
    {
        if str_eq(os, "macos") {
            Some(Platform::MacOs)
        } else if str_eq(os, "linux") {
            Some(Platform::Linux)
        } else if str_eq(os, "windows") {
            Some(Platform::Windows)
        } else {
            None
        }
    }
}

/// A platform's name is recognised as that platform: `from_os_name` undoes `as_str`.
pub proof fn lemma_platform_name_round_trip(platform: Platform)
    ensures
        Platform::spec_from_os_name(platform.spec_name()) == Some(platform),
{
    reveal_strlit("macos");
    reveal_strlit("linux");
    reveal_strlit("windows");
    assert("linux"@ != "macos"@) by {
        assert("linux"@[0] != "macos"@[0]);
    }
    assert("windows"@ != "macos"@) by {
        assert("windows"@[0] != "macos"@[0]);
    }
    assert("windows"@ != "linux"@) by {
        assert("windows"@[0] != "linux"@[0]);
    }
}

/// How the status overlay is shown on a platform.
#[derive(Clone, Copy, Debug, PartialEq, Eq, Structural)]
pub enum StatusSurfaceMode {
    TrayPreferred,
    FloatingWindow,
}

/// How dependable the system tray is on a platform.
#[derive(Clone, Copy, Debug, PartialEq, Eq, Structural)]
pub enum TraySupport {
    Native,
    Opportunistic,
}

/// What the desktop of a platform offers the app.
#[derive(Clone, Copy, Debug, PartialEq, Eq, Structural)]
pub struct PlatformCapabilities {
    pub status_surface_mode: StatusSurfaceMode,
    pub tray_support: TraySupport,
    pub supports_accessibility_prompt: bool,
    pub supports_microphone_prompt: bool,
    pub supports_system_sounds: bool,
}

/// The modifier keys of a shortcut.
#[derive(Clone, Copy, Debug, PartialEq, Eq, Structural)]
pub struct ModifierKeys {
    pub control: bool,
    pub alt: bool,
    pub shift: bool,
    pub meta: bool,
}

impl ModifierKeys {
    /// The `keyboard_types::Modifiers` bit set of these keys
    /// (ALT = 0x01, CONTROL = 0x08, META = 0x40, SHIFT = 0x200).
    pub open spec fn spec_bits(self) -> u32 {
        ((if self.alt { 0x01u32 } else { 0u32 }) + (if self.control { 0x08u32 } else { 0u32 }) + (
        if self.meta { 0x40u32 } else { 0u32 }) + (if self.shift { 0x200u32 } else { 0u32 })) as u32
    }

    pub fn bits(self) -> (bits: u32)
        ensures
            bits == self.spec_bits(),
            bits < 0x400,
    {
        let mut bits: u32 = 0;
        if self.alt {
            bits = bits + 0x01;
        }
        if self.control {
            bits = bits + 0x08;
        }
        if self.meta {
            bits = bits + 0x40;
        }
        if self.shift {
            bits = bits + 0x200;
        }
        bits
    }
}

/// The main key of a shortcut.
#[derive(Clone, Copy, Debug, PartialEq, Eq, Structural)]
pub enum KeyCode {
    KeyM,
}

impl KeyCode {
    /// The discriminant of the matching `keyboard_types::Code` variant.
    pub open spec fn spec_code_number(self) -> u32 {
        match self {
            KeyCode::KeyM => 31,
        }
    }
}

#[verifier::external_type_specification]
#[verifier::external_body]
pub struct ExModifiers(Modifiers);

#[verifier::external_type_specification]
#[verifier::external_body]
pub struct ExCode(Code);

#[verifier::external_type_specification]
pub struct ExHotKey(HotKey);

/// The hotkey that `global_hotkey::hotkey::HotKey::new` builds from a modifier bit set
/// and a key (given by its `keyboard_types::Code` discriminant).
pub uninterp spec fn registered_hotkey(modifier_bits: u32, key_number: u32) -> HotKey;

/// Calls `global_hotkey::hotkey::HotKey::new` with the modifiers whose bits are given
/// and the key. Claimed, from the crate's source: the result is a function of the
/// modifier bits and the key alone (the named value `registered_hotkey`, whose `mods`
/// and `key` are what gets registered), and its `id` is the modifier bits shifted
/// left by 16, or-ed with the key's discriminant (no SUPER bit is ever passed, so the
/// source's SUPER-to-META rewrite does not apply).
#[verifier::external_body]
fn new_hotkey(modifier_bits: u32, code: KeyCode) -> (hotkey: HotKey)
    requires
        modifier_bits < 0x400,
    ensures
        hotkey == registered_hotkey(modifier_bits, code.spec_code_number()),
        hotkey.id == ((modifier_bits << 16u32) | code.spec_code_number()),
{
    let key = match code {
        KeyCode::KeyM => Code::KeyM,
    };
    HotKey::new(Some(Modifiers::from_bits_truncate(modifier_bits)), key)
}

/// The platform's default shortcut for toggling a recording.
#[derive(Clone, Copy, Debug, PartialEq, Eq)]
pub struct PlatformHotkey {
    modifiers: ModifierKeys,
    code: KeyCode,
    label: &'static str,
}

impl PlatformHotkey {
    pub closed spec fn spec_modifiers(self) -> ModifierKeys {
        self.modifiers
    }

    pub closed spec fn spec_code(self) -> KeyCode {
        self.code
    }

    pub closed spec fn spec_label(self) -> &'static str {
        self.label
    }

    pub fn new(modifiers: ModifierKeys, code: KeyCode, label: &'static str) -> (hotkey: Self)
        ensures
            hotkey.spec_modifiers() == modifiers,
            hotkey.spec_code() == code,
            hotkey.spec_label() == label,
    {
        PlatformHotkey { modifiers, code, label }
    }

    /// The shortcut as a `global_hotkey` hotkey, ready to register.
    pub fn hotkey(self) -> (hotkey: HotKey)
        ensures
            hotkey == registered_hotkey(
                self.spec_modifiers().spec_bits(),
                self.spec_code().spec_code_number(),
            ),
            hotkey.id == ((self.spec_modifiers().spec_bits() << 16u32) | self.spec_code().spec_code_number()),
    {
        let bits: u32 = self.modifiers.bits();
        new_hotkey(bits, self.code)
    }

    /// The human-readable shortcut, such as `Ctrl+Alt+M`.
    pub fn label(self) -> (label: &'static str)
        ensures
            label == self.spec_label(),
    {
        self.label
    }

    pub fn modifiers(self) -> (modifiers: ModifierKeys)
        ensures
            modifiers == self.spec_modifiers(),
    {
        self.modifiers
    }

    pub fn code(self) -> (code: KeyCode)
        ensures
            code == self.spec_code(),
    {
        self.code
    }
}

/// Where the app keeps its files on this machine, and what the platform offers.
#[derive(Clone, Debug)]
pub struct RuntimeEnvironment {
    pub platform: Platform,
    pub arch: String,
    pub model_dir: String,
    pub cache_dir: String,
    pub config_dir: String,
    pub default_hotkey: PlatformHotkey,
    pub capabilities: PlatformCapabilities,
}

/// Name of the app's directory under the home directory.
pub open spec fn app_dir_name() -> Seq<char> {
    ".whispering"@
}

/// Name of the app's directory under the user cache directory.
pub open spec fn app_cache_dir_name() -> Seq<char> {
    "Whispering"@
}

impl RuntimeEnvironment {
    /// Where the settings file lives.
    pub open spec fn spec_config_path(&self) -> Seq<char> {
        path_join(self.config_dir@, "config.toml"@)
    }

    pub fn config_path(&self) -> (path: String)
        ensures
            path@ == self.spec_config_path(),
    {
        join_path(self.config_dir.as_str(), "config.toml")
    }
}

/// The default shortcut of each platform: Ctrl+Cmd+M on macOS, Ctrl+Alt+M elsewhere.
pub open spec fn spec_default_hotkey(platform: Platform) -> (ModifierKeys, Seq<char>) {
    match platform {
        Platform::MacOs => (
            ModifierKeys { control: true, alt: false, shift: false, meta: true },
            "Ctrl+Cmd+M"@,
        ),
        _ => (ModifierKeys { control: true, alt: true, shift: false, meta: false }, "Ctrl+Alt+M"@),
    }
}

/// How a shortcut with these modifiers and the M key is written: the modifiers in the
/// order Ctrl, Alt, Cmd, Shift, each followed by `+`, then `M`.
pub open spec fn spec_shortcut_label(modifiers: ModifierKeys) -> Seq<char> {
    (if modifiers.control {
        "Ctrl+"@
    } else {
        Seq::empty()
    }) + (if modifiers.alt {
        "Alt+"@
    } else {
        Seq::empty()
    }) + (if modifiers.meta {
        "Cmd+"@
    } else {
        Seq::empty()
    }) + (if modifiers.shift {
        "Shift+"@
    } else {
        Seq::empty()
    }) + "M"@
}

/// Every platform's default shortcut registers exactly the keys its label names:
/// Control and Command on macOS (`Ctrl+Cmd+M`), Control and Alt elsewhere
/// (`Ctrl+Alt+M`), never Shift; so its modifier bits are 0x48 on macOS and 0x09 elsewhere.
pub proof fn lemma_default_hotkey_matches_label(platform: Platform)
    ensures
        spec_default_hotkey(platform).1 == spec_shortcut_label(spec_default_hotkey(platform).0),
        spec_default_hotkey(platform).0.control,
        !spec_default_hotkey(platform).0.shift,
        spec_default_hotkey(platform).0.meta == (platform == Platform::MacOs),
        spec_default_hotkey(platform).0.alt == (platform != Platform::MacOs),
        spec_default_hotkey(platform).1 == (if platform == Platform::MacOs {
            "Ctrl+Cmd+M"@
        } else {
            "Ctrl+Alt+M"@
        }),
        spec_default_hotkey(platform).0.spec_bits() == (if platform == Platform::MacOs {
            0x48u32
        } else {
            0x09u32
        }),
{
    reveal_strlit("Ctrl+");
    reveal_strlit("Alt+");
    reveal_strlit("Cmd+");
    reveal_strlit("Shift+");
    reveal_strlit("M");
    reveal_strlit("Ctrl+Cmd+M");
    reveal_strlit("Ctrl+Alt+M");
    let modifiers = spec_default_hotkey(platform).0;
    if platform == Platform::MacOs {
        assert(spec_shortcut_label(modifiers) =~= "Ctrl+"@ + Seq::<char>::empty() + "Cmd+"@
            + Seq::<char>::empty() + "M"@);
        assert("Ctrl+Cmd+M"@ =~= "Ctrl+"@ + Seq::<char>::empty() + "Cmd+"@ + Seq::<char>::empty()
            + "M"@);
    } else {
        assert(spec_shortcut_label(modifiers) =~= "Ctrl+"@ + "Alt+"@ + Seq::<char>::empty()
            + Seq::<char>::empty() + "M"@);
        assert("Ctrl+Alt+M"@ =~= "Ctrl+"@ + "Alt+"@ + Seq::<char>::empty() + Seq::<char>::empty()
            + "M"@);
    }
}

/// What each platform offers: macOS has a native menu bar, permission prompts and
/// system sounds; Linux falls back to a floating window; Windows has a native tray only.
pub open spec fn spec_capabilities(platform: Platform) -> PlatformCapabilities {
    match platform {
        Platform::MacOs => PlatformCapabilities {
            status_surface_mode: StatusSurfaceMode::TrayPreferred,
            tray_support: TraySupport::Native,
            supports_accessibility_prompt: true,
            supports_microphone_prompt: true,
            supports_system_sounds: true,
        },
        Platform::Linux => PlatformCapabilities {
            status_surface_mode: StatusSurfaceMode::FloatingWindow,
            tray_support: TraySupport::Opportunistic,
            supports_accessibility_prompt: false,
            supports_microphone_prompt: false,
            supports_system_sounds: false,
        },
        Platform::Windows => PlatformCapabilities {
            status_surface_mode: StatusSurfaceMode::TrayPreferred,
            tray_support: TraySupport::Native,
            supports_accessibility_prompt: false,
            supports_microphone_prompt: false,
            supports_system_sounds: false,
        },
    }
}

fn capabilities_for(platform: Platform) -> (capabilities: PlatformCapabilities)
    ensures
        capabilities == spec_capabilities(platform),
{
    match platform {
        Platform::MacOs => PlatformCapabilities {
            status_surface_mode: StatusSurfaceMode::TrayPreferred,
            tray_support: TraySupport::Native,
            supports_accessibility_prompt: true,
            supports_microphone_prompt: true,
            supports_system_sounds: true,
        },
        Platform::Linux => PlatformCapabilities {
            status_surface_mode: StatusSurfaceMode::FloatingWindow,
            tray_support: TraySupport::Opportunistic,
            supports_accessibility_prompt: false,
            supports_microphone_prompt: false,
            supports_system_sounds: false,
        },
        Platform::Windows => PlatformCapabilities {
            status_surface_mode: StatusSurfaceMode::TrayPreferred,
            tray_support: TraySupport::Native,
            supports_accessibility_prompt: false,
            supports_microphone_prompt: false,
            supports_system_sounds: false,
        },
    }
}

fn default_hotkey_for(platform: Platform) -> (hotkey: PlatformHotkey)
    ensures
        hotkey.spec_modifiers() == spec_default_hotkey(platform).0,
        hotkey.spec_label()@ == spec_default_hotkey(platform).1,
        hotkey.spec_code() == KeyCode::KeyM,
{
    match platform {
        Platform::MacOs => PlatformHotkey::new(
            ModifierKeys { control: true, alt: false, shift: false, meta: true },
            KeyCode::KeyM,
            "Ctrl+Cmd+M",
        ),
        _ => PlatformHotkey::new(
            ModifierKeys { control: true, alt: true, shift: false, meta: false },
            KeyCode::KeyM,
            "Ctrl+Alt+M",
        ),
    }
}

/// Builds the environment of a platform from what the machine reports: the home
/// directory (the current directory `.` when unknown), the user cache directory
/// (the temporary directory when unknown) and the CPU architecture.
pub fn runtime_environment(
    platform: Platform,
    home_dir: Option<String>,
    user_cache_dir: Option<String>,
    temp_dir: String,
    arch: String,
) -> (environment: RuntimeEnvironment)
    ensures
        environment.platform == platform,
        environment.arch@ == arch@,
        environment.config_dir@ == path_join(
            (match home_dir {
                Some(h) => h@,
                None => "."@,
            }),
            app_dir_name(),
        ),
        environment.model_dir@ == path_join(environment.config_dir@, "models"@),
        environment.cache_dir@ == path_join(
            (match user_cache_dir {
                Some(c) => c@,
                None => temp_dir@,
            }),
            app_cache_dir_name(),
        ),
        environment.default_hotkey.spec_modifiers() == spec_default_hotkey(platform).0,
        environment.default_hotkey.spec_label()@ == spec_default_hotkey(platform).1,
        environment.default_hotkey.spec_code() == KeyCode::KeyM,
        environment.capabilities == spec_capabilities(platform),
{
    let home = match home_dir {
        Some(h) => h,
        None => ".".to_owned(),
    };
    let config_dir = join_path(home.as_str(), ".whispering");
    let model_dir = join_path(config_dir.as_str(), "models");
    let cache_root = match user_cache_dir {
        Some(c) => c,
        None => temp_dir,
    };
    let cache_dir = join_path(cache_root.as_str(), "Whispering");
    RuntimeEnvironment {
        platform,
        arch,
        model_dir,
        cache_dir,
        config_dir,
        default_hotkey: default_hotkey_for(platform),
        capabilities: capabilities_for(platform),
    }
}

/// The macOS runtime: menu bar app with permission prompts and system sounds.
#[derive(Clone, Debug)]
pub struct MacOsRuntime {
    environment: RuntimeEnvironment,
}

/// The Linux runtime: permissions and sounds are left to the desktop environment.
#[derive(Clone, Debug)]
pub struct LinuxRuntime {
    environment: RuntimeEnvironment,
}

/// The Windows runtime.
#[derive(Clone, Debug)]
pub struct WindowsRuntime {
    environment: RuntimeEnvironment,
}

impl MacOsRuntime {
    pub closed spec fn spec_environment(&self) -> RuntimeEnvironment {
        self.environment
    }

    pub fn new(environment: RuntimeEnvironment) -> (runtime: Self)
        ensures
            runtime.spec_environment() == environment,
    {
        MacOsRuntime { environment }
    }

    pub fn environment(&self) -> (environment: &RuntimeEnvironment)
        ensures
            *environment == self.spec_environment(),
    {
        &self.environment
    }
}

impl LinuxRuntime {
    pub closed spec fn spec_environment(&self) -> RuntimeEnvironment {
        self.environment
    }

    pub fn new(environment: RuntimeEnvironment) -> (runtime: Self)
        ensures
            runtime.spec_environment() == environment,
    {
        LinuxRuntime { environment }
    }

    pub fn environment(&self) -> (environment: &RuntimeEnvironment)
        ensures
            *environment == self.spec_environment(),
    {
        &self.environment
    }

    /// How the tray support of this environment is described in the startup log.
    pub fn tray_support_label(&self) -> (label: &'static str)
        ensures
            label@ == (match self.spec_environment().capabilities.tray_support {
                TraySupport::Native => "native"@,
                TraySupport::Opportunistic => "opportunistic"@,
            }),
    {
        match self.environment.capabilities.tray_support {
            TraySupport::Native => "native",
            TraySupport::Opportunistic => "opportunistic",
        }
    }

    /// How the status surface of this environment is described in the startup log.
    pub fn status_surface_label(&self) -> (label: &'static str)
        ensures
            label@ == (match self.spec_environment().capabilities.status_surface_mode {
                StatusSurfaceMode::TrayPreferred => "tray preferred"@,
                StatusSurfaceMode::FloatingWindow => "floating window"@,
            }),
    {
        match self.environment.capabilities.status_surface_mode {
            StatusSurfaceMode::TrayPreferred => "tray preferred",
            StatusSurfaceMode::FloatingWindow => "floating window",
        }
    }
}

impl WindowsRuntime {
    pub closed spec fn spec_environment(&self) -> RuntimeEnvironment {
        self.environment
    }

    pub fn new(environment: RuntimeEnvironment) -> (runtime: Self)
        ensures
            runtime.spec_environment() == environment,
    {
        WindowsRuntime { environment }
    }

    pub fn environment(&self) -> (environment: &RuntimeEnvironment)
        ensures
            *environment == self.spec_environment(),
    {
        &self.environment
    }
}

/// The runtime of the platform the app runs on.
#[derive(Clone, Debug)]
pub enum PlatformRuntime {
    MacOs(MacOsRuntime),
    Linux(LinuxRuntime),
    Windows(WindowsRuntime),
}

impl PlatformRuntime {
    pub open spec fn spec_environment(&self) -> RuntimeEnvironment {
        match self {
            PlatformRuntime::MacOs(r) => r.spec_environment(),
            PlatformRuntime::Linux(r) => r.spec_environment(),
            PlatformRuntime::Windows(r) => r.spec_environment(),
        }
    }

    /// The runtime for an environment: the variant follows the environment's platform.
    pub fn for_environment(environment: RuntimeEnvironment) -> (runtime: Self)
        ensures
            runtime.spec_environment() == environment,
            environment.platform == Platform::MacOs ==> runtime is MacOs,
            environment.platform == Platform::Linux ==> runtime is Linux,
            environment.platform == Platform::Windows ==> runtime is Windows,
    {
        match environment.platform {
            Platform::MacOs => PlatformRuntime::MacOs(MacOsRuntime::new(environment)),
            Platform::Linux => PlatformRuntime::Linux(LinuxRuntime::new(environment)),
            Platform::Windows => PlatformRuntime::Windows(WindowsRuntime::new(environment)),
        }
    }

    pub fn environment(&self) -> (environment: &RuntimeEnvironment)
        ensures
            *environment == self.spec_environment(),
    {
        match self {
            PlatformRuntime::MacOs(r) => r.environment(),
            PlatformRuntime::Linux(r) => r.environment(),
            PlatformRuntime::Windows(r) => r.environment(),
        }
    }

    pub fn status_surface_mode(&self) -> (mode: StatusSurfaceMode)
        ensures
            mode == self.spec_environment().capabilities.status_surface_mode,
    {
        self.environment().capabilities.status_surface_mode
    }
}

} // verus!
