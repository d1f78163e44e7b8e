use std::path::{Path, PathBuf};
use whispering::permissions::{accessibility_prompt, microphone_prompt_needed, MicrophoneAccess};
use whispering::platform::{runtime_environment, Platform, RuntimeEnvironment};
use whispering::settings::{
    classify_model, default_english_model_path, default_multilingual_model_path,
    fall_back_to_installed_model, installed_models, is_multilingual_model_path, loaded_config,
    resolve_model_path, transcription_language, Config, InstalledModel, ModelPresence,
    PermissionPrompts, DEFAULT_ENGLISH_MODEL_NAME, DEFAULT_MULTILINGUAL_MODEL_NAME,
};

fn environment_at(home: &str) -> RuntimeEnvironment {
    runtime_environment(
        Platform::Linux,
        Some(home.to_string()),
        None,
        "/tmp".to_string(),
        "x86_64".to_string(),
    )
}

#[test]
fn load_falls_back_to_existing_default_model_when_saved_model_is_missing() {
    let environment = environment_at("/tmp/whispering-settings-test");
    // On disk: only the default multilingual model is installed.
    let multilingual_path =
        Path::new(&environment.model_dir).join(DEFAULT_MULTILINGUAL_MODEL_NAME);

    let config = Config {
        model_path: "missing-model.bin".to_string(),
        input_device: None,
        permission_prompts: PermissionPrompts::default(),
    };
    let resolved = loaded_config(&environment, Some(config));
    let on_disk = |path: &str| Path::new(path) == multilingual_path.as_path();
    let presence = ModelPresence {
        configured: on_disk(&resolved.model_path),
        multilingual_default: on_disk(&default_multilingual_model_path(&environment)),
        english_default: on_disk(&default_english_model_path(&environment)),
    };
    let loaded = fall_back_to_installed_model(&environment, resolved, presence);

    assert_eq!(PathBuf::from(loaded.model_path), multilingual_path);
}

#[test]
fn save_and_load_round_trip_resolves_relative_model_path() {
    let environment = environment_at("/tmp/whispering-settings-test");

    // The settings as saved; the model directory holds no model files.
    let config = Config {
        model_path: DEFAULT_ENGLISH_MODEL_NAME.to_string(),
        input_device: Some("USB Microphone".to_string()),
        permission_prompts: PermissionPrompts {
            accessibility_requested: true,
        },
    };
    let resolved = loaded_config(&environment, Some(config));
    let presence = ModelPresence {
        configured: false,
        multilingual_default: false,
        english_default: false,
    };
    let loaded = fall_back_to_installed_model(&environment, resolved, presence);

    assert_eq!(
        PathBuf::from(&loaded.model_path),
        Path::new(&environment.model_dir).join(DEFAULT_ENGLISH_MODEL_NAME)
    );
    assert_eq!(loaded.input_device.as_deref(), Some("USB Microphone"));
    assert!(loaded.permission_prompts.accessibility_requested);
}

#[test]
fn installed_models_filters_non_bin_files_and_sorts_results() {
    let environment = environment_at("/tmp/whispering-settings-test");
    // The entries of the model directory.
    let files = [
        "z-custom.bin",
        "notes.txt",
        DEFAULT_ENGLISH_MODEL_NAME,
        DEFAULT_MULTILINGUAL_MODEL_NAME,
    ];
    let entries = files
        .iter()
        .map(|name| {
            Path::new(&environment.model_dir)
                .join(name)
                .to_string_lossy()
                .into_owned()
        })
        .collect::<Vec<_>>();

    let models = installed_models(entries);
    let filenames = models
        .iter()
        .map(|model| model.filename.as_str())
        .collect::<Vec<_>>();

    assert_eq!(
        filenames,
        vec![
            DEFAULT_MULTILINGUAL_MODEL_NAME,
            DEFAULT_ENGLISH_MODEL_NAME,
            "z-custom.bin",
        ]
    );
}

#[test]
fn installed_models_sort_by_file_name_and_keep_every_model() {
    let entries = vec![
        "/m/b.bin".to_string(),
        "/m/a.en.bin".to_string(),
        "/m/readme".to_string(),
        "/m/.bin".to_string(),
        "/m/C.bin".to_string(),
        "/m/a.bin".to_string(),
    ];
    let models = installed_models(entries);
    let filenames = models.iter().map(|m| m.filename.as_str()).collect::<Vec<_>>();
    assert_eq!(filenames, vec!["C.bin", "a.bin", "a.en.bin", "b.bin"]);
    assert!(models[0].multilingual);
    assert!(!models[2].multilingual);
    assert_eq!(models[3].path, "/m/b.bin");
    assert!(installed_models(Vec::new()).is_empty());
}

#[test]
fn classify_model_requires_bin_extension() {
    assert_eq!(
        classify_model("/m/ggml-small.en.bin".to_string()),
        Some(InstalledModel {
            path: "/m/ggml-small.en.bin".to_string(),
            filename: "ggml-small.en.bin".to_string(),
            multilingual: false,
        })
    );
    assert_eq!(classify_model("/m/notes.txt".to_string()), None);
    assert_eq!(classify_model("/m/.bin".to_string()), None);
    assert_eq!(classify_model("/m/model.BIN".to_string()), None);
    assert_eq!(classify_model("/".to_string()), None);
    assert_eq!(classify_model("/m/..".to_string()), None);
    assert!(classify_model("tiny.bin".to_string()).unwrap().multilingual);
}

#[test]
fn language_is_forced_only_for_english_models() {
    assert_eq!(transcription_language("/m/ggml-medium.en.bin"), Some("en"));
    assert_eq!(transcription_language("/m/ggml-medium.bin"), None);
    assert_eq!(transcription_language("/"), Some("en"));
    for path in ["/m/a.en.bin", "/m/a.bin", "/", "x", "/m/.en.bin"] {
        assert_eq!(
            transcription_language(path).is_none(),
            is_multilingual_model_path(path)
        );
    }
}

#[test]
fn model_labels_name_their_language() {
    let model = InstalledModel {
        path: "/m/ggml-base.bin".to_string(),
        filename: "ggml-base.bin".to_string(),
        multilingual: true,
    };
    assert_eq!(model.label(), "ggml-base.bin (multilingual)");
    let english = InstalledModel {
        multilingual: false,
        ..model
    };
    assert_eq!(english.label(), "ggml-base.bin (english only)");
}

#[test]
fn relative_model_paths_resolve_inside_model_dir() {
    let environment = environment_at("/home/u");
    assert_eq!(
        resolve_model_path(&environment, "ggml-medium.en.bin"),
        "/home/u/.whispering/models/ggml-medium.en.bin"
    );
    assert_eq!(resolve_model_path(&environment, "/opt/m.bin"), "/opt/m.bin");
    assert_eq!(
        default_english_model_path(&environment),
        "/home/u/.whispering/models/ggml-medium.en.bin"
    );
    assert_eq!(
        default_multilingual_model_path(&environment),
        "/home/u/.whispering/models/ggml-medium.bin"
    );
}

#[test]
fn unreadable_settings_load_as_defaults() {
    let environment = environment_at("/home/u");
    let config = loaded_config(&environment, None);
    assert_eq!(config.model_path, "/home/u/.whispering/models/ggml-medium.bin");
    assert_eq!(config.input_device, None);
    assert!(!config.permission_prompts.accessibility_requested);
    assert_eq!(Config::default().model_path, DEFAULT_MULTILINGUAL_MODEL_NAME);
}

#[test]
fn saved_settings_keep_device_and_prompts() {
    let environment = environment_at("/home/u");
    let config = loaded_config(
        &environment,
        Some(Config {
            model_path: "ggml-medium.en.bin".to_string(),
            input_device: Some("USB Microphone".to_string()),
            permission_prompts: PermissionPrompts {
                accessibility_requested: true,
            },
        }),
    );
    assert_eq!(config.model_path, "/home/u/.whispering/models/ggml-medium.en.bin");
    assert_eq!(config.input_device.as_deref(), Some("USB Microphone"));
    assert!(config.permission_prompts.accessibility_requested);
}

#[test]
fn fallback_prefers_present_then_multilingual_then_english() {
    let environment = environment_at("/home/u");
    let config = loaded_config(&environment, None);
    let configured = config.model_path.clone();
    let keep = fall_back_to_installed_model(
        &environment,
        Config { model_path: "/x/own.bin".to_string(), ..config.clone() },
        ModelPresence { configured: true, multilingual_default: true, english_default: true },
    );
    assert_eq!(keep.model_path, "/x/own.bin");
    let english = fall_back_to_installed_model(
        &environment,
        Config { model_path: "/x/own.bin".to_string(), ..config.clone() },
        ModelPresence { configured: false, multilingual_default: false, english_default: true },
    );
    assert_eq!(english.model_path, "/home/u/.whispering/models/ggml-medium.en.bin");
    let none = fall_back_to_installed_model(
        &environment,
        config,
        ModelPresence { configured: false, multilingual_default: false, english_default: false },
    );
    assert_eq!(none.model_path, configured);
}

#[test]
fn accessibility_prompt_is_shown_while_not_granted() {
    let mut config = Config::default();
    assert!(!accessibility_prompt(&mut config, true));
    assert!(!config.permission_prompts.accessibility_requested);
    assert!(accessibility_prompt(&mut config, false));
    assert!(config.permission_prompts.accessibility_requested);
    assert!(accessibility_prompt(&mut config, false));
    assert!(config.permission_prompts.accessibility_requested);
    assert!(!accessibility_prompt(&mut config, true));
    assert!(config.permission_prompts.accessibility_requested);
    assert_eq!(config.model_path, DEFAULT_MULTILINGUAL_MODEL_NAME);
}

#[test]
fn microphone_prompt_only_when_undecided() {
    assert!(microphone_prompt_needed(MicrophoneAccess::NotDetermined));
    assert!(!microphone_prompt_needed(MicrophoneAccess::Denied));
    assert!(!microphone_prompt_needed(MicrophoneAccess::Restricted));
    assert!(!microphone_prompt_needed(MicrophoneAccess::Authorized));
}
