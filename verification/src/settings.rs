//! Settings and models: the defaults, which files are Whisper models, how they
//! are listed, and how the configured model is resolved when settings load.
use vstd::prelude::*;
use vstd::seq_lib::{to_multiset_build, to_multiset_insert};

use crate::paths::{
    file_extension, file_name, is_absolute, join_path, path_file_name, path_is_absolute, path_join,
    spec_extension, spec_plainly_relative,
};
use crate::platform::RuntimeEnvironment;
use crate::text::{chars_le, chars_le_exec, concat3, has_suffix, lemma_chars_le_total, lemma_chars_le_transitive, str_eq};

verus! {

/// The language forced on English-only models.
pub const DEFAULT_LANGUAGE: &'static str = "en";

/// File name of the default English-only model.
pub const DEFAULT_ENGLISH_MODEL_NAME: &'static str = "ggml-medium.en.bin";

/// File name of the default multilingual model.
pub const DEFAULT_MULTILINGUAL_MODEL_NAME: &'static str = "ggml-medium.bin";

pub open spec fn english_model_name() -> Seq<char> {
    "ggml-medium.en.bin"@
}

pub open spec fn multilingual_model_name() -> Seq<char> {
    "ggml-medium.bin"@
}

/// Which permission prompts have already been shown.
#[derive(Clone, Copy, Debug, PartialEq, Eq, Structural)]
pub struct PermissionPrompts {
    pub accessibility_requested: bool,
}

impl Default for PermissionPrompts {
    fn default() -> (prompts: Self)
        ensures
            !prompts.accessibility_requested,
    {
        PermissionPrompts { accessibility_requested: false }
    }
}

/// The user's settings.
#[derive(Clone, Debug, PartialEq, Eq)]
pub struct Config {
    pub model_path: String,
    pub input_device: Option<String>,
    pub permission_prompts: PermissionPrompts,
}

impl Default for Config {
    /// The default multilingual model (by file name, resolved against the model
    /// directory when loaded), the default microphone, and no prompts shown yet.
    fn default() -> (config: Self)
        ensures
            config.model_path@ == multilingual_model_name(),
            config.input_device is None,
            !config.permission_prompts.accessibility_requested,
    {
        Config {
            model_path: DEFAULT_MULTILINGUAL_MODEL_NAME.to_owned(),
            input_device: None,
            permission_prompts: PermissionPrompts::default(),
        }
    }
}

/// A Whisper model file found in the model directory.
#[derive(Clone, Debug, PartialEq, Eq)]
pub struct InstalledModel {
    pub path: String,
    pub filename: String,
    pub multilingual: bool,
}

/// What an installed model is, as plain values.
pub struct ModelEntry {
    pub path: Seq<char>,
    pub filename: Seq<char>,
    pub multilingual: bool,
}

impl View for InstalledModel {
    type V = ModelEntry;

    open spec fn view(&self) -> ModelEntry {
        ModelEntry { path: self.path@, filename: self.filename@, multilingual: self.multilingual }
    }
}

/// How a model is named in the tray menu: its file name and what it can transcribe.
pub open spec fn spec_model_label(filename: Seq<char>, multilingual: bool) -> Seq<char> {
    filename + " ("@ + (if multilingual {
        "multilingual"@
    } else {
        "english only"@
    }) + ")"@
}

impl InstalledModel {
    pub fn label(&self) -> (label: String)
        ensures
            label@ == spec_model_label(self.filename@, self.multilingual),
    {
        let capability = if self.multilingual {
            "multilingual"
        } else {
            "english only"
        };
        let head = concat3(self.filename.as_str(), " (", capability);
        let mut label = head;
        label.append(")");
        label
    }
}

/// Where the default English-only model is installed.
pub fn default_english_model_path(environment: &RuntimeEnvironment) -> (path: String)
    ensures
        path@ == path_join(environment.model_dir@, english_model_name()),
{
    join_path(environment.model_dir.as_str(), DEFAULT_ENGLISH_MODEL_NAME)
}

/// Where the default multilingual model is installed.
pub fn default_multilingual_model_path(environment: &RuntimeEnvironment) -> (path: String)
    ensures
        path@ == path_join(environment.model_dir@, multilingual_model_name()),
{
    join_path(environment.model_dir.as_str(), DEFAULT_MULTILINGUAL_MODEL_NAME)
}

/// A model file is multilingual unless its name ends in `.en.bin`.
pub open spec fn spec_is_multilingual_model_name(filename: Seq<char>) -> bool {
    !".en.bin"@.is_suffix_of(filename)
}

pub fn is_multilingual_model_name(filename: &str) -> (multilingual: bool)
    ensures
        multilingual == spec_is_multilingual_model_name(filename@),
{
    !has_suffix(filename, ".en.bin")
}

/// A path names a multilingual model when it has a file name that is not `*.en.bin`.
pub open spec fn spec_is_multilingual_model_path(path: Seq<char>) -> bool {
    match path_file_name(path) {
        Some(name) => spec_is_multilingual_model_name(name),
        None => false,
    }
}

pub fn is_multilingual_model_path(path: &str) -> (multilingual: bool)
    ensures
        multilingual == spec_is_multilingual_model_path(path@),
{
    match file_name(path) {
        Some(name) => is_multilingual_model_name(name.as_str()),
        None => false,
    }
}

/// The language to force when transcribing with a model: none for multilingual
/// models (Whisper detects it), English otherwise.
pub fn transcription_language(path: &str) -> (language: Option<&'static str>)
    ensures
        language is None <==> spec_is_multilingual_model_path(path@),
        language matches Some(l) ==> l@ == "en"@,
{
    if is_multilingual_model_path(path) {
        None
    } else {
        Some(DEFAULT_LANGUAGE)
    }
}

/// The model a path names, if it is a `.bin` file with a file name.
pub open spec fn spec_classify_model(path: Seq<char>) -> Option<ModelEntry> {
    match path_file_name(path) {
        Some(name) => if spec_extension(name) == Some("bin"@) {
            Some(
                ModelEntry {
                    path,
                    filename: name,
                    multilingual: spec_is_multilingual_model_name(name),
                },
            )
        } else {
            None
        },
        None => None,
    }
}

pub fn classify_model(path: String) -> (model: Option<InstalledModel>)
    ensures
        match model {
            Some(m) => spec_classify_model(path@) == Some(m@),
            None => spec_classify_model(path@) is None,
        },
{
    let name = match file_name(path.as_str()) {
        Some(name) => name,
        None => return None,
    };
    let is_bin = match file_extension(name.as_str()) {
        Some(extension) => str_eq(extension.as_str(), "bin"),
        None => false,
    };
    if !is_bin {
        return None;
    }
    let multilingual = is_multilingual_model_name(name.as_str());
    Some(InstalledModel { multilingual, filename: name, path })
}

/// A classified model is multilingual exactly when its path is a multilingual model path.
pub proof fn lemma_classified_language_matches_path(path: Seq<char>)
    ensures
        spec_classify_model(path) matches Some(m) ==> m.multilingual
            == spec_is_multilingual_model_path(path),
{
}

/// The models among candidate paths, in the order of the candidates.
pub open spec fn spec_classified(paths: Seq<Seq<char>>) -> Seq<ModelEntry>
    decreases paths.len(),
{
    if paths.len() == 0 {
        Seq::empty()
    } else {
        let rest = spec_classified(paths.drop_last());
        match spec_classify_model(paths.last()) {
            Some(m) => rest.push(m),
            None => rest,
        }
    }
}

/// Models listed in file name order.
pub open spec fn sorted_by_filename(models: Seq<ModelEntry>) -> bool {
    forall|i: int, j: int|
        0 <= i < j < models.len() ==> chars_le(#[trigger] models[i].filename, #[trigger] models[j].filename)
}

/// The plain values of a list of models.
pub open spec fn model_entries(models: Seq<InstalledModel>) -> Seq<ModelEntry> {
    models.map_values(|m: InstalledModel| m@)
}

fn insert_by_filename(models: &mut Vec<InstalledModel>, model: InstalledModel)
    requires
        sorted_by_filename(model_entries(old(models)@)),
    ensures
        sorted_by_filename(model_entries(final(models)@)),
        model_entries(final(models)@).to_multiset() == model_entries(old(models)@).to_multiset().insert(
            model@,
        ),
{
    let ghost before = model_entries(models@);
    let ghost key = model.filename@;
    let mut i: usize = models.len();
    while i > 0 && !chars_le_exec(models[i - 1].filename.as_str(), model.filename.as_str())
        invariant
            i <= models.len(),
            key == model.filename@,
            models@ == old(models)@,
            before == model_entries(models@),
            sorted_by_filename(before),
            forall|k: int| i <= k < models.len() ==> !chars_le(#[trigger] before[k].filename, key),
        decreases i,
    {
        i = i - 1;
    }
    proof {
        assert forall|k: int| 0 <= k < i implies chars_le(#[trigger] before[k].filename, key) by {
            if k < i - 1 {
                assert(chars_le(before[k].filename, before[i - 1].filename));
                lemma_chars_le_transitive(before[k].filename, before[i - 1].filename, key);
            }
        }
        assert forall|k: int| i <= k < before.len() implies chars_le(key, #[trigger] before[k].filename) by {
            lemma_chars_le_total(key, before[k].filename);
        }
    }
    let ghost entry = model@;
    models.insert(i, model);
    proof {
        let after = model_entries(models@);
        assert(after =~= before.insert(i as int, entry));
        to_multiset_insert(before, i as int, entry);
        assert forall|a: int, b: int| 0 <= a < b < after.len() implies chars_le(
            #[trigger] after[a].filename,
            #[trigger] after[b].filename,
        ) by {
            if b < i {
            } else if b == i {
            } else if a < i {
                assert(chars_le(before[a].filename, key));
                assert(chars_le(key, before[b - 1].filename));
                lemma_chars_le_transitive(before[a].filename, key, before[b - 1].filename);
            } else if a == i {
            } else {
                assert(chars_le(before[a - 1].filename, before[b - 1].filename));
            }
        }
    }
}

/// The installed models among the entries of the model directory: the `.bin` files,
/// in file name order.
pub fn installed_models(entries: Vec<String>) -> (models: Vec<InstalledModel>)
    ensures
        sorted_by_filename(model_entries(models@)),
        model_entries(models@).to_multiset() == spec_classified(entries.deep_view()).to_multiset(),
{
    let mut models: Vec<InstalledModel> = Vec::new();
    let n: usize = entries.len();
    let mut idx: usize = 0;
    proof {
        assert(entries.deep_view().take(0) =~= Seq::<Seq<char>>::empty());
        assert(model_entries(models@) =~= Seq::<ModelEntry>::empty());
    }
    while idx < n
        invariant
            n == entries.len(),
            idx <= n,
            sorted_by_filename(model_entries(models@)),
            model_entries(models@).to_multiset() == spec_classified(
                entries.deep_view().take(idx as int),
            ).to_multiset(),
        decreases n - idx,
    {
        let path = entries[idx].clone();
        let ghost prefix = entries.deep_view().take(idx as int);
        let ghost next = entries.deep_view().take(idx as int + 1);
        proof {
            assert(next.drop_last() =~= prefix);
            assert(next.last() == path@);
        }
        match classify_model(path) {
            Some(model) => {
                proof {
                    to_multiset_build(spec_classified(prefix), model@);
                }
                insert_by_filename(&mut models, model);
            },
            None => {},
        }
        idx = idx + 1;
    }
    proof {
        assert(entries.deep_view().take(n as int) =~= entries.deep_view());
    }
    models
}

/// A configured model path: absolute paths stand, relative ones (a plainly relative
/// path is never absolute) are inside the model directory.
pub open spec fn spec_resolve_model_path(environment: &RuntimeEnvironment, path: Seq<char>) -> Seq<
    char,
> {
    if !spec_plainly_relative(path) && path_is_absolute(path) {
        path
    } else {
        path_join(environment.model_dir@, path)
    }
}

pub fn resolve_model_path(environment: &RuntimeEnvironment, path: &str) -> (resolved: String)
    ensures
        resolved@ == spec_resolve_model_path(environment, path@),
{
    if is_absolute(path) {
        path.to_owned()
    } else {
        join_path(environment.model_dir.as_str(), path)
    }
}

/// The settings as loaded: those read from the settings file (the defaults when it is
/// missing, unreadable or does not parse), with the model path resolved.
pub fn loaded_config(environment: &RuntimeEnvironment, parsed: Option<Config>) -> (config: Config)
    ensures
        match parsed {
            Some(p) => {
                &&& config.model_path@ == spec_resolve_model_path(environment, p.model_path@)
                &&& config.input_device == p.input_device
                &&& config.permission_prompts == p.permission_prompts
            },
            None => {
                &&& config.model_path@ == spec_resolve_model_path(
                    environment,
                    multilingual_model_name(),
                )
                &&& config.input_device is None
                &&& !config.permission_prompts.accessibility_requested
            },
        },
{
    let mut config = match parsed {
        Some(p) => p,
        None => Config::default(),
    };
    config.model_path = resolve_model_path(environment, config.model_path.as_str());
    config
}

/// Which of the candidate model files exist on disk.
#[derive(Clone, Copy, Debug, PartialEq, Eq, Structural)]
pub struct ModelPresence {
    /// The configured (resolved) model file exists.
    pub configured: bool,
    /// The default multilingual model is installed.
    pub multilingual_default: bool,
    /// The default English-only model is installed.
    pub english_default: bool,
}

/// The model path to use: the configured one when its file exists, otherwise the
/// installed default model (multilingual first), otherwise still the configured one.
pub open spec fn spec_chosen_model_path(
    environment: &RuntimeEnvironment,
    configured: Seq<char>,
    presence: ModelPresence,
) -> Seq<char> {
    if presence.configured {
        configured
    } else if presence.multilingual_default {
        path_join(environment.model_dir@, multilingual_model_name())
    } else if presence.english_default {
        path_join(environment.model_dir@, english_model_name())
    } else {
        configured
    }
}

/// Falls back from a configured model that is missing to an installed default model.
pub fn fall_back_to_installed_model(
    environment: &RuntimeEnvironment,
    config: Config,
    presence: ModelPresence,
) -> (chosen: Config)
    ensures
        chosen.model_path@ == spec_chosen_model_path(environment, config.model_path@, presence),
        chosen.input_device == config.input_device,
        chosen.permission_prompts == config.permission_prompts,
{
    let mut config = config;
    if !presence.configured {
        if presence.multilingual_default {
            config.model_path = default_multilingual_model_path(environment);
        } else if presence.english_default {
            config.model_path = default_english_model_path(environment);
        }
    }
    config
}

/// A configured model whose file exists is never replaced by a default.
pub proof fn lemma_present_model_is_kept(
    environment: &RuntimeEnvironment,
    configured: Seq<char>,
    presence: ModelPresence,
)
    requires
        presence.configured,
    ensures
        spec_chosen_model_path(environment, configured, presence) == configured,
{
}

/// Settings that were saved load back resolved: a relative model path is found in the
/// model directory and an absolute one stands, and that path is kept whenever its
/// model exists or no default model is installed to replace it. (The microphone and
/// the prompt record come back unchanged: `loaded_config` and
/// `fall_back_to_installed_model` keep them.)
pub proof fn lemma_saved_settings_load_back(
    environment: &RuntimeEnvironment,
    saved: Config,
    presence: ModelPresence,
)
    requires
        presence.configured || (!presence.multilingual_default && !presence.english_default),
    ensures
        spec_chosen_model_path(
            environment,
            spec_resolve_model_path(environment, saved.model_path@),
            presence,
        ) == spec_resolve_model_path(environment, saved.model_path@),
        spec_plainly_relative(saved.model_path@) ==> spec_chosen_model_path(
            environment,
            spec_resolve_model_path(environment, saved.model_path@),
            presence,
        ) == path_join(environment.model_dir@, saved.model_path@),
        path_is_absolute(saved.model_path@) && !spec_plainly_relative(saved.model_path@)
            ==> spec_chosen_model_path(
            environment,
            spec_resolve_model_path(environment, saved.model_path@),
            presence,
        ) == saved.model_path@,
{
}

/// The default model names are plain file names: saved as they are, they load back
/// from the model directory.
pub proof fn lemma_default_model_names_are_relative()
    ensures
        spec_plainly_relative(english_model_name()),
        spec_plainly_relative(multilingual_model_name()),
{
    reveal_strlit("ggml-medium.en.bin");
    reveal_strlit("ggml-medium.bin");
    let english = english_model_name();
    let multilingual = multilingual_model_name();
    assert(english =~= seq!['g', 'g', 'm', 'l', '-', 'm', 'e', 'd', 'i', 'u', 'm', '.', 'e', 'n', '.', 'b', 'i', 'n']);
    assert(multilingual =~= seq!['g', 'g', 'm', 'l', '-', 'm', 'e', 'd', 'i', 'u', 'm', '.', 'b', 'i', 'n']);
    assert(!english.contains(':'));
    assert(!multilingual.contains(':'));
}

/// The order in which a missing configured model is replaced: a configured model that
/// exists always stays; otherwise the multilingual default `ggml-medium.bin` wins
/// whenever it is installed, whether or not the English-only one is; the English-only
/// `ggml-medium.en.bin` is used only when it alone is installed; with neither, the
/// configured path stays.
pub proof fn lemma_fallback_order(
    environment: &RuntimeEnvironment,
    configured: Seq<char>,
    presence: ModelPresence,
)
    ensures
        presence.configured ==> spec_chosen_model_path(environment, configured, presence)
            == configured,
        !presence.configured && presence.multilingual_default ==> spec_chosen_model_path(
            environment,
            configured,
            presence,
        ) == path_join(environment.model_dir@, "ggml-medium.bin"@),
        !presence.configured && !presence.multilingual_default && presence.english_default
            ==> spec_chosen_model_path(environment, configured, presence) == path_join(
            environment.model_dir@,
            "ggml-medium.en.bin"@,
        ),
        !presence.configured && !presence.multilingual_default && !presence.english_default
            ==> spec_chosen_model_path(environment, configured, presence) == configured,
{
}

/// A model file name is multilingual exactly when it does not end in the seven
/// characters `.en.bin`.
pub proof fn lemma_multilingual_iff_not_en_bin(filename: Seq<char>)
    ensures
        spec_is_multilingual_model_name(filename) == !(filename.len() >= 7 && filename.subrange(
            filename.len() - 7,
            filename.len() as int,
        ) =~= seq!['.', 'e', 'n', '.', 'b', 'i', 'n']),
{
    reveal_strlit(".en.bin");
    assert(".en.bin"@ =~= seq!['.', 'e', 'n', '.', 'b', 'i', 'n']);
}

/// English is forced exactly for paths whose file name ends in `.en.bin`; every other
/// model file (and a path with no file name) is multilingual only when it has a
/// file name, so the language is detected for it.
pub proof fn lemma_language_follows_file_name(path: Seq<char>)
    ensures
        spec_is_multilingual_model_path(path) == match path_file_name(path) {
            Some(name) => !(name.len() >= 7 && name.subrange(name.len() - 7, name.len() as int)
                =~= seq!['.', 'e', 'n', '.', 'b', 'i', 'n']),
            None => false,
        },
{
    if let Some(name) = path_file_name(path) {
        lemma_multilingual_iff_not_en_bin(name);
    }
}

} // verus!
