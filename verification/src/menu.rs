//! The tray menu: its items, their identifiers, and what a click on each does.
use vstd::prelude::*;

use crate::paths::{path_equal, path_join, same_path};
use crate::platform::RuntimeEnvironment;
use crate::session::RuntimePhase;
use crate::settings::{
    default_english_model_path, default_multilingual_model_path, english_model_name,
    is_multilingual_model_path, model_entries, multilingual_model_name, spec_is_multilingual_model_path,
    spec_model_label, InstalledModel, ModelEntry, DEFAULT_ENGLISH_MODEL_NAME,
    DEFAULT_MULTILINGUAL_MODEL_NAME,
};
use crate::text::{concat2, concat3, spec_strip_prefix, str_eq, strip_prefix};

verus! {

/// Identifier of the tray icon.
pub const TRAY_ID: &'static str = "whispering-tray";

/// Identifier of the item that starts or stops a recording.
pub const MENU_TOGGLE: &'static str = "toggle-recording";

/// Identifier of the item that quits the app.
pub const MENU_QUIT: &'static str = "quit";

/// Identifier of the placeholder shown when no model is installed.
pub const MENU_NO_MODELS: &'static str = "model-none";

pub open spec fn toggle_id() -> Seq<char> {
    "toggle-recording"@
}

pub open spec fn quit_id() -> Seq<char> {
    "quit"@
}

/// Items that select an installed model start with this, followed by the model's path.
pub open spec fn model_id_prefix() -> Seq<char> {
    "model-select:"@
}

/// Items that offer a missing default model start with this, followed by its file name.
pub open spec fn install_id_prefix() -> Seq<char> {
    "model-install:"@
}

/// The identifier of the item that selects the model at `path`.
pub fn model_item_id(path: &str) -> (id: String)
    ensures
        id@ == model_id_prefix() + path@,
{
    concat2("model-select:", path)
}

/// The identifier of the item that offers the missing model `name`.
pub fn install_item_id(name: &str) -> (id: String)
    ensures
        id@ == install_id_prefix() + name@,
{
    concat2("model-install:", name)
}

/// The model path an item identifier selects, if it is a model item.
pub fn menu_model_path(id: &str) -> (path: Option<String>)
    ensures
        match path {
            Some(p) => spec_strip_prefix(id@, model_id_prefix()) == Some(p@),
            None => spec_strip_prefix(id@, model_id_prefix()) is None,
        },
{
    strip_prefix(id, "model-select:")
}

/// The missing model an item identifier offers, if it is an install item.
pub fn install_model_name(id: &str) -> (name: Option<String>)
    ensures
        match name {
            Some(n) => spec_strip_prefix(id@, install_id_prefix()) == Some(n@),
            None => spec_strip_prefix(id@, install_id_prefix()) is None,
        },
{
    strip_prefix(id, "model-install:")
}

/// What a click on a tray item asks for, as plain values.
pub enum MenuCommand {
    ToggleRecording,
    Quit,
    SelectModel(Seq<char>),
    ModelNotInstalled(Seq<char>),
    Ignore,
}

/// What a click on a tray item asks for.
pub enum MenuAction {
    ToggleRecording,
    Quit,
    /// Switch to the model at this path.
    SelectModel(String),
    /// Report that this default model is missing and how to install it.
    ModelNotInstalled(String),
    Ignore,
}

impl View for MenuAction {
    type V = MenuCommand;

    open spec fn view(&self) -> MenuCommand {
        match self {
            MenuAction::ToggleRecording => MenuCommand::ToggleRecording,
            MenuAction::Quit => MenuCommand::Quit,
            MenuAction::SelectModel(p) => MenuCommand::SelectModel(p@),
            MenuAction::ModelNotInstalled(n) => MenuCommand::ModelNotInstalled(n@),
            MenuAction::Ignore => MenuCommand::Ignore,
        }
    }
}

/// The command of a clicked item identifier.
pub open spec fn spec_menu_command(id: Seq<char>) -> MenuCommand {
    if id == toggle_id() {
        MenuCommand::ToggleRecording
    } else if id == quit_id() {
        MenuCommand::Quit
    } else if let Some(path) = spec_strip_prefix(id, model_id_prefix()) {
        MenuCommand::SelectModel(path)
    } else if let Some(name) = spec_strip_prefix(id, install_id_prefix()) {
        MenuCommand::ModelNotInstalled(name)
    } else {
        MenuCommand::Ignore
    }
}

/// Routes a click on the tray item with identifier `id`.
pub fn menu_action(id: &str) -> (action: MenuAction)
    ensures
        action@ == spec_menu_command(id@),
{
    proof {
        reveal_strlit("toggle-recording");
        reveal_strlit("quit");
    }
    if str_eq(id, MENU_TOGGLE) {
        MenuAction::ToggleRecording
    } else if str_eq(id, MENU_QUIT) {
        MenuAction::Quit
    } else if let Some(path) = menu_model_path(id) {
        MenuAction::SelectModel(path)
    } else if let Some(name) = install_model_name(id) {
        MenuAction::ModelNotInstalled(name)
    } else {
        MenuAction::Ignore
    }
}

/// Clicking the item built for a model selects exactly that model, and clicking the
/// item built for a missing model reports exactly that model.
pub proof fn lemma_item_ids_route_back(path: Seq<char>, name: Seq<char>)
    ensures
        spec_menu_command(model_id_prefix() + path) == MenuCommand::SelectModel(path),
        spec_menu_command(install_id_prefix() + name) == MenuCommand::ModelNotInstalled(name),
{
    reveal_strlit("toggle-recording");
    reveal_strlit("quit");
    reveal_strlit("model-select:");
    reveal_strlit("model-install:");
    let select = model_id_prefix() + path;
    let install = install_id_prefix() + name;
    assert(select != toggle_id()) by {
        assert(select[0] != toggle_id()[0]);
    }
    assert(select != quit_id()) by {
        assert(select[0] != quit_id()[0]);
    }
    assert(select.subrange(0, 13) =~= model_id_prefix());
    assert(select.subrange(13, select.len() as int) =~= path);
    assert(install != toggle_id()) by {
        assert(install[0] != toggle_id()[0]);
    }
    assert(install != quit_id()) by {
        assert(install[0] != quit_id()[0]);
    }
    assert(!model_id_prefix().is_prefix_of(install)) by {
        assert(install.subrange(0, 13)[6] != model_id_prefix()[6]);
    }
    assert(install.subrange(0, 14) =~= install_id_prefix());
    assert(install.subrange(14, install.len() as int) =~= name);
}

/// The error reported for a click on a missing model.
pub open spec fn spec_not_installed_message(name: Seq<char>) -> Seq<char> {
    "Model "@ + name + " is not installed. Use `make install` for "@ + name
        + " or place it in ~/.whispering/models/"@
}

pub fn model_not_installed_message(name: &str) -> (message: String)
    ensures
        message@ == spec_not_installed_message(name@),
{
    let mut message = concat3("Model ", name, " is not installed. Use `make install` for ");
    message.append(name);
    message.append(" or place it in ~/.whispering/models/");
    message
}

/// A check item of the models submenu, as plain values.
pub struct MenuEntry {
    pub id: Seq<char>,
    pub label: Seq<char>,
    pub enabled: bool,
    pub checked: bool,
}

/// A check item of the models submenu.
pub struct MenuItemSpec {
    pub id: String,
    pub label: String,
    pub enabled: bool,
    pub checked: bool,
}

impl View for MenuItemSpec {
    type V = MenuEntry;

    open spec fn view(&self) -> MenuEntry {
        MenuEntry { id: self.id@, label: self.label@, enabled: self.enabled, checked: self.checked }
    }
}

/// The plain values of a list of items.
pub open spec fn menu_entries(items: Seq<MenuItemSpec>) -> Seq<MenuEntry> {
    items.map_values(|item: MenuItemSpec| item@)
}

/// The item of an installed model: checked when it is the selected model.
pub open spec fn spec_model_item(model: ModelEntry, selected_path: Seq<char>, enabled: bool) -> MenuEntry {
    MenuEntry {
        id: model_id_prefix() + model.path,
        label: spec_model_label(model.filename, model.multilingual),
        enabled,
        checked: path_equal(model.path, selected_path),
    }
}

/// The disabled placeholder shown when no model is installed.
pub open spec fn spec_no_models_item() -> MenuEntry {
    MenuEntry { id: "model-none"@, label: "No models installed"@, enabled: false, checked: false }
}

/// The item offering a default model that is not installed.
pub open spec fn spec_download_item(name: Seq<char>, path: Seq<char>, enabled: bool) -> MenuEntry {
    MenuEntry {
        id: install_id_prefix() + name,
        label: if spec_is_multilingual_model_path(path) {
            "Download "@ + name + " (multilingual)"@
        } else {
            "Download "@ + name + " (english only)"@
        },
        enabled,
        checked: false,
    }
}

/// The models submenu: one item per installed model (or the placeholder when there
/// is none), then an offer for each default model that is not installed,
/// multilingual first.
pub open spec fn spec_models_menu(
    environment: &RuntimeEnvironment,
    installed: Seq<ModelEntry>,
    selected_path: Seq<char>,
    enabled: bool,
    multilingual_installed: bool,
    english_installed: bool,
) -> Seq<MenuEntry> {
    installed.map_values(|m: ModelEntry| spec_model_item(m, selected_path, enabled)) + (if installed.len()
        == 0 {
        seq![spec_no_models_item()]
    } else {
        Seq::empty()
    }) + (if multilingual_installed {
        Seq::empty()
    } else {
        seq![
            spec_download_item(
                multilingual_model_name(),
                path_join(environment.model_dir@, multilingual_model_name()),
                enabled,
            ),
        ]
    }) + (if english_installed {
        Seq::empty()
    } else {
        seq![
            spec_download_item(
                english_model_name(),
                path_join(environment.model_dir@, english_model_name()),
                enabled,
            ),
        ]
    })
}

fn model_item(model: &InstalledModel, selected_path: &str, enabled: bool) -> (item: MenuItemSpec)
    ensures
        item@ == spec_model_item(model@, selected_path@, enabled),
{
    MenuItemSpec {
        id: model_item_id(model.path.as_str()),
        label: model.label(),
        enabled,
        checked: same_path(model.path.as_str(), selected_path),
    }
}

fn download_item(name: &str, path: &str, enabled: bool) -> (item: MenuItemSpec)
    ensures
        item@ == spec_download_item(name@, path@, enabled),
{
    let label = if is_multilingual_model_path(path) {
        concat3("Download ", name, " (multilingual)")
    } else {
        concat3("Download ", name, " (english only)")
    };
    MenuItemSpec { id: install_item_id(name), label, enabled, checked: false }
}

/// Lists the items of the models submenu. Whether each default model is installed
/// is read from disk by the caller.
pub fn models_menu_items(
    environment: &RuntimeEnvironment,
    installed: &Vec<InstalledModel>,
    selected_path: &str,
    enabled: bool,
    multilingual_installed: bool,
    english_installed: bool,
) -> (items: Vec<MenuItemSpec>)
    ensures
        menu_entries(items@) == spec_models_menu(
            environment,
            model_entries(installed@),
            selected_path@,
            enabled,
            multilingual_installed,
            english_installed,
        ),
{
    let mut items: Vec<MenuItemSpec> = Vec::new();
    let n: usize = installed.len();
    let ghost models = model_entries(installed@);
    let ghost model_items = models.map_values(
        |m: ModelEntry| spec_model_item(m, selected_path@, enabled),
    );
    let mut i: usize = 0;
    while i < n
        invariant
            n == installed.len(),
            models == model_entries(installed@),
            model_items == models.map_values(
                |m: ModelEntry| spec_model_item(m, selected_path@, enabled),
            ),
            i <= n,
            menu_entries(items@) =~= model_items.take(i as int),
        decreases n - i,
    {
        let item = model_item(&installed[i], selected_path, enabled);
        items.push(item);
        proof {
            assert(model_items.take(i as int + 1) =~= model_items.take(i as int).push(
                model_items[i as int],
            ));
        }
        i = i + 1;
    }
    let ghost listed = menu_entries(items@);
    proof {
        assert(listed =~= model_items);
    }
    if n == 0 {
        proof {
            reveal_strlit("model-none");
            reveal_strlit("No models installed");
        }
        items.push(
            MenuItemSpec {
                id: MENU_NO_MODELS.to_owned(),
                label: "No models installed".to_owned(),
                enabled: false,
                checked: false,
            },
        );
    }
    let ghost with_placeholder = menu_entries(items@);
    proof {
        if n == 0 {
            assert(with_placeholder =~= model_items + seq![spec_no_models_item()]);
        } else {
            assert(with_placeholder =~= model_items + Seq::<MenuEntry>::empty());
        }
    }
    if !multilingual_installed {
        let path = default_multilingual_model_path(environment);
        items.push(download_item(DEFAULT_MULTILINGUAL_MODEL_NAME, path.as_str(), enabled));
    }
    let ghost with_multilingual = menu_entries(items@);
    proof {
        if multilingual_installed {
            assert(with_multilingual =~= with_placeholder + Seq::<MenuEntry>::empty());
        } else {
            assert(with_multilingual =~= with_placeholder + seq![
                spec_download_item(
                    multilingual_model_name(),
                    path_join(environment.model_dir@, multilingual_model_name()),
                    enabled,
                ),
            ]);
        }
    }
    if !english_installed {
        let path = default_english_model_path(environment);
        items.push(download_item(DEFAULT_ENGLISH_MODEL_NAME, path.as_str(), enabled));
    }
    proof {
        let all = menu_entries(items@);
        if english_installed {
            assert(all =~= with_multilingual + Seq::<MenuEntry>::empty());
        } else {
            assert(all =~= with_multilingual + seq![
                spec_download_item(
                    english_model_name(),
                    path_join(environment.model_dir@, english_model_name()),
                    enabled,
                ),
            ]);
        }
    }
    items
}

/// The tray menu: the toggle item, the models submenu, and Quit.
pub struct TrayMenu {
    pub toggle_label: &'static str,
    pub toggle_enabled: bool,
    pub models_enabled: bool,
    pub model_items: Vec<MenuItemSpec>,
}

/// Lays out the tray menu for a phase: the toggle item's label and state follow the
/// phase, and models can be switched only when nothing is in progress.
pub fn tray_menu(
    environment: &RuntimeEnvironment,
    phase: RuntimePhase,
    installed: &Vec<InstalledModel>,
    selected_path: &str,
    multilingual_installed: bool,
    english_installed: bool,
) -> (menu: TrayMenu)
    ensures
        menu.toggle_label@ == phase.spec_menu_label(),
        menu.toggle_enabled == phase.spec_menu_enabled(),
        menu.models_enabled == phase.spec_models_enabled(),
        menu_entries(menu.model_items@) == spec_models_menu(
            environment,
            model_entries(installed@),
            selected_path@,
            phase.spec_models_enabled(),
            multilingual_installed,
            english_installed,
        ),
{
    let models_enabled = phase.models_enabled();
    TrayMenu {
        toggle_label: phase.menu_label(),
        toggle_enabled: phase.menu_enabled(),
        models_enabled,
        model_items: models_menu_items(
            environment,
            installed,
            selected_path,
            models_enabled,
            multilingual_installed,
            english_installed,
        ),
    }
}

/// Every item listed for an installed model selects that model when clicked, and is
/// checked exactly when its path is the selected one.
pub proof fn lemma_model_items_select_their_model(
    environment: &RuntimeEnvironment,
    installed: Seq<ModelEntry>,
    selected_path: Seq<char>,
    enabled: bool,
    multilingual_installed: bool,
    english_installed: bool,
    i: int,
)
    requires
        0 <= i < installed.len(),
    ensures
        ({
            let items = spec_models_menu(
                environment,
                installed,
                selected_path,
                enabled,
                multilingual_installed,
                english_installed,
            );
            &&& spec_menu_command(items[i].id) == MenuCommand::SelectModel(installed[i].path)
            &&& items[i].checked == path_equal(installed[i].path, selected_path)
        }),
{
    lemma_item_ids_route_back(installed[i].path, Seq::empty());
}

/// The placeholder is listed exactly when no model is installed.
pub proof fn lemma_placeholder_iff_no_models(
    environment: &RuntimeEnvironment,
    installed: Seq<ModelEntry>,
    selected_path: Seq<char>,
    enabled: bool,
    multilingual_installed: bool,
    english_installed: bool,
)
    ensures
        ({
            let items = spec_models_menu(
                environment,
                installed,
                selected_path,
                enabled,
                multilingual_installed,
                english_installed,
            );
            (installed.len() == 0) <==> (items.len() > installed.len()
                && items[installed.len() as int] == spec_no_models_item())
        }),
{
    reveal_strlit("model-none");
    reveal_strlit("model-install:");
    let items = spec_models_menu(
        environment,
        installed,
        selected_path,
        enabled,
        multilingual_installed,
        english_installed,
    );
    if installed.len() != 0 && items.len() > installed.len() {
        let k: int = installed.len() as int;
        assert(items[k].id[6] != spec_no_models_item().id[6]);
    }
}

/// Each default model is offered for download on its own account: the submenu lists
/// every installed model, then the "No models installed" placeholder if there is none,
/// then an offer of `ggml-medium.bin` exactly when it is not installed, then an offer
/// of `ggml-medium.en.bin` exactly when it is not installed (whatever the other
/// default's state). An offer is never checked, and is enabled like the model items.
pub proof fn lemma_missing_defaults_are_offered(
    environment: &RuntimeEnvironment,
    installed: Seq<ModelEntry>,
    selected_path: Seq<char>,
    enabled: bool,
    multilingual_installed: bool,
    english_installed: bool,
)
    ensures
        ({
            let items = spec_models_menu(
                environment,
                installed,
                selected_path,
                enabled,
                multilingual_installed,
                english_installed,
            );
            let placeholder: int = if installed.len() == 0 { 1 } else { 0 };
            let first_offer: int = installed.len() + placeholder;
            let english_path = path_join(environment.model_dir@, "ggml-medium.en.bin"@);
            let multilingual_path = path_join(environment.model_dir@, "ggml-medium.bin"@);
            &&& items.len() == first_offer + (if multilingual_installed { 0int } else { 1int }) + (
            if english_installed {
                0int
            } else {
                1int
            })
            &&& !english_installed ==> items.last() == MenuEntry {
                id: "model-install:ggml-medium.en.bin"@,
                label: if spec_is_multilingual_model_path(english_path) {
                    "Download ggml-medium.en.bin (multilingual)"@
                } else {
                    "Download ggml-medium.en.bin (english only)"@
                },
                enabled,
                checked: false,
            }
            &&& !multilingual_installed ==> items[first_offer] == MenuEntry {
                id: "model-install:ggml-medium.bin"@,
                label: if spec_is_multilingual_model_path(multilingual_path) {
                    "Download ggml-medium.bin (multilingual)"@
                } else {
                    "Download ggml-medium.bin (english only)"@
                },
                enabled,
                checked: false,
            }
            &&& english_installed ==> forall|k: int|
                0 <= k < items.len() ==> #[trigger] items[k].id != "model-install:ggml-medium.en.bin"@
            &&& multilingual_installed ==> forall|k: int|
                0 <= k < items.len() ==> #[trigger] items[k].id != "model-install:ggml-medium.bin"@
        }),
{
    reveal_strlit("model-install:");
    reveal_strlit("model-select:");
    reveal_strlit("model-none");
    reveal_strlit("ggml-medium.en.bin");
    reveal_strlit("ggml-medium.bin");
    reveal_strlit("model-install:ggml-medium.en.bin");
    reveal_strlit("model-install:ggml-medium.bin");
    reveal_strlit("Download ");
    reveal_strlit(" (multilingual)");
    reveal_strlit(" (english only)");
    reveal_strlit("Download ggml-medium.en.bin (multilingual)");
    reveal_strlit("Download ggml-medium.en.bin (english only)");
    reveal_strlit("Download ggml-medium.bin (multilingual)");
    reveal_strlit("Download ggml-medium.bin (english only)");
    let en_id = "model-install:ggml-medium.en.bin"@;
    let ml_id = "model-install:ggml-medium.bin"@;
    assert(install_id_prefix() + english_model_name() =~= en_id);
    assert(install_id_prefix() + multilingual_model_name() =~= ml_id);
    assert("Download "@ + english_model_name() + " (multilingual)"@
        =~= "Download ggml-medium.en.bin (multilingual)"@);
    assert("Download "@ + english_model_name() + " (english only)"@
        =~= "Download ggml-medium.en.bin (english only)"@);
    assert("Download "@ + multilingual_model_name() + " (multilingual)"@
        =~= "Download ggml-medium.bin (multilingual)"@);
    assert("Download "@ + multilingual_model_name() + " (english only)"@
        =~= "Download ggml-medium.bin (english only)"@);
    let items = spec_models_menu(
        environment,
        installed,
        selected_path,
        enabled,
        multilingual_installed,
        english_installed,
    );
    let n = installed.len() as int;
    assert forall|k: int| 0 <= k < items.len() implies #[trigger] items[k].id != en_id && (
    multilingual_installed ==> items[k].id != ml_id) || (!english_installed && k == items.len() - 1)
        || (!multilingual_installed && k == n + (if n == 0 { 1int } else { 0int })) by {
        if k < n {
            assert(items[k].id[6] != en_id[6]);
            assert(items[k].id[6] != ml_id[6]);
        } else if n == 0 && k == 0 {
            assert(items[k].id[6] != en_id[6]);
            assert(items[k].id[6] != ml_id[6]);
        } else if !multilingual_installed && k == n + (if n == 0 { 1int } else { 0int }) {
        } else {
            assert(!english_installed && k == items.len() - 1);
        }
    }
    if !multilingual_installed {
        assert(en_id.len() != ml_id.len());
    }
}

} // verus!
