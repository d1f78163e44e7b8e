//! When the app asks the operating system for permissions.
use vstd::prelude::*;

use crate::settings::Config;

verus! {

/// The accessibility dialog (needed to type text into other apps) is shown whenever
/// access is not yet granted.
pub open spec fn spec_accessibility_prompt_needed(trusted: bool) -> bool {
    !trusted
}

/// Whether the settings record an accessibility dialog after a launch: they do once
/// one has ever been shown.
pub open spec fn spec_prompt_recorded(trusted: bool, already_requested: bool) -> bool {
    already_requested || spec_accessibility_prompt_needed(trusted)
}

/// Decides whether to show the accessibility dialog, given whether the app is
/// already trusted; when it is shown, the settings record that it was.
pub fn accessibility_prompt(config: &mut Config, trusted: bool) -> (prompt: bool)
    ensures
        prompt == spec_accessibility_prompt_needed(trusted),
        final(config).permission_prompts.accessibility_requested == spec_prompt_recorded(
            trusted,
            old(config).permission_prompts.accessibility_requested,
        ),
        final(config).model_path == old(config).model_path,
        final(config).input_device == old(config).input_device,
{
    if trusted {
        return false;
    }
    config.permission_prompts.accessibility_requested = true;
    true
}

/// An app without access is shown the dialog at every launch, whether or not an
/// earlier dialog was recorded, and the settings then record it; an app with access
/// sees no dialog and its record is left as it was.
pub proof fn lemma_untrusted_app_is_prompted(already_requested: bool)
    ensures
        spec_accessibility_prompt_needed(false),
        spec_prompt_recorded(false, already_requested),
        !spec_accessibility_prompt_needed(true),
        spec_prompt_recorded(true, already_requested) == already_requested,
{
}

/// What the operating system says about microphone access.
#[derive(Clone, Copy, Debug, PartialEq, Eq, Structural)]
pub enum MicrophoneAccess {
    NotDetermined,
    Restricted,
    Denied,
    Authorized,
}

/// The microphone prompt is shown only while the user has not decided yet.
pub fn microphone_prompt_needed(access: MicrophoneAccess) -> (prompt: bool)
    ensures
        prompt == (access == MicrophoneAccess::NotDetermined),
{
    match access {
        MicrophoneAccess::NotDetermined => true,
        _ => false,
    }
}

} // verus!
