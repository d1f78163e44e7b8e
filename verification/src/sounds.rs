//! The system sounds that mark the start and end of a recording.
use vstd::prelude::*;

verus! {

/// Which moment of a recording a sound marks.
#[derive(Clone, Copy, Debug, PartialEq, Eq, Structural)]
pub enum SoundCue {
    Start,
    Stop,
}

/// The macOS system sound file played for a cue.
pub open spec fn spec_sound_file(cue: SoundCue) -> Seq<char> {
    match cue {
        SoundCue::Start => "/System/Library/Components/CoreAudio.component/Contents/SharedSupport/SystemSounds/system/begin_record.caf"@,
        SoundCue::Stop => "/System/Library/Components/CoreAudio.component/Contents/SharedSupport/SystemSounds/system/end_record.caf"@,
    }
}

pub fn sound_file(cue: SoundCue) -> (path: &'static str)
    ensures
        path@ == spec_sound_file(cue),
        cue == SoundCue::Start ==> path@ == "/System/Library/Components/CoreAudio.component/Contents/SharedSupport/SystemSounds/system/begin_record.caf"@,
        cue == SoundCue::Stop ==> path@ == "/System/Library/Components/CoreAudio.component/Contents/SharedSupport/SystemSounds/system/end_record.caf"@,
{
    match cue {
        SoundCue::Start => "/System/Library/Components/CoreAudio.component/Contents/SharedSupport/SystemSounds/system/begin_record.caf",
        SoundCue::Stop => "/System/Library/Components/CoreAudio.component/Contents/SharedSupport/SystemSounds/system/end_record.caf",
    }
}

/// A recording starts with CoreAudio's `begin_record.caf` system sound and stops with
/// its `end_record.caf`, and the two cues play different files.
pub proof fn lemma_sound_files_are_the_record_sounds()
    ensures
        spec_sound_file(SoundCue::Start)
            == "/System/Library/Components/CoreAudio.component/Contents/SharedSupport/SystemSounds/system/begin_record.caf"@,
        spec_sound_file(SoundCue::Stop)
            == "/System/Library/Components/CoreAudio.component/Contents/SharedSupport/SystemSounds/system/end_record.caf"@,
        spec_sound_file(SoundCue::Start) != spec_sound_file(SoundCue::Stop),
{
    reveal_strlit("/System/Library/Components/CoreAudio.component/Contents/SharedSupport/SystemSounds/system/begin_record.caf");
    reveal_strlit("/System/Library/Components/CoreAudio.component/Contents/SharedSupport/SystemSounds/system/end_record.caf");
    assert(spec_sound_file(SoundCue::Start).len() != spec_sound_file(SoundCue::Stop).len());
}

} // verus!
